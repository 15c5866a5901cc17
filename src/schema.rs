//! The forecast document: its types, and how a JSON value maps onto them.
//! Member names are those of the wire format; members that the types do not
//! name are ignored.
use vstd::prelude::*;
use crate::json::{Json, member, get_member, lemma_key_index};
use crate::number::{
    Decimal, is_integer_literal, integer_value, is_number_literal, parse_i64, integer_json,
};

verus! {

/// An integer member that fits in an `i64`.
pub open spec fn int_member(j: Json, key: Seq<char>) -> Option<int> {
    match member(j, key) {
        Some(Json::Number(t)) => if is_integer_literal(t@) && i64::MIN <= integer_value(t@)
            <= i64::MAX {
            Some(integer_value(t@))
        } else {
            None
        },
        _ => None,
    }
}

/// A string member.
pub open spec fn text_member(j: Json, key: Seq<char>) -> Option<Seq<char>> {
    match member(j, key) {
        Some(Json::Str(s)) => Some(s@),
        _ => None,
    }
}

/// A number member.
pub open spec fn decimal_member(j: Json, key: Seq<char>) -> Option<Seq<char>> {
    match member(j, key) {
        Some(Json::Number(t)) => if is_number_literal(t@) {
            Some(t@)
        } else {
            None
        },
        _ => None,
    }
}

/// A number member that may be left out or be null: `Some(None)` then.
pub open spec fn optional_decimal_member(j: Json, key: Seq<char>) -> Option<Option<Seq<char>>> {
    match member(j, key) {
        None => Some(None),
        Some(Json::Null) => Some(None),
        Some(Json::Number(t)) => if is_number_literal(t@) {
            Some(Some(t@))
        } else {
            None
        },
        _ => None,
    }
}

pub open spec fn optional_view(d: Option<Decimal>) -> Option<Seq<char>> {
    match d {
        Some(x) => Some(x@),
        None => None,
    }
}

fn int_field(j: &Json, key: &str) -> (r: Option<i64>)
    ensures
        r is Some <==> int_member(*j, key@) is Some,
        r matches Some(v) ==> int_member(*j, key@) == Some(v as int),
{
    match get_member(j, key) {
        Some(Json::Number(t)) => parse_i64(t.as_str()),
        _ => None,
    }
}

fn text_field(j: &Json, key: &str) -> (r: Option<String>)
    ensures
        r is Some <==> text_member(*j, key@) is Some,
        r matches Some(s) ==> text_member(*j, key@) == Some(s@),
{
    match get_member(j, key) {
        Some(Json::Str(s)) => Some(s.clone()),
        _ => None,
    }
}

fn decimal_field(j: &Json, key: &str) -> (r: Option<Decimal>)
    ensures
        r is Some <==> decimal_member(*j, key@) is Some,
        r matches Some(d) ==> decimal_member(*j, key@) == Some(d@),
{
    match get_member(j, key) {
        Some(Json::Number(t)) => Decimal::parse(t.as_str()),
        _ => None,
    }
}

fn optional_decimal_field(j: &Json, key: &str) -> (r: Option<Option<Decimal>>)
    ensures
        r is Some <==> optional_decimal_member(*j, key@) is Some,
        r matches Some(d) ==> optional_decimal_member(*j, key@) == Some(optional_view(d)),
{
    match get_member(j, key) {
        None => Some(None),
        Some(Json::Null) => Some(None),
        Some(Json::Number(t)) => match Decimal::parse(t.as_str()) {
            Some(d) => Some(Some(d)),
            None => None,
        },
        _ => None,
    }
}

/// One weather condition of the current conditions.
#[derive(Clone, Debug, PartialEq)]
pub struct CurrentWeather {
    pub id: i64,
    pub main: String,
    pub description: String,
    pub icon: String,
}

/// One weather condition of a day's forecast.
#[derive(Clone, Debug, PartialEq)]
pub struct DailyWeather {
    pub id: i64,
    pub main: String,
    pub description: String,
    pub icon: String,
}

/// Temperatures over a day.
#[derive(Clone, Debug, PartialEq)]
pub struct Temp {
    pub day: Decimal,
    pub min: Decimal,
    pub max: Decimal,
    pub night: Decimal,
    pub eve: Decimal,
    pub morn: Decimal,
}

/// Felt temperatures over a day.
#[derive(Clone, Debug, PartialEq)]
pub struct FeelsLike {
    pub day: Decimal,
    pub night: Decimal,
    pub morn: Decimal,
    pub eve: Decimal,
}

/// The conditions now.
#[derive(Clone, Debug, PartialEq)]
pub struct Current {
    pub dt: i64,
    pub sunrise: i64,
    pub sunset: i64,
    pub temp: Decimal,
    pub feels_like: Decimal,
    pub pressure: i64,
    pub humidity: i64,
    pub dew_point: Decimal,
    pub uvi: Decimal,
    pub clouds: i64,
    pub visibility: i64,
    pub wind_speed: Decimal,
    pub wind_deg: i64,
    pub weather: Vec<CurrentWeather>,
}

/// The forecast for one day.
#[derive(Clone, Debug, PartialEq)]
pub struct Daily {
    pub dt: i64,
    pub sunrise: i64,
    pub sunset: i64,
    pub moonrise: i64,
    pub moonset: i64,
    pub moon_phase: Decimal,
    pub summary: String,
    pub temp: Temp,
    pub feels_like: FeelsLike,
    pub pressure: i64,
    pub humidity: i64,
    pub dew_point: Decimal,
    pub wind_speed: Decimal,
    pub wind_deg: i64,
    pub wind_gust: Decimal,
    pub weather: Vec<DailyWeather>,
    pub clouds: i64,
    pub pop: Decimal,
    pub uvi: Decimal,
    pub rain: Option<Decimal>,
    pub snow: Option<Decimal>,
}

/// The whole document: a place, its conditions now and its days ahead.
#[derive(Clone, Debug, PartialEq)]
pub struct Root {
    pub lat: Decimal,
    pub lon: Decimal,
    pub timezone: String,
    pub timezone_offset: i64,
    pub current: Current,
    pub daily: Vec<Daily>,
}

pub open spec fn current_weather_from(j: Json, w: CurrentWeather) -> bool {
    &&& int_member(j, "id"@) == Some(w.id as int)
    &&& text_member(j, "main"@) == Some(w.main@)
    &&& text_member(j, "description"@) == Some(w.description@)
    &&& text_member(j, "icon"@) == Some(w.icon@)
}

pub open spec fn daily_weather_from(j: Json, w: DailyWeather) -> bool {
    &&& int_member(j, "id"@) == Some(w.id as int)
    &&& text_member(j, "main"@) == Some(w.main@)
    &&& text_member(j, "description"@) == Some(w.description@)
    &&& text_member(j, "icon"@) == Some(w.icon@)
}

pub open spec fn current_weather_list_from(o: Option<Json>, ws: Seq<CurrentWeather>) -> bool {
    match o {
        Some(Json::Array(items)) => items@.len() == ws.len() && forall|i: int|
            0 <= i < ws.len() ==> current_weather_from(#[trigger] items@[i], ws[i]),
        _ => false,
    }
}

pub open spec fn daily_weather_list_from(o: Option<Json>, ws: Seq<DailyWeather>) -> bool {
    match o {
        Some(Json::Array(items)) => items@.len() == ws.len() && forall|i: int|
            0 <= i < ws.len() ==> daily_weather_from(#[trigger] items@[i], ws[i]),
        _ => false,
    }
}

pub open spec fn temp_from(o: Option<Json>, t: Temp) -> bool {
    match o {
        Some(j) => {
            &&& decimal_member(j, "day"@) == Some(t.day@)
            &&& decimal_member(j, "min"@) == Some(t.min@)
            &&& decimal_member(j, "max"@) == Some(t.max@)
            &&& decimal_member(j, "night"@) == Some(t.night@)
            &&& decimal_member(j, "eve"@) == Some(t.eve@)
            &&& decimal_member(j, "morn"@) == Some(t.morn@)
        },
        None => false,
    }
}

pub open spec fn feels_like_from(o: Option<Json>, f: FeelsLike) -> bool {
    match o {
        Some(j) => {
            &&& decimal_member(j, "day"@) == Some(f.day@)
            &&& decimal_member(j, "night"@) == Some(f.night@)
            &&& decimal_member(j, "morn"@) == Some(f.morn@)
            &&& decimal_member(j, "eve"@) == Some(f.eve@)
        },
        None => false,
    }
}

pub open spec fn current_from(o: Option<Json>, c: Current) -> bool {
    match o {
        Some(j) => {
            &&& int_member(j, "dt"@) == Some(c.dt as int)
            &&& int_member(j, "sunrise"@) == Some(c.sunrise as int)
            &&& int_member(j, "sunset"@) == Some(c.sunset as int)
            &&& decimal_member(j, "temp"@) == Some(c.temp@)
            &&& decimal_member(j, "feels_like"@) == Some(c.feels_like@)
            &&& int_member(j, "pressure"@) == Some(c.pressure as int)
            &&& int_member(j, "humidity"@) == Some(c.humidity as int)
            &&& decimal_member(j, "dew_point"@) == Some(c.dew_point@)
            &&& decimal_member(j, "uvi"@) == Some(c.uvi@)
            &&& int_member(j, "clouds"@) == Some(c.clouds as int)
            &&& int_member(j, "visibility"@) == Some(c.visibility as int)
            &&& decimal_member(j, "wind_speed"@) == Some(c.wind_speed@)
            &&& int_member(j, "wind_deg"@) == Some(c.wind_deg as int)
            &&& current_weather_list_from(member(j, "weather"@), c.weather@)
        },
        None => false,
    }
}

pub open spec fn daily_from(j: Json, d: Daily) -> bool {
    &&& int_member(j, "dt"@) == Some(d.dt as int)
    &&& int_member(j, "sunrise"@) == Some(d.sunrise as int)
    &&& int_member(j, "sunset"@) == Some(d.sunset as int)
    &&& int_member(j, "moonrise"@) == Some(d.moonrise as int)
    &&& int_member(j, "moonset"@) == Some(d.moonset as int)
    &&& decimal_member(j, "moon_phase"@) == Some(d.moon_phase@)
    &&& text_member(j, "summary"@) == Some(d.summary@)
    &&& temp_from(member(j, "temp"@), d.temp)
    &&& feels_like_from(member(j, "feels_like"@), d.feels_like)
    &&& int_member(j, "pressure"@) == Some(d.pressure as int)
    &&& int_member(j, "humidity"@) == Some(d.humidity as int)
    &&& decimal_member(j, "dew_point"@) == Some(d.dew_point@)
    &&& decimal_member(j, "wind_speed"@) == Some(d.wind_speed@)
    &&& int_member(j, "wind_deg"@) == Some(d.wind_deg as int)
    &&& decimal_member(j, "wind_gust"@) == Some(d.wind_gust@)
    &&& daily_weather_list_from(member(j, "weather"@), d.weather@)
    &&& int_member(j, "clouds"@) == Some(d.clouds as int)
    &&& decimal_member(j, "pop"@) == Some(d.pop@)
    &&& decimal_member(j, "uvi"@) == Some(d.uvi@)
    &&& optional_decimal_member(j, "rain"@) == Some(optional_view(d.rain))
    &&& optional_decimal_member(j, "snow"@) == Some(optional_view(d.snow))
}

pub open spec fn daily_list_from(o: Option<Json>, ds: Seq<Daily>) -> bool {
    match o {
        Some(Json::Array(items)) => items@.len() == ds.len() && forall|i: int|
            0 <= i < ds.len() ==> daily_from(#[trigger] items@[i], ds[i]),
        _ => false,
    }
}

/// `j` is the JSON form of `r`: decoding `j` gives `r`.
pub open spec fn root_from(j: Json, r: Root) -> bool {
    &&& decimal_member(j, "lat"@) == Some(r.lat@)
    &&& decimal_member(j, "lon"@) == Some(r.lon@)
    &&& text_member(j, "timezone"@) == Some(r.timezone@)
    &&& int_member(j, "timezone_offset"@) == Some(r.timezone_offset as int)
    &&& current_from(member(j, "current"@), r.current)
    &&& daily_list_from(member(j, "daily"@), r.daily@)
}

pub open spec fn same_current_weather(a: CurrentWeather, b: CurrentWeather) -> bool {
    a.id == b.id && a.main@ == b.main@ && a.description@ == b.description@ && a.icon@ == b.icon@
}

pub open spec fn same_daily_weather(a: DailyWeather, b: DailyWeather) -> bool {
    a.id == b.id && a.main@ == b.main@ && a.description@ == b.description@ && a.icon@ == b.icon@
}

pub open spec fn same_temp(a: Temp, b: Temp) -> bool {
    a.day@ == b.day@ && a.min@ == b.min@ && a.max@ == b.max@ && a.night@ == b.night@ && a.eve@
        == b.eve@ && a.morn@ == b.morn@
}

pub open spec fn same_feels_like(a: FeelsLike, b: FeelsLike) -> bool {
    a.day@ == b.day@ && a.night@ == b.night@ && a.morn@ == b.morn@ && a.eve@ == b.eve@
}

/// Equal field by field: numbers as written, strings by their characters.
pub open spec fn same_current(a: Current, b: Current) -> bool {
    &&& a.dt == b.dt && a.sunrise == b.sunrise && a.sunset == b.sunset
    &&& a.temp@ == b.temp@ && a.feels_like@ == b.feels_like@
    &&& a.pressure == b.pressure && a.humidity == b.humidity
    &&& a.dew_point@ == b.dew_point@ && a.uvi@ == b.uvi@
    &&& a.clouds == b.clouds && a.visibility == b.visibility
    &&& a.wind_speed@ == b.wind_speed@ && a.wind_deg == b.wind_deg
    &&& a.weather@.len() == b.weather@.len()
    &&& forall|i: int|
        0 <= i < a.weather@.len() ==> same_current_weather(#[trigger] a.weather@[i], b.weather@[i])
}

pub open spec fn same_daily(a: Daily, b: Daily) -> bool {
    &&& a.dt == b.dt && a.sunrise == b.sunrise && a.sunset == b.sunset
    &&& a.moonrise == b.moonrise && a.moonset == b.moonset
    &&& a.moon_phase@ == b.moon_phase@ && a.summary@ == b.summary@
    &&& same_temp(a.temp, b.temp) && same_feels_like(a.feels_like, b.feels_like)
    &&& a.pressure == b.pressure && a.humidity == b.humidity
    &&& a.dew_point@ == b.dew_point@ && a.wind_speed@ == b.wind_speed@
    &&& a.wind_deg == b.wind_deg && a.wind_gust@ == b.wind_gust@
    &&& a.weather@.len() == b.weather@.len()
    &&& (forall|i: int|
        0 <= i < a.weather@.len() ==> same_daily_weather(#[trigger] a.weather@[i], b.weather@[i]))
    &&& a.clouds == b.clouds && a.pop@ == b.pop@ && a.uvi@ == b.uvi@
    &&& optional_view(a.rain) == optional_view(b.rain)
    &&& optional_view(a.snow) == optional_view(b.snow)
}

pub open spec fn same_root(a: Root, b: Root) -> bool {
    &&& a.lat@ == b.lat@ && a.lon@ == b.lon@
    &&& a.timezone@ == b.timezone@ && a.timezone_offset == b.timezone_offset
    &&& same_current(a.current, b.current)
    &&& a.daily@.len() == b.daily@.len()
    &&& forall|i: int| 0 <= i < a.daily@.len() ==> same_daily(#[trigger] a.daily@[i], b.daily@[i])
}

impl CurrentWeather {
    /// Reads a weather condition from its JSON object.
    pub fn from_json(j: &Json) -> (r: Option<CurrentWeather>)
        ensures
            r matches Some(w) ==> current_weather_from(*j, w),
            r is None ==> forall|w: CurrentWeather| !current_weather_from(*j, w),
    {
        Some(
            CurrentWeather {
                id: int_field(j, "id")?,
                main: text_field(j, "main")?,
                description: text_field(j, "description")?,
                icon: text_field(j, "icon")?,
            },
        )
    }
}

impl DailyWeather {
    /// Reads a weather condition from its JSON object.
    pub fn from_json(j: &Json) -> (r: Option<DailyWeather>)
        ensures
            r matches Some(w) ==> daily_weather_from(*j, w),
            r is None ==> forall|w: DailyWeather| !daily_weather_from(*j, w),
    {
        Some(
            DailyWeather {
                id: int_field(j, "id")?,
                main: text_field(j, "main")?,
                description: text_field(j, "description")?,
                icon: text_field(j, "icon")?,
            },
        )
    }
}

fn current_weather_list(j: &Json, key: &str) -> (r: Option<Vec<CurrentWeather>>)
    ensures
        r matches Some(ws) ==> current_weather_list_from(member(*j, key@), ws@),
        r is None ==> forall|ws: Seq<CurrentWeather>|
            !current_weather_list_from(member(*j, key@), ws),
{
    match get_member(j, key) {
        Some(Json::Array(items)) => {
            let mut out: Vec<CurrentWeather> = Vec::new();
            let mut i: usize = 0;
            while i < items.len()
                invariant
                    i <= items@.len(),
                    out@.len() == i,
                    member(*j, key@) == Some(Json::Array(*items)),
                    forall|x: int| 0 <= x < i ==> current_weather_from(#[trigger] items@[x], out@[x]),
                decreases items.len() - i,
            {
                match CurrentWeather::from_json(&items[i]) {
                    Some(w) => out.push(w),
                    None => {
                        assert(forall|ws: Seq<CurrentWeather>| #[trigger] ws.len() == items@.len() ==> !current_weather_from(items@[i as int], ws[i as int]));
                        return None;
                    },
                }
                i = i + 1;
            }
            Some(out)
        },
        _ => None,
    }
}

fn daily_weather_list(j: &Json, key: &str) -> (r: Option<Vec<DailyWeather>>)
    ensures
        r matches Some(ws) ==> daily_weather_list_from(member(*j, key@), ws@),
        r is None ==> forall|ws: Seq<DailyWeather>| !daily_weather_list_from(member(*j, key@), ws),
{
    match get_member(j, key) {
        Some(Json::Array(items)) => {
            let mut out: Vec<DailyWeather> = Vec::new();
            let mut i: usize = 0;
            while i < items.len()
                invariant
                    i <= items@.len(),
                    out@.len() == i,
                    member(*j, key@) == Some(Json::Array(*items)),
                    forall|x: int| 0 <= x < i ==> daily_weather_from(#[trigger] items@[x], out@[x]),
                decreases items.len() - i,
            {
                match DailyWeather::from_json(&items[i]) {
                    Some(w) => out.push(w),
                    None => {
                        assert(forall|ws: Seq<DailyWeather>| #[trigger] ws.len() == items@.len() ==> !daily_weather_from(items@[i as int], ws[i as int]));
                        return None;
                    },
                }
                i = i + 1;
            }
            Some(out)
        },
        _ => None,
    }
}

impl Temp {
    /// Reads the temperatures held in member `key` of `j`.
    pub fn from_member(j: &Json, key: &str) -> (r: Option<Temp>)
        ensures
            r matches Some(t) ==> temp_from(member(*j, key@), t),
            r is None ==> forall|t: Temp| !temp_from(member(*j, key@), t),
    {
        let o = get_member(j, key)?;
        Some(
            Temp {
                day: decimal_field(o, "day")?,
                min: decimal_field(o, "min")?,
                max: decimal_field(o, "max")?,
                night: decimal_field(o, "night")?,
                eve: decimal_field(o, "eve")?,
                morn: decimal_field(o, "morn")?,
            },
        )
    }
}

impl FeelsLike {
    /// Reads the felt temperatures held in member `key` of `j`.
    pub fn from_member(j: &Json, key: &str) -> (r: Option<FeelsLike>)
        ensures
            r matches Some(f) ==> feels_like_from(member(*j, key@), f),
            r is None ==> forall|f: FeelsLike| !feels_like_from(member(*j, key@), f),
    {
        let o = get_member(j, key)?;
        Some(
            FeelsLike {
                day: decimal_field(o, "day")?,
                night: decimal_field(o, "night")?,
                morn: decimal_field(o, "morn")?,
                eve: decimal_field(o, "eve")?,
            },
        )
    }
}

impl Current {
    /// Reads the current conditions held in member `key` of `j`.
    pub fn from_member(j: &Json, key: &str) -> (r: Option<Current>)
        ensures
            r matches Some(c) ==> current_from(member(*j, key@), c),
            r is None ==> forall|c: Current| !current_from(member(*j, key@), c),
    {
        let o = get_member(j, key)?;
        Some(
            Current {
                dt: int_field(o, "dt")?,
                sunrise: int_field(o, "sunrise")?,
                sunset: int_field(o, "sunset")?,
                temp: decimal_field(o, "temp")?,
                feels_like: decimal_field(o, "feels_like")?,
                pressure: int_field(o, "pressure")?,
                humidity: int_field(o, "humidity")?,
                dew_point: decimal_field(o, "dew_point")?,
                uvi: decimal_field(o, "uvi")?,
                clouds: int_field(o, "clouds")?,
                visibility: int_field(o, "visibility")?,
                wind_speed: decimal_field(o, "wind_speed")?,
                wind_deg: int_field(o, "wind_deg")?,
                weather: current_weather_list(o, "weather")?,
            },
        )
    }
}

impl Daily {
    /// Reads a day's forecast from its JSON object.
    pub fn from_json(j: &Json) -> (r: Option<Daily>)
        ensures
            r matches Some(d) ==> daily_from(*j, d),
            r is None ==> forall|d: Daily| !daily_from(*j, d),
    {
        Some(
            Daily {
                dt: int_field(j, "dt")?,
                sunrise: int_field(j, "sunrise")?,
                sunset: int_field(j, "sunset")?,
                moonrise: int_field(j, "moonrise")?,
                moonset: int_field(j, "moonset")?,
                moon_phase: decimal_field(j, "moon_phase")?,
                summary: text_field(j, "summary")?,
                temp: Temp::from_member(j, "temp")?,
                feels_like: FeelsLike::from_member(j, "feels_like")?,
                pressure: int_field(j, "pressure")?,
                humidity: int_field(j, "humidity")?,
                dew_point: decimal_field(j, "dew_point")?,
                wind_speed: decimal_field(j, "wind_speed")?,
                wind_deg: int_field(j, "wind_deg")?,
                wind_gust: decimal_field(j, "wind_gust")?,
                weather: daily_weather_list(j, "weather")?,
                clouds: int_field(j, "clouds")?,
                pop: decimal_field(j, "pop")?,
                uvi: decimal_field(j, "uvi")?,
                rain: optional_decimal_field(j, "rain")?,
                snow: optional_decimal_field(j, "snow")?,
            },
        )
    }
}

fn daily_list(j: &Json, key: &str) -> (r: Option<Vec<Daily>>)
    ensures
        r matches Some(ds) ==> daily_list_from(member(*j, key@), ds@),
        r is None ==> forall|ds: Seq<Daily>| !daily_list_from(member(*j, key@), ds),
{
    match get_member(j, key) {
        Some(Json::Array(items)) => {
            let mut out: Vec<Daily> = Vec::new();
            let mut i: usize = 0;
            while i < items.len()
                invariant
                    i <= items@.len(),
                    out@.len() == i,
                    member(*j, key@) == Some(Json::Array(*items)),
                    forall|x: int| 0 <= x < i ==> daily_from(#[trigger] items@[x], out@[x]),
                decreases items.len() - i,
            {
                match Daily::from_json(&items[i]) {
                    Some(d) => out.push(d),
                    None => {
                        assert(forall|ds: Seq<Daily>| #[trigger] ds.len() == items@.len() ==> !daily_from(items@[i as int], ds[i as int]));
                        return None;
                    },
                }
                i = i + 1;
            }
            Some(out)
        },
        _ => None,
    }
}

impl Root {
    /// Reads the document from its JSON value. It fails exactly when some
    /// member that the types name is missing or of the wrong kind.
    pub fn from_json(j: &Json) -> (r: Option<Root>)
        ensures
            r matches Some(x) ==> root_from(*j, x),
            r is None ==> forall|x: Root| !root_from(*j, x),
    {
        Some(
            Root {
                lat: decimal_field(j, "lat")?,
                lon: decimal_field(j, "lon")?,
                timezone: text_field(j, "timezone")?,
                timezone_offset: int_field(j, "timezone_offset")?,
                current: Current::from_member(j, "current")?,
                daily: daily_list(j, "daily")?,
            },
        )
    }
}


fn text_json(s: &String) -> (r: Json)
    ensures
        r is Str,
        r->Str_0@ == s@,
{
    Json::Str(s.clone())
}

fn optional_json(d: &Option<Decimal>) -> (r: Json)
    ensures
        d is None ==> r is Null,
        d matches Some(x) ==> r is Number && r->Number_0@ == x@ && is_number_literal(x@),
{
    match d {
        Some(x) => x.to_json(),
        None => Json::Null,
    }
}

fn current_weather_list_json(ws: &Vec<CurrentWeather>) -> (r: Json)
    ensures
        current_weather_list_from(Some(r), ws@),
{
    let mut out: Vec<Json> = Vec::new();
    let mut i: usize = 0;
    while i < ws.len()
        invariant
            i <= ws@.len(),
            out@.len() == i,
            forall|x: int| 0 <= x < i ==> current_weather_from(#[trigger] out@[x], ws@[x]),
        decreases ws.len() - i,
    {
        out.push(ws[i].to_json());
        i = i + 1;
    }
    Json::Array(out)
}

fn daily_weather_list_json(ws: &Vec<DailyWeather>) -> (r: Json)
    ensures
        daily_weather_list_from(Some(r), ws@),
{
    let mut out: Vec<Json> = Vec::new();
    let mut i: usize = 0;
    while i < ws.len()
        invariant
            i <= ws@.len(),
            out@.len() == i,
            forall|x: int| 0 <= x < i ==> daily_weather_from(#[trigger] out@[x], ws@[x]),
        decreases ws.len() - i,
    {
        out.push(ws[i].to_json());
        i = i + 1;
    }
    Json::Array(out)
}

fn daily_list_json(ds: &Vec<Daily>) -> (r: Json)
    ensures
        daily_list_from(Some(r), ds@),
{
    let mut out: Vec<Json> = Vec::new();
    let mut i: usize = 0;
    while i < ds.len()
        invariant
            i <= ds@.len(),
            out@.len() == i,
            forall|x: int| 0 <= x < i ==> daily_from(#[trigger] out@[x], ds@[x]),
        decreases ds.len() - i,
    {
        out.push(ds[i].to_json());
        i = i + 1;
    }
    Json::Array(out)
}

impl CurrentWeather {
    /// The JSON object that decodes to this value.
    pub fn to_json(&self) -> (r: Json)
        ensures
            current_weather_from(r, *self),
    {
        let mut ms: Vec<(String, Json)> = Vec::new();
        ms.push((String::from_str("id"), integer_json(self.id)));
        ms.push((String::from_str("main"), text_json(&self.main)));
        ms.push((String::from_str("description"), text_json(&self.description)));
        ms.push((String::from_str("icon"), text_json(&self.icon)));
        proof {
            reveal_strlit("id");
            assert("id"@.len() == 2);
            assert("id"@[0] == 'i');
            assert("id"@[1] == 'd');
            reveal_strlit("main");
            assert("main"@.len() == 4);
            assert("main"@[0] == 'm');
            assert("main"@[1] == 'a');
            assert("main"@[2] == 'i');
            reveal_strlit("description");
            assert("description"@.len() == 11);
            assert("description"@[0] == 'd');
            assert("description"@[1] == 'e');
            assert("description"@[2] == 's');
            reveal_strlit("icon");
            assert("icon"@.len() == 4);
            assert("icon"@[0] == 'i');
            assert("icon"@[1] == 'c');
            assert("icon"@[2] == 'o');
            lemma_key_index(ms@, "id"@, 0);
            lemma_key_index(ms@, "main"@, 1);
            lemma_key_index(ms@, "description"@, 2);
            lemma_key_index(ms@, "icon"@, 3);
        }
        Json::Object(ms)
    }
}

impl DailyWeather {
    /// The JSON object that decodes to this value.
    pub fn to_json(&self) -> (r: Json)
        ensures
            daily_weather_from(r, *self),
    {
        let mut ms: Vec<(String, Json)> = Vec::new();
        ms.push((String::from_str("id"), integer_json(self.id)));
        ms.push((String::from_str("main"), text_json(&self.main)));
        ms.push((String::from_str("description"), text_json(&self.description)));
        ms.push((String::from_str("icon"), text_json(&self.icon)));
        proof {
            reveal_strlit("id");
            assert("id"@.len() == 2);
            assert("id"@[0] == 'i');
            assert("id"@[1] == 'd');
            reveal_strlit("main");
            assert("main"@.len() == 4);
            assert("main"@[0] == 'm');
            assert("main"@[1] == 'a');
            assert("main"@[2] == 'i');
            reveal_strlit("description");
            assert("description"@.len() == 11);
            assert("description"@[0] == 'd');
            assert("description"@[1] == 'e');
            assert("description"@[2] == 's');
            reveal_strlit("icon");
            assert("icon"@.len() == 4);
            assert("icon"@[0] == 'i');
            assert("icon"@[1] == 'c');
            assert("icon"@[2] == 'o');
            lemma_key_index(ms@, "id"@, 0);
            lemma_key_index(ms@, "main"@, 1);
            lemma_key_index(ms@, "description"@, 2);
            lemma_key_index(ms@, "icon"@, 3);
        }
        Json::Object(ms)
    }
}

impl Temp {
    /// The JSON object that decodes to this value.
    pub fn to_json(&self) -> (r: Json)
        ensures
            temp_from(Some(r), *self),
    {
        let mut ms: Vec<(String, Json)> = Vec::new();
        ms.push((String::from_str("day"), self.day.to_json()));
        ms.push((String::from_str("min"), self.min.to_json()));
        ms.push((String::from_str("max"), self.max.to_json()));
        ms.push((String::from_str("night"), self.night.to_json()));
        ms.push((String::from_str("eve"), self.eve.to_json()));
        ms.push((String::from_str("morn"), self.morn.to_json()));
        proof {
            reveal_strlit("day");
            assert("day"@.len() == 3);
            assert("day"@[0] == 'd');
            assert("day"@[1] == 'a');
            assert("day"@[2] == 'y');
            reveal_strlit("min");
            assert("min"@.len() == 3);
            assert("min"@[0] == 'm');
            assert("min"@[1] == 'i');
            assert("min"@[2] == 'n');
            reveal_strlit("max");
            assert("max"@.len() == 3);
            assert("max"@[0] == 'm');
            assert("max"@[1] == 'a');
            assert("max"@[2] == 'x');
            reveal_strlit("night");
            assert("night"@.len() == 5);
            assert("night"@[0] == 'n');
            assert("night"@[1] == 'i');
            assert("night"@[2] == 'g');
            reveal_strlit("eve");
            assert("eve"@.len() == 3);
            assert("eve"@[0] == 'e');
            assert("eve"@[1] == 'v');
            assert("eve"@[2] == 'e');
            reveal_strlit("morn");
            assert("morn"@.len() == 4);
            assert("morn"@[0] == 'm');
            assert("morn"@[1] == 'o');
            assert("morn"@[2] == 'r');
            lemma_key_index(ms@, "day"@, 0);
            lemma_key_index(ms@, "min"@, 1);
            lemma_key_index(ms@, "max"@, 2);
            lemma_key_index(ms@, "night"@, 3);
            lemma_key_index(ms@, "eve"@, 4);
            lemma_key_index(ms@, "morn"@, 5);
        }
        Json::Object(ms)
    }
}

impl FeelsLike {
    /// The JSON object that decodes to this value.
    pub fn to_json(&self) -> (r: Json)
        ensures
            feels_like_from(Some(r), *self),
    {
        let mut ms: Vec<(String, Json)> = Vec::new();
        ms.push((String::from_str("day"), self.day.to_json()));
        ms.push((String::from_str("night"), self.night.to_json()));
        ms.push((String::from_str("morn"), self.morn.to_json()));
        ms.push((String::from_str("eve"), self.eve.to_json()));
        proof {
            reveal_strlit("day");
            assert("day"@.len() == 3);
            assert("day"@[0] == 'd');
            assert("day"@[1] == 'a');
            assert("day"@[2] == 'y');
            reveal_strlit("night");
            assert("night"@.len() == 5);
            assert("night"@[0] == 'n');
            assert("night"@[1] == 'i');
            assert("night"@[2] == 'g');
            reveal_strlit("morn");
            assert("morn"@.len() == 4);
            assert("morn"@[0] == 'm');
            assert("morn"@[1] == 'o');
            assert("morn"@[2] == 'r');
            reveal_strlit("eve");
            assert("eve"@.len() == 3);
            assert("eve"@[0] == 'e');
            assert("eve"@[1] == 'v');
            assert("eve"@[2] == 'e');
            lemma_key_index(ms@, "day"@, 0);
            lemma_key_index(ms@, "night"@, 1);
            lemma_key_index(ms@, "morn"@, 2);
            lemma_key_index(ms@, "eve"@, 3);
        }
        Json::Object(ms)
    }
}

impl Current {
    /// The JSON object that decodes to this value.
    pub fn to_json(&self) -> (r: Json)
        ensures
            current_from(Some(r), *self),
    {
        let mut ms: Vec<(String, Json)> = Vec::new();
        ms.push((String::from_str("dt"), integer_json(self.dt)));
        ms.push((String::from_str("sunrise"), integer_json(self.sunrise)));
        ms.push((String::from_str("sunset"), integer_json(self.sunset)));
        ms.push((String::from_str("temp"), self.temp.to_json()));
        ms.push((String::from_str("feels_like"), self.feels_like.to_json()));
        ms.push((String::from_str("pressure"), integer_json(self.pressure)));
        ms.push((String::from_str("humidity"), integer_json(self.humidity)));
        ms.push((String::from_str("dew_point"), self.dew_point.to_json()));
        ms.push((String::from_str("uvi"), self.uvi.to_json()));
        ms.push((String::from_str("clouds"), integer_json(self.clouds)));
        ms.push((String::from_str("visibility"), integer_json(self.visibility)));
        ms.push((String::from_str("wind_speed"), self.wind_speed.to_json()));
        ms.push((String::from_str("wind_deg"), integer_json(self.wind_deg)));
        ms.push((String::from_str("weather"), current_weather_list_json(&self.weather)));
        proof {
            reveal_strlit("dt");
            assert("dt"@.len() == 2);
            assert("dt"@[0] == 'd');
            assert("dt"@[1] == 't');
            reveal_strlit("sunrise");
            assert("sunrise"@.len() == 7);
            assert("sunrise"@[0] == 's');
            assert("sunrise"@[1] == 'u');
            assert("sunrise"@[2] == 'n');
            reveal_strlit("sunset");
            assert("sunset"@.len() == 6);
            assert("sunset"@[0] == 's');
            assert("sunset"@[1] == 'u');
            assert("sunset"@[2] == 'n');
            reveal_strlit("temp");
            assert("temp"@.len() == 4);
            assert("temp"@[0] == 't');
            assert("temp"@[1] == 'e');
            assert("temp"@[2] == 'm');
            reveal_strlit("feels_like");
            assert("feels_like"@.len() == 10);
            assert("feels_like"@[0] == 'f');
            assert("feels_like"@[1] == 'e');
            assert("feels_like"@[2] == 'e');
            reveal_strlit("pressure");
            assert("pressure"@.len() == 8);
            assert("pressure"@[0] == 'p');
            assert("pressure"@[1] == 'r');
            assert("pressure"@[2] == 'e');
            reveal_strlit("humidity");
            assert("humidity"@.len() == 8);
            assert("humidity"@[0] == 'h');
            assert("humidity"@[1] == 'u');
            assert("humidity"@[2] == 'm');
            reveal_strlit("dew_point");
            assert("dew_point"@.len() == 9);
            assert("dew_point"@[0] == 'd');
            assert("dew_point"@[1] == 'e');
            assert("dew_point"@[2] == 'w');
            reveal_strlit("uvi");
            assert("uvi"@.len() == 3);
            assert("uvi"@[0] == 'u');
            assert("uvi"@[1] == 'v');
            assert("uvi"@[2] == 'i');
            reveal_strlit("clouds");
            assert("clouds"@.len() == 6);
            assert("clouds"@[0] == 'c');
            assert("clouds"@[1] == 'l');
            assert("clouds"@[2] == 'o');
            reveal_strlit("visibility");
            assert("visibility"@.len() == 10);
            assert("visibility"@[0] == 'v');
            assert("visibility"@[1] == 'i');
            assert("visibility"@[2] == 's');
            reveal_strlit("wind_speed");
            assert("wind_speed"@.len() == 10);
            assert("wind_speed"@[0] == 'w');
            assert("wind_speed"@[1] == 'i');
            assert("wind_speed"@[2] == 'n');
            reveal_strlit("wind_deg");
            assert("wind_deg"@.len() == 8);
            assert("wind_deg"@[0] == 'w');
            assert("wind_deg"@[1] == 'i');
            assert("wind_deg"@[2] == 'n');
            reveal_strlit("weather");
            assert("weather"@.len() == 7);
            assert("weather"@[0] == 'w');
            assert("weather"@[1] == 'e');
            assert("weather"@[2] == 'a');
            lemma_key_index(ms@, "dt"@, 0);
            lemma_key_index(ms@, "sunrise"@, 1);
            lemma_key_index(ms@, "sunset"@, 2);
            lemma_key_index(ms@, "temp"@, 3);
            lemma_key_index(ms@, "feels_like"@, 4);
            lemma_key_index(ms@, "pressure"@, 5);
            lemma_key_index(ms@, "humidity"@, 6);
            lemma_key_index(ms@, "dew_point"@, 7);
            lemma_key_index(ms@, "uvi"@, 8);
            lemma_key_index(ms@, "clouds"@, 9);
            lemma_key_index(ms@, "visibility"@, 10);
            lemma_key_index(ms@, "wind_speed"@, 11);
            lemma_key_index(ms@, "wind_deg"@, 12);
            lemma_key_index(ms@, "weather"@, 13);
        }
        Json::Object(ms)
    }
}

impl Daily {
    /// The JSON object that decodes to this value.
    pub fn to_json(&self) -> (r: Json)
        ensures
            daily_from(r, *self),
    {
        let mut ms: Vec<(String, Json)> = Vec::new();
        ms.push((String::from_str("dt"), integer_json(self.dt)));
        ms.push((String::from_str("sunrise"), integer_json(self.sunrise)));
        ms.push((String::from_str("sunset"), integer_json(self.sunset)));
        ms.push((String::from_str("moonrise"), integer_json(self.moonrise)));
        ms.push((String::from_str("moonset"), integer_json(self.moonset)));
        ms.push((String::from_str("moon_phase"), self.moon_phase.to_json()));
        ms.push((String::from_str("summary"), text_json(&self.summary)));
        ms.push((String::from_str("temp"), self.temp.to_json()));
        ms.push((String::from_str("feels_like"), self.feels_like.to_json()));
        ms.push((String::from_str("pressure"), integer_json(self.pressure)));
        ms.push((String::from_str("humidity"), integer_json(self.humidity)));
        ms.push((String::from_str("dew_point"), self.dew_point.to_json()));
        ms.push((String::from_str("wind_speed"), self.wind_speed.to_json()));
        ms.push((String::from_str("wind_deg"), integer_json(self.wind_deg)));
        ms.push((String::from_str("wind_gust"), self.wind_gust.to_json()));
        ms.push((String::from_str("weather"), daily_weather_list_json(&self.weather)));
        ms.push((String::from_str("clouds"), integer_json(self.clouds)));
        ms.push((String::from_str("pop"), self.pop.to_json()));
        ms.push((String::from_str("uvi"), self.uvi.to_json()));
        ms.push((String::from_str("rain"), optional_json(&self.rain)));
        ms.push((String::from_str("snow"), optional_json(&self.snow)));
        proof {
            reveal_strlit("dt");
            assert("dt"@.len() == 2);
            assert("dt"@[0] == 'd');
            assert("dt"@[1] == 't');
            reveal_strlit("sunrise");
            assert("sunrise"@.len() == 7);
            assert("sunrise"@[0] == 's');
            assert("sunrise"@[1] == 'u');
            assert("sunrise"@[2] == 'n');
            reveal_strlit("sunset");
            assert("sunset"@.len() == 6);
            assert("sunset"@[0] == 's');
            assert("sunset"@[1] == 'u');
            assert("sunset"@[2] == 'n');
            reveal_strlit("moonrise");
            assert("moonrise"@.len() == 8);
            assert("moonrise"@[0] == 'm');
            assert("moonrise"@[1] == 'o');
            assert("moonrise"@[2] == 'o');
            reveal_strlit("moonset");
            assert("moonset"@.len() == 7);
            assert("moonset"@[0] == 'm');
            assert("moonset"@[1] == 'o');
            assert("moonset"@[2] == 'o');
            reveal_strlit("moon_phase");
            assert("moon_phase"@.len() == 10);
            assert("moon_phase"@[0] == 'm');
            assert("moon_phase"@[1] == 'o');
            assert("moon_phase"@[2] == 'o');
            reveal_strlit("summary");
            assert("summary"@.len() == 7);
            assert("summary"@[0] == 's');
            assert("summary"@[1] == 'u');
            assert("summary"@[2] == 'm');
            reveal_strlit("temp");
            assert("temp"@.len() == 4);
            assert("temp"@[0] == 't');
            assert("temp"@[1] == 'e');
            assert("temp"@[2] == 'm');
            reveal_strlit("feels_like");
            assert("feels_like"@.len() == 10);
            assert("feels_like"@[0] == 'f');
            assert("feels_like"@[1] == 'e');
            assert("feels_like"@[2] == 'e');
            reveal_strlit("pressure");
            assert("pressure"@.len() == 8);
            assert("pressure"@[0] == 'p');
            assert("pressure"@[1] == 'r');
            assert("pressure"@[2] == 'e');
            reveal_strlit("humidity");
            assert("humidity"@.len() == 8);
            assert("humidity"@[0] == 'h');
            assert("humidity"@[1] == 'u');
            assert("humidity"@[2] == 'm');
            reveal_strlit("dew_point");
            assert("dew_point"@.len() == 9);
            assert("dew_point"@[0] == 'd');
            assert("dew_point"@[1] == 'e');
            assert("dew_point"@[2] == 'w');
            reveal_strlit("wind_speed");
            assert("wind_speed"@.len() == 10);
            assert("wind_speed"@[0] == 'w');
            assert("wind_speed"@[1] == 'i');
            assert("wind_speed"@[2] == 'n');
            reveal_strlit("wind_deg");
            assert("wind_deg"@.len() == 8);
            assert("wind_deg"@[0] == 'w');
            assert("wind_deg"@[1] == 'i');
            assert("wind_deg"@[2] == 'n');
            reveal_strlit("wind_gust");
            assert("wind_gust"@.len() == 9);
            assert("wind_gust"@[0] == 'w');
            assert("wind_gust"@[1] == 'i');
            assert("wind_gust"@[2] == 'n');
            reveal_strlit("weather");
            assert("weather"@.len() == 7);
            assert("weather"@[0] == 'w');
            assert("weather"@[1] == 'e');
            assert("weather"@[2] == 'a');
            reveal_strlit("clouds");
            assert("clouds"@.len() == 6);
            assert("clouds"@[0] == 'c');
            assert("clouds"@[1] == 'l');
            assert("clouds"@[2] == 'o');
            reveal_strlit("pop");
            assert("pop"@.len() == 3);
            assert("pop"@[0] == 'p');
            assert("pop"@[1] == 'o');
            assert("pop"@[2] == 'p');
            reveal_strlit("uvi");
            assert("uvi"@.len() == 3);
            assert("uvi"@[0] == 'u');
            assert("uvi"@[1] == 'v');
            assert("uvi"@[2] == 'i');
            reveal_strlit("rain");
            assert("rain"@.len() == 4);
            assert("rain"@[0] == 'r');
            assert("rain"@[1] == 'a');
            assert("rain"@[2] == 'i');
            reveal_strlit("snow");
            assert("snow"@.len() == 4);
            assert("snow"@[0] == 's');
            assert("snow"@[1] == 'n');
            assert("snow"@[2] == 'o');
            lemma_key_index(ms@, "dt"@, 0);
            lemma_key_index(ms@, "sunrise"@, 1);
            lemma_key_index(ms@, "sunset"@, 2);
            lemma_key_index(ms@, "moonrise"@, 3);
            lemma_key_index(ms@, "moonset"@, 4);
            lemma_key_index(ms@, "moon_phase"@, 5);
            lemma_key_index(ms@, "summary"@, 6);
            lemma_key_index(ms@, "temp"@, 7);
            lemma_key_index(ms@, "feels_like"@, 8);
            lemma_key_index(ms@, "pressure"@, 9);
            lemma_key_index(ms@, "humidity"@, 10);
            lemma_key_index(ms@, "dew_point"@, 11);
            lemma_key_index(ms@, "wind_speed"@, 12);
            lemma_key_index(ms@, "wind_deg"@, 13);
            lemma_key_index(ms@, "wind_gust"@, 14);
            lemma_key_index(ms@, "weather"@, 15);
            lemma_key_index(ms@, "clouds"@, 16);
            lemma_key_index(ms@, "pop"@, 17);
            lemma_key_index(ms@, "uvi"@, 18);
            lemma_key_index(ms@, "rain"@, 19);
            lemma_key_index(ms@, "snow"@, 20);
        }
        Json::Object(ms)
    }
}

impl Root {
    /// The JSON object that decodes to this value.
    #[verifier::rlimit(50)]
    pub fn to_json(&self) -> (r: Json)
        ensures
            root_from(r, *self),
    {
        let mut ms: Vec<(String, Json)> = Vec::new();
        ms.push((String::from_str("lat"), self.lat.to_json()));
        ms.push((String::from_str("lon"), self.lon.to_json()));
        ms.push((String::from_str("timezone"), text_json(&self.timezone)));
        ms.push((String::from_str("timezone_offset"), integer_json(self.timezone_offset)));
        ms.push((String::from_str("current"), self.current.to_json()));
        ms.push((String::from_str("daily"), daily_list_json(&self.daily)));
        proof {
            reveal_strlit("lat");
            assert("lat"@.len() == 3);
            assert("lat"@[0] == 'l');
            assert("lat"@[1] == 'a');
            assert("lat"@[2] == 't');
            reveal_strlit("lon");
            assert("lon"@.len() == 3);
            assert("lon"@[0] == 'l');
            assert("lon"@[1] == 'o');
            assert("lon"@[2] == 'n');
            reveal_strlit("timezone");
            assert("timezone"@.len() == 8);
            assert("timezone"@[0] == 't');
            assert("timezone"@[1] == 'i');
            assert("timezone"@[2] == 'm');
            reveal_strlit("timezone_offset");
            assert("timezone_offset"@.len() == 15);
            assert("timezone_offset"@[0] == 't');
            assert("timezone_offset"@[1] == 'i');
            assert("timezone_offset"@[2] == 'm');
            reveal_strlit("current");
            assert("current"@.len() == 7);
            assert("current"@[0] == 'c');
            assert("current"@[1] == 'u');
            assert("current"@[2] == 'r');
            reveal_strlit("daily");
            assert("daily"@.len() == 5);
            assert("daily"@[0] == 'd');
            assert("daily"@[1] == 'a');
            assert("daily"@[2] == 'i');
            lemma_key_index(ms@, "lat"@, 0);
            lemma_key_index(ms@, "lon"@, 1);
            lemma_key_index(ms@, "timezone"@, 2);
            lemma_key_index(ms@, "timezone_offset"@, 3);
            lemma_key_index(ms@, "current"@, 4);
            lemma_key_index(ms@, "daily"@, 5);
        }
        Json::Object(ms)
    }
}

} // verus!
