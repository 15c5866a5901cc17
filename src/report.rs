//! The text report of a forecast, and the steps from a response to it.
use vstd::prelude::*;
use crate::json::{Json, accepts_json, json_of, parse_json};
use crate::number::{Decimal, display_number, integer_text, integer_string};
use crate::schema::{Current, Daily, Root, root_from, same_root};
use crate::laws::lemma_round_trip;

verus! {

/// `prefix`, the value, then `suffix`.
fn line(prefix: &str, value: &String, suffix: &str) -> (r: String)
    ensures
        r@ == prefix@ + value@ + suffix@,
{
    String::from_str(prefix).concat(value.as_str()).concat(suffix)
}

pub open spec fn overview_text(c: Current) -> Seq<char> {
    if c.weather@.len() > 0 {
        "\nCurrent Overview: "@ + c.weather@[0].main@ + " - "@ + c.weather@[0].description@
            + "\n\n"@
    } else {
        "  No weather information available.\n"@
    }
}

/// The report of the conditions now.
pub open spec fn current_report(c: Current) -> Seq<char> {
    "Current Data:\n\n"@ + ("Temperature: "@ + display_number(c.temp@) + "°F   Feels Like: "@
        + display_number(c.feels_like@) + "°F\n"@) + ("Cloudiness: "@ + integer_text(
        c.clouds as int,
    ) + "%\n"@) + ("Wind Speed: "@ + display_number(c.wind_speed@) + " mph\n"@)
        + overview_text(c)
}

pub open spec fn rain_text(rain: Option<Decimal>) -> Seq<char> {
    match rain {
        Some(x) => "Rain amount today: "@ + display_number(x@) + " mm\n"@,
        None => Seq::empty(),
    }
}

pub open spec fn snow_text(snow: Option<Decimal>) -> Seq<char> {
    match snow {
        Some(x) => "Snow amount today: "@ + display_number(x@) + " mm\n"@,
        None => Seq::empty(),
    }
}

/// The lines of a day's report that follow the precipitation amounts.
pub open spec fn daily_conditions_text(d: Daily) -> Seq<char> {
    ("Probability of Precipitation: "@ + display_number(d.pop@) + "%\n"@) + ("UV Index: "@
        + display_number(d.uvi@) + "\n"@) + ("Wind Speed: "@ + display_number(d.wind_speed@)
        + " mph\n"@) + ("Cloudiness: "@ + integer_text(d.clouds as int) + "%\n"@)
}

/// The temperature part of a day's report.
pub open spec fn daily_temperature_text(d: Daily) -> Seq<char> {
    "\nTemperature Data:\n\n"@ + ("Min Temperature: "@ + display_number(d.temp.min@) + "°F\n"@)
        + ("Max Temperature: "@ + display_number(d.temp.max@) + "°F\n"@) + (
    "Morning Temperature: "@ + display_number(d.temp.morn@) + "°F   Feels Like: "@
        + display_number(d.feels_like.morn@) + "°F\n"@) + ("Day Temperature: "@
        + display_number(d.temp.day@) + "°F   Feels Like: "@ + display_number(
        d.feels_like.day@,
    ) + "°F\n"@) + ("Evening Temperature: "@ + display_number(d.temp.eve@)
        + "°F   Feels Like: "@ + display_number(d.feels_like.eve@) + "°F\n"@)
}

/// The report of a day's forecast.
pub open spec fn daily_report(d: Daily) -> Seq<char> {
    "Today's Data:\n\n"@ + ("Summary: "@ + d.summary@ + "\n\n"@) + rain_text(d.rain) + snow_text(
        d.snow,
    ) + daily_conditions_text(d) + daily_temperature_text(d)
}

/// Renders the conditions now.
pub fn render_current(c: &Current) -> (r: String)
    ensures
        r@ == current_report(*c),
{
    let mut r = String::from_str("Current Data:\n\n");
    let temp = c.temp.to_text();
    let feels = c.feels_like.to_text();
    let t = line("Temperature: ", &temp, "°F   Feels Like: ").concat(feels.as_str()).concat(
        "°F\n",
    );
    r.append(t.as_str());
    r.append(line("Cloudiness: ", &integer_string(c.clouds), "%\n").as_str());
    r.append(line("Wind Speed: ", &c.wind_speed.to_text(), " mph\n").as_str());
    if c.weather.len() > 0 {
        let w = &c.weather[0];
        let o = line("\nCurrent Overview: ", &w.main, " - ").concat(w.description.as_str()).concat(
            "\n\n",
        );
        r.append(o.as_str());
    } else {
        r.append("  No weather information available.\n");
    }
    r
}

fn amount_line(label: &str, amount: &Option<Decimal>) -> (r: String)
    ensures
        amount matches Some(x) ==> r@ == label@ + display_number(x@) + " mm\n"@,
        amount is None ==> r@ == Seq::<char>::empty(),
{
    match amount {
        Some(x) => line(label, &x.to_text(), " mm\n"),
        None => String::new(),
    }
}

fn felt_line(label: &str, temp: &Decimal, felt: &Decimal) -> (r: String)
    ensures
        r@ == label@ + display_number(temp@) + "°F   Feels Like: "@ + display_number(felt@)
            + "°F\n"@,
{
    line(label, &temp.to_text(), "°F   Feels Like: ").concat(felt.to_text().as_str()).concat(
        "°F\n",
    )
}

/// Renders a day's forecast.
pub fn render_daily(d: &Daily) -> (r: String)
    ensures
        r@ == daily_report(*d),
{
    let mut r = String::from_str("Today's Data:\n\n");
    r.append(line("Summary: ", &d.summary, "\n\n").as_str());
    r.append(amount_line("Rain amount today: ", &d.rain).as_str());
    r.append(amount_line("Snow amount today: ", &d.snow).as_str());
    let ghost head = r@;
    r.append(line("Probability of Precipitation: ", &d.pop.to_text(), "%\n").as_str());
    r.append(line("UV Index: ", &d.uvi.to_text(), "\n").as_str());
    r.append(line("Wind Speed: ", &d.wind_speed.to_text(), " mph\n").as_str());
    r.append(line("Cloudiness: ", &integer_string(d.clouds), "%\n").as_str());
    assert(r@ =~= head + daily_conditions_text(*d));
    let ghost middle = r@;
    r.append("\nTemperature Data:\n\n");
    r.append(line("Min Temperature: ", &d.temp.min.to_text(), "°F\n").as_str());
    r.append(line("Max Temperature: ", &d.temp.max.to_text(), "°F\n").as_str());
    r.append(felt_line("Morning Temperature: ", &d.temp.morn, &d.feels_like.morn).as_str());
    r.append(felt_line("Day Temperature: ", &d.temp.day, &d.feels_like.day).as_str());
    r.append(felt_line("Evening Temperature: ", &d.temp.eve, &d.feels_like.eve).as_str());
    assert(r@ =~= middle + daily_temperature_text(*d));
    assert(r@ =~= daily_report(*d));
    r
}

/// Why a report could not be made.
#[derive(Clone, Debug, PartialEq)]
pub enum WeatherError {
    /// The request could not be made, or its answer was lost.
    Network(String),
    /// The server answered with a status outside 200 to 299.
    HttpStatus(u16),
    /// The body is not JSON, or lacks a member of the document's shape.
    Decode(String),
    /// The document holds no day's forecast.
    EmptyForecast,
}

pub open spec fn error_text(e: WeatherError) -> Seq<char> {
    match e {
        WeatherError::Network(m) => "network error: "@ + m@,
        WeatherError::HttpStatus(c) => "unexpected HTTP status "@ + integer_text(c as int),
        WeatherError::Decode(m) => "decode error: "@ + m@,
        WeatherError::EmptyForecast => "the forecast holds no days"@,
    }
}

impl WeatherError {
    /// A line of text that says what went wrong.
    pub fn message(&self) -> (r: String)
        ensures
            r@ == error_text(*self),
    {
        match self {
            WeatherError::Network(m) => String::from_str("network error: ").concat(m.as_str()),
            WeatherError::HttpStatus(c) => String::from_str("unexpected HTTP status ").concat(
                integer_string(*c as i64).as_str(),
            ),
            WeatherError::Decode(m) => String::from_str("decode error: ").concat(m.as_str()),
            WeatherError::EmptyForecast => String::from_str("the forecast holds no days"),
        }
    }
}

/// The address of the forecast for a place, in imperial units, without the
/// hourly, minutely and alert parts.
pub open spec fn request_text(lat: Seq<char>, lon: Seq<char>, api_key: Seq<char>) -> Seq<char> {
    "https://api.openweathermap.org/data/3.0/onecall?lat="@ + lat + "&lon="@ + lon
        + "&exclude=hourly,minutely,alerts&appid="@ + api_key + "&units=imperial"@
}

/// Builds the request address; the coordinates appear as written.
pub fn request_url(lat: &Decimal, lon: &Decimal, api_key: &str) -> (r: String)
    ensures
        r@ == request_text(lat@, lon@, api_key@),
{
    let a = line("https://api.openweathermap.org/data/3.0/onecall?lat=", &String::from_str(lat.as_str()), "&lon=");
    let b = a.concat(lon.as_str()).concat("&exclude=hourly,minutely,alerts&appid=");
    let r = b.concat(api_key).concat("&units=imperial");
    assert(r@ =~= request_text(lat@, lon@, api_key@));
    r
}

/// Accepts a response status in 200 to 299.
pub fn check_status(status: u16) -> (r: Result<(), WeatherError>)
    ensures
        200 <= status <= 299 <==> r is Ok,
        !(200 <= status <= 299) ==> r == Err::<(), WeatherError>(WeatherError::HttpStatus(status)),
{
    if 200 <= status && status <= 299 {
        Ok(())
    } else {
        Err(WeatherError::HttpStatus(status))
    }
}

/// Reads the document from a JSON value.
pub fn decode_json(j: &Json) -> (r: Result<Root, WeatherError>)
    ensures
        r matches Ok(x) ==> root_from(*j, x),
        r is Err <==> forall|x: Root| !root_from(*j, x),
        r matches Err(e) ==> e is Decode,
{
    match Root::from_json(j) {
        Some(x) => Ok(x),
        None => Err(WeatherError::Decode(String::from_str("a member of the forecast is missing or mistyped"))),
    }
}

/// Reads the document from JSON text: it succeeds exactly when the text is
/// JSON whose value has the document's shape, and gives what that value holds.
pub fn decode(text: &str) -> (r: Result<Root, WeatherError>)
    ensures
        r is Ok <==> accepts_json(text@) && exists|x: Root| root_from(json_of(text@), x),
        r matches Ok(x) ==> root_from(json_of(text@), x),
        r matches Err(e) ==> e is Decode,
{
    match parse_json(text) {
        Some(j) => decode_json(&j),
        None => Err(WeatherError::Decode(String::from_str("the response is not JSON"))),
    }
}

/// The report of the conditions now and of the first day ahead; it fails
/// exactly when the document holds no day.
pub fn render_report(root: &Root) -> (r: Result<String, WeatherError>)
    ensures
        root.daily@.len() == 0 <==> r == Err::<String, WeatherError>(WeatherError::EmptyForecast),
        root.daily@.len() > 0 ==> r is Ok,
        r matches Ok(s) ==> s@ == current_report(root.current) + daily_report(root.daily@[0]),
{
    if root.daily.len() == 0 {
        return Err(WeatherError::EmptyForecast);
    }
    let c = render_current(&root.current);
    let d = render_daily(&root.daily[0]);
    Ok(c.concat(d.as_str()))
}

/// Documents equal field by field have the same report.
proof fn lemma_same_report(a: Root, b: Root)
    requires
        same_root(a, b),
    ensures
        a.daily@.len() == b.daily@.len(),
        current_report(a.current) == current_report(b.current),
        a.daily@.len() > 0 ==> daily_report(a.daily@[0]) == daily_report(b.daily@[0]),
{
    if a.current.weather@.len() > 0 {
        assert(crate::schema::same_current_weather(a.current.weather@[0], b.current.weather@[0]));
    }
    if a.daily@.len() > 0 {
        assert(crate::schema::same_daily(a.daily@[0], b.daily@[0]));
    }
}

/// From a response's status and body to the report: the status is checked,
/// then the body decoded, then the report rendered.
pub fn report_from_response(status: u16, body: &str) -> (r: Result<String, WeatherError>)
    ensures
        !(200 <= status <= 299) ==> r == Err::<String, WeatherError>(WeatherError::HttpStatus(status)),
        200 <= status <= 299 && !accepts_json(body@) ==> r matches Err(WeatherError::Decode(_)),
        200 <= status <= 299 && accepts_json(body@) && (forall|x: Root| !root_from(json_of(body@), x))
            ==> r matches Err(WeatherError::Decode(_)),
        200 <= status <= 299 && accepts_json(body@) ==> forall|x: Root| #[trigger]
            root_from(json_of(body@), x) ==> {
                &&& x.daily@.len() == 0 ==> r == Err::<String, WeatherError>(WeatherError::EmptyForecast)
                &&& x.daily@.len() > 0 ==> r is Ok
                &&& r matches Ok(s) ==> s@ == current_report(x.current) + daily_report(x.daily@[0])
            },
{
    if let Err(e) = check_status(status) {
        return Err(e);
    }
    match decode(body) {
        Ok(root) => {
            let r = render_report(&root);
            proof {
                assert forall|x: Root| #[trigger] root_from(json_of(body@), x) implies {
                    &&& x.daily@.len() == 0 ==> r == Err::<String, WeatherError>(WeatherError::EmptyForecast)
                    &&& x.daily@.len() > 0 ==> r is Ok
                    &&& r matches Ok(s) ==> s@ == current_report(x.current) + daily_report(x.daily@[0])
                } by {
                    lemma_round_trip(json_of(body@), root, x);
                    lemma_same_report(x, root);
                }
            }
            r
        },
        Err(e) => Err(e),
    }
}

} // verus!
