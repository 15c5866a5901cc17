use weather_report::json::{get_member, parse_json, Json};
use weather_report::number::{integer_string, is_decimal, is_number, parse_i64};
use weather_report::report::{check_status, decode, decode_json, report_from_response, request_url};
use weather_report::{
    render_current, render_daily, render_report, Current, CurrentWeather, Daily, Decimal,
    FeelsLike, Root, Temp, WeatherError,
};

fn dec(s: &str) -> Decimal {
    Decimal::parse(s).unwrap()
}

fn sample_current(weather: Vec<CurrentWeather>) -> Current {
    Current {
        dt: 1700000000,
        sunrise: 1699990000,
        sunset: 1700030000,
        temp: dec("72.5"),
        feels_like: dec("70.0"),
        pressure: 1015,
        humidity: 40,
        dew_point: dec("45.1"),
        uvi: dec("3.2"),
        clouds: 10,
        visibility: 10000,
        wind_speed: dec("5.2"),
        wind_deg: 180,
        weather,
    }
}

fn clear_sky() -> CurrentWeather {
    CurrentWeather {
        id: 800,
        main: "Clear".to_string(),
        description: "clear sky".to_string(),
        icon: "01d".to_string(),
    }
}

fn sample_daily(rain: Option<Decimal>, snow: Option<Decimal>) -> Daily {
    Daily {
        dt: 1700000000,
        sunrise: 1699990000,
        sunset: 1700030000,
        moonrise: 1700010000,
        moonset: 1700050000,
        moon_phase: dec("0.25"),
        summary: "Expect a day of partly cloudy with snow".to_string(),
        temp: Temp {
            day: dec("30.2"),
            min: dec("20.1"),
            max: dec("35.0"),
            night: dec("22.3"),
            eve: dec("28.4"),
            morn: dec("21.5"),
        },
        feels_like: FeelsLike {
            day: dec("25.2"),
            night: dec("18.0"),
            morn: dec("15.5"),
            eve: dec("22.75"),
        },
        pressure: 1020,
        humidity: 70,
        dew_point: dec("18.3"),
        wind_speed: dec("8.1"),
        wind_deg: 270,
        wind_gust: dec("15.0"),
        weather: vec![],
        clouds: 75,
        pop: dec("0.4"),
        uvi: dec("1.5"),
        rain,
        snow,
    }
}

const DAY_NO_PRECIPITATION: &str = r#"{"dt": 1700000000, "sunrise": 1699990000, "sunset": 1700030000,
 "moonrise": 1700010000, "moonset": 1700050000, "moon_phase": 0.25,
 "summary": "Clear all day",
 "temp": {"day": 60.5, "min": 50, "max": 65.25, "night": 52.0, "eve": 58.1, "morn": 51.3},
 "feels_like": {"day": 59.5, "night": 50.0, "morn": 49.9, "eve": 57.0},
 "pressure": 1012, "humidity": 30, "dew_point": 30.2, "wind_speed": 4.5, "wind_deg": 90,
 "wind_gust": 7.0, "weather": [{"id": 800, "main": "Clear", "description": "clear sky", "icon": "01d"}],
 "clouds": 0, "pop": 0, "uvi": 5.1}"#;

fn document(daily: &str) -> String {
    format!(
        r#"{{"lat": 39.84, "lon": -105.04, "timezone": "America/Denver", "timezone_offset": -25200,
 "current": {{"dt": 1700000000, "sunrise": 1699990000, "sunset": 1700030000, "temp": 72.5,
   "feels_like": 70.0, "pressure": 1015, "humidity": 40, "dew_point": 45.1, "uvi": 3.2,
   "clouds": 10, "visibility": 10000, "wind_speed": 5.2, "wind_deg": 180, "extra": true,
   "weather": [{{"id": 800, "main": "Clear", "description": "clear sky", "icon": "01d"}}]}},
 "daily": [{}]}}"#,
        daily
    )
}

#[test]
fn current_report_scenario() {
    let text = render_current(&sample_current(vec![clear_sky()]));
    assert!(text.contains("Temperature: 72.5°F   Feels Like: 70°F\n"));
    assert!(text.contains("Cloudiness: 10%\n"));
    assert!(text.contains("Wind Speed: 5.2 mph\n"));
    assert!(text.contains("Current Overview: Clear - clear sky"));
    assert_eq!(
        text,
        "Current Data:\n\nTemperature: 72.5°F   Feels Like: 70°F\nCloudiness: 10%\n\
         Wind Speed: 5.2 mph\n\nCurrent Overview: Clear - clear sky\n\n"
    );
}

#[test]
fn current_report_without_weather() {
    let text = render_current(&sample_current(vec![]));
    assert!(text.ends_with("  No weather information available.\n"));
    assert!(!text.contains("Current Overview"));
}

#[test]
fn daily_report_with_snow_only() {
    let text = render_daily(&sample_daily(None, Some(dec("2.3"))));
    assert!(text.contains("Snow amount today: 2.3 mm\n"));
    assert!(!text.contains("Rain"));
    assert!(text.contains("Probability of Precipitation: 0.4%\n"));
}

#[test]
fn daily_report_exact_text() {
    let text = render_daily(&sample_daily(Some(dec("1.50")), None));
    assert_eq!(
        text,
        "Today's Data:\n\nSummary: Expect a day of partly cloudy with snow\n\n\
         Rain amount today: 1.5 mm\n\
         Probability of Precipitation: 0.4%\nUV Index: 1.5\nWind Speed: 8.1 mph\nCloudiness: 75%\n\
         \nTemperature Data:\n\nMin Temperature: 20.1°F\nMax Temperature: 35°F\n\
         Morning Temperature: 21.5°F   Feels Like: 15.5°F\n\
         Day Temperature: 30.2°F   Feels Like: 25.2°F\n\
         Evening Temperature: 28.4°F   Feels Like: 22.75°F\n"
    );
}

#[test]
fn empty_forecast_fails() {
    let root = Root {
        lat: dec("39.84"),
        lon: dec("-105.04"),
        timezone: "America/Denver".to_string(),
        timezone_offset: -25200,
        current: sample_current(vec![clear_sky()]),
        daily: vec![],
    };
    assert_eq!(render_report(&root), Err(WeatherError::EmptyForecast));
}

#[test]
fn report_joins_current_and_first_day() {
    let root = Root {
        lat: dec("39.84"),
        lon: dec("-105.04"),
        timezone: "America/Denver".to_string(),
        timezone_offset: -25200,
        current: sample_current(vec![clear_sky()]),
        daily: vec![sample_daily(None, None), sample_daily(Some(dec("9")), None)],
    };
    let expected = render_current(&root.current) + &render_daily(&root.daily[0]);
    assert_eq!(render_report(&root), Ok(expected));
}

#[test]
fn decode_full_document() {
    let root = decode(&document(DAY_NO_PRECIPITATION)).unwrap();
    assert_eq!(root.lat.as_str(), "39.84");
    assert_eq!(root.lon.as_str(), "-105.04");
    assert_eq!(root.timezone, "America/Denver");
    assert_eq!(root.timezone_offset, -25200);
    assert_eq!(root.current.temp.as_str(), "72.5");
    assert_eq!(root.current.clouds, 10);
    assert_eq!(root.current.weather, vec![clear_sky()]);
    assert_eq!(root.daily.len(), 1);
    assert_eq!(root.daily[0].temp.min.as_str(), "50");
    assert_eq!(root.daily[0].summary, "Clear all day");
}

#[test]
fn absent_precipitation_decodes_as_none() {
    let root = decode(&document(DAY_NO_PRECIPITATION)).unwrap();
    assert_eq!(root.daily[0].rain, None);
    assert_eq!(root.daily[0].snow, None);
    let text = render_daily(&root.daily[0]);
    assert!(!text.contains("Rain amount"));
    assert!(!text.contains("Snow amount"));
}

#[test]
fn null_and_present_precipitation() {
    let day = DAY_NO_PRECIPITATION.replace("\"uvi\": 5.1}", "\"uvi\": 5.1, \"rain\": null, \"snow\": 0.75}");
    let root = decode(&document(&day)).unwrap();
    assert_eq!(root.daily[0].rain, None);
    assert_eq!(root.daily[0].snow, Some(dec("0.75")));
}

#[test]
fn truncated_json_is_a_decode_error() {
    let text = document(DAY_NO_PRECIPITATION);
    let cut = &text[..text.len() / 2];
    assert!(matches!(decode(cut), Err(WeatherError::Decode(_))));
}

#[test]
fn mistyped_member_is_a_decode_error() {
    let text = document(DAY_NO_PRECIPITATION).replace("\"temp\": 72.5", "\"temp\": \"72.5\"");
    assert!(matches!(decode(&text), Err(WeatherError::Decode(_))));
}

#[test]
fn missing_member_is_a_decode_error() {
    let text = document(DAY_NO_PRECIPITATION).replace("\"timezone_offset\": -25200,", "");
    assert!(matches!(decode(&text), Err(WeatherError::Decode(_))));
}

#[test]
fn fractional_integer_member_is_a_decode_error() {
    let text = document(DAY_NO_PRECIPITATION).replace("\"clouds\": 10,", "\"clouds\": 10.5,");
    assert!(matches!(decode(&text), Err(WeatherError::Decode(_))));
}

#[test]
fn empty_daily_array_decodes_then_fails_to_report() {
    let text = document("");
    let root = decode(&text).unwrap();
    assert!(root.daily.is_empty());
    assert_eq!(render_report(&root), Err(WeatherError::EmptyForecast));
    assert_eq!(report_from_response(200, &text), Err(WeatherError::EmptyForecast));
}

#[test]
fn response_status_is_checked_first() {
    assert_eq!(check_status(200), Ok(()));
    assert_eq!(check_status(299), Ok(()));
    assert_eq!(check_status(404), Err(WeatherError::HttpStatus(404)));
    assert_eq!(report_from_response(500, "{}"), Err(WeatherError::HttpStatus(500)));
    let ok = report_from_response(200, &document(DAY_NO_PRECIPITATION)).unwrap();
    assert!(ok.starts_with("Current Data:\n\n"));
    assert!(ok.contains("Today's Data:\n\nSummary: Clear all day\n\n"));
}

#[test]
fn decimal_display_forms() {
    assert_eq!(dec("70.0").to_text(), "70");
    assert_eq!(dec("5.20").to_text(), "5.2");
    assert_eq!(dec("72.5").to_text(), "72.5");
    assert_eq!(dec("-0.0").to_text(), "-0");
    assert_eq!(dec("0").to_text(), "0");
    assert_eq!(dec("-105.04").to_text(), "-105.04");
    assert_eq!(dec("72.50").as_str(), "72.50");
}

#[test]
fn decimal_literals() {
    assert!(is_decimal("0.4"));
    assert!(is_decimal("-12"));
    assert!(!is_decimal("01.5"));
    assert!(!is_decimal("1."));
    assert!(!is_decimal(".5"));
    assert!(!is_decimal("1e5"));
    assert!(!is_decimal(""));
    assert!(!is_decimal("-"));
    assert!(Decimal::parse("abc").is_none());
}

#[test]
fn integers_parse_within_range() {
    assert_eq!(parse_i64("0"), Some(0));
    assert_eq!(parse_i64("-25200"), Some(-25200));
    assert_eq!(parse_i64("9223372036854775807"), Some(i64::MAX));
    assert_eq!(parse_i64("-9223372036854775808"), Some(i64::MIN));
    assert_eq!(parse_i64("9223372036854775808"), None);
    assert_eq!(parse_i64("-9223372036854775809"), None);
    assert_eq!(parse_i64("007"), None);
    assert_eq!(parse_i64("1.0"), None);
}

#[test]
fn integers_print_in_decimal() {
    assert_eq!(integer_string(0), "0");
    assert_eq!(integer_string(-42), "-42");
    assert_eq!(integer_string(1015), "1015");
    assert_eq!(integer_string(i64::MIN), "-9223372036854775808");
    assert_eq!(integer_string(i64::MAX), "9223372036854775807");
}

#[test]
fn request_address() {
    let url = request_url(&dec("39.84"), &dec("-105.04"), "KEY");
    assert_eq!(
        url,
        "https://api.openweathermap.org/data/3.0/onecall?lat=39.84&lon=-105.04\
         &exclude=hourly,minutely,alerts&appid=KEY&units=imperial"
    );
}

#[test]
fn error_messages() {
    assert_eq!(WeatherError::HttpStatus(503).message(), "unexpected HTTP status 503");
    assert_eq!(WeatherError::EmptyForecast.message(), "the forecast holds no days");
    assert_eq!(WeatherError::Decode("x".to_string()).message(), "decode error: x");
    assert_eq!(WeatherError::Network("down".to_string()).message(), "network error: down");
}

#[test]
fn json_model_keeps_literals_and_members() {
    let j = parse_json(r#"{"a": 72.50, "b": [true, null, "s"], "c": {"d": -1e3}}"#).unwrap();
    assert_eq!(get_member(&j, "a"), Some(&Json::Number("72.50".to_string())));
    assert_eq!(
        get_member(&j, "b"),
        Some(&Json::Array(vec![Json::Bool(true), Json::Null, Json::Str("s".to_string())]))
    );
    let c = get_member(&j, "c").unwrap();
    assert_eq!(get_member(c, "d"), Some(&Json::Number("-1e+3".to_string())));
    assert_eq!(get_member(&j, "z"), None);
    assert!(parse_json("{\"a\": ").is_none());
    assert!(parse_json("not json").is_none());
}

#[test]
fn decode_json_reports_shape_errors() {
    let j = parse_json("{\"lat\": 1}").unwrap();
    assert!(matches!(decode_json(&j), Err(WeatherError::Decode(_))));
}

fn sample_root() -> Root {
    let mut day = sample_daily(None, Some(dec("2.3")));
    day.weather = vec![weather_report::DailyWeather {
        id: 601,
        main: "Snow".to_string(),
        description: "snow".to_string(),
        icon: "13d".to_string(),
    }];
    Root {
        lat: dec("39.84"),
        lon: dec("-105.04"),
        timezone: "America/Denver".to_string(),
        timezone_offset: -25200,
        current: sample_current(vec![clear_sky()]),
        daily: vec![day, sample_daily(Some(dec("0.10")), None)],
    }
}

#[test]
fn encode_then_decode_gives_the_document_back() {
    let root = sample_root();
    let j = root.to_json();
    assert_eq!(Root::from_json(&j), Some(root.clone()));
    assert_eq!(decode_json(&j), Ok(root));
}

#[test]
fn encoding_writes_members_by_wire_name() {
    let root = sample_root();
    let j = root.to_json();
    assert_eq!(get_member(&j, "timezone_offset"), Some(&Json::Number("-25200".to_string())));
    let current = get_member(&j, "current").unwrap();
    assert_eq!(get_member(current, "feels_like"), Some(&Json::Number("70.0".to_string())));
    let days = match get_member(&j, "daily") {
        Some(Json::Array(days)) => days,
        other => panic!("daily is not an array: {:?}", other),
    };
    assert_eq!(get_member(&days[0], "rain"), Some(&Json::Null));
    assert_eq!(get_member(&days[0], "snow"), Some(&Json::Number("2.3".to_string())));
}

#[test]
fn empty_weather_round_trips() {
    let mut root = sample_root();
    root.current.weather = vec![];
    root.daily = vec![];
    assert_eq!(Root::from_json(&root.to_json()), Some(root));
}

#[test]
fn number_literals_with_exponents() {
    assert!(is_number("1e5"));
    assert!(is_number("-0.5e-2"));
    assert!(is_number("2.50E+3"));
    assert!(is_number("72.5"));
    assert!(!is_number("1e"));
    assert!(!is_number("1e+"));
    assert!(!is_number("e5"));
    assert!(!is_number("1.e5"));
    assert!(!is_number("1e5.0"));
    assert_eq!(dec("1e5").to_text(), "1e5");
    assert_eq!(dec("2.50E+3").to_text(), "2.5E+3");
    assert_eq!(dec("3.0e-2").to_text(), "3e-2");
}

#[test]
fn exponent_member_decodes() {
    let text = document(DAY_NO_PRECIPITATION).replace("\"uvi\": 3.2", "\"uvi\": 1e-5");
    let root = decode(&text).unwrap();
    assert_eq!(root.current.uvi.as_str(), "1e-5");
}

#[test]
fn prefix_of_encoded_document_is_a_decode_error() {
    let body = r#"{"lat":39.84,"lon":-10"#;
    assert!(matches!(decode(body), Err(WeatherError::Decode(_))));
    assert!(matches!(report_from_response(200, body), Err(WeatherError::Decode(_))));
}

#[test]
fn report_from_response_renders_the_first_day() {
    let text = document(DAY_NO_PRECIPITATION);
    let root = decode(&text).unwrap();
    let expected = render_current(&root.current) + &render_daily(&root.daily[0]);
    assert_eq!(report_from_response(200, &text), Ok(expected));
}
