//! Properties that hold of every document and every report.
use vstd::prelude::*;
use crate::json::{Json, member};
use crate::report::{
    current_report, daily_report, daily_conditions_text, daily_temperature_text, overview_text,
};
use crate::number::{display_number, integer_text};
use crate::schema::{
    Current, Daily, Root, current_from, current_weather_from, current_weather_list_from, daily_from,
    daily_list_from, daily_weather_from, daily_weather_list_from, root_from, same_current,
    same_current_weather, same_daily, same_daily_weather, same_root,
};

verus! {

/// A day whose JSON object leaves out `rain` and `snow` decodes with both
/// absent, and its report has neither a rain line nor a snow line.
pub proof fn lemma_absent_precipitation(j: Json, d: Daily)
    requires
        daily_from(j, d),
        member(j, "rain"@) is None,
        member(j, "snow"@) is None,
    ensures
        d.rain is None,
        d.snow is None,
        daily_report(d) == "Today's Data:\n\n"@ + ("Summary: "@ + d.summary@ + "\n\n"@)
            + daily_conditions_text(d) + daily_temperature_text(d),
{
    assert(daily_report(d) =~= "Today's Data:\n\n"@ + ("Summary: "@ + d.summary@ + "\n\n"@)
        + daily_conditions_text(d) + daily_temperature_text(d));
}

/// Conditions without any weather entry have the fixed line that says so in
/// place of an overview, and their report ends with that line.
pub proof fn lemma_empty_weather_fallback(c: Current)
    requires
        c.weather@.len() == 0,
    ensures
        overview_text(c) == "  No weather information available.\n"@,
        current_report(c) == "Current Data:\n\n"@ + ("Temperature: "@ + display_number(c.temp@)
            + "°F   Feels Like: "@ + display_number(c.feels_like@) + "°F\n"@) + ("Cloudiness: "@
            + integer_text(c.clouds as int) + "%\n"@) + ("Wind Speed: "@ + display_number(
            c.wind_speed@,
        ) + " mph\n"@) + "  No weather information available.\n"@,
        current_report(c).subrange(
            current_report(c).len() - "  No weather information available.\n"@.len(),
            current_report(c).len() as int,
        ) == "  No weather information available.\n"@,
{
    let fb = "  No weather information available.\n"@;
    let head = "Current Data:\n\n"@ + ("Temperature: "@ + display_number(c.temp@)
        + "°F   Feels Like: "@ + display_number(c.feels_like@) + "°F\n"@) + ("Cloudiness: "@
        + integer_text(c.clouds as int) + "%\n"@) + ("Wind Speed: "@ + display_number(c.wind_speed@)
        + " mph\n"@);
    assert(current_report(c) == head + fb);
    assert((head + fb).subrange(head.len() as int, (head + fb).len() as int) =~= fb);
}

/// A document whose current temperature is written as a string decodes to
/// nothing: no document has that JSON form.
pub proof fn lemma_mistyped_temperature(j: Json, c: Json, t: String)
    requires
        member(j, "current"@) == Some(c),
        member(c, "temp"@) == Some(Json::Str(t)),
    ensures
        forall|x: Root| !root_from(j, x),
{
}

proof fn lemma_current_determined(o: Option<Json>, a: Current, b: Current)
    requires
        current_from(o, a),
        current_from(o, b),
    ensures
        same_current(a, b),
{
    let ws = member(o.unwrap(), "weather"@);
    assert(current_weather_list_from(ws, a.weather@));
    assert forall|i: int| 0 <= i < a.weather@.len() implies same_current_weather(
        #[trigger] a.weather@[i],
        b.weather@[i],
    ) by {
        let items = ws.unwrap()->Array_0;
        assert(current_weather_list_from(ws, b.weather@));
        assert(current_weather_from(items@[i], a.weather@[i]));
        assert(current_weather_from(items@[i], b.weather@[i]));
    }
}

proof fn lemma_daily_determined(j: Json, a: Daily, b: Daily)
    requires
        daily_from(j, a),
        daily_from(j, b),
    ensures
        same_daily(a, b),
{
    let ws = member(j, "weather"@);
    assert(daily_weather_list_from(ws, a.weather@));
    assert forall|i: int| 0 <= i < a.weather@.len() implies same_daily_weather(
        #[trigger] a.weather@[i],
        b.weather@[i],
    ) by {
        let items = ws.unwrap()->Array_0;
        assert(daily_weather_list_from(ws, b.weather@));
        assert(daily_weather_from(items@[i], a.weather@[i]));
        assert(daily_weather_from(items@[i], b.weather@[i]));
    }
}

/// A JSON value decodes to one document at most: two documents that the same
/// value decodes to are equal. As `Root::to_json` gives a value that decodes to
/// its document, and `Root::from_json` finds a document whenever there is one,
/// encoding a document and decoding the result gives that document back.
pub proof fn lemma_round_trip(j: Json, r: Root, x: Root)
    requires
        root_from(j, r),
        root_from(j, x),
    ensures
        same_root(x, r),
{
    lemma_current_determined(member(j, "current"@), x.current, r.current);
    let ds = member(j, "daily"@);
    assert(daily_list_from(ds, r.daily@));
    assert forall|i: int| 0 <= i < x.daily@.len() implies same_daily(
        #[trigger] x.daily@[i],
        r.daily@[i],
    ) by {
        let items = ds.unwrap()->Array_0;
        assert(daily_list_from(ds, x.daily@));
        lemma_daily_determined(items@[i], x.daily@[i], r.daily@[i]);
    }
}

} // verus!
