//! A weather report client's core: the forecast document read from JSON
//! text, and its conditions now and for the first day rendered as text.
use vstd::prelude::*;

pub mod json;
pub mod laws;
pub mod number;
pub mod report;
pub mod schema;

pub use number::Decimal;
pub use report::{render_current, render_daily, render_report, WeatherError};
pub use schema::{Current, CurrentWeather, Daily, DailyWeather, FeelsLike, Root, Temp};

verus! {

} // verus!
