//! Formatting decoded structures into printable lines.
//!
//! The presenter turns a decoded structure into plain text lines, one
//! `String` per line, field values echoed verbatim. Colorizing is a
//! cosmetic concern left to the caller; nothing here is styled. The
//! forecast is capped at the first five entries, in response order.

use vstd::prelude::*;
use crate::digits::{spec_digits, u64_digits};
use crate::model::{CurrentConditions, CurrentView, ForecastEntry, ForecastView, Units};

verus! {

/// How many forecast entries are shown at most.
pub const FORECAST_SHOWN: usize = 5;

/// The degree suffix for the chosen unit system.
pub open spec fn spec_degrees(units: Units) -> Seq<char> {
    match units {
        Units::Metric => "°C"@,
        Units::Imperial => "°F"@,
    }
}

/// The degree suffix for the chosen unit system.
pub fn degrees(units: Units) -> (r: &'static str)
    ensures
        r@ == spec_degrees(units),
{
    match units {
        Units::Metric => "°C",
        Units::Imperial => "°F",
    }
}

/// The header line of a current-conditions report.
pub open spec fn spec_current_header(city: Seq<char>) -> Seq<char> {
    "Weather in "@ + city + ":"@
}

/// The detail line of a current-conditions report: condition,
/// description, temperature, felt temperature and humidity, verbatim.
pub open spec fn spec_current_detail(units: Units, c: CurrentView) -> Seq<char> {
    c.condition + " - "@ + c.description + ", Temp: "@ + c.temp + spec_degrees(units)
        + " (Feels like: "@ + c.feels_like + spec_degrees(units) + "), Humidity: "@ + spec_digits(
        c.humidity as nat,
    ) + "%"@
}

/// The header line of a forecast report.
pub open spec fn spec_forecast_header() -> Seq<char> {
    "5-Day Forecast:"@
}

/// One forecast data line: timestamp, condition, description and
/// temperature, verbatim, in that order.
pub open spec fn spec_forecast_line(units: Units, e: ForecastView) -> Seq<char> {
    e.timestamp + " | "@ + e.condition + " - "@ + e.description + ", Temp: "@ + e.temp
        + spec_degrees(units)
}

/// How many data lines a forecast of `n` entries shows: all of them, but
/// at most five.
pub open spec fn spec_shown(n: nat) -> nat {
    if n < 5 {
        n
    } else {
        5
    }
}

/// Format a current-conditions report: exactly one header line and one
/// detail line carrying the decoded values verbatim.
pub fn format_current(city: &str, units: Units, c: &CurrentConditions) -> (r: Vec<String>)
    ensures
        r@.len() == 2,
        r@[0]@ == spec_current_header(city@),
        r@[1]@ == spec_current_detail(units, c@),
{
    let mut header = String::from_str("Weather in ");
    header.append(city);
    header.append(":");
    let mut detail = String::new();
    detail.append(c.condition.as_str());
    detail.append(" - ");
    detail.append(c.description.as_str());
    detail.append(", Temp: ");
    detail.append(c.temp.as_str());
    detail.append(degrees(units));
    detail.append(" (Feels like: ");
    detail.append(c.feels_like.as_str());
    detail.append(degrees(units));
    detail.append("), Humidity: ");
    let hum = u64_digits(c.humidity);
    detail.append(hum.as_str());
    detail.append("%");
    proof {
        assert(header@ =~= spec_current_header(city@));
        assert(detail@ =~= spec_current_detail(units, c@));
    }
    let mut r: Vec<String> = Vec::new();
    r.push(header);
    r.push(detail);
    r
}

/// Format one forecast data line.
pub fn format_forecast_line(units: Units, e: &ForecastEntry) -> (r: String)
    ensures
        r@ == spec_forecast_line(units, e@),
{
    let mut line = String::new();
    line.append(e.timestamp.as_str());
    line.append(" | ");
    line.append(e.condition.as_str());
    line.append(" - ");
    line.append(e.description.as_str());
    line.append(", Temp: ");
    line.append(e.temp.as_str());
    line.append(degrees(units));
    proof {
        assert(line@ =~= spec_forecast_line(units, e@));
    }
    line
}

/// Format a forecast report: one header line, then one line per entry in
/// response order, capped at the first five entries.
pub fn format_forecast(units: Units, entries: &Vec<ForecastEntry>) -> (r: Vec<String>)
    ensures
        r@.len() == 1 + spec_shown(entries@.len()),
        r@[0]@ == spec_forecast_header(),
        forall|i: int|
            0 <= i < r@.len() - 1 ==> #[trigger] r@[i + 1]@ == spec_forecast_line(
                units,
                entries@[i]@,
            ),
{
    let mut r: Vec<String> = Vec::new();
    r.push(String::from_str("5-Day Forecast:"));
    let shown = if entries.len() < FORECAST_SHOWN {
        entries.len()
    } else {
        FORECAST_SHOWN
    };
    let mut i: usize = 0;
    while i < shown
        invariant
            shown == spec_shown(entries@.len()),
            shown <= entries@.len(),
            i <= shown,
            r@.len() == 1 + i,
            r@[0]@ == spec_forecast_header(),
            forall|k: int|
                0 <= k < i ==> #[trigger] r@[k + 1]@ == spec_forecast_line(units, entries@[k]@),
        decreases shown - i,
    {
        let line = format_forecast_line(units, &entries[i]);
        r.push(line);
        i = i + 1;
    }
    r
}

} // verus!
