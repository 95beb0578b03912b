//! Building the upstream request URL.
//!
//! Pure text assembly: base endpoint by mode, then the `q`, `appid` and
//! `units` query parameters. The city is percent-encoded so that spaces
//! and reserved characters survive the trip; the rest is inserted
//! verbatim. It cannot fail.

use vstd::prelude::*;
use vstd::utf8::encode_utf8;
use crate::model::{Mode, Units, WeatherQuery};
use crate::pct::{percent_encode, spec_percent_encode};

verus! {

/// The path segment the mode selects.
pub open spec fn spec_endpoint(mode: Mode) -> Seq<char> {
    match mode {
        Mode::Current => "weather"@,
        Mode::Forecast => "forecast"@,
    }
}

/// The path segment the mode selects.
pub fn endpoint(mode: Mode) -> (r: &'static str)
    ensures
        r@ == spec_endpoint(mode),
{
    match mode {
        Mode::Current => "weather",
        Mode::Forecast => "forecast",
    }
}

/// The full request URL for a query and key: the city percent-encoded
/// over its UTF-8 bytes, the key and units selector verbatim.
pub open spec fn spec_url(city: Seq<char>, api_key: Seq<char>, units: Units, mode: Mode) -> Seq<
    char,
> {
    "http://api.openweathermap.org/data/2.5/"@ + spec_endpoint(mode) + "?q="@
        + spec_percent_encode(encode_utf8(city)) + "&appid="@ + api_key + "&units="@
        + units.spec_param()
}

/// Build the request URL for `q` with `api_key`.
pub fn build_url(q: &WeatherQuery, api_key: &str) -> (r: String)
    ensures
        r@ == spec_url(q.city@, api_key@, q.units, q.mode),
{
    let mut u = String::from_str("http://api.openweathermap.org/data/2.5/");
    u.append(endpoint(q.mode));
    u.append("?q=");
    let city = percent_encode(q.city.as_str());
    u.append(city.as_str());
    u.append("&appid=");
    u.append(api_key);
    u.append("&units=");
    u.append(q.units.param());
    proof {
        assert(u@ =~= spec_url(q.city@, api_key@, q.units, q.mode));
    }
    u
}

} // verus!
