//! The pipeline from a fetch outcome to printable lines.
//!
//! The blocking HTTP call itself happens outside the library; its outcome
//! is handed in as a plain `Result`: the full response body on success,
//! the transport layer's description of the cause on failure. From there
//! everything is decided here: a transport failure becomes a network
//! error and produces no lines; a body that is not JSON, or does not
//! match the schema, becomes a decode error; a well-shaped body becomes
//! exactly the lines the presenter owes for it.

use vstd::prelude::*;
use crate::decode::{decode_current, decode_forecast, spec_current_of, spec_forecast_of};
use crate::errors::WeatherError;
use crate::json::{parse_json, spec_parse_json};
use crate::model::Units;
use crate::present::{
    format_current, format_forecast, spec_current_detail, spec_current_header,
    spec_forecast_header, spec_forecast_line, spec_shown,
};

verus! {

/// Accept the API key read from the environment. Succeeds exactly when a
/// non-empty value is present; a missing or empty key is the fatal
/// configuration failure.
pub fn resolve_api_key(value: Option<String>) -> (r: Result<String, WeatherError>)
    ensures
        r is Ok <==> (value matches Some(v) && v@.len() > 0),
        r matches Ok(k) ==> (value matches Some(v) && k@ == v@),
        r matches Err(e) ==> e is Config,
{
    match value {
        Some(v) => {
            if v.as_str().is_empty() {
                Err(WeatherError::Config(String::from_str("the API key is empty")))
            } else {
                Ok(v)
            }
        },
        None => Err(WeatherError::Config(String::from_str("the API key is not set"))),
    }
}

/// The lines a current-conditions invocation prints for a fetch outcome,
/// or the error it reports instead.
///
/// A transport failure is reported as a network error and yields no
/// lines. A body that parses and matches the schema yields exactly one
/// header line and one detail line carrying the decoded values verbatim;
/// any other body is a decode error.
pub fn current_report(city: &str, units: Units, fetch: Result<String, String>) -> (r: Result<
    Vec<String>,
    WeatherError,
>)
    ensures
        fetch matches Err(cause) ==> (r matches Err(e) && e matches WeatherError::Network(c)
            && c@ == cause@),
        fetch matches Ok(body) ==> match spec_parse_json(body@) {
            None => (r matches Err(e) && e is Decode),
            Some(doc) => match spec_current_of(doc) {
                None => (r matches Err(e) && e is Decode),
                Some(m) => (r matches Ok(lines) && lines@.len() == 2 && lines@[0]@
                    == spec_current_header(city@) && lines@[1]@ == spec_current_detail(units, m)),
            },
        },
{
    let body = match fetch {
        Ok(b) => b,
        Err(cause) => {
            return Err(WeatherError::Network(cause));
        },
    };
    let doc = match parse_json(body.as_str()) {
        Some(d) => d,
        None => {
            return Err(WeatherError::Decode(String::from_str("response is not JSON")));
        },
    };
    let conditions = match decode_current(&doc) {
        Ok(c) => c,
        Err(e) => {
            return Err(e);
        },
    };
    Ok(format_current(city, units, &conditions))
}

/// The lines a forecast invocation prints for a fetch outcome, or the
/// error it reports instead.
///
/// A transport failure is reported as a network error and yields no
/// lines. A body that parses and matches the schema yields one header
/// line and then one line per forecast entry, in response order, capped
/// at the first five; any other body is a decode error.
pub fn forecast_report(units: Units, fetch: Result<String, String>) -> (r: Result<
    Vec<String>,
    WeatherError,
>)
    ensures
        fetch matches Err(cause) ==> (r matches Err(e) && e matches WeatherError::Network(c)
            && c@ == cause@),
        fetch matches Ok(body) ==> match spec_parse_json(body@) {
            None => (r matches Err(e) && e is Decode),
            Some(doc) => match spec_forecast_of(doc) {
                None => (r matches Err(e) && e is Decode),
                Some(m) => (r matches Ok(lines) && lines@.len() == 1 + spec_shown(m.len())
                    && lines@[0]@ == spec_forecast_header() && (forall|i: int|
                    0 <= i < lines@.len() - 1 ==> #[trigger] lines@[i + 1]@ == spec_forecast_line(
                        units,
                        m[i],
                    ))),
            },
        },
{
    let body = match fetch {
        Ok(b) => b,
        Err(cause) => {
            return Err(WeatherError::Network(cause));
        },
    };
    let doc = match parse_json(body.as_str()) {
        Some(d) => d,
        None => {
            return Err(WeatherError::Decode(String::from_str("response is not JSON")));
        },
    };
    let entries = match decode_forecast(&doc) {
        Ok(v) => v,
        Err(e) => {
            return Err(e);
        },
    };
    let r = format_forecast(units, &entries);
    proof {
        let m = spec_forecast_of(spec_parse_json(body@)->0)->0;
        assert(entries@.len() == m.len());
        assert forall|i: int| 0 <= i < r@.len() - 1 implies #[trigger] r@[i + 1]@
            == spec_forecast_line(units, m[i]) by {
            assert(entries@[i]@ == m[i]);
        }
    }
    Ok(r)
}

} // verus!
