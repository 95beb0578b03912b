//! The closed set of failures the weather pipeline can report.
//!
//! Every fallible step of the pipeline returns one of these variants:
//! a missing or invalid configuration value, a transport failure while
//! reaching the upstream service, or a response body that does not match
//! the expected schema.

use vstd::prelude::*;

verus! {

/// A failure of the weather pipeline.
#[derive(Debug)]
pub enum WeatherError {
    /// A required configuration value (the API key, the city) is missing
    /// or unusable; carries which one. Fatal: the process reports it and
    /// exits non-zero.
    Config(String),
    /// The upstream service could not be reached; carries the transport
    /// layer's description of the cause.
    Network(String),
    /// The response body is not JSON, or does not match the expected
    /// schema; carries a short description of what was missing.
    Decode(String),
}

impl WeatherError {
    /// The one-line human-readable message for this failure.
    pub open spec fn spec_message(self) -> Seq<char> {
        match self {
            WeatherError::Config(c) => "configuration error: "@ + c@,
            WeatherError::Network(c) => "could not reach the weather service: "@ + c@,
            WeatherError::Decode(c) => "could not decode the weather response: "@ + c@,
        }
    }

    /// Render the failure as a single line, suitable for standard error.
    pub fn message(&self) -> (r: String)
        ensures
            r@ == self.spec_message(),
    {
        match self {
            WeatherError::Config(cause) => {
                let mut m = String::from_str("configuration error: ");
                m.append(cause.as_str());
                m
            },
            WeatherError::Network(cause) => {
                let mut m = String::from_str("could not reach the weather service: ");
                m.append(cause.as_str());
                m
            },
            WeatherError::Decode(cause) => {
                let mut m = String::from_str("could not decode the weather response: ");
                m.append(cause.as_str());
                m
            },
        }
    }

    /// True exactly when this is the fatal configuration failure.
    pub fn is_config(&self) -> (r: bool)
        ensures
            r == (self is Config),
    {
        match self {
            WeatherError::Config(_) => true,
            _ => false,
        }
    }
}

} // verus!
