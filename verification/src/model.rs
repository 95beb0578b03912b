//! The typed structures the pipeline works with.
//!
//! A query names a city, a unit system and a mode; a decoded response is
//! either one set of current conditions or an ordered list of forecast
//! entries. Temperatures keep the decimal text of the JSON number they
//! came from, so the presenter can echo them verbatim.

use vstd::prelude::*;

verus! {

/// The measurement system for temperature fields.
#[derive(Clone, Copy, Debug)]
pub enum Units {
    /// Celsius.
    Metric,
    /// Fahrenheit.
    Imperial,
}

impl Units {
    /// The value of the `units` query parameter for this system.
    pub open spec fn spec_param(self) -> Seq<char> {
        match self {
            Units::Metric => "metric"@,
            Units::Imperial => "imperial"@,
        }
    }

    /// The value of the `units` query parameter for this system.
    pub fn param(&self) -> (r: &'static str)
        ensures
            r@ == self.spec_param(),
    {
        match self {
            Units::Metric => "metric",
            Units::Imperial => "imperial",
        }
    }
}

/// Which of the two upstream endpoints a query addresses.
#[derive(Clone, Copy, Debug)]
pub enum Mode {
    /// A snapshot of the present conditions.
    Current,
    /// The multi-day forecast, shown as at most five entries.
    Forecast,
}

/// One invocation's query: which city, which units, which endpoint.
#[derive(Debug)]
pub struct WeatherQuery {
    /// The city to ask about; never empty.
    pub city: String,
    /// The measurement system to request.
    pub units: Units,
    /// Current conditions or forecast.
    pub mode: Mode,
}

impl WeatherQuery {
    /// A query is well formed when its city name is non-empty.
    pub open spec fn wf(self) -> bool {
        self.city@.len() > 0
    }

    /// Build a query. Fails exactly when the city name is empty.
    pub fn new(city: String, units: Units, mode: Mode) -> (r: Result<WeatherQuery, crate::errors::WeatherError>)
        ensures
            city@.len() > 0 <==> r is Ok,
            r matches Ok(q) ==> q.wf() && q.city@ == city@ && q.units == units && q.mode == mode,
            r matches Err(e) ==> e is Config,
    {
        if city.as_str().is_empty() {
            Err(crate::errors::WeatherError::Config(String::from_str("the city must not be empty")))
        } else {
            Ok(WeatherQuery { city, units, mode })
        }
    }
}

/// The mathematical value of one set of current conditions.
#[verifier::ext_equal]
pub ghost struct CurrentView {
    /// The short condition word of the first weather entry.
    pub condition: Seq<char>,
    /// The longer condition description of the first weather entry.
    pub description: Seq<char>,
    /// The temperature's decimal text, verbatim from the response.
    pub temp: Seq<char>,
    /// The felt temperature's decimal text, verbatim from the response.
    pub feels_like: Seq<char>,
    /// The relative humidity, in percent.
    pub humidity: u64,
}

/// One decoded set of current conditions.
#[derive(Debug)]
pub struct CurrentConditions {
    /// The short condition word of the first weather entry.
    pub condition: String,
    /// The longer condition description of the first weather entry.
    pub description: String,
    /// The temperature's decimal text, verbatim from the response.
    pub temp: String,
    /// The felt temperature's decimal text, verbatim from the response.
    pub feels_like: String,
    /// The relative humidity, in percent.
    pub humidity: u64,
}

impl View for CurrentConditions {
    type V = CurrentView;

    open spec fn view(&self) -> CurrentView {
        CurrentView {
            condition: self.condition@,
            description: self.description@,
            temp: self.temp@,
            feels_like: self.feels_like@,
            humidity: self.humidity,
        }
    }
}

/// The mathematical value of one forecast entry.
#[verifier::ext_equal]
pub ghost struct ForecastView {
    /// The entry's timestamp text, verbatim from the response.
    pub timestamp: Seq<char>,
    /// The short condition word of the entry's first weather item.
    pub condition: Seq<char>,
    /// The longer condition description of the entry's first weather item.
    pub description: Seq<char>,
    /// The temperature's decimal text, verbatim from the response.
    pub temp: Seq<char>,
}

/// One decoded forecast entry; the decoder keeps entries in response
/// order (chronological).
#[derive(Debug)]
pub struct ForecastEntry {
    /// The entry's timestamp text, verbatim from the response.
    pub timestamp: String,
    /// The short condition word of the entry's first weather item.
    pub condition: String,
    /// The longer condition description of the entry's first weather item.
    pub description: String,
    /// The temperature's decimal text, verbatim from the response.
    pub temp: String,
}

impl View for ForecastEntry {
    type V = ForecastView;

    open spec fn view(&self) -> ForecastView {
        ForecastView {
            timestamp: self.timestamp@,
            condition: self.condition@,
            description: self.description@,
            temp: self.temp@,
        }
    }
}

} // verus!
