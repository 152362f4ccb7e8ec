//! The capability that every weather provider offers, and the values that
//! pass between a provider and whoever carries out its HTTP requests.
//!
//! A report takes two requests. The provider says which request comes next,
//! the caller sends it and hands back what came of it, and the provider
//! decides how to go on. No function here touches the network.

use vstd::prelude::*;
use vstd::string::StringExecFns;
use crate::error::WeatherError;

verus! {

/// A weather report: one line of text.
#[derive(Clone, Debug, PartialEq, Eq)]
pub struct WeatherReport {
    pub report: String,
}

impl WeatherReport {
    /// The report as it is printed.
    pub fn text(&self) -> (text: String)
        ensures
            text@ == self.report@,
    {
        self.report.clone()
    }
}

/// Which service a provider talks to.
#[derive(Clone, Copy, Debug, PartialEq, Eq, Structural)]
pub enum ProviderKind {
    Accuweather,
    OpenWeather,
}

/// What a provider is, as a mathematical value.
pub struct ProviderModel {
    pub kind: ProviderKind,
    pub name: Seq<char>,
    pub api_key: Option<Seq<char>>,
}

/// A location that an address resolved to, as text. Accuweather finds a
/// location again by its key, OpenWeather by its coordinates; the fields that
/// a service does not give are left empty.
#[derive(Clone, Debug, PartialEq, Eq)]
pub struct Place {
    pub key: String,
    pub latitude: String,
    pub longitude: String,
}

/// One temperature reading, as text: the number and its unit.
#[derive(Clone, Debug, PartialEq, Eq)]
pub struct Reading {
    pub value: String,
    pub unit: String,
}

/// What a service answered to the request for locations: the HTTP status,
/// the body as text, and the places decoded from the body, or else the reason
/// why it could not be decoded.
#[derive(Debug, PartialEq, Eq)]
pub struct LocationsAnswer {
    pub status: u16,
    pub body: String,
    pub decoded: Result<Vec<Place>, String>,
}

/// The HTTP status of a request that succeeded.
pub const STATUS_OK: u16 = 200;

/// The view of an optional string.
pub open spec fn text_of(key: Option<String>) -> Option<Seq<char>> {
    match key {
        Some(k) => Some(k@),
        None => None,
    }
}

/// The view of the next request, or the error that ends the exchange.
pub open spec fn request_of(next: Result<String, WeatherError>) -> Result<Seq<char>, WeatherError> {
    match next {
        Ok(url) => Ok(url@),
        Err(e) => Err(e),
    }
}

/// The view of a finished exchange: the report's text, or the error.
pub open spec fn report_of(out: Result<WeatherReport, WeatherError>) -> Result<
    Seq<char>,
    WeatherError,
> {
    match out {
        Ok(r) => Ok(r.report@),
        Err(e) => Err(e),
    }
}

/// The address of the request that resolves `address` to locations.
pub open spec fn locations_url(kind: ProviderKind, key: Seq<char>, address: Seq<char>) -> Seq<
    char,
> {
    match kind {
        ProviderKind::Accuweather => {
            "http://dataservice.accuweather.com/locations/v1/cities/autocomplete?apikey="@ + key
                + "&q="@ + address
        },
        ProviderKind::OpenWeather => {
            "http://api.openweathermap.org/geo/1.0/direct?q="@ + address + "&limit=1&appid="@
                + key
        },
    }
}

/// The address of the request for the current conditions at `place`.
pub open spec fn conditions_url(kind: ProviderKind, key: Seq<char>, place: Place) -> Seq<char> {
    match kind {
        ProviderKind::Accuweather => {
            "http://dataservice.accuweather.com/currentconditions/v1/"@ + place.key@ + "?apikey="@
                + key
        },
        ProviderKind::OpenWeather => {
            "https://api.openweathermap.org/data/2.5/weather?units=metric&lat="@
                + place.latitude@ + "&lon="@ + place.longitude@ + "&appid="@ + key
        },
    }
}

/// The line that reports `reading`: Accuweather's carries the unit it was
/// given, OpenWeather's is always in degrees Celsius.
pub open spec fn report_line(kind: ProviderKind, reading: Reading) -> Seq<char> {
    match kind {
        ProviderKind::Accuweather => reading.value@ + " "@ + reading.unit@,
        ProviderKind::OpenWeather => reading.value@ + " C"@,
    }
}

/// How a report begins: without a key it ends at once, before any request;
/// with one, the locations of the address are asked for.
pub open spec fn first_step(
    kind: ProviderKind,
    api_key: Option<Seq<char>>,
    address: Seq<char>,
) -> Result<Seq<char>, WeatherError> {
    match api_key {
        None => Err(WeatherError::NoApiKeyError),
        Some(key) => Ok(locations_url(kind, key, address)),
    }
}

/// How a report goes on once the request for locations has come back.
/// `reply` is `Err` with the detail where the request could not be sent or
/// its answer not read. An answer with another status than 200 ends the
/// exchange with its body as the detail, one that cannot be decoded with the
/// decoder's detail, and one without locations with `NoLocationFoundError`.
/// Otherwise the conditions at the first location are asked for.
pub open spec fn second_step(
    kind: ProviderKind,
    api_key: Option<Seq<char>>,
    reply: Result<LocationsAnswer, String>,
) -> Result<Seq<char>, WeatherError> {
    match api_key {
        None => Err(WeatherError::NoApiKeyError),
        Some(key) => match reply {
            Err(detail) => Err(WeatherError::HttpError(detail)),
            Ok(answer) => if answer.status != STATUS_OK {
                Err(WeatherError::HttpError(answer.body))
            } else {
                match answer.decoded {
                    Err(detail) => Err(WeatherError::HttpError(detail)),
                    Ok(places) => if places@.len() == 0 {
                        Err(WeatherError::NoLocationFoundError)
                    } else {
                        Ok(conditions_url(kind, key, places@[0]))
                    },
                }
            },
        },
    }
}

/// How a report ends once the request for conditions has come back. `reply`
/// is `Err` with the detail where the request failed or its answer could not
/// be decoded. An answer without readings gives `NoReportFoundError`; else the
/// first reading is reported.
pub open spec fn last_step(
    kind: ProviderKind,
    api_key: Option<Seq<char>>,
    reply: Result<Vec<Reading>, String>,
) -> Result<Seq<char>, WeatherError> {
    match api_key {
        None => Err(WeatherError::NoApiKeyError),
        Some(_) => match reply {
            Err(detail) => Err(WeatherError::HttpError(detail)),
            Ok(readings) => if readings@.len() == 0 {
                Err(WeatherError::NoReportFoundError)
            } else {
                Ok(report_line(kind, readings@[0]))
            },
        },
    }
}

/// A named source of weather reports that may hold an API key.
pub trait WeatherProvider {
    /// The provider as a mathematical value.
    spec fn model(&self) -> ProviderModel;

    /// The provider's name.
    fn get_name(&self) -> (name: String)
        ensures
            name@ == self.model().name,
    ;

    /// The provider's API key, if it has one.
    fn get_api_key(&self) -> (key: Option<String>)
        ensures
            text_of(key) == self.model().api_key,
    ;

    /// Gives the provider a new API key. Its name and kind stay.
    fn set_api_key(&mut self, api_key: &str)
        ensures
            final(self).model() == (ProviderModel {
                api_key: Some(api_key@),
                ..old(self).model()
            }),
    ;

    /// Begins a report for `address`: the request to send first, or
    /// `NoApiKeyError` where the provider has no key.
    fn locations_request(&self, address: &str) -> (next: Result<String, WeatherError>)
        ensures
            request_of(next) == first_step(self.model().kind, self.model().api_key, address@),
    ;

    /// Takes what came of the first request and gives the second, or the
    /// error that ends the report.
    fn conditions_request(&self, reply: Result<LocationsAnswer, String>) -> (next: Result<
        String,
        WeatherError,
    >)
        ensures
            request_of(next) == second_step(self.model().kind, self.model().api_key, reply),
    ;

    /// Takes what came of the second request and gives the report, or the
    /// error that ends it.
    fn read_report(&self, reply: Result<Vec<Reading>, String>) -> (out: Result<
        WeatherReport,
        WeatherError,
    >)
        ensures
            report_of(out) == last_step(self.model().kind, self.model().api_key, reply),
    ;
}

/// A copy of an optional string.
pub fn copy_text(text: &Option<String>) -> (copy: Option<String>)
    ensures
        copy == *text,
{
    match text {
        Some(t) => Some(t.clone()),
        None => None,
    }
}

/// The first request of a report by a provider of `kind` with `api_key`.
pub fn build_locations_request(kind: ProviderKind, api_key: &Option<String>, address: &str) -> (next:
    Result<String, WeatherError>)
    ensures
        request_of(next) == first_step(kind, text_of(*api_key), address@),
{
    match api_key {
        None => Err(WeatherError::NoApiKeyError),
        Some(key) => match kind {
            ProviderKind::Accuweather => Ok(
                String::from_str(
                    "http://dataservice.accuweather.com/locations/v1/cities/autocomplete?apikey=",
                ).concat(key.as_str()).concat("&q=").concat(address),
            ),
            ProviderKind::OpenWeather => Ok(
                String::from_str("http://api.openweathermap.org/geo/1.0/direct?q=").concat(
                    address,
                ).concat("&limit=1&appid=").concat(key.as_str()),
            ),
        },
    }
}

/// The address of the request for the conditions at `place`.
fn build_conditions_url(kind: ProviderKind, key: &String, place: &Place) -> (url: String)
    ensures
        url@ == conditions_url(kind, key@, *place),
{
    match kind {
        ProviderKind::Accuweather => String::from_str(
            "http://dataservice.accuweather.com/currentconditions/v1/",
        ).concat(place.key.as_str()).concat("?apikey=").concat(key.as_str()),
        ProviderKind::OpenWeather => String::from_str(
            "https://api.openweathermap.org/data/2.5/weather?units=metric&lat=",
        ).concat(place.latitude.as_str()).concat("&lon=").concat(place.longitude.as_str()).concat(
            "&appid=",
        ).concat(key.as_str()),
    }
}

/// The second request of a report by a provider of `kind` with `api_key`.
pub fn build_conditions_request(
    kind: ProviderKind,
    api_key: &Option<String>,
    reply: Result<LocationsAnswer, String>,
) -> (next: Result<String, WeatherError>)
    ensures
        request_of(next) == second_step(kind, text_of(*api_key), reply),
{
    match api_key {
        None => Err(WeatherError::NoApiKeyError),
        Some(key) => match reply {
            Err(detail) => Err(WeatherError::HttpError(detail)),
            Ok(answer) => {
                if answer.status != STATUS_OK {
                    Err(WeatherError::HttpError(answer.body))
                } else {
                    match answer.decoded {
                        Err(detail) => Err(WeatherError::HttpError(detail)),
                        Ok(places) => {
                            if places.len() == 0 {
                                Err(WeatherError::NoLocationFoundError)
                            } else {
                                Ok(build_conditions_url(kind, key, &places[0]))
                            }
                        },
                    }
                }
            },
        },
    }
}

/// The end of a report by a provider of `kind` with `api_key`.
pub fn build_report(
    kind: ProviderKind,
    api_key: &Option<String>,
    reply: Result<Vec<Reading>, String>,
) -> (out: Result<WeatherReport, WeatherError>)
    ensures
        report_of(out) == last_step(kind, text_of(*api_key), reply),
{
    match api_key {
        None => Err(WeatherError::NoApiKeyError),
        Some(_) => match reply {
            Err(detail) => Err(WeatherError::HttpError(detail)),
            Ok(readings) => {
                if readings.len() == 0 {
                    Err(WeatherError::NoReportFoundError)
                } else {
                    let first = &readings[0];
                    let line = match kind {
                        ProviderKind::Accuweather => first.value.clone().concat(" ").concat(
                            first.unit.as_str(),
                        ),
                        ProviderKind::OpenWeather => first.value.clone().concat(" C"),
                    };
                    Ok(WeatherReport { report: line })
                }
            },
        },
    }
}

} // verus!
