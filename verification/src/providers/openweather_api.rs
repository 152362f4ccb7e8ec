//! The provider that asks OpenWeather.

use vstd::prelude::*;
use vstd::string::StringExecFns;
use crate::api::provider_api::{
    build_conditions_request, build_locations_request, build_report, copy_text, LocationsAnswer,
    ProviderKind, ProviderModel, Reading, WeatherProvider, WeatherReport, text_of,
};
use crate::error::WeatherError;

verus! {

/// A provider that asks OpenWeather: first for the coordinates of the
/// location that the address names, then for the weather at them.
#[derive(Debug, PartialEq, Eq)]
pub struct OpenWeatherProvider {
    provider_name: String,
    api_key: Option<String>,
}

impl OpenWeatherProvider {
    /// A provider called `provider_name`, with the key if one is given.
    pub fn new(provider_name: &str, api_key: Option<&str>) -> (provider: Self)
        ensures
            provider.model() == (ProviderModel {
                kind: ProviderKind::OpenWeather,
                name: provider_name@,
                api_key: match api_key {
                    Some(k) => Some(k@),
                    None => None,
                },
            }),
    {
        let key = match api_key {
            Some(k) => Some(String::from_str(k)),
            None => None,
        };
        OpenWeatherProvider { provider_name: String::from_str(provider_name), api_key: key }
    }

    /// Every value of this type is of the OpenWeather kind.
    pub proof fn kind_is_open_weather(&self)
        ensures
            self.model().kind == ProviderKind::OpenWeather,
    {
    }
}

impl WeatherProvider for OpenWeatherProvider {
    closed spec fn model(&self) -> ProviderModel {
        ProviderModel {
            kind: ProviderKind::OpenWeather,
            name: self.provider_name@,
            api_key: text_of(self.api_key),
        }
    }

    fn get_name(&self) -> (name: String) {
        self.provider_name.clone()
    }

    fn get_api_key(&self) -> (key: Option<String>) {
        copy_text(&self.api_key)
    }

    fn set_api_key(&mut self, api_key: &str) {
        self.api_key = Some(String::from_str(api_key));
    }

    fn locations_request(&self, address: &str) -> (next: Result<String, WeatherError>) {
        build_locations_request(ProviderKind::OpenWeather, &self.api_key, address)
    }

    fn conditions_request(&self, reply: Result<LocationsAnswer, String>) -> (next: Result<
        String,
        WeatherError,
    >) {
        build_conditions_request(ProviderKind::OpenWeather, &self.api_key, reply)
    }

    fn read_report(&self, reply: Result<Vec<Reading>, String>) -> (out: Result<
        WeatherReport,
        WeatherError,
    >) {
        build_report(ProviderKind::OpenWeather, &self.api_key, reply)
    }
}

impl Clone for OpenWeatherProvider {
    fn clone(&self) -> (copy: Self)
        ensures
            copy == *self,
    {
        OpenWeatherProvider {
            provider_name: self.provider_name.clone(),
            api_key: copy_text(&self.api_key),
        }
    }
}

} // verus!
