//! The providers that the library knows, and the one type that stands for
//! any of them.

pub mod accuweather_api;
pub mod openweather_api;

use vstd::prelude::*;
use crate::api::provider_api::{
    text_of, LocationsAnswer, ProviderKind, ProviderModel, Reading, WeatherProvider,
    WeatherReport,
};
use crate::error::WeatherError;
use crate::providers::accuweather_api::AccuweatherProvider;
use crate::providers::openweather_api::OpenWeatherProvider;

verus! {

/// Any provider: the value that a registry keeps under a name.
#[derive(Debug, PartialEq, Eq)]
pub enum Provider {
    Accuweather(AccuweatherProvider),
    OpenWeather(OpenWeatherProvider),
}

/// A provider as it is written to storage: the tag that says which kind it
/// is, its name and its key.
#[derive(Debug, PartialEq, Eq)]
pub struct ProviderRecord {
    pub kind: ProviderKind,
    pub name: String,
    pub api_key: Option<String>,
}

impl ProviderRecord {
    /// The provider that the record describes.
    pub open spec fn model(&self) -> ProviderModel {
        ProviderModel { kind: self.kind, name: self.name@, api_key: text_of(self.api_key) }
    }
}

impl WeatherProvider for Provider {
    open spec fn model(&self) -> ProviderModel {
        match self {
            Provider::Accuweather(p) => p.model(),
            Provider::OpenWeather(p) => p.model(),
        }
    }

    fn get_name(&self) -> (name: String) {
        match self {
            Provider::Accuweather(p) => p.get_name(),
            Provider::OpenWeather(p) => p.get_name(),
        }
    }

    fn get_api_key(&self) -> (key: Option<String>) {
        match self {
            Provider::Accuweather(p) => p.get_api_key(),
            Provider::OpenWeather(p) => p.get_api_key(),
        }
    }

    fn set_api_key(&mut self, api_key: &str) {
        match self {
            Provider::Accuweather(p) => p.set_api_key(api_key),
            Provider::OpenWeather(p) => p.set_api_key(api_key),
        }
    }

    fn locations_request(&self, address: &str) -> (next: Result<String, WeatherError>) {
        match self {
            Provider::Accuweather(p) => p.locations_request(address),
            Provider::OpenWeather(p) => p.locations_request(address),
        }
    }

    fn conditions_request(&self, reply: Result<LocationsAnswer, String>) -> (next: Result<
        String,
        WeatherError,
    >) {
        match self {
            Provider::Accuweather(p) => p.conditions_request(reply),
            Provider::OpenWeather(p) => p.conditions_request(reply),
        }
    }

    fn read_report(&self, reply: Result<Vec<Reading>, String>) -> (out: Result<
        WeatherReport,
        WeatherError,
    >) {
        match self {
            Provider::Accuweather(p) => p.read_report(reply),
            Provider::OpenWeather(p) => p.read_report(reply),
        }
    }
}

impl Clone for Provider {
    fn clone(&self) -> (copy: Self)
        ensures
            copy == *self,
    {
        match self {
            Provider::Accuweather(p) => Provider::Accuweather(p.clone()),
            Provider::OpenWeather(p) => Provider::OpenWeather(p.clone()),
        }
    }
}

impl Provider {
    /// Which service the provider talks to.
    pub fn kind(&self) -> (kind: ProviderKind)
        ensures
            kind == self.model().kind,
    {
        match self {
            Provider::Accuweather(p) => {
                proof {
                    p.kind_is_accuweather();
                }
                ProviderKind::Accuweather
            },
            Provider::OpenWeather(p) => {
                proof {
                    p.kind_is_open_weather();
                }
                ProviderKind::OpenWeather
            },
        }
    }

    /// The provider of the kind that the record's tag names, with the
    /// record's name and key.
    pub fn from_record(record: &ProviderRecord) -> (provider: Provider)
        ensures
            provider.model() == record.model(),
    {
        let key: Option<&str> = match &record.api_key {
            Some(k) => Some(k.as_str()),
            None => None,
        };
        match record.kind {
            ProviderKind::Accuweather => Provider::Accuweather(
                AccuweatherProvider::new(record.name.as_str(), key),
            ),
            ProviderKind::OpenWeather => Provider::OpenWeather(
                OpenWeatherProvider::new(record.name.as_str(), key),
            ),
        }
    }

    /// The record that describes the provider.
    pub fn to_record(&self) -> (record: ProviderRecord)
        ensures
            record.model() == self.model(),
    {
        let api_key = self.get_api_key();
        ProviderRecord { kind: self.kind(), name: self.get_name(), api_key }
    }
}

/// A record and the provider made from it describe the same provider, and
/// the record written for that provider is again the same.
pub proof fn lemma_record_round_trip(record: ProviderRecord, provider: Provider, again: ProviderRecord)
    requires
        provider.model() == record.model(),
        again.model() == provider.model(),
    ensures
        again.model() == record.model(),
        again.kind == record.kind,
        again.name@ == record.name@,
        text_of(again.api_key) == text_of(record.api_key),
{
}

} // verus!
