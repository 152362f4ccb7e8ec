//! What the commands of a weather tool do to a registry: setting it up on
//! first use, giving a provider its key, and listing the providers.

use vstd::prelude::*;
use vstd::string::StringExecFns;
use crate::api::provider_api::{text_of, ProviderKind, ProviderModel, WeatherProvider};
use crate::error::WeatherError;
use crate::providers::accuweather_api::AccuweatherProvider;
use crate::providers::openweather_api::OpenWeatherProvider;
use crate::providers::Provider;
use crate::storage::storage_api::{listed, RegistryModel, Storage};

verus! {

/// The Accuweather provider that a new registry starts with.
pub open spec fn builtin_accuweather() -> ProviderModel {
    ProviderModel { kind: ProviderKind::Accuweather, name: "Accuweather"@, api_key: None }
}

/// The OpenWeather provider that a new registry starts with.
pub open spec fn builtin_open_weather() -> ProviderModel {
    ProviderModel { kind: ProviderKind::OpenWeather, name: "OpenWeather"@, api_key: None }
}

/// Nothing is kept in the registry.
pub open spec fn keeps_nothing(registry: RegistryModel) -> bool {
    forall|name: Seq<char>| !registry.knows(name)
}

/// The provider kept under `name`, with `api_key` as its key.
pub open spec fn rekeyed(registry: RegistryModel, name: Seq<char>, api_key: Seq<char>) -> ProviderModel {
    ProviderModel { api_key: Some(api_key), ..registry.entries[name] }
}

/// The line that lists `provider`: its name, its key or the words "not set",
/// and whether it is the default, that is whether a default is set and is
/// its name.
pub open spec fn provider_line(provider: ProviderModel, default_name: Option<Seq<char>>) -> Seq<
    char,
> {
    "Provider: "@ + provider.name + ", API_KEY: "@ + (match provider.api_key {
        Some(key) => key,
        None => "not set"@,
    }) + ", default: "@ + (if default_name == Some(provider.name) {
        "true"@
    } else {
        "false"@
    })
}

/// Sets up a registry on first use: where nothing is kept yet, the two
/// built-in providers are added without keys, Accuweather first. Where
/// something is kept the registry stays as it is. No default is chosen.
/// The call fails only where the registry cannot keep a provider.
pub fn init_providers<S: Storage>(storage: &mut S) -> (done: Result<(), WeatherError>)
    requires
        old(storage).wf(),
    ensures
        final(storage).wf(),
        final(storage).dependable() == old(storage).dependable(),
        old(storage).dependable() ==> done is Ok,
        !keeps_nothing(old(storage).registry()) ==> done is Ok && final(storage).registry() == old(
            storage,
        ).registry(),
        keeps_nothing(old(storage).registry()) && done is Ok ==> final(storage).registry() == old(
            storage,
        ).registry().with_provider(builtin_accuweather()).with_provider(builtin_open_weather()),
{
    let all = storage.get_all();
    let fresh = all.len() == 0;
    proof {
        let list = listed(all@);
        if fresh {
            assert forall|name: Seq<char>| !storage.registry().knows(name) by {
                if storage.registry().entries.contains_key(name) {
                    let i = choose|i: int| 0 <= i < list.len() && (#[trigger] list[i]).name == name;
                    assert(false);
                }
            }
        } else {
            assert(storage.registry().knows(list[0].name));
        }
    }
    if fresh {
        storage.add(Provider::Accuweather(AccuweatherProvider::new("Accuweather", None)))?;
        storage.add(Provider::OpenWeather(OpenWeatherProvider::new("OpenWeather", None)))?;
    }
    Ok(())
}

/// Gives the provider called `provider_name` the key `api_key`: a copy of
/// the provider with the new key takes its place. Where no provider has the
/// name the call fails with `NoSuchProviderError` and changes nothing;
/// otherwise it fails only where the registry cannot keep the copy.
pub fn configure<S: Storage>(storage: &mut S, provider_name: &str, api_key: &str) -> (done: Result<
    (),
    WeatherError,
>)
    requires
        old(storage).wf(),
    ensures
        final(storage).wf(),
        final(storage).dependable() == old(storage).dependable(),
        old(storage).dependable() && old(storage).registry().knows(provider_name@) ==> done is Ok,
        !old(storage).registry().knows(provider_name@) ==> done == Err::<(), WeatherError>(
            WeatherError::NoSuchProviderError,
        ) && final(storage).registry() == old(storage).registry(),
        done is Ok ==> old(storage).registry().knows(provider_name@) && final(storage).registry()
            == old(storage).registry().with_provider(
            rekeyed(old(storage).registry(), provider_name@, api_key@),
        ),
{
    let kept = match storage.get(provider_name) {
        Some(provider) => Some(provider.clone()),
        None => None,
    };
    match kept {
        Some(mut provider) => {
            provider.set_api_key(api_key);
            storage.add(provider)
        },
        None => Err(WeatherError::NoSuchProviderError),
    }
}

/// The view of an optional name.
pub open spec fn name_of(name: Option<&str>) -> Option<Seq<char>> {
    match name {
        Some(n) => Some(n@),
        None => None,
    }
}

/// The line that lists `provider` where `default_name` is the default, if
/// one is set.
pub fn describe_provider(provider: &Provider, default_name: Option<&str>) -> (line: String)
    ensures
        line@ == provider_line(provider.model(), name_of(default_name)),
{
    let name = provider.get_name();
    let key = match provider.get_api_key() {
        Some(key) => key,
        None => String::from_str("not set"),
    };
    let is_default = match default_name {
        Some(n) => name == n.to_owned(),
        None => false,
    };
    let flag = if is_default {
        "true"
    } else {
        "false"
    };
    String::from_str("Provider: ").concat(name.as_str()).concat(", API_KEY: ").concat(
        key.as_str(),
    ).concat(", default: ").concat(flag)
}

/// The listing of a registry: one line for each provider that is kept, in
/// the registry's own order.
pub fn list_providers<S: Storage>(storage: &S) -> (lines: Vec<String>)
    requires
        storage.wf(),
    ensures
        lines@.len() == storage.listing().len(),
        forall|i: int|
            0 <= i < lines@.len() ==> (#[trigger] lines@[i])@ == provider_line(
                storage.listing()[i],
                storage.registry().default_name,
            ),
{
    let label = match storage.get_default_entry() {
        Some(provider) => Some(provider.get_name()),
        None => None,
    };
    proof {
        storage.registry_is_valid();
    }
    let all = storage.get_all();
    let ghost list = storage.listing();
    let mut lines: Vec<String> = Vec::new();
    let mut i: usize = 0;
    while i < all.len()
        invariant
            i <= all.len(),
            list == listed(all@),
            lines@.len() == i,
            text_of(label) == storage.registry().default_name,
            forall|j: int|
                0 <= j < i ==> (#[trigger] lines@[j])@ == provider_line(
                    list[j],
                    storage.registry().default_name,
                ),
        decreases all.len() - i,
    {
        let default_name = match &label {
            Some(name) => Some(name.as_str()),
            None => None,
        };
        lines.push(describe_provider(all[i], default_name));
        i += 1;
    }
    lines
}

} // verus!
