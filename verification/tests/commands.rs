use weather::api::provider_api::WeatherProvider;
use weather::commands::{configure, describe_provider, init_providers, list_providers};
use weather::error::WeatherError;
use weather::providers::accuweather_api::AccuweatherProvider;
use weather::providers::openweather_api::OpenWeatherProvider;
use weather::providers::Provider;
use weather::storage::json_storage::JsonStorage;
use weather::storage::storage_api::Storage;

#[test]
fn first_use_adds_the_two_providers_without_keys() {
    let mut storage = JsonStorage::new("registry.json", None).unwrap();
    assert_eq!(init_providers(&mut storage), Ok(()));
    assert_eq!(storage.get_all().len(), 2);
    assert_eq!(
        storage.get("Accuweather"),
        Some(&Provider::Accuweather(AccuweatherProvider::new("Accuweather", None)))
    );
    assert_eq!(
        storage.get("OpenWeather"),
        Some(&Provider::OpenWeather(OpenWeatherProvider::new("OpenWeather", None)))
    );
    assert!(storage.get_default_entry().is_none());
}

#[test]
fn later_use_leaves_the_registry_alone() {
    let mut storage = JsonStorage::new("registry.json", None).unwrap();
    storage.add(Provider::Accuweather(AccuweatherProvider::new("Mine", Some("k")))).unwrap();
    storage.set_default_entry("Mine").unwrap();
    assert_eq!(init_providers(&mut storage), Ok(()));
    assert_eq!(storage.get_all().len(), 1);
    assert!(storage.get("Accuweather").is_none());
    assert_eq!(storage.get_default_entry().unwrap().get_name(), "Mine");
}

#[test]
fn configure_gives_the_provider_its_key() {
    let mut storage = JsonStorage::new("registry.json", None).unwrap();
    init_providers(&mut storage).unwrap();
    assert_eq!(configure(&mut storage, "OpenWeather", "secret"), Ok(()));
    assert_eq!(
        storage.get("OpenWeather"),
        Some(&Provider::OpenWeather(OpenWeatherProvider::new("OpenWeather", Some("secret"))))
    );
    assert_eq!(storage.get("Accuweather").unwrap().get_api_key(), None);
    assert_eq!(storage.get_all().len(), 2);
    assert_eq!(configure(&mut storage, "OpenWeather", "other"), Ok(()));
    assert_eq!(storage.get("OpenWeather").unwrap().get_api_key(), Some("other".to_owned()));
}

#[test]
fn configure_refuses_an_unknown_provider() {
    let mut storage = JsonStorage::new("registry.json", None).unwrap();
    init_providers(&mut storage).unwrap();
    assert_eq!(configure(&mut storage, "Nobody", "secret"), Err(WeatherError::NoSuchProviderError));
    assert_eq!(storage.get_all().len(), 2);
    assert!(storage.get("Nobody").is_none());
}

#[test]
fn a_line_names_key_and_default() {
    let keyed = Provider::Accuweather(AccuweatherProvider::new("Accuweather", Some("abc")));
    assert_eq!(
        describe_provider(&keyed, Some("Accuweather")),
        "Provider: Accuweather, API_KEY: abc, default: true"
    );
    assert_eq!(
        describe_provider(&keyed, Some("OpenWeather")),
        "Provider: Accuweather, API_KEY: abc, default: false"
    );
    let bare = Provider::OpenWeather(OpenWeatherProvider::new("OpenWeather", None));
    assert_eq!(
        describe_provider(&bare, None),
        "Provider: OpenWeather, API_KEY: not set, default: false"
    );
}

#[test]
fn a_provider_without_a_name_is_no_default_where_none_is_set() {
    let nameless = Provider::OpenWeather(OpenWeatherProvider::new("", None));
    assert_eq!(describe_provider(&nameless, None), "Provider: , API_KEY: not set, default: false");
    assert_eq!(
        describe_provider(&nameless, Some("")),
        "Provider: , API_KEY: not set, default: true"
    );
    let mut storage = JsonStorage::new("registry.json", None).unwrap();
    storage.add(nameless).unwrap();
    assert_eq!(
        list_providers(&storage),
        vec!["Provider: , API_KEY: not set, default: false".to_owned()]
    );
    storage.set_default_entry("").unwrap();
    assert_eq!(
        list_providers(&storage),
        vec!["Provider: , API_KEY: not set, default: true".to_owned()]
    );
}

#[test]
fn the_listing_has_a_line_for_each_provider() {
    let mut storage = JsonStorage::new("registry.json", None).unwrap();
    init_providers(&mut storage).unwrap();
    configure(&mut storage, "Accuweather", "abc").unwrap();
    storage.set_default_entry("OpenWeather").unwrap();
    assert_eq!(
        list_providers(&storage),
        vec![
            "Provider: Accuweather, API_KEY: abc, default: false".to_owned(),
            "Provider: OpenWeather, API_KEY: not set, default: true".to_owned(),
        ]
    );
}

#[test]
fn the_listing_of_a_registry_without_default_marks_none() {
    let mut storage = JsonStorage::new("registry.json", None).unwrap();
    init_providers(&mut storage).unwrap();
    assert_eq!(
        list_providers(&storage),
        vec![
            "Provider: Accuweather, API_KEY: not set, default: false".to_owned(),
            "Provider: OpenWeather, API_KEY: not set, default: false".to_owned(),
        ]
    );
    let empty = JsonStorage::new("registry.json", None).unwrap();
    assert_eq!(list_providers(&empty), Vec::<String>::new());
}
