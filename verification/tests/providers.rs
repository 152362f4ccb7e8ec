use weather::api::provider_api::{
    LocationsAnswer, Place, ProviderKind, Reading, WeatherProvider, WeatherReport,
};
use weather::error::WeatherError;
use weather::providers::accuweather_api::AccuweatherProvider;
use weather::providers::openweather_api::OpenWeatherProvider;
use weather::providers::{Provider, ProviderRecord};

fn place(key: &str, latitude: &str, longitude: &str) -> Place {
    Place { key: key.to_owned(), latitude: latitude.to_owned(), longitude: longitude.to_owned() }
}

fn reading(value: &str, unit: &str) -> Reading {
    Reading { value: value.to_owned(), unit: unit.to_owned() }
}

fn answer(status: u16, body: &str, places: Vec<Place>) -> Result<LocationsAnswer, String> {
    Ok(LocationsAnswer { status, body: body.to_owned(), decoded: Ok(places) })
}

#[test]
fn no_api_key_error_expected() {
    let provider = AccuweatherProvider::new("testprovider", None);
    let result = provider.locations_request("foo");
    assert_eq!(Err(WeatherError::NoApiKeyError), result);
}

#[test]
fn some_invalid_api_key_error_expected() {
    let provider = AccuweatherProvider::new("testprovider", Some("somekey"));
    let request = provider.locations_request("foo").unwrap();
    assert!(request.ends_with("/locations/v1/cities/autocomplete?apikey=somekey&q=foo"));
    let body = "{\"Code\":\"Unauthorized\",\"Message\":\"Api Authorization failed\",\"Reference\":\"/locations/v1/cities/autocomplete?apikey=somekey&q=foo\"}";
    let result = provider.conditions_request(Ok(LocationsAnswer {
        status: 401,
        body: body.to_owned(),
        decoded: Err("invalid type: map, expected a sequence".to_owned()),
    }));
    assert_eq!(Err(WeatherError::HttpError("{\"Code\":\"Unauthorized\",\"Message\":\"Api Authorization failed\",\"Reference\":\"/locations/v1/cities/autocomplete?apikey=somekey&q=foo\"}".to_owned())), result);
}

#[test]
fn open_weather_without_key_asks_nothing() {
    let provider = OpenWeatherProvider::new("testprovider", None);
    assert_eq!(provider.locations_request("foo"), Err(WeatherError::NoApiKeyError));
    assert_eq!(
        provider.conditions_request(answer(200, "[]", vec![place("", "1", "2")])),
        Err(WeatherError::NoApiKeyError)
    );
    assert_eq!(
        provider.read_report(Ok(vec![reading("1", "C")])),
        Err(WeatherError::NoApiKeyError)
    );
}

#[test]
fn accuweather_without_key_never_gives_a_request() {
    let provider = AccuweatherProvider::new("testprovider", None);
    assert_eq!(
        provider.conditions_request(answer(200, "[]", vec![place("42", "", "")])),
        Err(WeatherError::NoApiKeyError)
    );
    assert_eq!(provider.read_report(Err("down".to_owned())), Err(WeatherError::NoApiKeyError));
}

#[test]
fn new_keeps_name_and_key() {
    let with_key = AccuweatherProvider::new("Accuweather", Some("secret"));
    assert_eq!(with_key.get_name(), "Accuweather");
    assert_eq!(with_key.get_api_key(), Some("secret".to_owned()));
    let without = OpenWeatherProvider::new("OpenWeather", None);
    assert_eq!(without.get_name(), "OpenWeather");
    assert_eq!(without.get_api_key(), None);
}

#[test]
fn set_api_key_replaces_the_key_only() {
    let mut provider = OpenWeatherProvider::new("OpenWeather", Some("old"));
    provider.set_api_key("new");
    assert_eq!(provider.get_api_key(), Some("new".to_owned()));
    assert_eq!(provider.get_name(), "OpenWeather");
    let mut any = Provider::Accuweather(AccuweatherProvider::new("A", None));
    any.set_api_key("k");
    assert_eq!(any.get_api_key(), Some("k".to_owned()));
    assert_eq!(any.get_name(), "A");
    assert_eq!(any.kind(), ProviderKind::Accuweather);
}

#[test]
fn accuweather_locations_request_is_exact() {
    let provider = AccuweatherProvider::new("a", Some("KEY"));
    assert_eq!(
        provider.locations_request("Kyiv"),
        Ok("http://dataservice.accuweather.com/locations/v1/cities/autocomplete?apikey=KEY&q=Kyiv"
            .to_owned())
    );
}

#[test]
fn open_weather_locations_request_is_exact() {
    let provider = OpenWeatherProvider::new("o", Some("KEY"));
    assert_eq!(
        provider.locations_request("Kyiv"),
        Ok("http://api.openweathermap.org/geo/1.0/direct?q=Kyiv&limit=1&appid=KEY".to_owned())
    );
}

#[test]
fn accuweather_conditions_request_uses_the_first_key() {
    let provider = AccuweatherProvider::new("a", Some("KEY"));
    let reply = answer(200, "[..]", vec![place("324505", "", ""), place("999", "", "")]);
    assert_eq!(
        provider.conditions_request(reply),
        Ok("http://dataservice.accuweather.com/currentconditions/v1/324505?apikey=KEY".to_owned())
    );
}

#[test]
fn open_weather_conditions_request_uses_the_first_coordinates() {
    let provider = OpenWeatherProvider::new("o", Some("KEY"));
    let reply = answer(200, "[..]", vec![place("", "50.45", "30.52"), place("", "0", "0")]);
    assert_eq!(
        provider.conditions_request(reply),
        Ok("https://api.openweathermap.org/data/2.5/weather?units=metric&lat=50.45&lon=30.52&appid=KEY".to_owned())
    );
}

#[test]
fn a_failed_request_is_an_http_error_with_its_detail() {
    let provider = OpenWeatherProvider::new("o", Some("KEY"));
    assert_eq!(
        provider.conditions_request(Err("dns error".to_owned())),
        Err(WeatherError::HttpError("dns error".to_owned()))
    );
    assert_eq!(
        provider.read_report(Err("timed out".to_owned())),
        Err(WeatherError::HttpError("timed out".to_owned()))
    );
}

#[test]
fn a_status_other_than_ok_gives_the_body() {
    let provider = OpenWeatherProvider::new("o", Some("KEY"));
    assert_eq!(
        provider.conditions_request(answer(404, "not found", vec![place("", "1", "2")])),
        Err(WeatherError::HttpError("not found".to_owned()))
    );
    assert_eq!(
        provider.conditions_request(answer(201, "created", vec![place("", "1", "2")])),
        Err(WeatherError::HttpError("created".to_owned()))
    );
}

#[test]
fn an_answer_that_cannot_be_decoded_gives_the_decoders_detail() {
    let provider = AccuweatherProvider::new("a", Some("KEY"));
    let reply = Ok(LocationsAnswer {
        status: 200,
        body: "<html>".to_owned(),
        decoded: Err("expected value at line 1 column 1".to_owned()),
    });
    assert_eq!(
        provider.conditions_request(reply),
        Err(WeatherError::HttpError("expected value at line 1 column 1".to_owned()))
    );
}

#[test]
fn no_location_is_an_error() {
    let accuweather = AccuweatherProvider::new("a", Some("KEY"));
    assert_eq!(
        accuweather.conditions_request(answer(200, "[]", vec![])),
        Err(WeatherError::NoLocationFoundError)
    );
    let open_weather = OpenWeatherProvider::new("o", Some("KEY"));
    assert_eq!(
        open_weather.conditions_request(answer(200, "[]", vec![])),
        Err(WeatherError::NoLocationFoundError)
    );
}

#[test]
fn no_reading_is_an_error() {
    let provider = AccuweatherProvider::new("a", Some("KEY"));
    assert_eq!(provider.read_report(Ok(vec![])), Err(WeatherError::NoReportFoundError));
}

#[test]
fn accuweather_reports_value_and_unit() {
    let provider = AccuweatherProvider::new("a", Some("KEY"));
    assert_eq!(
        provider.read_report(Ok(vec![reading("21.5", "C"), reading("70", "F")])),
        Ok(WeatherReport { report: "21.5 C".to_owned() })
    );
}

#[test]
fn open_weather_reports_in_celsius() {
    let provider = OpenWeatherProvider::new("o", Some("KEY"));
    let report = provider.read_report(Ok(vec![reading("-3.2", "K")])).unwrap();
    assert_eq!(report, WeatherReport { report: "-3.2 C".to_owned() });
    assert_eq!(report.text(), "-3.2 C");
}

#[test]
fn any_provider_does_what_its_kind_does() {
    let any = Provider::OpenWeather(OpenWeatherProvider::new("o", Some("KEY")));
    assert_eq!(any.kind(), ProviderKind::OpenWeather);
    assert_eq!(
        any.locations_request("Lviv"),
        Ok("http://api.openweathermap.org/geo/1.0/direct?q=Lviv&limit=1&appid=KEY".to_owned())
    );
    assert_eq!(
        any.read_report(Ok(vec![reading("5", "")])),
        Ok(WeatherReport { report: "5 C".to_owned() })
    );
    let other = Provider::Accuweather(AccuweatherProvider::new("a", Some("KEY")));
    assert_eq!(
        other.conditions_request(answer(200, "", vec![place("7", "", "")])),
        Ok("http://dataservice.accuweather.com/currentconditions/v1/7?apikey=KEY".to_owned())
    );
}

#[test]
fn a_clone_is_equal() {
    let provider = Provider::Accuweather(AccuweatherProvider::new("a", Some("KEY")));
    let copy = provider.clone();
    assert_eq!(copy, provider);
    assert_eq!(copy.get_api_key(), Some("KEY".to_owned()));
}

#[test]
fn records_and_providers_convert_both_ways() {
    let record = ProviderRecord {
        kind: ProviderKind::OpenWeather,
        name: "OpenWeather".to_owned(),
        api_key: Some("k".to_owned()),
    };
    let provider = Provider::from_record(&record);
    assert_eq!(provider, Provider::OpenWeather(OpenWeatherProvider::new("OpenWeather", Some("k"))));
    assert_eq!(provider.to_record(), record);
    let bare = ProviderRecord {
        kind: ProviderKind::Accuweather,
        name: "Accuweather".to_owned(),
        api_key: None,
    };
    let provider = Provider::from_record(&bare);
    assert_eq!(provider, Provider::Accuweather(AccuweatherProvider::new("Accuweather", None)));
    assert_eq!(provider.to_record(), bare);
}
