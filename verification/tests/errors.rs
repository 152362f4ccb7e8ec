use weather::error::WeatherError;

#[test]
fn every_kind_has_its_sentence() {
    assert_eq!(WeatherError::CliParserError.message(), "Failed to parse cli.");
    assert_eq!(WeatherError::ReportDataError.message(), "Failed to fetch report data.");
    assert_eq!(WeatherError::ReadConfigFileError.message(), "Failed to read config file.");
    assert_eq!(
        WeatherError::NoSuchProviderError.message(),
        "No provider is found in configuration."
    );
    assert_eq!(WeatherError::NoDefaultProviderError.message(), "No default provider.");
    assert_eq!(WeatherError::NoApiKeyError.message(), "No API_KEY provided");
    assert_eq!(
        WeatherError::HttpError("boom".to_owned()).message(),
        "Failed to execute http request"
    );
    assert_eq!(
        WeatherError::NoLocationFoundError.message(),
        "No location found to provide a report."
    );
    assert_eq!(
        WeatherError::NoReportFoundError.message(),
        "No report found for provided location."
    );
}

#[test]
fn description_adds_the_detail_of_an_http_error() {
    assert_eq!(
        WeatherError::HttpError("connection refused".to_owned()).describe(),
        "Failed to execute http request. connection refused"
    );
    assert_eq!(WeatherError::HttpError(String::new()).describe(), "Failed to execute http request. ");
}

#[test]
fn description_of_the_other_kinds_is_the_sentence() {
    assert_eq!(WeatherError::NoApiKeyError.describe(), "No API_KEY provided");
    assert_eq!(WeatherError::NoDefaultProviderError.describe(), "No default provider.");
    assert_eq!(WeatherError::ReadConfigFileError.describe(), "Failed to read config file.");
}

#[test]
fn errors_compare_by_kind_and_detail() {
    assert_eq!(WeatherError::HttpError("a".to_owned()), WeatherError::HttpError("a".to_owned()));
    assert_ne!(WeatherError::HttpError("a".to_owned()), WeatherError::HttpError("b".to_owned()));
    assert_ne!(WeatherError::NoLocationFoundError, WeatherError::NoReportFoundError);
}

#[test]
fn an_io_failure_is_a_config_file_error() {
    let error = std::io::Error::new(std::io::ErrorKind::NotFound, "gone");
    assert_eq!(WeatherError::from(error), WeatherError::ReadConfigFileError);
}

#[test]
fn a_json_failure_is_a_config_file_error() {
    let error = serde_json::from_str::<serde_json::Value>("{").unwrap_err();
    assert_eq!(WeatherError::from(error), WeatherError::ReadConfigFileError);
}

#[test]
fn a_command_line_failure_is_a_parser_error() {
    let mut command = clap::Command::new("weather");
    let error = command.error(clap::ErrorKind::MissingSubcommand, "no command");
    assert_eq!(WeatherError::from(error), WeatherError::CliParserError);
}
