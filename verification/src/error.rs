//! The errors of the library.
//!
//! Only an HTTP error carries a detail; the other kinds are told apart by
//! the kind alone. That no default provider is set is an error that a caller
//! may report and go on from.

use vstd::prelude::*;
use vstd::string::StringExecFns;

verus! {

/// What can go wrong while configuring providers or fetching a report.
#[derive(Clone, Debug, PartialEq, Eq)]
pub enum WeatherError {
    /// The command line could not be parsed.
    CliParserError,
    /// The report's data could not be fetched.
    ReportDataError,
    /// The registry's file could not be read, or what it holds is no registry.
    ReadConfigFileError,
    /// No provider of the given name is registered.
    NoSuchProviderError,
    /// No default provider is set.
    NoDefaultProviderError,
    /// The provider has no API key.
    NoApiKeyError,
    /// An HTTP request failed; the detail says how.
    HttpError(String),
    /// The address resolved to no location.
    NoLocationFoundError,
    /// The location yielded no report.
    NoReportFoundError,
}

impl WeatherError {
    /// The fixed sentence that names this kind of error.
    pub open spec fn message_text(self) -> Seq<char> {
        match self {
            WeatherError::CliParserError => "Failed to parse cli."@,
            WeatherError::ReportDataError => "Failed to fetch report data."@,
            WeatherError::ReadConfigFileError => "Failed to read config file."@,
            WeatherError::NoSuchProviderError => "No provider is found in configuration."@,
            WeatherError::NoDefaultProviderError => "No default provider."@,
            WeatherError::NoApiKeyError => "No API_KEY provided"@,
            WeatherError::HttpError(_) => "Failed to execute http request"@,
            WeatherError::NoLocationFoundError => "No location found to provide a report."@,
            WeatherError::NoReportFoundError => "No report found for provided location."@,
        }
    }

    /// The sentence followed, for an HTTP error, by a full stop, a space and the detail.
    pub open spec fn description_text(self) -> Seq<char> {
        match self {
            WeatherError::HttpError(detail) => self.message_text() + ". "@ + detail@,
            _ => self.message_text(),
        }
    }

    /// The error's sentence, as shown to the user.
    pub fn message(&self) -> (text: String)
        ensures
            text@ == self.message_text(),
    {
        match self {
            WeatherError::CliParserError => String::from_str("Failed to parse cli."),
            WeatherError::ReportDataError => String::from_str("Failed to fetch report data."),
            WeatherError::ReadConfigFileError => String::from_str("Failed to read config file."),
            WeatherError::NoSuchProviderError => String::from_str(
                "No provider is found in configuration.",
            ),
            WeatherError::NoDefaultProviderError => String::from_str("No default provider."),
            WeatherError::NoApiKeyError => String::from_str("No API_KEY provided"),
            WeatherError::HttpError(_) => String::from_str("Failed to execute http request"),
            WeatherError::NoLocationFoundError => String::from_str(
                "No location found to provide a report.",
            ),
            WeatherError::NoReportFoundError => String::from_str(
                "No report found for provided location.",
            ),
        }
    }

    /// The error's sentence with its detail, as shown when a command fails.
    pub fn describe(&self) -> (text: String)
        ensures
            text@ == self.description_text(),
    {
        match self {
            WeatherError::HttpError(detail) => {
                self.message().concat(". ").concat(detail.as_str())
            },
            _ => self.message(),
        }
    }
}

/// `std::io::Error`, of which nothing is known here.
#[verifier::external_type_specification]
#[verifier::external_body]
pub struct ExIoError(std::io::Error);

/// `serde_json::Error`, of which nothing is known here.
#[verifier::external_type_specification]
#[verifier::external_body]
pub struct ExJsonError(serde_json::Error);

/// `clap::Error`, of which nothing is known here.
#[verifier::external_type_specification]
#[verifier::external_body]
pub struct ExCliError(clap::Error);

/// A file that cannot be read or written is a registry that cannot be read.
impl From<std::io::Error> for WeatherError {
    fn from(error: std::io::Error) -> (e: Self) {
        WeatherError::ReadConfigFileError
    }
}

impl vstd::std_specs::convert::FromSpecImpl<std::io::Error> for WeatherError {
    open spec fn obeys_from_spec() -> bool {
        true
    }

    open spec fn from_spec(error: std::io::Error) -> Self {
        WeatherError::ReadConfigFileError
    }
}

/// A file that holds no JSON of the right shape is a registry that cannot
/// be read.
impl From<serde_json::Error> for WeatherError {
    fn from(error: serde_json::Error) -> (e: Self) {
        WeatherError::ReadConfigFileError
    }
}

impl vstd::std_specs::convert::FromSpecImpl<serde_json::Error> for WeatherError {
    open spec fn obeys_from_spec() -> bool {
        true
    }

    open spec fn from_spec(error: serde_json::Error) -> Self {
        WeatherError::ReadConfigFileError
    }
}

/// A command line that cannot be parsed.
impl From<clap::Error> for WeatherError {
    fn from(error: clap::Error) -> (e: Self) {
        WeatherError::CliParserError
    }
}

impl vstd::std_specs::convert::FromSpecImpl<clap::Error> for WeatherError {
    open spec fn obeys_from_spec() -> bool {
        true
    }

    open spec fn from_spec(error: clap::Error) -> Self {
        WeatherError::CliParserError
    }
}

} // verus!
