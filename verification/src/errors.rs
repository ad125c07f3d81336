//! Error taxonomy of the search pipeline and of configuration validation,
//! with exact, spec-level message text.

use vstd::prelude::*;
use vstd::string::StringExecFns;

verus! {

/// Everything that can go wrong between building a request and extracting
/// results. All variants are recoverable at the session level.
#[derive(Debug, Clone)]
pub enum SearchError {
    NetworkError(String),
    RateLimited,
    Blocked,
    InvalidResponse(String),
    Timeout,
    Other(String),
    NoResults,
    Unknown,
}

/// A search error as mathematics: the variant with its detail text.
#[verifier::ext_equal]
pub ghost enum ErrorView {
    Network(Seq<char>),
    RateLimited,
    Blocked,
    InvalidResponse(Seq<char>),
    Timeout,
    Other(Seq<char>),
    NoResults,
    Unknown,
}

impl View for SearchError {
    type V = ErrorView;

    open spec fn view(&self) -> ErrorView {
        match self {
            SearchError::NetworkError(d) => ErrorView::Network(d@),
            SearchError::RateLimited => ErrorView::RateLimited,
            SearchError::Blocked => ErrorView::Blocked,
            SearchError::InvalidResponse(d) => ErrorView::InvalidResponse(d@),
            SearchError::Timeout => ErrorView::Timeout,
            SearchError::Other(d) => ErrorView::Other(d@),
            SearchError::NoResults => ErrorView::NoResults,
            SearchError::Unknown => ErrorView::Unknown,
        }
    }
}

/// The user-facing text of an error view.
pub open spec fn error_view_message(e: ErrorView) -> Seq<char> {
    match e {
        ErrorView::Network(d) => "Network error: "@ + d,
        ErrorView::RateLimited => "Rate limited by search engine"@,
        ErrorView::Blocked => "Search engine blocked the request"@,
        ErrorView::InvalidResponse(d) => "Invalid response from search engine: "@ + d,
        ErrorView::Timeout => "Request timeout"@,
        ErrorView::Other(d) => "Other error: "@ + d,
        ErrorView::NoResults => "No search results found"@,
        ErrorView::Unknown => "Unknown error occurred"@,
    }
}

/// The user-facing text of each `SearchError` variant.
pub open spec fn search_error_message(e: SearchError) -> Seq<char> {
    error_view_message(e@)
}

impl SearchError {
    /// An identical copy of the error.
    pub fn duplicate(&self) -> (r: Self)
        ensures
            r@ == self@,
    {
        match self {
            SearchError::NetworkError(d) => SearchError::NetworkError(d.clone()),
            SearchError::RateLimited => SearchError::RateLimited,
            SearchError::Blocked => SearchError::Blocked,
            SearchError::InvalidResponse(d) => SearchError::InvalidResponse(d.clone()),
            SearchError::Timeout => SearchError::Timeout,
            SearchError::Other(d) => SearchError::Other(d.clone()),
            SearchError::NoResults => SearchError::NoResults,
            SearchError::Unknown => SearchError::Unknown,
        }
    }

    /// Renders the error as its user-facing text.
    pub fn message(&self) -> (r: String)
        ensures
            r@ == search_error_message(*self),
    {
        match self {
            SearchError::NetworkError(d) => String::from_str("Network error: ").concat(
                d.as_str(),
            ),
            SearchError::RateLimited => String::from_str("Rate limited by search engine"),
            SearchError::Blocked => String::from_str("Search engine blocked the request"),
            SearchError::InvalidResponse(d) => String::from_str(
                "Invalid response from search engine: ",
            ).concat(d.as_str()),
            SearchError::Timeout => String::from_str("Request timeout"),
            SearchError::Other(d) => String::from_str("Other error: ").concat(d.as_str()),
            SearchError::NoResults => String::from_str("No search results found"),
            SearchError::Unknown => String::from_str("Unknown error occurred"),
        }
    }
}

/// Everything that can go wrong while loading and validating the settings.
/// The detail of an I/O or parse failure is carried as plain text.
#[derive(Debug, Clone)]
pub enum ConfigError {
    NoHomeDir,
    NoConfigDir,
    CreateDir(String),
    ParseError(String),
    ValidationError(String),
}

/// The user-facing text of each `ConfigError` variant.
pub open spec fn config_error_message(e: ConfigError) -> Seq<char> {
    match e {
        ConfigError::NoHomeDir => "Failed to find home directory"@,
        ConfigError::NoConfigDir => "Failed to find config directory"@,
        ConfigError::CreateDir(d) => "Failed to create config directory: "@ + d@,
        ConfigError::ParseError(d) => "Failed to parse config file: "@ + d@,
        ConfigError::ValidationError(d) => "Invalid configuration value: "@ + d@,
    }
}

impl ConfigError {
    /// Renders the error as its user-facing text.
    pub fn message(&self) -> (r: String)
        ensures
            r@ == config_error_message(*self),
    {
        match self {
            ConfigError::NoHomeDir => String::from_str("Failed to find home directory"),
            ConfigError::NoConfigDir => String::from_str("Failed to find config directory"),
            ConfigError::CreateDir(d) => String::from_str(
                "Failed to create config directory: ",
            ).concat(d.as_str()),
            ConfigError::ParseError(d) => String::from_str("Failed to parse config file: ").concat(
                d.as_str(),
            ),
            ConfigError::ValidationError(d) => String::from_str(
                "Invalid configuration value: ",
            ).concat(d.as_str()),
        }
    }
}

} // verus!
