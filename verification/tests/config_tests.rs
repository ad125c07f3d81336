use search_in_terminal::config::{
    default_base_delay, default_favor, default_max_capacity, default_max_jitter,
    default_max_retries, default_request_timeout, default_response_timeout, default_time_to_live,
    default_user_agents, CacheConfig, Config, EngineConfig, SearchConfig,
};
use search_in_terminal::errors::ConfigError;
use search_in_terminal::strutil::{
    contains_substr, find_from, segment_after_first, str_eq, str_starts_with, u16_to_dec,
};

#[test]
fn default_values() {
    assert_eq!(default_user_agents().len(), 5);
    assert_eq!(default_max_retries(), 3);
    assert_eq!(default_base_delay(), 1000);
    assert_eq!(default_max_jitter(), 1000);
    assert_eq!(default_request_timeout(), 10);
    assert_eq!(default_response_timeout(), 10);
    assert_eq!(default_max_capacity(), 100);
    assert_eq!(default_time_to_live(), 600);
    assert_eq!(default_favor(), "google");
}

#[test]
fn default_config_validates() {
    assert!(Config::default().validate().is_ok());
    assert!(SearchConfig::default().validate().is_ok());
    assert!(CacheConfig::default().validate().is_ok());
    assert!(EngineConfig::default().validate().is_ok());
}

fn validation_message(e: ConfigError) -> String {
    match e {
        ConfigError::ValidationError(m) => m,
        other => panic!("expected a validation error, got {:?}", other),
    }
}

#[test]
fn cache_config_rejects_zero_ttl() {
    let c = CacheConfig { max_capacity: 10, time_to_live: 0 };
    assert_eq!(
        validation_message(c.validate().unwrap_err()),
        "Cache time-to-live must be greater than 0"
    );
}

#[test]
fn engine_config_rejects_unknown_backends() {
    let c = EngineConfig { favor: "askjeeves".to_string() };
    assert_eq!(
        validation_message(c.validate().unwrap_err()),
        "Invalid search engine specified"
    );
    let c = EngineConfig { favor: "Google".to_string() };
    assert!(c.validate().is_err());
    for name in ["google", "bing", "duckduckgo"] {
        let c = EngineConfig { favor: name.to_string() };
        assert!(c.validate().is_ok());
    }
}

#[test]
fn search_config_rejects_excess_retries() {
    let mut c = SearchConfig::default();
    c.max_retries = 11;
    assert_eq!(
        validation_message(c.validate().unwrap_err()),
        "Max retries should not exceed 10"
    );
    c.max_retries = 10;
    assert!(c.validate().is_ok());
}

#[test]
fn search_config_rejects_zero_timeouts() {
    let mut c = SearchConfig::default();
    c.request_timeout = 0;
    assert_eq!(
        validation_message(c.validate().unwrap_err()),
        "Timeouts must be greater than 0"
    );
    c.request_timeout = 10;
    c.response_timeout = 0;
    assert_eq!(
        validation_message(c.validate().unwrap_err()),
        "Timeouts must be greater than 0"
    );
}

#[test]
fn config_reports_the_first_complaint() {
    let mut c = Config::default();
    c.search.max_retries = 99;
    c.cache.time_to_live = 0;
    assert_eq!(
        validation_message(c.validate().unwrap_err()),
        "Max retries should not exceed 10"
    );
    c.search.max_retries = 3;
    assert_eq!(
        validation_message(c.validate().unwrap_err()),
        "Cache time-to-live must be greater than 0"
    );
}

#[test]
fn config_error_messages() {
    assert_eq!(
        ConfigError::NoHomeDir.message(),
        "Failed to find home directory"
    );
    assert_eq!(
        ConfigError::NoConfigDir.message(),
        "Failed to find config directory"
    );
    assert_eq!(
        ConfigError::CreateDir("denied".to_string()).message(),
        "Failed to create config directory: denied"
    );
    assert_eq!(
        ConfigError::ParseError("bad toml".to_string()).message(),
        "Failed to parse config file: bad toml"
    );
    assert_eq!(
        ConfigError::ValidationError("v".to_string()).message(),
        "Invalid configuration value: v"
    );
}

#[test]
fn string_equality_is_exact() {
    assert!(str_eq("abc", "abc"));
    assert!(!str_eq("abc", "abd"));
    assert!(!str_eq("abc", "abcd"));
    assert!(str_eq("", ""));
}

#[test]
fn prefix_and_substring_search() {
    assert!(str_starts_with("https://x", "http"));
    assert!(!str_starts_with("ftp://x", "http"));
    assert!(str_starts_with("x", ""));
    assert!(contains_substr("a CAPTCHA page", "CAPTCHA"));
    assert!(!contains_substr("an ordinary page", "CAPTCHA"));
    assert_eq!(find_from("abcabc", "bc", 0), Some(1));
    assert_eq!(find_from("abcabc", "bc", 2), Some(4));
    assert_eq!(find_from("abcabc", "zz", 0), None);
}

#[test]
fn split_second_piece_for_redirect_links() {
    assert_eq!(
        segment_after_first("/l/?kh=-1&uddg=https%3A%2F%2Fe.com", "uddg=").as_deref(),
        Some("https%3A%2F%2Fe.com")
    );
    assert_eq!(segment_after_first("/l/?kh=-1", "uddg="), None);
    assert_eq!(
        segment_after_first("x uddg=A uddg=B", "uddg=").as_deref(),
        Some("A ")
    );
}

#[test]
fn decimal_rendering_of_offsets() {
    assert_eq!(u16_to_dec(0), "0");
    assert_eq!(u16_to_dec(7), "7");
    assert_eq!(u16_to_dec(10), "10");
    assert_eq!(u16_to_dec(65535), "65535");
}
