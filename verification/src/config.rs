//! Validated settings for the search pipeline: user-agent pool, retry and
//! backoff bounds, timeouts, cache capacity and expiry, preferred backend.
//! Loading the settings from disk is a caller's concern; this module owns the
//! values and their validation rules.

use vstd::prelude::*;
use vstd::string::StringExecFns;
use crate::errors::ConfigError;
use crate::strutil::str_eq;

verus! {

/// Cache capacity and expiry settings.
#[derive(Debug, Clone)]
pub struct CacheConfig {
    /// Maximum number of entries the response cache may hold.
    pub max_capacity: u64,
    /// Time-to-live of a cached response, in seconds.
    pub time_to_live: u64,
}

/// Preferred-backend setting.
#[derive(Debug, Clone)]
pub struct EngineConfig {
    /// Preferred search backend: "google", "bing" or "duckduckgo".
    pub favor: String,
}

/// Request pacing, retry and timeout settings.
#[derive(Debug, Clone)]
pub struct SearchConfig {
    /// User agents to rotate through for requests.
    pub user_agents: Vec<String>,
    /// Maximum number of attempts for one fetch.
    pub max_retries: u32,
    /// Base delay between requests, in milliseconds.
    pub base_delay: u64,
    /// Upper bound of the random jitter added to delays, in milliseconds.
    pub max_jitter: u64,
    /// Request timeout, in seconds.
    pub request_timeout: u64,
    /// Response-body timeout, in seconds.
    pub response_timeout: u64,
}

/// All settings together.
#[derive(Debug, Clone)]
pub struct Config {
    pub search: SearchConfig,
    pub cache: CacheConfig,
    pub engine: EngineConfig,
}

/// The complaint `CacheConfig::validate` raises, or `None` when the settings
/// are acceptable.
pub open spec fn cache_config_error(c: CacheConfig) -> Option<Seq<char>> {
    if c.time_to_live == 0 {
        Some("Cache time-to-live must be greater than 0"@)
    } else {
        None
    }
}

/// The complaint `EngineConfig::validate` raises, or `None` when the settings
/// are acceptable.
pub open spec fn engine_config_error(c: EngineConfig) -> Option<Seq<char>> {
    if c.favor@ == "google"@ || c.favor@ == "bing"@ || c.favor@ == "duckduckgo"@ {
        None
    } else {
        Some("Invalid search engine specified"@)
    }
}

/// The complaint `SearchConfig::validate` raises, or `None` when the settings
/// are acceptable.
pub open spec fn search_config_error(c: SearchConfig) -> Option<Seq<char>> {
    if c.max_retries > 10 {
        Some("Max retries should not exceed 10"@)
    } else if c.request_timeout == 0 || c.response_timeout == 0 {
        Some("Timeouts must be greater than 0"@)
    } else {
        None
    }
}

/// The first complaint any part of the settings raises.
pub open spec fn config_error(c: Config) -> Option<Seq<char>> {
    if search_config_error(c.search) is Some {
        search_config_error(c.search)
    } else if cache_config_error(c.cache) is Some {
        cache_config_error(c.cache)
    } else {
        engine_config_error(c.engine)
    }
}

impl CacheConfig {
    /// Accepts the settings exactly when the time-to-live is positive.
    pub fn validate(&self) -> (r: Result<(), ConfigError>)
        ensures
            match r {
                Ok(()) => cache_config_error(*self) is None,
                Err(e) => {
                    &&& cache_config_error(*self) is Some
                    &&& e matches ConfigError::ValidationError(m) && m@ == cache_config_error(
                        *self,
                    )->0
                },
            },
    {
        if self.time_to_live == 0 {
            Err(
                ConfigError::ValidationError(
                    String::from_str("Cache time-to-live must be greater than 0"),
                ),
            )
        } else {
            Ok(())
        }
    }
}

impl EngineConfig {
    /// Accepts exactly the three known backend names, in lower case.
    pub fn validate(&self) -> (r: Result<(), ConfigError>)
        ensures
            match r {
                Ok(()) => engine_config_error(*self) is None,
                Err(e) => {
                    &&& engine_config_error(*self) is Some
                    &&& e matches ConfigError::ValidationError(m) && m@ == engine_config_error(
                        *self,
                    )->0
                },
            },
    {
        if str_eq(self.favor.as_str(), "google") || str_eq(self.favor.as_str(), "bing") || str_eq(
            self.favor.as_str(),
            "duckduckgo",
        ) {
            Ok(())
        } else {
            Err(
                ConfigError::ValidationError(String::from_str("Invalid search engine specified")),
            )
        }
    }
}

impl SearchConfig {
    /// Accepts the settings exactly when retries are capped at ten and both
    /// timeouts are positive.
    pub fn validate(&self) -> (r: Result<(), ConfigError>)
        ensures
            match r {
                Ok(()) => search_config_error(*self) is None,
                Err(e) => {
                    &&& search_config_error(*self) is Some
                    &&& e matches ConfigError::ValidationError(m) && m@ == search_config_error(
                        *self,
                    )->0
                },
            },
    {
        if self.max_retries > 10 {
            Err(ConfigError::ValidationError(String::from_str("Max retries should not exceed 10")))
        } else if self.request_timeout == 0 || self.response_timeout == 0 {
            Err(ConfigError::ValidationError(String::from_str("Timeouts must be greater than 0")))
        } else {
            Ok(())
        }
    }
}

impl Config {
    /// Accepts the settings exactly when every part does; the error reported
    /// is the first complaint in the order search, cache, engine.
    pub fn validate(&self) -> (r: Result<(), ConfigError>)
        ensures
            match r {
                Ok(()) => config_error(*self) is None,
                Err(e) => {
                    &&& config_error(*self) is Some
                    &&& e matches ConfigError::ValidationError(m) && m@ == config_error(*self)->0
                },
            },
    {
        match self.search.validate() {
            Err(e) => Err(e),
            Ok(()) => match self.cache.validate() {
                Err(e) => Err(e),
                Ok(()) => self.engine.validate(),
            },
        }
    }
}

/// The built-in user-agent pool used when the settings name none.
pub fn default_user_agents() -> (r: Vec<String>)
    ensures
        r@.len() == 5,
        r@[0]@
            == "Mozilla/5.0 (Windows NT 10.0; Win64; x64) AppleWebKit/537.36 (KHTML, like Gecko) Chrome/121.0.0.0 Safari/537.36"@,
        r@[1]@
            == "Mozilla/5.0 (Macintosh; Intel Mac OS X 10_15_7) AppleWebKit/537.36 (KHTML, like Gecko) Chrome/121.0.0.0 Safari/537.36"@,
        r@[2]@ == "Mozilla/5.0 (Windows NT 10.0; Win64; x64; rv:122.0) Gecko/20100101 Firefox/122.0"@,
        r@[3]@
            == "Mozilla/5.0 (Macintosh; Intel Mac OS X 10_15_7) AppleWebKit/605.1.15 (KHTML, like Gecko) Version/17.2.1 Safari/605.1.15"@,
        r@[4]@
            == "Mozilla/5.0 (X11; Linux x86_64) AppleWebKit/537.36 (KHTML, like Gecko) Chrome/121.0.0.0 Safari/537.36"@,
{
    let mut v: Vec<String> = Vec::new();
    v.push(
        String::from_str(
            "Mozilla/5.0 (Windows NT 10.0; Win64; x64) AppleWebKit/537.36 (KHTML, like Gecko) Chrome/121.0.0.0 Safari/537.36",
        ),
    );
    v.push(
        String::from_str(
            "Mozilla/5.0 (Macintosh; Intel Mac OS X 10_15_7) AppleWebKit/537.36 (KHTML, like Gecko) Chrome/121.0.0.0 Safari/537.36",
        ),
    );
    v.push(
        String::from_str(
            "Mozilla/5.0 (Windows NT 10.0; Win64; x64; rv:122.0) Gecko/20100101 Firefox/122.0",
        ),
    );
    v.push(
        String::from_str(
            "Mozilla/5.0 (Macintosh; Intel Mac OS X 10_15_7) AppleWebKit/605.1.15 (KHTML, like Gecko) Version/17.2.1 Safari/605.1.15",
        ),
    );
    v.push(
        String::from_str(
            "Mozilla/5.0 (X11; Linux x86_64) AppleWebKit/537.36 (KHTML, like Gecko) Chrome/121.0.0.0 Safari/537.36",
        ),
    );
    v
}

/// Attempts allowed per fetch when the settings say nothing.
pub fn default_max_retries() -> (r: u32)
    ensures
        r == 3u32,
{
    3
}

/// Base delay in milliseconds when the settings say nothing.
pub fn default_base_delay() -> (r: u64)
    ensures
        r == 1000u64,
{
    1000
}

/// Jitter bound in milliseconds when the settings say nothing.
pub fn default_max_jitter() -> (r: u64)
    ensures
        r == 1000u64,
{
    1000
}

/// Request timeout in seconds when the settings say nothing.
pub fn default_request_timeout() -> (r: u64)
    ensures
        r == 10u64,
{
    10
}

/// Response-body timeout in seconds when the settings say nothing.
pub fn default_response_timeout() -> (r: u64)
    ensures
        r == 10u64,
{
    10
}

/// Cache capacity when the settings say nothing.
pub fn default_max_capacity() -> (r: u64)
    ensures
        r == 100u64,
{
    100
}

/// Cache time-to-live in seconds when the settings say nothing.
pub fn default_time_to_live() -> (r: u64)
    ensures
        r == 600u64,
{
    600
}

/// Preferred backend when the settings say nothing.
pub fn default_favor() -> (r: String)
    ensures
        r@ == "google"@,
{
    String::from_str("google")
}

impl Default for SearchConfig {
    /// The built-in pacing and retry settings.
    fn default() -> (r: Self)
        ensures
            r.user_agents@.len() == 5,
            r.max_retries == 3u32,
            r.base_delay == 1000u64,
            r.max_jitter == 1000u64,
            r.request_timeout == 10u64,
            r.response_timeout == 10u64,
            search_config_error(r) is None,
    {
        SearchConfig {
            user_agents: default_user_agents(),
            max_retries: default_max_retries(),
            base_delay: default_base_delay(),
            max_jitter: default_max_jitter(),
            request_timeout: default_request_timeout(),
            response_timeout: default_response_timeout(),
        }
    }
}

impl Default for CacheConfig {
    /// The built-in cache settings.
    fn default() -> (r: Self)
        ensures
            r.max_capacity == 100u64,
            r.time_to_live == 600u64,
            cache_config_error(r) is None,
    {
        CacheConfig { max_capacity: default_max_capacity(), time_to_live: default_time_to_live() }
    }
}

impl Default for EngineConfig {
    /// The built-in backend preference.
    fn default() -> (r: Self)
        ensures
            r.favor@ == "google"@,
            engine_config_error(r) is None,
    {
        EngineConfig { favor: default_favor() }
    }
}

impl Default for Config {
    /// The built-in settings; they validate.
    fn default() -> (r: Self)
        ensures
            config_error(r) is None,
    {
        Config {
            search: SearchConfig::default(),
            cache: CacheConfig::default(),
            engine: EngineConfig::default(),
        }
    }
}

} // verus!
