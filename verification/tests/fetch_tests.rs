use search_in_terminal::config::{CacheConfig, SearchConfig};
use search_in_terminal::errors::SearchError;
use search_in_terminal::fetch::{classify, FetchAttempt, FetchClient, FetchStart, FetchStep, HttpEvent};

fn test_search_config() -> SearchConfig {
    SearchConfig {
        user_agents: vec!["agent-one".to_string()],
        max_retries: 3,
        base_delay: 1000,
        max_jitter: 1,
        request_timeout: 10,
        response_timeout: 10,
    }
}

fn test_cache_config() -> CacheConfig {
    CacheConfig { max_capacity: 100, time_to_live: 600 }
}

#[test]
fn classify_ok_body_passes_through() {
    let r = classify(HttpEvent::Body("plain results page".to_string()));
    assert_eq!(r.unwrap(), "plain results page");
}

#[test]
fn classify_detects_blocked_bodies() {
    for marker in ["detected unusual traffic", "CAPTCHA", "blocked"] {
        let body = format!("<html>{} somewhere in the page</html>", marker);
        let r = classify(HttpEvent::Body(body));
        assert!(matches!(r, Err(SearchError::Blocked)));
    }
}

#[test]
fn classify_statuses() {
    assert!(matches!(
        classify(HttpEvent::Status(429)),
        Err(SearchError::RateLimited)
    ));
    assert!(matches!(
        classify(HttpEvent::Status(403)),
        Err(SearchError::Blocked)
    ));
    assert!(matches!(
        classify(HttpEvent::Status(408)),
        Err(SearchError::Timeout)
    ));
    assert!(matches!(
        classify(HttpEvent::Status(504)),
        Err(SearchError::Timeout)
    ));
    match classify(HttpEvent::Status(500)) {
        Err(SearchError::NetworkError(m)) => assert_eq!(m, "HTTP error: 500"),
        other => panic!("unexpected: {:?}", other),
    }
}

#[test]
fn classify_transport_failures() {
    assert!(matches!(
        classify(HttpEvent::TransportTimeout),
        Err(SearchError::Timeout)
    ));
    assert!(matches!(
        classify(HttpEvent::AttemptTimedOut),
        Err(SearchError::Timeout)
    ));
    assert!(matches!(
        classify(HttpEvent::BodyReadTimedOut),
        Err(SearchError::Timeout)
    ));
    match classify(HttpEvent::ConnectFailed) {
        Err(SearchError::NetworkError(m)) => assert_eq!(m, "Connection failed"),
        other => panic!("unexpected: {:?}", other),
    }
    match classify(HttpEvent::TransportFailed("tls handshake".to_string())) {
        Err(SearchError::NetworkError(m)) => assert_eq!(m, "tls handshake"),
        other => panic!("unexpected: {:?}", other),
    }
    match classify(HttpEvent::BodyReadFailed("stream cut".to_string())) {
        Err(SearchError::InvalidResponse(m)) => assert_eq!(m, "stream cut"),
        other => panic!("unexpected: {:?}", other),
    }
}

#[test]
fn error_messages_match_taxonomy() {
    assert_eq!(
        SearchError::RateLimited.message(),
        "Rate limited by search engine"
    );
    assert_eq!(
        SearchError::Blocked.message(),
        "Search engine blocked the request"
    );
    assert_eq!(SearchError::Timeout.message(), "Request timeout");
    assert_eq!(
        SearchError::NoResults.message(),
        "No search results found"
    );
    assert_eq!(SearchError::Unknown.message(), "Unknown error occurred");
    assert_eq!(
        SearchError::NetworkError("x".to_string()).message(),
        "Network error: x"
    );
    assert_eq!(
        SearchError::InvalidResponse("y".to_string()).message(),
        "Invalid response from search engine: y"
    );
    assert_eq!(
        SearchError::Other("z".to_string()).message(),
        "Other error: z"
    );
}

#[test]
fn backoff_schedule_is_linear_in_attempt_index() {
    let mut attempt = FetchAttempt {
        max_retries: 4,
        base_delay: 1000,
        jitter: 7,
        attempt: 0,
        last_error: None,
    };
    match attempt.on_event(HttpEvent::Status(429)) {
        FetchStep::Retry { delay_ms } => assert_eq!(delay_ms, 1000 * 1 + 7),
        FetchStep::Done(_) => panic!("should retry"),
    }
    match attempt.on_event(HttpEvent::Status(429)) {
        FetchStep::Retry { delay_ms } => assert_eq!(delay_ms, 1000 * 2 + 7),
        FetchStep::Done(_) => panic!("should retry"),
    }
    match attempt.on_event(HttpEvent::Status(429)) {
        FetchStep::Retry { delay_ms } => assert_eq!(delay_ms, 1000 * 3 + 7),
        FetchStep::Done(_) => panic!("should retry"),
    }
}

#[test]
fn exhausted_attempts_surface_last_error() {
    let mut attempt = FetchAttempt {
        max_retries: 2,
        base_delay: 10,
        jitter: 0,
        attempt: 0,
        last_error: None,
    };
    assert!(matches!(
        attempt.on_event(HttpEvent::Status(500)),
        FetchStep::Retry { .. }
    ));
    match attempt.on_event(HttpEvent::Status(429)) {
        FetchStep::Done(Err(SearchError::RateLimited)) => {},
        other => panic!("unexpected: {:?}", step_name(&other)),
    }
}

fn step_name(s: &FetchStep) -> &'static str {
    match s {
        FetchStep::Retry { .. } => "retry",
        FetchStep::Done(Ok(_)) => "done-ok",
        FetchStep::Done(Err(_)) => "done-err",
    }
}

#[test]
fn success_ends_the_attempt_loop() {
    let mut attempt = FetchAttempt {
        max_retries: 3,
        base_delay: 10,
        jitter: 0,
        attempt: 0,
        last_error: None,
    };
    match attempt.on_event(HttpEvent::Body("the page".to_string())) {
        FetchStep::Done(Ok(b)) => assert_eq!(b, "the page"),
        other => panic!("unexpected: {:?}", step_name(&other)),
    }
}

#[test]
fn rate_limited_on_every_attempt_keeps_cache_untouched() {
    let mut fc = FetchClient::new(&test_search_config(), &test_cache_config());
    let url = "https://www.example.com/search?q=a";
    let mut attempt = match fc.begin_fetch(url) {
        FetchStart::Request { attempt, .. } => attempt,
        _ => panic!("expected a planned request"),
    };
    let outcome = loop {
        match attempt.on_event(HttpEvent::Status(429)) {
            FetchStep::Retry { .. } => continue,
            FetchStep::Done(res) => break res,
        }
    };
    assert!(matches!(outcome, Err(SearchError::RateLimited)));
    fc.finish_fetch(url, &outcome);
    assert!(matches!(fc.begin_fetch(url), FetchStart::Request { .. }));
}

#[test]
fn cache_hit_bypasses_pacing_and_network() {
    let mut fc = FetchClient::new(&test_search_config(), &test_cache_config());
    let url = "https://www.example.com/search?q=b";
    assert!(matches!(fc.begin_fetch(url), FetchStart::Request { .. }));
    let outcome: Result<String, SearchError> = Ok("cached body".to_string());
    fc.finish_fetch(url, &outcome);
    match fc.begin_fetch(url) {
        FetchStart::Cached(body) => assert_eq!(body, "cached body"),
        _ => panic!("second fetch should come from the cache at once"),
    }
}

#[test]
fn pacing_delay_is_base_plus_jitter() {
    let fc = FetchClient::new(&test_search_config(), &test_cache_config());
    match fc.begin_fetch("https://www.example.com/search?q=c") {
        FetchStart::Request { user_agent, pacing_delay_ms, attempt } => {
            assert_eq!(user_agent, "agent-one");
            assert_eq!(attempt.jitter, 0);
            assert_eq!(pacing_delay_ms, 1000);
            assert_eq!(attempt.attempt, 0);
        },
        _ => panic!("expected a planned request"),
    }
}

#[test]
fn zero_retries_fail_at_once() {
    let mut cfg = test_search_config();
    cfg.max_retries = 0;
    let fc = FetchClient::new(&cfg, &test_cache_config());
    match fc.begin_fetch("https://www.example.com/search?q=d") {
        FetchStart::Exhausted(e) => assert!(matches!(e, SearchError::Unknown)),
        _ => panic!("no attempts are configured"),
    }
}
