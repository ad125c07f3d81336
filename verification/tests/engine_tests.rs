use search_in_terminal::engine::{Bing, DuckDuckGo, Engine, Google, SearchEngine};

#[test]
fn google_builds_expected_url() {
    let url = Google.build_url("rust", 0);
    assert_eq!(url, "https://www.google.com/search?q=rust&num=10&start=0");
}

#[test]
fn google_url_with_offset() {
    let url = Google.build_url("rust", 20);
    assert_eq!(url, "https://www.google.com/search?q=rust&num=10&start=20");
}

#[test]
fn bing_builds_expected_url() {
    let url = Bing.build_url("rust", 10);
    assert_eq!(url, "https://www.bing.com/search?q=rust&count=10&first=10");
}

#[test]
fn ddg_builds_expected_url() {
    let url = DuckDuckGo.build_url("rust", 30);
    assert_eq!(url, "https://html.duckduckgo.com/html/?q=rust&s=30");
}

#[test]
fn query_is_percent_encoded() {
    let url = Google.build_url("rust async traits", 0);
    assert_eq!(
        url,
        "https://www.google.com/search?q=rust%20async%20traits&num=10&start=0"
    );
}

#[test]
fn favor_is_case_insensitive() {
    assert_eq!(SearchEngine::favor("BING").as_str(), "Bing");
    assert_eq!(SearchEngine::favor("DuckDuckGo").as_str(), "DuckDuckGo");
    assert_eq!(SearchEngine::favor("google").as_str(), "Google");
}

#[test]
fn favor_defaults_to_google() {
    assert_eq!(SearchEngine::favor("altavista").as_str(), "Google");
    assert_eq!(SearchEngine::favor("").as_str(), "Google");
}

#[test]
fn next_cycles_through_backends() {
    let e = SearchEngine::favor("google");
    let e2 = e.next();
    assert_eq!(e2.as_str(), "Bing");
    let e3 = e2.next();
    assert_eq!(e3.as_str(), "DuckDuckGo");
    let e4 = e3.next();
    assert_eq!(e4.as_str(), "Google");
}

#[test]
fn favor_round_trips_display_names() {
    for e in [
        SearchEngine::favor("google"),
        SearchEngine::favor("bing"),
        SearchEngine::favor("duckduckgo"),
    ] {
        assert_eq!(SearchEngine::favor(e.as_str()).as_str(), e.as_str());
    }
}

#[test]
fn engine_names() {
    assert_eq!(Google.name(), "Google");
    assert_eq!(Bing.name(), "Bing");
    assert_eq!(DuckDuckGo.name(), "DuckDuckGo");
}

fn google_entry(href: &str, title: &str, desc: &str) -> String {
    format!(
        "<div class=\"MjjYud\"><a jsname=\"UWckNb\" href=\"{}\"><h3 class=\"LC20lb\">{}</h3></a><div class=\"VwiC3b\">{}</div></div>",
        href, title, desc
    )
}

#[test]
fn google_extract_dedupes_shared_href() {
    let html = format!(
        "<html><body>{}{}</body></html>",
        google_entry("https://example.com/a", "First", "Desc one"),
        google_entry("https://example.com/a", "Second", "Desc two")
    );
    let results = Google.extract(&html).unwrap();
    assert_eq!(results.len(), 1);
    assert_eq!(results[0].url, "https://example.com/a");
    assert_eq!(results[0].title, "First");
    assert_eq!(results[0].description, "Desc one");
}

#[test]
fn google_extract_keeps_distinct_urls_in_order() {
    let html = format!(
        "<html><body>{}{}</body></html>",
        google_entry("https://example.com/a", "A", "da"),
        google_entry("https://example.com/b", "B", "db")
    );
    let results = Google.extract(&html).unwrap();
    assert_eq!(results.len(), 2);
    assert_eq!(results[0].url, "https://example.com/a");
    assert_eq!(results[1].url, "https://example.com/b");
}

#[test]
fn google_extract_skips_relative_links() {
    let html = format!(
        "<html><body>{}{}</body></html>",
        google_entry("/relative/path", "Rel", "d"),
        google_entry("https://example.com/ok", "Ok", "d")
    );
    let results = Google.extract(&html).unwrap();
    assert_eq!(results.len(), 1);
    assert_eq!(results[0].url, "https://example.com/ok");
}

#[test]
fn google_extract_placeholders_for_missing_parts() {
    let html = "<html><body><div class=\"MjjYud\">\
        <a jsname=\"UWckNb\" href=\"https://example.com/x\"></a>\
        </div></body></html>";
    let results = Google.extract(html).unwrap();
    assert_eq!(results.len(), 1);
    assert_eq!(results[0].title, "No title");
    assert_eq!(results[0].description, "No description");
}

#[test]
fn google_extract_trims_text() {
    let html = google_entry("https://example.com/t", "  Padded title \n", "\t padded desc  ");
    let results = Google.extract(&html).unwrap();
    assert_eq!(results[0].title, "Padded title");
    assert_eq!(results[0].description, "padded desc");
}

#[test]
fn google_extract_empty_page_is_no_results() {
    let err = Google.extract("<html><body><p>nothing here</p></body></html>").unwrap_err();
    assert!(matches!(
        err,
        search_in_terminal::errors::SearchError::NoResults
    ));
}

#[test]
fn bing_extract_parses_fixture() {
    let html = "<html><body><li class=\"b_algo\">\
        <h2><a href=\"https://example.com/bing\">Bing title</a></h2>\
        <div class=\"b_caption\"><p>Bing snippet</p></div>\
        </li></body></html>";
    let results = Bing.extract(html).unwrap();
    assert_eq!(results.len(), 1);
    assert_eq!(results[0].url, "https://example.com/bing");
    assert_eq!(results[0].title, "Bing title");
    assert_eq!(results[0].description, "Bing snippet");
}

fn ddg_entry(href: &str, title: &str, snippet: &str) -> String {
    format!(
        "<div class=\"result\"><h2 class=\"result__title\"><a href=\"{}\">{}</a></h2><a class=\"result__snippet\">{}</a></div>",
        href, title, snippet
    )
}

#[test]
fn ddg_extract_accepts_absolute_urls() {
    let html = ddg_entry("https://example.com/d", "D", "sd");
    let results = DuckDuckGo.extract(&html).unwrap();
    assert_eq!(results.len(), 1);
    assert_eq!(results[0].url, "https://example.com/d");
}

#[test]
fn ddg_extract_rewrites_protocol_relative() {
    let html = ddg_entry("//example.com/p", "P", "sp");
    let results = DuckDuckGo.extract(&html).unwrap();
    assert_eq!(results[0].url, "https://example.com/p");
}

#[test]
fn ddg_extract_decodes_redirect_links() {
    let html = ddg_entry(
        "/l/?kh=-1&uddg=https%3A%2F%2Fexample.com%2Fy",
        "Y",
        "sy",
    );
    let results = DuckDuckGo.extract(&html).unwrap();
    assert_eq!(results[0].url, "https://example.com/y");
}

#[test]
fn ddg_extract_skips_undecodable_redirects() {
    let bad = ddg_entry("/l/?uddg=%FF%FE", "Bad", "sb");
    let good = ddg_entry("https://example.com/fine", "Fine", "sf");
    let html = format!("<html><body>{}{}</body></html>", bad, good);
    let results = DuckDuckGo.extract(&html).unwrap();
    assert_eq!(results.len(), 1);
    assert_eq!(results[0].url, "https://example.com/fine");
}

#[test]
fn ddg_extract_skips_relative_without_redirect_param() {
    let html = ddg_entry("/plain/relative", "R", "sr");
    let err = DuckDuckGo.extract(&html).unwrap_err();
    assert!(matches!(
        err,
        search_in_terminal::errors::SearchError::NoResults
    ));
}

#[test]
fn ddg_extract_requires_snippet() {
    let html = "<div class=\"result\"><h2 class=\"result__title\">\
        <a href=\"https://example.com/nosnippet\">T</a></h2></div>";
    let err = DuckDuckGo.extract(html).unwrap_err();
    assert!(matches!(
        err,
        search_in_terminal::errors::SearchError::NoResults
    ));
}

#[test]
fn ddg_extract_dedupes_cleaned_urls() {
    let html = format!(
        "<html><body>{}{}</body></html>",
        ddg_entry("https://example.com/y", "Direct", "s1"),
        ddg_entry("/l/?uddg=https%3A%2F%2Fexample.com%2Fy", "Wrapped", "s2")
    );
    let results = DuckDuckGo.extract(&html).unwrap();
    assert_eq!(results.len(), 1);
    assert_eq!(results[0].title, "Direct");
}

#[test]
fn search_engine_dispatch_matches_backends() {
    let e = SearchEngine::favor("bing");
    assert_eq!(e.build_url("x", 0), Bing.build_url("x", 0));
}
