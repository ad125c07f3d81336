//! The closed set of search backends: the cyclic engine switch, the
//! case-insensitive preference lookup, and each backend's URL builder.

use vstd::prelude::*;
use vstd::string::StringExecFns;
use crate::strutil::{dec_rep, str_eq, u16_to_dec};
use crate::extract::{
    assemble_ddg, assemble_standard, bing_results, ddg_results, google_results, select_entries,
};
use crate::models::{results_view, unique_urls, ResultView, SearchResult};
use crate::errors::SearchError;

verus! {

/// What `str::to_lowercase` returns for a string: the result depends on the
/// characters alone.
pub uninterp spec fn lower_of(s: Seq<char>) -> Seq<char>;

/// The lowercase of one ASCII character: `'A'` to `'Z'` map down, all else
/// stays.
pub open spec fn ascii_lower_char(c: char) -> char {
    if 'A' <= c && c <= 'Z' {
        ((c as u8) + 32) as char
    } else {
        c
    }
}

/// Relies on str::to_lowercase: returns the lowercase equivalent of the
/// string, a deterministic function of its characters; its documentation
/// gives the mapping outright for ASCII input, character by character.
#[verifier::external_body]
fn lowercase(s: &str) -> (r: String)
    ensures
        r@ == lower_of(s@),
        vstd::string::is_ascii(s) ==> r@ == s@.map_values(|c: char| ascii_lower_char(c)),
{
    s.to_lowercase()
}

/// What `urlencoding::encode` returns for a string: its percent-encoding
/// (every byte except alphanumerics and `-`, `_`, `.`, `~` escaped),
/// a deterministic function of the characters alone.
pub uninterp spec fn percent_encoded(s: Seq<char>) -> Seq<char>;

/// Relies on urlencoding::encode: percent-encodes every byte except
/// alphanumerics and `-`, `_`, `.`, `~`, deterministically.
#[verifier::external_body]
fn encode_component(s: &str) -> (r: String)
    ensures
        r@ == percent_encoded(s@),
{
    urlencoding::encode(s).into_owned()
}

/// One search provider's strategy: a display name, a URL for a query and
/// offset, and an extractor from raw HTML to structured results.
pub trait Engine {
    /// The backend's display name.
    spec fn spec_name(&self) -> Seq<char>;

    /// The URL the backend builds for a query and offset.
    spec fn spec_url(&self, query: Seq<char>, start: u16) -> Seq<char>;

    /// The results the backend extracts from a page.
    spec fn spec_extract(&self, html: Seq<char>) -> Seq<ResultView>;

    fn name(&self) -> (r: &'static str)
        ensures
            r@ == self.spec_name(),
    ;

    fn build_url(&self, query: &str, start: u16) -> (r: String)
        ensures
            r@ == self.spec_url(query@, start),
    ;

    /// Extracts the usable results of a page, in page order, first occurrence
    /// of each destination URL winning; fails with `NoResults` exactly when
    /// no entry is usable.
    fn extract(&self, html: &str) -> (r: Result<Vec<SearchResult>, SearchError>)
        ensures
            match r {
                Ok(v) => {
                    &&& results_view(v@) == self.spec_extract(html@)
                    &&& v@.len() > 0
                    &&& unique_urls(v@)
                },
                Err(e) => e is NoResults && self.spec_extract(html@).len() == 0,
            },
    ;
}

/// The Google backend.
#[derive(Debug, Clone, Copy)]
pub struct Google;

/// The Bing backend.
#[derive(Debug, Clone, Copy)]
pub struct Bing;

/// The DuckDuckGo backend.
#[derive(Debug, Clone, Copy)]
pub struct DuckDuckGo;

/// The URL Google is asked for: ten results starting at `start`.
pub open spec fn google_url(query: Seq<char>, start: u16) -> Seq<char> {
    "https://www.google.com/search?q="@ + percent_encoded(query) + "&num=10&start="@ + dec_rep(
        start as int,
    )
}

/// The URL Bing is asked for: ten results starting at `start`.
pub open spec fn bing_url(query: Seq<char>, start: u16) -> Seq<char> {
    "https://www.bing.com/search?q="@ + percent_encoded(query) + "&count=10&first="@ + dec_rep(
        start as int,
    )
}

/// The URL DuckDuckGo is asked for, offset `start`.
pub open spec fn ddg_url(query: Seq<char>, start: u16) -> Seq<char> {
    "https://html.duckduckgo.com/html/?q="@ + percent_encoded(query) + "&s="@ + dec_rep(
        start as int,
    )
}

impl Engine for Google {
    open spec fn spec_name(&self) -> Seq<char> {
        "Google"@
    }

    open spec fn spec_url(&self, query: Seq<char>, start: u16) -> Seq<char> {
        google_url(query, start)
    }

    open spec fn spec_extract(&self, html: Seq<char>) -> Seq<ResultView> {
        google_results(html)
    }

    fn name(&self) -> (r: &'static str) {
        "Google"
    }

    fn build_url(&self, query: &str, start: u16) -> (r: String) {
        String::from_str("https://www.google.com/search?q=").concat(
            encode_component(query).as_str(),
        ).concat("&num=10&start=").concat(u16_to_dec(start).as_str())
    }

    fn extract(&self, html: &str) -> (r: Result<Vec<SearchResult>, SearchError>) {
        let entries = select_entries(
            html,
            "div.MjjYud",
            "a[jsname='UWckNb']",
            "h3.LC20lb",
            "div.VwiC3b",
        );
        assemble_standard(&entries)
    }
}

impl Engine for Bing {
    open spec fn spec_name(&self) -> Seq<char> {
        "Bing"@
    }

    open spec fn spec_url(&self, query: Seq<char>, start: u16) -> Seq<char> {
        bing_url(query, start)
    }

    open spec fn spec_extract(&self, html: Seq<char>) -> Seq<ResultView> {
        bing_results(html)
    }

    fn name(&self) -> (r: &'static str) {
        "Bing"
    }

    fn build_url(&self, query: &str, start: u16) -> (r: String) {
        String::from_str("https://www.bing.com/search?q=").concat(
            encode_component(query).as_str(),
        ).concat("&count=10&first=").concat(u16_to_dec(start).as_str())
    }

    fn extract(&self, html: &str) -> (r: Result<Vec<SearchResult>, SearchError>) {
        let entries = select_entries(html, "li.b_algo", "h2 a", "h2", "div.b_caption p");
        assemble_standard(&entries)
    }
}

impl Engine for DuckDuckGo {
    open spec fn spec_name(&self) -> Seq<char> {
        "DuckDuckGo"@
    }

    open spec fn spec_url(&self, query: Seq<char>, start: u16) -> Seq<char> {
        ddg_url(query, start)
    }

    open spec fn spec_extract(&self, html: Seq<char>) -> Seq<ResultView> {
        ddg_results(html)
    }

    fn name(&self) -> (r: &'static str) {
        "DuckDuckGo"
    }

    fn build_url(&self, query: &str, start: u16) -> (r: String) {
        String::from_str("https://html.duckduckgo.com/html/?q=").concat(
            encode_component(query).as_str(),
        ).concat("&s=").concat(u16_to_dec(start).as_str())
    }

    fn extract(&self, html: &str) -> (r: Result<Vec<SearchResult>, SearchError>) {
        let entries = select_entries(
            html,
            ".result",
            ".result__title a",
            ".result__title a",
            ".result__snippet",
        );
        assemble_ddg(&entries)
    }
}

/// The closed, ordered set of backends.
#[derive(Debug, Clone, Copy)]
pub enum SearchEngine {
    Google(Google),
    Bing(Bing),
    DuckDuckGo(DuckDuckGo),
}

/// The backend a (case-insensitive) preference string names; anything
/// unrecognized falls back to Google.
pub open spec fn favored_engine(name: Seq<char>) -> SearchEngine {
    if lower_of(name) == "google"@ {
        SearchEngine::Google(Google)
    } else if lower_of(name) == "bing"@ {
        SearchEngine::Bing(Bing)
    } else if lower_of(name) == "duckduckgo"@ {
        SearchEngine::DuckDuckGo(DuckDuckGo)
    } else {
        SearchEngine::Google(Google)
    }
}

/// The fixed cycle Google, Bing, DuckDuckGo, Google, ...
pub open spec fn next_engine(e: SearchEngine) -> SearchEngine {
    match e {
        SearchEngine::Google(_) => SearchEngine::Bing(Bing),
        SearchEngine::Bing(_) => SearchEngine::DuckDuckGo(DuckDuckGo),
        SearchEngine::DuckDuckGo(_) => SearchEngine::Google(Google),
    }
}

/// The display name of the selected backend.
pub open spec fn engine_name(e: SearchEngine) -> Seq<char> {
    match e {
        SearchEngine::Google(_) => "Google"@,
        SearchEngine::Bing(_) => "Bing"@,
        SearchEngine::DuckDuckGo(_) => "DuckDuckGo"@,
    }
}

/// The URL the selected backend builds.
pub open spec fn engine_url(e: SearchEngine, query: Seq<char>, start: u16) -> Seq<char> {
    match e {
        SearchEngine::Google(_) => google_url(query, start),
        SearchEngine::Bing(_) => bing_url(query, start),
        SearchEngine::DuckDuckGo(_) => ddg_url(query, start),
    }
}

/// The results the selected backend extracts from a page.
pub open spec fn engine_extract(e: SearchEngine, html: Seq<char>) -> Seq<
    ResultView,
> {
    match e {
        SearchEngine::Google(_) => google_results(html),
        SearchEngine::Bing(_) => bing_results(html),
        SearchEngine::DuckDuckGo(_) => ddg_results(html),
    }
}

impl SearchEngine {
    /// Maps a case-insensitive settings string to a backend, defaulting to
    /// Google on any unrecognized value. On each backend's display name the
    /// lookup round-trips to that backend.
    pub fn favor(engine_name: &str) -> (r: Self)
        ensures
            r == favored_engine(engine_name@),
            engine_name@ == "Google"@ || engine_name@ == "google"@ ==> r is Google,
            engine_name@ == "Bing"@ || engine_name@ == "bing"@ ==> r is Bing,
            engine_name@ == "DuckDuckGo"@ || engine_name@ == "duckduckgo"@ ==> r is DuckDuckGo,
    {
        let lowered = lowercase(engine_name);
        proof {
            reveal_strlit("Google");
            reveal_strlit("google");
            reveal_strlit("Bing");
            reveal_strlit("bing");
            reveal_strlit("DuckDuckGo");
            reveal_strlit("duckduckgo");
            if engine_name@ == "Google"@ {
                assert(vstd::string::is_ascii(engine_name));
                assert(lowered@ =~= "google"@);
            }
            if engine_name@ == "Bing"@ {
                assert(vstd::string::is_ascii(engine_name));
                assert(lowered@ =~= "bing"@);
            }
            if engine_name@ == "DuckDuckGo"@ {
                assert(vstd::string::is_ascii(engine_name));
                assert(lowered@ =~= "duckduckgo"@);
            }
            if engine_name@ == "google"@ {
                assert(vstd::string::is_ascii(engine_name));
                assert(lowered@ =~= "google"@);
            }
            if engine_name@ == "bing"@ {
                assert(vstd::string::is_ascii(engine_name));
                assert(lowered@ =~= "bing"@);
            }
            if engine_name@ == "duckduckgo"@ {
                assert(vstd::string::is_ascii(engine_name));
                assert(lowered@ =~= "duckduckgo"@);
            }
        }
        if str_eq(lowered.as_str(), "google") {
            SearchEngine::Google(Google)
        } else if str_eq(lowered.as_str(), "bing") {
            SearchEngine::Bing(Bing)
        } else if str_eq(lowered.as_str(), "duckduckgo") {
            SearchEngine::DuckDuckGo(DuckDuckGo)
        } else {
            SearchEngine::Google(Google)
        }
    }

    /// The next backend in the fixed cycle.
    pub fn next(&self) -> (r: Self)
        ensures
            r == next_engine(*self),
    {
        match self {
            SearchEngine::Google(_) => SearchEngine::Bing(Bing),
            SearchEngine::Bing(_) => SearchEngine::DuckDuckGo(DuckDuckGo),
            SearchEngine::DuckDuckGo(_) => SearchEngine::Google(Google),
        }
    }

    /// The display name of the selected backend.
    pub fn as_str(&self) -> (r: &'static str)
        ensures
            r@ == engine_name(*self),
    {
        match self {
            SearchEngine::Google(g) => g.name(),
            SearchEngine::Bing(b) => b.name(),
            SearchEngine::DuckDuckGo(d) => d.name(),
        }
    }

    /// The URL to fetch for a query and offset with the selected backend.
    pub fn build_url(&self, query: &str, start: u16) -> (r: String)
        ensures
            r@ == engine_url(*self, query@, start),
    {
        match self {
            SearchEngine::Google(g) => g.build_url(query, start),
            SearchEngine::Bing(b) => b.build_url(query, start),
            SearchEngine::DuckDuckGo(d) => d.build_url(query, start),
        }
    }

    /// Extracts the selected backend's results from a fetched page.
    pub fn extract(&self, html: &str) -> (r: Result<Vec<SearchResult>, SearchError>)
        ensures
            match r {
                Ok(v) => {
                    &&& results_view(v@) == engine_extract(*self, html@)
                    &&& v@.len() > 0
                    &&& unique_urls(v@)
                },
                Err(e) => e is NoResults && engine_extract(*self, html@).len() == 0,
            },
    {
        match self {
            SearchEngine::Google(g) => g.extract(html),
            SearchEngine::Bing(b) => b.extract(html),
            SearchEngine::DuckDuckGo(d) => d.extract(html),
        }
    }
}

} // verus!
