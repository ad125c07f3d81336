//! Extraction of structured results from raw backend HTML: the DOM query
//! runs behind a trusted wrapper over `scraper`; everything after it — URL
//! filtering and rewriting, per-page deduplication, placeholder fallbacks and
//! the empty-page signal — is verified.

use vstd::prelude::*;
use vstd::string::StringExecFns;
use crate::errors::SearchError;
use crate::models::{
    contains_url, lemma_results_view_push, lemma_url_set_push, results_view, unique_urls, url_set,
    ResultView, SearchResult,
};
use crate::strutil::{segment_after_first, split_second_piece, str_eq, str_starts_with};

verus! {

/// One candidate entry as the DOM query hands it over: the first link's
/// `href` and the raw texts of the title and snippet elements, each absent
/// when the element (or attribute) is structurally absent.
pub struct RawEntry {
    pub href: Option<String>,
    pub title: Option<String>,
    pub description: Option<String>,
}

/// A raw entry as mathematics.
#[verifier::ext_equal]
pub ghost struct RawEntryView {
    pub href: Option<Seq<char>>,
    pub title: Option<Seq<char>>,
    pub description: Option<Seq<char>>,
}

impl View for RawEntry {
    type V = RawEntryView;

    open spec fn view(&self) -> RawEntryView {
        RawEntryView {
            href: match self.href {
                Some(h) => Some(h@),
                None => None,
            },
            title: match self.title {
                Some(t) => Some(t@),
                None => None,
            },
            description: match self.description {
                Some(d) => Some(d@),
                None => None,
            },
        }
    }
}

/// The views of a sequence of raw entries.
pub open spec fn entries_view(es: Seq<RawEntry>) -> Seq<RawEntryView> {
    es.map_values(|e: RawEntry| e@)
}

/// What the DOM query returns on a document for a fixed selector quadruple:
/// one raw entry per node matching `container`, in document order. The HTML
/// parse and the selector matches are deterministic in the inputs.
pub uninterp spec fn dom_entries(
    html: Seq<char>,
    container: Seq<char>,
    link: Seq<char>,
    title: Seq<char>,
    snippet: Seq<char>,
) -> Seq<RawEntryView>;

/// Relies on scraper (Html::parse_document, Selector::parse,
/// ElementRef::select, ElementRef::attr, ElementRef::text): for each node
/// matching `container`, in document order, the `href` attribute of its
/// first `link` match and the concatenated texts of its first `title` and
/// `snippet` matches. All of it is deterministic in the five arguments,
/// including the empty list a selector that fails to parse yields; the
/// backends pass fixed literals that do parse.
#[verifier::external_body]
pub(crate) fn select_entries(html: &str, container: &str, link: &str, title: &str, snippet: &str) -> (r:
    Vec<RawEntry>)
    ensures
        entries_view(r@) == dom_entries(html@, container@, link@, title@, snippet@),
{
    let doc = scraper::Html::parse_document(html);
    let sels = [container, link, title, snippet].map(scraper::Selector::parse);
    let [Ok(c), Ok(l), Ok(t), Ok(s)] = sels else { return Vec::new() };
    doc.select(&c).map(
        |el| RawEntry {
            href: el.select(&l).next().and_then(|a| a.attr("href")).map(String::from),
            title: el.select(&t).next().map(|e| e.text().collect()),
            description: el.select(&s).next().map(|e| e.text().collect()),
        },
    ).collect()
}

/// What `str::trim` returns for a string: the string without its leading and
/// trailing whitespace, a deterministic function of the characters alone.
pub uninterp spec fn trimmed(s: Seq<char>) -> Seq<char>;

/// Relies on str::trim: removes leading and trailing whitespace,
/// deterministically.
#[verifier::external_body]
fn trim_text(s: &str) -> (r: String)
    ensures
        r@ == trimmed(s@),
{
    String::from(s.trim())
}

/// What `urlencoding::decode` returns for a string: the percent-decoding
/// under UTF-8, `None` exactly when the decoded bytes are not valid UTF-8.
/// A deterministic function of the characters alone.
pub uninterp spec fn percent_decoded(s: Seq<char>) -> Option<Seq<char>>;

/// Relies on urlencoding::decode: percent-decodes assuming UTF-8; fails
/// exactly when the decoded bytes are invalid UTF-8; deterministic.
#[verifier::external_body]
fn decode_component(s: &str) -> (r: Option<String>)
    ensures
        match r {
            Some(t) => percent_decoded(s@) == Some(t@),
            None => percent_decoded(s@) is None,
        },
{
    match urlencoding::decode(s) {
        Ok(c) => Some(c.into_owned()),
        Err(_) => None,
    }
}

/// The destination is an absolute `http`-prefixed URL.
pub open spec fn http_prefixed(u: Seq<char>) -> bool {
    "http"@.is_prefix_of(u)
}

/// A Google- or Bing-style entry is usable when it carries an absolute
/// destination URL.
pub open spec fn standard_usable(e: RawEntryView) -> bool {
    e.href is Some && http_prefixed(e.href->0)
}

/// The result a usable Google- or Bing-style entry yields: trimmed texts,
/// with fixed placeholders for missing sub-elements.
pub open spec fn standard_result(e: RawEntryView) -> ResultView {
    ResultView {
        title: match e.title {
            Some(t) => trimmed(t),
            None => "No title"@,
        },
        url: e.href->0,
        description: match e.description {
            Some(d) => trimmed(d),
            None => "No description"@,
        },
    }
}

/// The results of a Google- or Bing-style page: usable entries in page
/// order, the first occurrence of each destination URL winning.
pub open spec fn assemble_standard_spec(entries: Seq<RawEntryView>, seen: Set<Seq<char>>) -> Seq<
    ResultView,
>
    decreases entries.len(),
{
    if entries.len() == 0 {
        Seq::empty()
    } else {
        let e = entries[0];
        let rest = entries.drop_first();
        if standard_usable(e) && !seen.contains(e.href->0) {
            seq![standard_result(e)] + assemble_standard_spec(rest, seen.insert(e.href->0))
        } else {
            assemble_standard_spec(rest, seen)
        }
    }
}

/// One unfolding step of `assemble_standard_spec` at position `i`.
proof fn lemma_standard_step(evs: Seq<RawEntryView>, i: int, seen: Set<Seq<char>>)
    requires
        0 <= i < evs.len(),
    ensures
        assemble_standard_spec(evs.skip(i), seen) == if standard_usable(evs[i]) && !seen.contains(
            evs[i].href->0,
        ) {
            seq![standard_result(evs[i])] + assemble_standard_spec(
                evs.skip(i + 1),
                seen.insert(evs[i].href->0),
            )
        } else {
            assemble_standard_spec(evs.skip(i + 1), seen)
        },
{
    assert(evs.skip(i).len() == evs.len() - i);
    assert(evs.skip(i)[0] == evs[i]);
    assert(evs.skip(i).drop_first() =~= evs.skip(i + 1));
}

/// Does some already-kept result carry this url?
pub(crate) fn url_known(results: &Vec<SearchResult>, url: &str) -> (r: bool)
    ensures
        r == contains_url(results@, url@),
{
    let mut i: usize = 0;
    while i < results.len()
        invariant
            i <= results@.len(),
            forall|j: int| 0 <= j < i ==> results@[j].url@ != url@,
        decreases results@.len() - i,
    {
        let it = &results[i];
        if str_eq(it.url.as_str(), url) {
            assert(results@[i as int].url@ == url@);
            return true;
        }
        i = i + 1;
    }
    false
}

/// Builds the result list of a Google- or Bing-style page: keeps entries
/// with an absolute destination, first occurrence of each URL winning, and
/// fails with `NoResults` exactly when nothing usable is on the page.
pub fn assemble_standard(entries: &Vec<RawEntry>) -> (r: Result<Vec<SearchResult>, SearchError>)
    ensures
        match r {
            Ok(v) => {
                &&& results_view(v@) == assemble_standard_spec(entries_view(entries@), Set::empty())
                &&& v@.len() > 0
                &&& unique_urls(v@)
            },
            Err(e) => e is NoResults && assemble_standard_spec(
                entries_view(entries@),
                Set::empty(),
            ).len() == 0,
        },
{
    let ghost evs = entries_view(entries@);
    let mut acc: Vec<SearchResult> = Vec::new();
    let mut i: usize = 0;
    proof {
        assert(evs.skip(0) =~= evs);
        assert(url_set(acc@) =~= Set::<Seq<char>>::empty());
        assert(results_view(acc@) + assemble_standard_spec(evs, Set::empty())
            =~= assemble_standard_spec(evs, Set::empty()));
    }
    while i < entries.len()
        invariant
            i <= entries@.len(),
            evs == entries_view(entries@),
            evs.len() == entries@.len(),
            unique_urls(acc@),
            assemble_standard_spec(evs, Set::empty()) == results_view(acc@)
                + assemble_standard_spec(evs.skip(i as int), url_set(acc@)),
        decreases entries@.len() - i,
    {
        let ghost seen = url_set(acc@);
        proof {
            lemma_standard_step(evs, i as int, seen);
            assert(evs[i as int] == entries@[i as int]@);
        }
        let e = &entries[i];
        let mut kept = false;
        match &e.href {
            None => {},
            Some(h) => {
                if str_starts_with(h.as_str(), "http") {
                    if !url_known(&acc, h.as_str()) {
                        let title = match &e.title {
                            Some(t) => trim_text(t.as_str()),
                            None => String::from_str("No title"),
                        };
                        let description = match &e.description {
                            Some(d) => trim_text(d.as_str()),
                            None => String::from_str("No description"),
                        };
                        let res = SearchResult { title, url: h.clone(), description };
                        proof {
                            assert(res@ =~= standard_result(evs[i as int]));
                            lemma_url_set_push(acc@, res);
                            lemma_results_view_push(acc@, res);
                            assert(results_view(acc@).push(res@) =~= results_view(acc@) + seq![
                                standard_result(evs[i as int]),
                            ]);
                        }
                        let ghost old_acc = acc@;
                        acc.push(res);
                        proof {
                            assert(acc@ == old_acc.push(res));
                            assert(forall|j: int|
                                0 <= j < old_acc.len() ==> old_acc[j].url@ != res.url@);
                            assert(unique_urls(acc@));
                            assert((results_view(old_acc) + seq![standard_result(evs[i as int])])
                                + assemble_standard_spec(
                                evs.skip(i as int + 1),
                                seen.insert(evs[i as int].href->0),
                            ) =~= results_view(old_acc) + (seq![standard_result(evs[i as int])]
                                + assemble_standard_spec(
                                evs.skip(i as int + 1),
                                seen.insert(evs[i as int].href->0),
                            )));
                        }
                        kept = true;
                    }
                }
            },
        }
        if !kept {
            proof {
                assert(!(standard_usable(evs[i as int]) && !seen.contains(evs[i as int].href->0)));
            }
        }
        i = i + 1;
    }
    proof {
        assert(evs.skip(i as int) =~= Seq::<RawEntryView>::empty());
        assert(assemble_standard_spec(evs.skip(i as int), url_set(acc@)) =~= Seq::<
            ResultView,
        >::empty());
        assert(results_view(acc@) + Seq::<ResultView>::empty() =~= results_view(acc@));
    }
    if acc.len() == 0 {
        Err(SearchError::NoResults)
    } else {
        Ok(acc)
    }
}

/// The cleaned destination of a DuckDuckGo entry: absolute URLs pass
/// through, protocol-relative ones are rewritten to `https:`, and
/// redirect-wrapped relative links yield the percent-decoded value of their
/// `uddg=` parameter; anything else is unusable.
pub open spec fn ddg_clean_url(u: Seq<char>) -> Option<Seq<char>> {
    if "http"@.is_prefix_of(u) {
        Some(u)
    } else if "//"@.is_prefix_of(u) {
        Some("https:"@ + u)
    } else if "/"@.is_prefix_of(u) {
        match split_second_piece(u, "uddg="@) {
            None => None,
            Some(seg) => percent_decoded(seg),
        }
    } else {
        None
    }
}

/// A DuckDuckGo entry is usable when the title and snippet elements are
/// present, a destination is attached, and it cleans to a usable URL.
pub open spec fn ddg_usable(e: RawEntryView) -> bool {
    &&& e.href is Some
    &&& e.title is Some
    &&& e.description is Some
    &&& ddg_clean_url(e.href->0) is Some
}

/// The result a usable DuckDuckGo entry yields.
pub open spec fn ddg_result(e: RawEntryView) -> ResultView {
    ResultView {
        title: trimmed(e.title->0),
        url: ddg_clean_url(e.href->0)->0,
        description: trimmed(e.description->0),
    }
}

/// The results of a DuckDuckGo page: usable entries in page order, the first
/// occurrence of each cleaned destination URL winning.
pub open spec fn assemble_ddg_spec(entries: Seq<RawEntryView>, seen: Set<Seq<char>>) -> Seq<
    ResultView,
>
    decreases entries.len(),
{
    if entries.len() == 0 {
        Seq::empty()
    } else {
        let e = entries[0];
        let rest = entries.drop_first();
        if ddg_usable(e) && !seen.contains(ddg_clean_url(e.href->0)->0) {
            seq![ddg_result(e)] + assemble_ddg_spec(rest, seen.insert(ddg_clean_url(e.href->0)->0))
        } else {
            assemble_ddg_spec(rest, seen)
        }
    }
}

/// One unfolding step of `assemble_ddg_spec` at position `i`.
proof fn lemma_ddg_step(evs: Seq<RawEntryView>, i: int, seen: Set<Seq<char>>)
    requires
        0 <= i < evs.len(),
    ensures
        assemble_ddg_spec(evs.skip(i), seen) == if ddg_usable(evs[i]) && !seen.contains(
            ddg_clean_url(evs[i].href->0)->0,
        ) {
            seq![ddg_result(evs[i])] + assemble_ddg_spec(
                evs.skip(i + 1),
                seen.insert(ddg_clean_url(evs[i].href->0)->0),
            )
        } else {
            assemble_ddg_spec(evs.skip(i + 1), seen)
        },
{
    assert(evs.skip(i).len() == evs.len() - i);
    assert(evs.skip(i)[0] == evs[i]);
    assert(evs.skip(i).drop_first() =~= evs.skip(i + 1));
}

/// Cleans one DuckDuckGo destination.
fn ddg_clean(href: &str) -> (r: Option<String>)
    ensures
        match r {
            Some(u) => ddg_clean_url(href@) == Some(u@),
            None => ddg_clean_url(href@) is None,
        },
{
    if str_starts_with(href, "http") {
        Some(String::from_str(href))
    } else if str_starts_with(href, "//") {
        Some(String::from_str("https:").concat(href))
    } else if str_starts_with(href, "/") {
        proof {
            reveal_strlit("uddg=");
        }
        match segment_after_first(href, "uddg=") {
            None => None,
            Some(seg) => decode_component(seg.as_str()),
        }
    } else {
        None
    }
}

/// Builds the result list of a DuckDuckGo page: requires title and snippet
/// elements, rewrites protocol-relative and redirect-wrapped destinations,
/// drops entries whose redirect parameter does not decode, dedupes by
/// cleaned URL, and fails with `NoResults` exactly when nothing usable is on
/// the page.
pub fn assemble_ddg(entries: &Vec<RawEntry>) -> (r: Result<Vec<SearchResult>, SearchError>)
    ensures
        match r {
            Ok(v) => {
                &&& results_view(v@) == assemble_ddg_spec(entries_view(entries@), Set::empty())
                &&& v@.len() > 0
                &&& unique_urls(v@)
            },
            Err(e) => e is NoResults && assemble_ddg_spec(
                entries_view(entries@),
                Set::empty(),
            ).len() == 0,
        },
{
    let ghost evs = entries_view(entries@);
    let mut acc: Vec<SearchResult> = Vec::new();
    let mut i: usize = 0;
    proof {
        assert(evs.skip(0) =~= evs);
        assert(url_set(acc@) =~= Set::<Seq<char>>::empty());
        assert(results_view(acc@) + assemble_ddg_spec(evs, Set::empty()) =~= assemble_ddg_spec(
            evs,
            Set::empty(),
        ));
    }
    while i < entries.len()
        invariant
            i <= entries@.len(),
            evs == entries_view(entries@),
            evs.len() == entries@.len(),
            unique_urls(acc@),
            assemble_ddg_spec(evs, Set::empty()) == results_view(acc@) + assemble_ddg_spec(
                evs.skip(i as int),
                url_set(acc@),
            ),
        decreases entries@.len() - i,
    {
        let ghost seen = url_set(acc@);
        proof {
            lemma_ddg_step(evs, i as int, seen);
            assert(evs[i as int] == entries@[i as int]@);
        }
        let e = &entries[i];
        let mut kept = false;
        match (&e.href, &e.title, &e.description) {
            (Some(h), Some(t), Some(d)) => {
                match ddg_clean(h.as_str()) {
                    None => {},
                    Some(clean) => {
                        if !url_known(&acc, clean.as_str()) {
                            let res = SearchResult {
                                title: trim_text(t.as_str()),
                                url: clean,
                                description: trim_text(d.as_str()),
                            };
                            proof {
                                assert(res@ =~= ddg_result(evs[i as int]));
                                lemma_url_set_push(acc@, res);
                                lemma_results_view_push(acc@, res);
                            }
                            let ghost old_acc = acc@;
                            acc.push(res);
                            proof {
                                assert(acc@ == old_acc.push(res));
                                assert(forall|j: int|
                                    0 <= j < old_acc.len() ==> old_acc[j].url@ != res.url@);
                                assert(unique_urls(acc@));
                                assert(results_view(old_acc.push(res)) =~= results_view(old_acc)
                                    + seq![ddg_result(evs[i as int])]);
                                assert((results_view(old_acc) + seq![ddg_result(evs[i as int])])
                                    + assemble_ddg_spec(
                                    evs.skip(i as int + 1),
                                    seen.insert(ddg_clean_url(evs[i as int].href->0)->0),
                                ) =~= results_view(old_acc) + (seq![ddg_result(evs[i as int])]
                                    + assemble_ddg_spec(
                                    evs.skip(i as int + 1),
                                    seen.insert(ddg_clean_url(evs[i as int].href->0)->0),
                                )));
                            }
                            kept = true;
                        }
                    },
                }
            },
            _ => {},
        }
        if !kept {
            proof {
                assert(!(ddg_usable(evs[i as int]) && !seen.contains(
                    ddg_clean_url(evs[i as int].href->0)->0,
                )));
            }
        }
        i = i + 1;
    }
    proof {
        assert(evs.skip(i as int) =~= Seq::<RawEntryView>::empty());
        assert(assemble_ddg_spec(evs.skip(i as int), url_set(acc@)) =~= Seq::<ResultView>::empty());
        assert(results_view(acc@) + Seq::<ResultView>::empty() =~= results_view(acc@));
    }
    if acc.len() == 0 {
        Err(SearchError::NoResults)
    } else {
        Ok(acc)
    }
}

/// The raw entries Google's fixed selectors pick out of a page.
pub open spec fn google_entries(html: Seq<char>) -> Seq<RawEntryView> {
    dom_entries(html, "div.MjjYud"@, "a[jsname='UWckNb']"@, "h3.LC20lb"@, "div.VwiC3b"@)
}

/// The structured results Google's extraction yields for a page.
pub open spec fn google_results(html: Seq<char>) -> Seq<ResultView> {
    assemble_standard_spec(google_entries(html), Set::empty())
}

/// The raw entries Bing's fixed selectors pick out of a page.
pub open spec fn bing_entries(html: Seq<char>) -> Seq<RawEntryView> {
    dom_entries(html, "li.b_algo"@, "h2 a"@, "h2"@, "div.b_caption p"@)
}

/// The structured results Bing's extraction yields for a page.
pub open spec fn bing_results(html: Seq<char>) -> Seq<ResultView> {
    assemble_standard_spec(bing_entries(html), Set::empty())
}

/// The raw entries DuckDuckGo's fixed selectors pick out of a page.
pub open spec fn ddg_entries(html: Seq<char>) -> Seq<RawEntryView> {
    dom_entries(html, ".result"@, ".result__title a"@, ".result__title a"@, ".result__snippet"@)
}

/// The structured results DuckDuckGo's extraction yields for a page.
pub open spec fn ddg_results(html: Seq<char>) -> Seq<ResultView> {
    assemble_ddg_spec(ddg_entries(html), Set::empty())
}

} // verus!
