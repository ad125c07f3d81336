//! One search session: rate-limiting of user-initiated searches, the
//! pagination cursor, deduplication of incoming batches against everything
//! already held, and the paged view. Fetching itself is the caller's loop:
//! the operations here either finish at once or hand back the URL to fetch,
//! and a second call applies the fetched outcome.

use vstd::prelude::*;
use vstd::arithmetic::div_mod::{lemma_div_is_ordered, lemma_fundamental_div_mod};
use vstd::string::StringExecFns;
use crate::engine::{engine_url, favored_engine, Google, SearchEngine};
use crate::errors::{search_error_message, SearchError};
use crate::models::{contains_url, unique_urls, SearchResult};
use crate::{ITEMS_PER_PAGE, RATE_LIMIT_MS};

verus! {

/// The number of pages the paged view shows for `n` results: at least one,
/// else one page per ten results, the last possibly short.
pub open spec fn spec_total_pages(n: int) -> int {
    if n == 0 {
        1
    } else {
        (n - 1) / 10 + 1
    }
}

/// The page count is the ceiling of `n / 10`: the pages before the last are
/// full, and the last page reaches exactly `n`.
pub proof fn lemma_total_pages_is_ceiling(n: int)
    requires
        n > 0,
    ensures
        10 * (spec_total_pages(n) - 1) < n,
        n <= 10 * spec_total_pages(n),
{
    lemma_fundamental_div_mod(n - 1, 10);
}

/// More results never mean fewer pages.
pub proof fn lemma_total_pages_monotone(n1: int, n2: int)
    requires
        0 <= n1 <= n2,
    ensures
        spec_total_pages(n1) <= spec_total_pages(n2),
{
    if 0 < n1 {
        lemma_div_is_ordered(n1 - 1, n2 - 1, 10);
    } else if 0 < n2 {
        lemma_fundamental_div_mod(n2 - 1, 10);
    }
}

/// The entries of `batch` whose url no entry of `existing` carries, in
/// batch order.
pub open spec fn filter_new(existing: Seq<SearchResult>, batch: Seq<SearchResult>) -> Seq<
    SearchResult,
>
    decreases batch.len(),
{
    if batch.len() == 0 {
        Seq::empty()
    } else {
        let rest = filter_new(existing, batch.drop_first());
        if !contains_url(existing, batch[0].url@) {
            seq![batch[0]] + rest
        } else {
            rest
        }
    }
}

/// One unfolding step of `filter_new` at position `i`.
proof fn lemma_filter_new_step(existing: Seq<SearchResult>, batch: Seq<SearchResult>, i: int)
    requires
        0 <= i < batch.len(),
    ensures
        filter_new(existing, batch.skip(i)) == if !contains_url(existing, batch[i].url@) {
            seq![batch[i]] + filter_new(existing, batch.skip(i + 1))
        } else {
            filter_new(existing, batch.skip(i + 1))
        },
{
    assert(batch.skip(i).len() == batch.len() - i);
    assert(batch.skip(i)[0] == batch[i]);
    assert(batch.skip(i).drop_first() =~= batch.skip(i + 1));
}

/// Results with urls absent from `existing` merge into it without breaking
/// uniqueness.
proof fn lemma_merge_unique(existing: Seq<SearchResult>, fresh: Seq<SearchResult>)
    requires
        unique_urls(existing),
        unique_urls(fresh),
        forall|k: int| 0 <= k < fresh.len() ==> !contains_url(existing, fresh[k].url@),
    ensures
        unique_urls(existing + fresh),
{
    let all = existing + fresh;
    assert forall|i: int, j: int| 0 <= i < j < all.len() implies all[i].url@ != all[j].url@ by {
        if j < existing.len() {
        } else if i < existing.len() {
            let k = j - existing.len();
            assert(!contains_url(existing, fresh[k].url@));
            if all[i].url@ == all[j].url@ {
                assert(existing[i].url@ == fresh[k].url@);
                assert(contains_url(existing, fresh[k].url@));
            }
        } else {
            assert(fresh[i - existing.len()].url@ != fresh[j - existing.len()].url@);
        }
    }
}

/// However the results were accumulated, a well-formed session never holds
/// two results with the same url.
pub proof fn lemma_results_deduplicated(app: App)
    requires
        app.wf(),
    ensures
        unique_urls(app.search_results@),
{
}

/// For a well-formed session with results, the page index is in range and
/// the page count is exactly the ceiling of the result count over ten: the
/// pages before the last are full and the last reaches exactly the end.
pub proof fn lemma_pagination_bound(app: App)
    requires
        app.wf(),
        app.search_results@.len() > 0,
    ensures
        0 <= app.page < app.total_pages,
        app.total_pages == spec_total_pages(app.search_results@.len() as int),
        10 * (app.total_pages - 1) < app.search_results@.len() <= 10 * app.total_pages,
{
    lemma_total_pages_is_ceiling(app.search_results@.len() as int);
}

/// A search arriving now is refused when the previous one completed less
/// than the cooldown ago.
pub open spec fn rate_limited(last: Option<u64>, now: u64) -> bool {
    match last {
        Some(t) => now < t + RATE_LIMIT_MS,
        None => false,
    }
}

/// The session state one running query accumulates.
pub struct App {
    /// The query as typed.
    pub input: String,
    /// Everything accepted so far, in arrival order, urls unique.
    pub search_results: Vec<SearchResult>,
    /// Absolute index of the highlighted result.
    pub selected_index: usize,
    /// Whether keystrokes edit the query.
    pub input_mode: bool,
    /// The last failure, rendered for the user.
    pub error_message: Option<String>,
    /// The last expected-but-empty outcome, rendered for the user.
    pub warning_message: Option<String>,
    /// Scroll position inside the current page.
    pub scroll_offset: usize,
    /// Current page, 0-based.
    pub page: usize,
    /// Number of pages the current results fill.
    pub total_pages: usize,
    /// When the last search completed, in caller-clock milliseconds.
    pub last_search_ms: Option<u64>,
    /// Whether a fetch is in flight.
    pub is_loading: bool,
    /// The backend in use.
    pub search_engine: SearchEngine,
    /// The provider-side pagination cursor.
    pub start: u16,
}

/// What `perform_search` asks of its caller.
pub enum SearchStart {
    /// The query was empty: nothing to do.
    Idle,
    /// The cooldown refused the search; a warning is set.
    RateLimited,
    /// Fetch this URL and hand the outcome to `finish_search`.
    Fetch(String),
}

/// What `change_page` did.
pub enum PageStep {
    /// Nothing changed.
    Stay,
    /// The view moved to an existing page.
    Moved,
    /// The target lies past the last page: extend the results, then call
    /// `advance_after_extend`.
    NeedMore,
}

impl App {
    /// The session invariant: results never hold two entries with one url,
    /// the page count is always the one the results fill (one page for an
    /// empty session, keeping the page display well-defined), and the page
    /// index stays inside it.
    pub open spec fn wf(&self) -> bool {
        &&& unique_urls(self.search_results@)
        &&& self.total_pages == spec_total_pages(self.search_results@.len() as int)
        &&& self.page < self.total_pages
    }

    /// A fresh session: empty, input-accepting, on the favored backend.
    pub fn new(favor: &str) -> (r: Self)
        ensures
            r.input@.len() == 0,
            r.search_results@.len() == 0,
            r.selected_index == 0,
            r.input_mode == true,
            r.error_message is None,
            r.warning_message is None,
            r.scroll_offset == 0,
            r.page == 0,
            r.total_pages == 1,
            r.last_search_ms is None,
            r.is_loading == false,
            r.search_engine == favored_engine(favor@),
            r.start == 0,
            r.wf(),
    {
        App {
            input: String::new(),
            search_results: Vec::new(),
            selected_index: 0,
            input_mode: true,
            error_message: None,
            warning_message: None,
            scroll_offset: 0,
            page: 0,
            total_pages: 1,
            last_search_ms: None,
            is_loading: false,
            search_engine: SearchEngine::favor(favor),
            start: 0,
        }
    }

    /// Recomputes the page count from the held results.
    pub fn total_pages(&mut self)
        ensures
            final(self).total_pages == spec_total_pages(old(self).search_results@.len() as int),
            *final(self) == (App { total_pages: final(self).total_pages, ..*old(self) }),
    {
        let n = self.search_results.len();
        if n == 0 {
            self.total_pages = 1;
        } else {
            self.total_pages = (n - 1) / ITEMS_PER_PAGE + 1;
        }
    }

    /// The half-open range of result indices the current page shows.
    pub fn current_page_range(&self) -> (r: (usize, usize))
        requires
            self.wf(),
        ensures
            self.search_results@.len() == 0 ==> r == (0usize, 0usize),
            self.search_results@.len() > 0 ==> {
                &&& r.0 == self.page * 10
                &&& r.1 == (if self.page + 1 == self.total_pages {
                    self.search_results@.len() as int
                } else {
                    r.0 + 10
                })
                &&& r.0 < r.1 <= self.search_results@.len()
            },
    {
        if self.search_results.is_empty() {
            return (0, 0);
        }
        let n = self.search_results.len();
        proof {
            lemma_total_pages_is_ceiling(self.search_results@.len() as int);
            assert(10 * (self.page as int) <= 10 * (self.total_pages - 1));
            assert(10 * (self.page as int) < self.search_results@.len());
        }
        let start_index = self.page * ITEMS_PER_PAGE;
        let end_index = if self.page + 1 == self.total_pages {
            n
        } else {
            start_index + ITEMS_PER_PAGE
        };
        (start_index, end_index)
    }

    /// The url of the result `selected` places below the top of the current
    /// page, if one is held there.
    pub fn selected_url(&self, selected: usize) -> (r: Option<String>)
        requires
            self.wf(),
        ensures
            match r {
                Some(u) => self.page * 10 + selected < self.search_results@.len() && u@
                    == self.search_results@[self.page * 10 + selected].url@,
                None => self.page * 10 + selected >= self.search_results@.len(),
            },
    {
        if self.search_results.is_empty() {
            return None;
        }
        let n = self.search_results.len();
        proof {
            lemma_total_pages_is_ceiling(self.search_results@.len() as int);
            assert(10 * (self.page as int) <= 10 * (self.total_pages - 1));
            assert(10 * (self.page as int) < self.search_results@.len());
        }
        let start_index = self.page * ITEMS_PER_PAGE;
        match start_index.checked_add(selected) {
            None => None,
            Some(idx) => {
                if idx < self.search_results.len() {
                    Some(self.search_results[idx].url.clone())
                } else {
                    None
                }
            },
        }
    }

    /// Empties the query input.
    pub fn clear_input(&mut self)
        ensures
            final(self).input@ == Seq::<char>::empty(),
            *final(self) == (App { input: final(self).input, ..*old(self) }),
    {
        self.input = String::new();
    }

    /// Full reset of the session state back to initial values; re-enters
    /// input-accepting mode. The backend, the clock mark and the loading
    /// flag stay.
    pub fn clear_results(&mut self)
        ensures
            final(self).search_results@ == Seq::<SearchResult>::empty(),
            final(self).selected_index == 0,
            final(self).page == 0,
            final(self).total_pages == 1,
            final(self).scroll_offset == 0,
            final(self).error_message is None,
            final(self).warning_message is None,
            final(self).input@ == Seq::<char>::empty(),
            final(self).input_mode == true,
            final(self).start == 0,
            final(self).search_engine == old(self).search_engine,
            final(self).last_search_ms == old(self).last_search_ms,
            final(self).is_loading == old(self).is_loading,
            final(self).wf(),
    {
        self.search_results = Vec::new();
        self.selected_index = 0;
        self.page = 0;
        self.total_pages = 1;
        self.scroll_offset = 0;
        self.error_message = None;
        self.warning_message = None;
        self.input = String::new();
        self.input_mode = true;
        self.start = 0;
    }

    /// Accepts or refuses a fresh search: a no-op on an empty query, a
    /// warning inside the cooldown — results, cursor and paging untouched,
    /// no fetch — and otherwise the reset to offset zero with the URL to
    /// fetch.
    pub fn perform_search(&mut self, now_ms: u64) -> (r: SearchStart)
        requires
            old(self).wf(),
        ensures
            final(self).wf(),
            match r {
                SearchStart::Idle => old(self).input@.len() == 0 && *final(self) == *old(self),
                SearchStart::RateLimited => {
                    &&& old(self).input@.len() > 0
                    &&& rate_limited(old(self).last_search_ms, now_ms)
                    &&& final(self).warning_message matches Some(w) && w@
                        == "Please wait a moment before searching again"@
                    &&& *final(self) == (App {
                        warning_message: final(self).warning_message,
                        ..*old(self)
                    })
                },
                SearchStart::Fetch(url) => {
                    &&& old(self).input@.len() > 0
                    &&& !rate_limited(old(self).last_search_ms, now_ms)
                    &&& url@ == engine_url(old(self).search_engine, old(self).input@, 0)
                    &&& *final(self) == (App {
                        is_loading: true,
                        error_message: None,
                        warning_message: None,
                        start: 0,
                        ..*old(self)
                    })
                },
            },
    {
        if self.input.as_str().is_empty() {
            return SearchStart::Idle;
        }
        let limited = match self.last_search_ms {
            Some(t) => match now_ms.checked_sub(t) {
                None => true,
                Some(d) => d < RATE_LIMIT_MS,
            },
            None => false,
        };
        if limited {
            self.warning_message = Some(
                String::from_str("Please wait a moment before searching again"),
            );
            return SearchStart::RateLimited;
        }
        self.is_loading = true;
        self.error_message = None;
        self.warning_message = None;
        self.start = 0;
        let engine = self.search_engine;
        SearchStart::Fetch(engine.build_url(self.input.as_str(), 0))
    }

    /// Applies a fresh search's outcome: a success replaces the results
    /// wholesale and resets the view; a failure clears the whole session
    /// state and surfaces the error. Either way the session leaves loading,
    /// leaves input mode and records when the search completed.
    pub fn finish_search(&mut self, outcome: Result<Vec<SearchResult>, SearchError>, now_ms: u64)
        requires
            old(self).wf(),
            outcome matches Ok(rs) ==> unique_urls(rs@),
        ensures
            final(self).wf(),
            final(self).is_loading == false,
            final(self).input_mode == false,
            final(self).last_search_ms == Some(now_ms),
            final(self).search_engine == old(self).search_engine,
            match outcome {
                Ok(rs) => {
                    &&& final(self).search_results@ == rs@
                    &&& final(self).page == 0
                    &&& final(self).selected_index == 0
                    &&& final(self).scroll_offset == 0
                    &&& final(self).total_pages == spec_total_pages(rs@.len() as int)
                    &&& final(self).error_message == old(self).error_message
                    &&& final(self).warning_message == old(self).warning_message
                    &&& final(self).input == old(self).input
                    &&& final(self).start == old(self).start
                },
                Err(e) => {
                    &&& final(self).search_results@.len() == 0
                    &&& final(self).page == 0
                    &&& final(self).total_pages == 1
                    &&& final(self).selected_index == 0
                    &&& final(self).scroll_offset == 0
                    &&& final(self).start == 0
                    &&& final(self).input@.len() == 0
                    &&& final(self).warning_message is None
                    &&& final(self).error_message matches Some(m) && m@ == "Search failed: "@
                        + search_error_message(e)
                },
            },
    {
        match outcome {
            Ok(rs) => {
                self.search_results = rs;
                self.selected_index = 0;
                self.page = 0;
                self.scroll_offset = 0;
                self.total_pages();
            },
            Err(e) => {
                self.clear_results();
                self.error_message = Some(
                    String::from_str("Search failed: ").concat(e.message().as_str()),
                );
            },
        }
        self.is_loading = false;
        self.input_mode = false;
        self.last_search_ms = Some(now_ms);
    }

    /// Plans a "load more": a no-op on an empty query; otherwise clears the
    /// messages, advances the provider-side cursor by exactly ten
    /// (saturating at the top of `u16`) and hands back the URL of the next
    /// batch.
    pub fn next_search(&mut self) -> (r: Option<String>)
        requires
            old(self).wf(),
        ensures
            final(self).wf(),
            match r {
                None => old(self).input@.len() == 0 && *final(self) == *old(self),
                Some(url) => {
                    &&& old(self).input@.len() > 0
                    &&& final(self).start == if old(self).start + 10 <= u16::MAX {
                        (old(self).start + 10) as u16
                    } else {
                        u16::MAX
                    }
                    &&& url@ == engine_url(
                        old(self).search_engine,
                        old(self).input@,
                        final(self).start,
                    )
                    &&& *final(self) == (App {
                        start: final(self).start,
                        error_message: None,
                        warning_message: None,
                        ..*old(self)
                    })
                },
            },
    {
        if self.input.as_str().is_empty() {
            return None;
        }
        self.error_message = None;
        self.warning_message = None;
        self.start = if self.start <= u16::MAX - 10 {
            self.start + 10
        } else {
            u16::MAX
        };
        let engine = self.search_engine;
        Some(engine.build_url(self.input.as_str(), self.start))
    }

    /// Applies a "load more" outcome: of a fetched batch, exactly the
    /// results whose urls the session does not yet hold are appended, in
    /// batch order, and the page count is recomputed; a batch of nothing
    /// but known urls sets the "no more results" warning instead; a failure
    /// surfaces the error and leaves the held results untouched.
    pub fn finish_next_search(&mut self, outcome: Result<Vec<SearchResult>, SearchError>)
        requires
            old(self).wf(),
            outcome matches Ok(batch) ==> unique_urls(batch@),
        ensures
            final(self).wf(),
            final(self).input == old(self).input,
            final(self).page == old(self).page,
            final(self).start == old(self).start,
            final(self).search_engine == old(self).search_engine,
            final(self).last_search_ms == old(self).last_search_ms,
            final(self).is_loading == old(self).is_loading,
            final(self).input_mode == old(self).input_mode,
            final(self).selected_index == old(self).selected_index,
            final(self).scroll_offset == old(self).scroll_offset,
            match outcome {
                Err(e) => {
                    &&& final(self).search_results == old(self).search_results
                    &&& final(self).total_pages == old(self).total_pages
                    &&& final(self).warning_message == old(self).warning_message
                    &&& final(self).error_message matches Some(m) && m@ == "Next search failed: "@
                        + search_error_message(e)
                },
                Ok(batch) => ({
                    let fresh = filter_new(old(self).search_results@, batch@);
                    if fresh.len() > 0 {
                        &&& final(self).search_results@ == old(self).search_results@ + fresh
                        &&& final(self).total_pages == spec_total_pages(
                            final(self).search_results@.len() as int,
                        )
                        &&& final(self).error_message == old(self).error_message
                        &&& final(self).warning_message == old(self).warning_message
                    } else {
                        &&& final(self).search_results == old(self).search_results
                        &&& final(self).total_pages == old(self).total_pages
                        &&& final(self).error_message == old(self).error_message
                        &&& final(self).warning_message matches Some(w) && w@
                            == "No more results found"@
                    }
                }),
            },
    {
        match outcome {
            Err(e) => {
                self.error_message = Some(
                    String::from_str("Next search failed: ").concat(e.message().as_str()),
                );
            },
            Ok(batch) => {
                let ghost existing = self.search_results@;
                let mut fresh: Vec<SearchResult> = Vec::new();
                let mut i: usize = 0;
                proof {
                    assert(batch@.skip(0) =~= batch@);
                    assert(seq![] + filter_new(existing, batch@) =~= filter_new(
                        existing,
                        batch@,
                    ));
                }
                while i < batch.len()
                    invariant
                        i <= batch@.len(),
                        unique_urls(batch@),
                        unique_urls(existing),
                        existing == self.search_results@,
                        filter_new(existing, batch@) == fresh@ + filter_new(
                            existing,
                            batch@.skip(i as int),
                        ),
                        unique_urls(fresh@),
                        forall|k: int|
                            0 <= k < fresh@.len() ==> !contains_url(existing, fresh@[k].url@),
                        forall|k: int| #![trigger fresh@[k]]
                            0 <= k < fresh@.len() ==> exists|j: int|
                                0 <= j < i && fresh@[k] == #[trigger] batch@[j],
                    decreases batch@.len() - i,
                {
                    proof {
                        lemma_filter_new_step(existing, batch@, i as int);
                    }
                    let item = &batch[i];
                    if !crate::extract::url_known(&self.search_results, item.url.as_str()) {
                        let ghost old_fresh = fresh@;
                        fresh.push(item.duplicate());
                        proof {
                            assert(fresh@ == old_fresh.push(batch@[i as int]));
                            assert forall|k: int| #![trigger fresh@[k]]
                                0 <= k < fresh@.len() implies exists|j: int|
                                0 <= j < i + 1 && fresh@[k] == #[trigger] batch@[j] by {
                                if k < old_fresh.len() {
                                    let j = choose|j: int|
                                        0 <= j < i && old_fresh[k] == #[trigger] batch@[j];
                                    assert(fresh@[k] == batch@[j]);
                                } else {
                                    assert(fresh@[k] == batch@[i as int]);
                                }
                            }
                            assert forall|k: int|
                                0 <= k < old_fresh.len() implies old_fresh[k].url@
                                != batch@[i as int].url@ by {
                                let j = choose|j: int|
                                    0 <= j < i && old_fresh[k] == #[trigger] batch@[j];
                                assert(batch@[j].url@ != batch@[i as int].url@);
                            }
                            assert(unique_urls(fresh@));
                            assert((old_fresh + seq![batch@[i as int]]) + filter_new(
                                existing,
                                batch@.skip(i as int + 1),
                            ) =~= old_fresh + (seq![batch@[i as int]] + filter_new(
                                existing,
                                batch@.skip(i as int + 1),
                            )));
                            assert(old_fresh.push(batch@[i as int]) =~= old_fresh + seq![
                                batch@[i as int],
                            ]);
                        }
                    }
                    i = i + 1;
                }
                proof {
                    assert(batch@.skip(i as int) =~= Seq::<SearchResult>::empty());
                    assert(filter_new(existing, batch@.skip(i as int)) =~= Seq::<
                        SearchResult,
                    >::empty());
                    assert(fresh@ + Seq::<SearchResult>::empty() =~= fresh@);
                    assert(fresh@ == filter_new(existing, batch@));
                }
                if fresh.len() > 0 {
                    proof {
                        lemma_merge_unique(existing, fresh@);
                        lemma_total_pages_monotone(
                            existing.len() as int,
                            existing.len() as int + fresh@.len() as int,
                        );
                    }
                    let mut incoming = fresh;
                    self.search_results.append(&mut incoming);
                    self.total_pages();
                } else {
                    self.warning_message = Some(String::from_str("No more results found"));
                }
            },
        }
    }

    /// Turns a page: clamped to the existing pages, except that stepping
    /// forward past the last page asks for more results first.
    pub fn change_page(&mut self, direction: i32) -> (r: PageStep)
        requires
            old(self).wf(),
        ensures
            final(self).wf(),
            final(self).search_results == old(self).search_results,
            final(self).total_pages == old(self).total_pages,
            match r {
                PageStep::Stay => (old(self).search_results@.len() == 0 || old(self).page
                    + direction < 0) && *final(self) == *old(self),
                PageStep::Moved => {
                    &&& old(self).search_results@.len() > 0
                    &&& 0 <= old(self).page + direction < old(self).total_pages
                    &&& final(self).page == old(self).page + direction
                    &&& final(self).selected_index == final(self).page * 10
                    &&& *final(self) == (App {
                        page: final(self).page,
                        selected_index: final(self).selected_index,
                        scroll_offset: 0,
                        ..*old(self)
                    })
                },
                PageStep::NeedMore => {
                    &&& old(self).search_results@.len() > 0
                    &&& old(self).page + direction >= old(self).total_pages
                    &&& *final(self) == *old(self)
                },
            },
    {
        if self.search_results.is_empty() {
            return PageStep::Stay;
        }
        if direction >= 0 {
            let d = direction as usize;
            if d < self.total_pages && self.page < self.total_pages - d {
                self.page = self.page + d;
                let (start_index, _) = self.current_page_range();
                self.selected_index = start_index;
                self.scroll_offset = 0;
                PageStep::Moved
            } else {
                PageStep::NeedMore
            }
        } else {
            let d = (-(direction as i64)) as usize;
            if d <= self.page {
                self.page = self.page - d;
                let (start_index, _) = self.current_page_range();
                self.selected_index = start_index;
                self.scroll_offset = 0;
                PageStep::Moved
            } else {
                PageStep::Stay
            }
        }
    }

    /// After a forward-overflow page turn extended the results: advances to
    /// the next page exactly when the extension created one, else leaves
    /// the view on the last existing page.
    pub fn advance_after_extend(&mut self)
        requires
            old(self).wf(),
        ensures
            final(self).wf(),
            old(self).search_results@.len() > 0 && old(self).page + 1 < old(self).total_pages
                ==> {
                &&& final(self).page == old(self).page + 1
                &&& final(self).selected_index == final(self).page * 10
                &&& *final(self) == (App {
                    page: final(self).page,
                    selected_index: final(self).selected_index,
                    scroll_offset: 0,
                    ..*old(self)
                })
            },
            !(old(self).search_results@.len() > 0 && old(self).page + 1 < old(self).total_pages)
                ==> *final(self) == *old(self),
    {
        if self.search_results.is_empty() {
            return ;
        }
        if self.page + 1 < self.total_pages {
            self.page = self.page + 1;
            let (start_index, _) = self.current_page_range();
            self.selected_index = start_index;
            self.scroll_offset = 0;
        }
    }
}

impl Default for App {
    /// A fresh session on Google.
    fn default() -> (r: Self)
        ensures
            r.input@.len() == 0,
            r.search_results@.len() == 0,
            r.search_engine is Google,
            r.wf(),
    {
        App {
            input: String::new(),
            search_results: Vec::new(),
            selected_index: 0,
            input_mode: true,
            error_message: None,
            warning_message: None,
            scroll_offset: 0,
            page: 0,
            total_pages: 1,
            last_search_ms: None,
            is_loading: false,
            search_engine: SearchEngine::Google(Google),
            start: 0,
        }
    }
}

} // verus!
