//! The paced, cached, retrying fetch pipeline, as a state machine. The
//! caller performs the sleeps and the HTTP request itself and reports what
//! the transport did as an `HttpEvent`; everything decided here — cache
//! bypass, pacing and backoff delays, response classification, retry
//! bookkeeping, which error is surfaced — is verified.

use vstd::prelude::*;
use vstd::string::StringExecFns;
use crate::cache::{cache_get, cache_history, cache_insert, cache_new, MAX_TIME_TO_LIVE_SECS};
use crate::config::{CacheConfig, SearchConfig};
use crate::errors::{ErrorView, SearchError};
use crate::strutil::{contains_substr, dec_rep, has_match, u16_to_dec};

verus! {

/// What one HTTP attempt reported back.
pub enum HttpEvent {
    /// Status 200 and the body was read in time.
    Body(String),
    /// Status 200 but reading the body failed, with the failure's text.
    BodyReadFailed(String),
    /// Status 200 but reading the body exceeded the response timeout.
    BodyReadTimedOut,
    /// A status other than 200.
    Status(u16),
    /// The request itself timed out.
    TransportTimeout,
    /// No connection could be established.
    ConnectFailed,
    /// Any other transport failure, with its text.
    TransportFailed(String),
    /// The whole attempt exceeded the request timeout.
    AttemptTimedOut,
}

/// A 200 body that is actually an anti-bot interstitial, recognized by
/// fixed substrings.
pub open spec fn blocked_body(b: Seq<char>) -> bool {
    ||| has_match(b, "detected unusual traffic"@)
    ||| has_match(b, "CAPTCHA"@)
    ||| has_match(b, "blocked"@)
}

/// How one attempt's outcome is classified: the body on success, the error
/// taxonomy otherwise.
pub open spec fn classify_view(ev: HttpEvent) -> Result<Seq<char>, ErrorView> {
    match ev {
        HttpEvent::Body(b) => if blocked_body(b@) {
            Err(ErrorView::Blocked)
        } else {
            Ok(b@)
        },
        HttpEvent::BodyReadFailed(d) => Err(ErrorView::InvalidResponse(d@)),
        HttpEvent::BodyReadTimedOut => Err(ErrorView::Timeout),
        HttpEvent::Status(c) => if c == 429 {
            Err(ErrorView::RateLimited)
        } else if c == 403 {
            Err(ErrorView::Blocked)
        } else if c == 408 || c == 504 {
            Err(ErrorView::Timeout)
        } else {
            Err(ErrorView::Network("HTTP error: "@ + dec_rep(c as int)))
        },
        HttpEvent::TransportTimeout => Err(ErrorView::Timeout),
        HttpEvent::ConnectFailed => Err(ErrorView::Network("Connection failed"@)),
        HttpEvent::TransportFailed(d) => Err(ErrorView::Network(d@)),
        HttpEvent::AttemptTimedOut => Err(ErrorView::Timeout),
    }
}

/// Classifies one attempt's outcome by status and body.
pub fn classify(ev: HttpEvent) -> (r: Result<String, SearchError>)
    ensures
        match r {
            Ok(t) => classify_view(ev) == Ok::<Seq<char>, ErrorView>(t@),
            Err(e) => classify_view(ev) == Err::<Seq<char>, ErrorView>(e@),
        },
{
    match ev {
        HttpEvent::Body(b) => {
            if contains_substr(b.as_str(), "detected unusual traffic") || contains_substr(
                b.as_str(),
                "CAPTCHA",
            ) || contains_substr(b.as_str(), "blocked") {
                Err(SearchError::Blocked)
            } else {
                Ok(b)
            }
        },
        HttpEvent::BodyReadFailed(d) => Err(SearchError::InvalidResponse(d)),
        HttpEvent::BodyReadTimedOut => Err(SearchError::Timeout),
        HttpEvent::Status(c) => {
            if c == 429 {
                Err(SearchError::RateLimited)
            } else if c == 403 {
                Err(SearchError::Blocked)
            } else if c == 408 || c == 504 {
                Err(SearchError::Timeout)
            } else {
                Err(
                    SearchError::NetworkError(
                        String::from_str("HTTP error: ").concat(u16_to_dec(c).as_str()),
                    ),
                )
            }
        },
        HttpEvent::TransportTimeout => Err(SearchError::Timeout),
        HttpEvent::ConnectFailed => Err(
            SearchError::NetworkError(String::from_str("Connection failed")),
        ),
        HttpEvent::TransportFailed(d) => Err(SearchError::NetworkError(d)),
        HttpEvent::AttemptTimedOut => Err(SearchError::Timeout),
    }
}

/// The delay before attempt `n`, in milliseconds: linear backoff scaled by
/// the attempt index plus the per-call jitter, saturating at the top of
/// `u64`. Attempt 0 is preceded by the pacing delay, `base + jitter`.
pub open spec fn backoff_delay(base: int, n: int, jitter: int) -> int {
    if base * n + jitter > u64::MAX {
        u64::MAX as int
    } else {
        base * n + jitter
    }
}

/// Wherever the products fit, the backoff schedule is exactly linear:
/// the sleep before attempt `n` is `base * n + jitter` milliseconds.
pub proof fn lemma_backoff_linear(base: int, n: int, jitter: int)
    requires
        0 <= base && 0 <= n && 0 <= jitter,
        base * n + jitter <= u64::MAX,
    ensures
        backoff_delay(base, n, jitter) == base * n + jitter,
{
}

/// Computes `backoff_delay(base, n, jitter)`.
fn backoff_delay_ms(base: u64, n: u64, jitter: u64) -> (r: u64)
    ensures
        r == backoff_delay(base as int, n as int, jitter as int),
{
    match base.checked_mul(n) {
        None => u64::MAX,
        Some(p) => match p.checked_add(jitter) {
            None => u64::MAX,
            Some(d) => d,
        },
    }
}

/// One in-flight fetch: how many attempts are allowed and made, the delays,
/// and the last classified error.
pub struct FetchAttempt {
    /// How many attempts this fetch may make in all.
    pub max_retries: u32,
    /// Base delay in milliseconds.
    pub base_delay: u64,
    /// The jitter rolled once for this fetch, in milliseconds.
    pub jitter: u64,
    /// The index of the attempt about to run.
    pub attempt: u32,
    /// The error of the most recent failed attempt.
    pub last_error: Option<SearchError>,
}

/// What the caller must do next with an in-flight fetch.
pub enum FetchStep {
    /// Sleep this long, then make the next request.
    Retry { delay_ms: u64 },
    /// The fetch is over, with this outcome.
    Done(Result<String, SearchError>),
}

impl FetchAttempt {
    /// Another attempt may still run.
    pub open spec fn wf(&self) -> bool {
        self.attempt < self.max_retries
    }

    /// Digests one attempt's outcome: a success ends the fetch with the
    /// body; a failure is retried after the linear backoff until the
    /// attempts are exhausted, and then the last classified error is
    /// surfaced.
    pub fn on_event(&mut self, ev: HttpEvent) -> (r: FetchStep)
        requires
            old(self).wf(),
        ensures
            final(self).max_retries == old(self).max_retries,
            final(self).base_delay == old(self).base_delay,
            final(self).jitter == old(self).jitter,
            final(self).attempt == old(self).attempt + 1,
            match classify_view(ev) {
                Ok(body) => r matches FetchStep::Done(Ok(b)) && b@ == body
                    && final(self).last_error == old(self).last_error,
                Err(e) => {
                    &&& final(self).last_error matches Some(le) && le@ == e
                    &&& if old(self).attempt + 1 < old(self).max_retries {
                        r matches FetchStep::Retry { delay_ms } && delay_ms == backoff_delay(
                            old(self).base_delay as int,
                            old(self).attempt + 1,
                            old(self).jitter as int,
                        ) && final(self).wf()
                    } else {
                        r matches FetchStep::Done(Err(fe)) && fe@ == e
                    }
                },
            },
    {
        self.attempt = self.attempt + 1;
        match classify(ev) {
            Ok(body) => FetchStep::Done(Ok(body)),
            Err(e) => {
                if self.attempt < self.max_retries {
                    self.last_error = Some(e);
                    FetchStep::Retry {
                        delay_ms: backoff_delay_ms(self.base_delay, self.attempt as u64, self.jitter),
                    }
                } else {
                    self.last_error = Some(e.duplicate());
                    FetchStep::Done(Err(e))
                }
            },
        }
    }
}

/// Relies on rand::thread_rng and rand::Rng::gen_range: a uniformly random
/// value below `bound`. The range must be non-empty.
#[verifier::external_body]
fn random_below(bound: u64) -> (r: u64)
    requires
        bound > 0,
    ensures
        r < bound,
{
    rand::Rng::gen_range(&mut rand::thread_rng(), 0..bound)
}

/// Rolls the per-call jitter: uniform below `max_jitter`, or zero when no
/// jitter is configured.
fn pick_jitter(max_jitter: u64) -> (r: u64)
    ensures
        max_jitter > 0 ==> r < max_jitter,
        max_jitter == 0 ==> r == 0,
{
    if max_jitter == 0 {
        0
    } else {
        random_below(max_jitter)
    }
}

/// Picks a user agent from the pool, uniformly at random.
fn pick_user_agent(agents: &Vec<String>) -> (r: String)
    requires
        agents@.len() > 0,
    ensures
        exists|i: int| 0 <= i < agents@.len() && r@ == agents@[i]@,
{
    let len = agents.len();
    let idx_wide = random_below(len as u64);
    let idx = idx_wide as usize;
    let r = agents[idx].clone();
    proof {
        assert(r@ == agents@[idx as int]@);
    }
    r
}

/// How a fetch begins.
pub enum FetchStart {
    /// The cache held a live entry: its body, returned at once, with no
    /// pacing delay and no request.
    Cached(String),
    /// Sleep the pacing delay, then run the attempt loop with this user
    /// agent.
    Request { user_agent: String, pacing_delay_ms: u64, attempt: FetchAttempt },
    /// No attempts are configured; the fetch fails at once.
    Exhausted(SearchError),
}

/// The fetch layer: the shared response cache plus the pacing, retry and
/// user-agent settings it works under.
pub struct FetchClient {
    pub cache: crate::cache::BodyCache,
    pub max_retries: u32,
    pub base_delay: u64,
    pub max_jitter: u64,
    pub user_agents: Vec<String>,
}

impl FetchClient {
    /// The user-agent pool is never empty.
    pub open spec fn wf(&self) -> bool {
        self.user_agents@.len() > 0
    }

    /// Builds the fetch layer from validated settings and a fresh cache.
    /// The time-to-live is capped by what the cache accepts.
    pub fn new(search: &SearchConfig, cache: &CacheConfig) -> (r: Self)
        requires
            search.user_agents@.len() > 0,
            cache.time_to_live <= MAX_TIME_TO_LIVE_SECS,
        ensures
            r.wf(),
            r.max_retries == search.max_retries,
            r.base_delay == search.base_delay,
            r.max_jitter == search.max_jitter,
            r.user_agents@ == search.user_agents@,
            cache_history(r.cache) == crate::cache::empty_history(),
    {
        FetchClient {
            cache: cache_new(cache.max_capacity, cache.time_to_live),
            max_retries: search.max_retries,
            base_delay: search.base_delay,
            max_jitter: search.max_jitter,
            user_agents: search.user_agents.clone(),
        }
    }

    /// Starts one logical "get text for URL": a cache hit returns the stored
    /// body at once — no pacing delay, no request; a miss rolls the jitter
    /// and user agent and plans the paced attempt loop.
    pub fn begin_fetch(&self, url: &str) -> (r: FetchStart)
        requires
            self.wf(),
        ensures
            match r {
                FetchStart::Cached(body) => cache_history(self.cache).contains_key(url@) && body@
                    == cache_history(self.cache)[url@],
                FetchStart::Request { user_agent, pacing_delay_ms, attempt } => {
                    &&& self.max_retries > 0
                    &&& exists|i: int|
                        0 <= i < self.user_agents@.len() && user_agent@ == self.user_agents@[i]@
                    &&& (self.max_jitter > 0 ==> attempt.jitter < self.max_jitter)
                    &&& (self.max_jitter == 0 ==> attempt.jitter == 0)
                    &&& pacing_delay_ms == backoff_delay(
                        self.base_delay as int,
                        1,
                        attempt.jitter as int,
                    )
                    &&& attempt.max_retries == self.max_retries
                    &&& attempt.base_delay == self.base_delay
                    &&& attempt.attempt == 0
                    &&& attempt.last_error is None
                    &&& attempt.wf()
                },
                FetchStart::Exhausted(e) => self.max_retries == 0 && e is Unknown,
            },
    {
        match cache_get(&self.cache, url) {
            Some(body) => FetchStart::Cached(body),
            None => {
                if self.max_retries == 0 {
                    FetchStart::Exhausted(SearchError::Unknown)
                } else {
                    let jitter = pick_jitter(self.max_jitter);
                    let user_agent = pick_user_agent(&self.user_agents);
                    FetchStart::Request {
                        user_agent,
                        pacing_delay_ms: backoff_delay_ms(self.base_delay, 1, jitter),
                        attempt: FetchAttempt {
                            max_retries: self.max_retries,
                            base_delay: self.base_delay,
                            jitter,
                            attempt: 0,
                            last_error: None,
                        },
                    }
                }
            },
        }
    }

    /// Records a finished fetch: a success stores the body in the cache;
    /// a failure leaves the cache untouched.
    pub fn finish_fetch(&mut self, url: &str, outcome: &Result<String, SearchError>)
        ensures
            final(self).max_retries == old(self).max_retries,
            final(self).base_delay == old(self).base_delay,
            final(self).max_jitter == old(self).max_jitter,
            final(self).user_agents == old(self).user_agents,
            match outcome {
                Ok(body) => cache_history(final(self).cache) == cache_history(
                    old(self).cache,
                ).insert(url@, body@),
                Err(_) => cache_history(final(self).cache) == cache_history(old(self).cache),
            },
    {
        match outcome {
            Ok(body) => cache_insert(&mut self.cache, url, body.as_str()),
            Err(_) => {},
        }
    }
}

} // verus!
