//! Rate limiting of integration operations, to respect the limits of
//! external APIs: each key may make a number of requests per fixed window of
//! time; a window starts with the first request after the previous one ended.

use vstd::prelude::*;
use crate::support::text::{owned, str_eq};
use crate::support::clock::{now_nanos, is_nano_instant};

verus! {

/// What to do when a limit is reached.
#[derive(Debug, Clone, Copy, PartialEq, Eq, Structural)]
pub enum RetryBehavior {
    /// Fail at once.
    FailFast,
    /// Wait for the window to reset, then retry.
    WaitAndRetry,
    /// Queue the request.
    Queue,
}

impl Default for RetryBehavior {
    /// Fail at once.
    fn default() -> (r: Self)
        ensures
            r == RetryBehavior::FailFast,
    {
        RetryBehavior::FailFast
    }
}

/// A rate limit: at most `max_requests` per window of `window_seconds`.
#[derive(Debug, Clone, Copy, PartialEq, Eq, Structural)]
pub struct RateLimitConfig {
    /// Requests allowed per window.
    pub max_requests: u32,
    /// Length of a window in seconds.
    pub window_seconds: u32,
    /// What to do when the limit is reached.
    pub retry_behavior: RetryBehavior,
}

impl RateLimitConfig {
    /// A limit of `max_requests` per `window_seconds`, failing fast.
    pub fn new(max_requests: u32, window_seconds: u32) -> (r: Self)
        ensures
            r == (RateLimitConfig { max_requests, window_seconds, retry_behavior: RetryBehavior::FailFast }),
    {
        RateLimitConfig { max_requests, window_seconds, retry_behavior: RetryBehavior::default() }
    }

    /// A limit per minute.
    pub fn per_minute(max_requests: u32) -> (r: Self)
        ensures
            r == (RateLimitConfig { max_requests, window_seconds: 60, retry_behavior: RetryBehavior::FailFast }),
    {
        RateLimitConfig::new(max_requests, 60)
    }

    /// A limit per hour.
    pub fn per_hour(max_requests: u32) -> (r: Self)
        ensures
            r == (RateLimitConfig { max_requests, window_seconds: 3600, retry_behavior: RetryBehavior::FailFast }),
    {
        RateLimitConfig::new(max_requests, 3600)
    }

    /// A limit per day.
    pub fn per_day(max_requests: u32) -> (r: Self)
        ensures
            r == (RateLimitConfig { max_requests, window_seconds: 86400, retry_behavior: RetryBehavior::FailFast }),
    {
        RateLimitConfig::new(max_requests, 86400)
    }
}

impl Default for RateLimitConfig {
    /// Sixty requests per minute.
    fn default() -> (r: Self)
        ensures
            r == (RateLimitConfig { max_requests: 60, window_seconds: 60, retry_behavior: RetryBehavior::FailFast }),
    {
        RateLimitConfig::per_minute(60)
    }
}

/// The answer to a rate limit check.
#[derive(Debug, Clone, Copy, PartialEq, Eq, Structural)]
pub enum RateLimitResult {
    /// The request may go ahead.
    Allowed {
        /// Requests left in the window.
        remaining: u32,
        /// When the window resets (nanoseconds since the epoch).
        resets_at: i128,
    },
    /// The limit is reached.
    Exceeded {
        /// How long until the window resets (nanoseconds).
        retry_after: i128,
        /// When the window resets (nanoseconds since the epoch).
        resets_at: i128,
    },
}

impl RateLimitResult {
    /// Whether the request may go ahead.
    pub fn is_allowed(&self) -> (r: bool)
        ensures
            r == (*self is Allowed),
    {
        match self {
            RateLimitResult::Allowed { .. } => true,
            RateLimitResult::Exceeded { .. } => false,
        }
    }

    /// Requests left in the window (none once the limit is reached).
    pub fn remaining(&self) -> (r: u32)
        ensures
            r == match *self {
                RateLimitResult::Allowed { remaining, .. } => remaining,
                RateLimitResult::Exceeded { .. } => 0u32,
            },
    {
        match self {
            RateLimitResult::Allowed { remaining, .. } => *remaining,
            RateLimitResult::Exceeded { .. } => 0,
        }
    }
}

/// The window of one key: requests made in it, and when it started.
#[derive(Debug, Clone, Copy, PartialEq, Eq, Structural)]
pub struct WindowState {
    /// Requests made in the window.
    pub count: u32,
    /// When the window started (nanoseconds since the epoch).
    pub window_start: i128,
}

/// The length of a window in nanoseconds.
pub open spec fn window_nanos(cfg: RateLimitConfig) -> int {
    cfg.window_seconds as int * 1_000_000_000
}

/// The window in force at `now`: the key's window, or a new one starting
/// now when it has none or its window has run out.
pub open spec fn current_window(cfg: RateLimitConfig, w: Option<WindowState>, now: i128) -> WindowState {
    match w {
        None => WindowState { count: 0, window_start: now },
        Some(w) => if now - w.window_start >= window_nanos(cfg) {
            WindowState { count: 0, window_start: now }
        } else {
            w
        },
    }
}

/// Checking and counting a request at `now`: the key's window afterwards,
/// and the answer.
pub open spec fn increment_step(cfg: RateLimitConfig, w: Option<WindowState>, now: i128) -> (
    WindowState,
    RateLimitResult,
) {
    let c = current_window(cfg, w, now);
    let resets = (c.window_start + window_nanos(cfg)) as i128;
    if c.count >= cfg.max_requests {
        (c, RateLimitResult::Exceeded { retry_after: (resets - now) as i128, resets_at: resets })
    } else {
        (
            WindowState { count: (c.count + 1) as u32, window_start: c.window_start },
            RateLimitResult::Allowed { remaining: (cfg.max_requests - (c.count + 1)) as u32, resets_at: resets },
        )
    }
}

/// The answer to a check at `now` that counts nothing: what counting a
/// request would answer, with the requests left before counting it.
pub open spec fn check_answer(cfg: RateLimitConfig, w: Option<WindowState>, now: i128) -> RateLimitResult {
    let c = current_window(cfg, w, now);
    let resets = (c.window_start + window_nanos(cfg)) as i128;
    if c.count >= cfg.max_requests {
        RateLimitResult::Exceeded { retry_after: (resets - now) as i128, resets_at: resets }
    } else {
        RateLimitResult::Allowed { remaining: (cfg.max_requests - c.count) as u32, resets_at: resets }
    }
}

/// The window of `key` among the entries (the first entry with that key).
pub open spec fn window_of(entries: Seq<(String, WindowState)>, key: Seq<char>) -> Option<WindowState>
    decreases entries.len(),
{
    if entries.len() == 0 {
        None
    } else if entries[0].0@ == key {
        Some(entries[0].1)
    } else {
        window_of(entries.drop_first(), key)
    }
}

/// No two entries have the same key.
pub open spec fn distinct_keys(es: Seq<(String, WindowState)>) -> bool {
    forall|a: int, b: int| 0 <= a < b < es.len() ==> (#[trigger] es[a]).0@ != (#[trigger] es[b]).0@
}

/// The window of a key is that of its first entry, and there is none when no
/// entry has the key.
pub proof fn lemma_window_first(es: Seq<(String, WindowState)>, key: Seq<char>)
    ensures
        window_of(es, key) is None <==> forall|j: int| 0 <= j < es.len() ==> (#[trigger] es[j]).0@ != key,
        forall|i: int|
            0 <= i < es.len() && (#[trigger] es[i]).0@ == key && (forall|j: int|
                0 <= j < i ==> (#[trigger] es[j]).0@ != key) ==> window_of(es, key) == Some(es[i].1),
    decreases es.len(),
{
    if es.len() > 0 {
        let rest = es.drop_first();
        lemma_window_first(rest, key);
        if es[0].0@ != key {
            assert forall|j: int| 0 <= j < rest.len() implies (#[trigger] rest[j]) == es[j + 1] by {}
            assert((forall|j: int| 0 <= j < es.len() ==> (#[trigger] es[j]).0@ != key) <==> (forall|j: int|
                0 <= j < rest.len() ==> (#[trigger] rest[j]).0@ != key)) by {
                if forall|j: int| 0 <= j < rest.len() ==> (#[trigger] rest[j]).0@ != key {
                    assert forall|j: int| 0 <= j < es.len() implies (#[trigger] es[j]).0@ != key by {
                        if j > 0 {
                            assert(rest[j - 1] == es[j]);
                        }
                    }
                }
            }
            assert forall|i: int|
                0 <= i < es.len() && (#[trigger] es[i]).0@ == key && (forall|j: int|
                    0 <= j < i ==> (#[trigger] es[j]).0@ != key) implies window_of(es, key) == Some(es[i].1) by {
                assert(i > 0);
                assert(rest[i - 1] == es[i]);
                assert forall|j: int| 0 <= j < i - 1 implies (#[trigger] rest[j]).0@ != key by {
                    assert(rest[j] == es[j + 1]);
                }
            }
        } else {
            assert forall|i: int|
                0 <= i < es.len() && (#[trigger] es[i]).0@ == key && (forall|j: int|
                    0 <= j < i ==> (#[trigger] es[j]).0@ != key) implies window_of(es, key) == Some(es[i].1) by {
                if i > 0 {
                    assert(es[0].0@ != key);
                }
            }
        }
    }
}

/// A rate limiter: one window per key.
#[derive(Debug)]
pub struct RateLimiter {
    config: RateLimitConfig,
    state: Vec<(String, WindowState)>,
}

impl RateLimiter {
    /// The configuration.
    pub closed spec fn config_view(&self) -> RateLimitConfig {
        self.config
    }

    /// The window of a key, if it has one.
    pub closed spec fn window(&self, key: Seq<char>) -> Option<WindowState> {
        window_of(self.state@, key)
    }

    /// Well-formedness: every window started at a representable instant and
    /// holds no more requests than allowed.
    pub closed spec fn wf(&self) -> bool {
        &&& distinct_keys(self.state@)
        &&& forall|i: int|
            0 <= i < self.state@.len() ==> is_nano_instant((#[trigger] self.state@[i]).1.window_start)
                && self.state@[i].1.count <= self.config.max_requests
    }

    /// A limiter with no windows.
    pub fn new(config: RateLimitConfig) -> (r: Self)
        ensures
            r.config_view() == config,
            r.wf(),
            forall|k: Seq<char>| r.window(k) is None,
    {
        RateLimiter { config, state: Vec::new() }
    }

    /// What a well-formed limiter knows of a window.
    proof fn lemma_window(&self, key: Seq<char>)
        requires
            self.wf(),
        ensures
            self.window(key) matches Some(w) ==> is_nano_instant(w.window_start) && w.count
                <= self.config_view().max_requests,
    {
        self.lemma_window_in(self.state@, key);
    }

    proof fn lemma_window_in(&self, entries: Seq<(String, WindowState)>, key: Seq<char>)
        requires
            forall|i: int|
                0 <= i < entries.len() ==> is_nano_instant((#[trigger] entries[i]).1.window_start) && entries[i].1.count
                    <= self.config.max_requests,
        ensures
            window_of(entries, key) matches Some(w) ==> is_nano_instant(w.window_start) && w.count
                <= self.config.max_requests,
        decreases entries.len(),
    {
        if entries.len() > 0 && entries[0].0@ != key {
            let rest = entries.drop_first();
            assert forall|i: int| 0 <= i < rest.len() implies is_nano_instant((#[trigger] rest[i]).1.window_start)
                && rest[i].1.count <= self.config.max_requests by {
                assert(rest[i] == entries[i + 1]);
            }
            self.lemma_window_in(rest, key);
        }
    }

    /// The index of the entry of `key`, if any.
    fn find(&self, key: &str) -> (r: Option<usize>)
        ensures
            r is None ==> window_of(self.state@, key@) is None,
            r matches Some(i) ==> i < self.state@.len() && self.state@[i as int].0@ == key@ && window_of(
                self.state@,
                key@,
            ) == Some(self.state@[i as int].1) && forall|j: int| 0 <= j < i ==> self.state@[j].0@ != key@,
    {
        let ghost es = self.state@;
        let mut i: usize = 0;
        assert(es.skip(0) =~= es);
        while i < self.state.len()
            invariant
                i <= es.len(),
                es == self.state@,
                window_of(es, key@) == window_of(es.skip(i as int), key@),
                forall|j: int| 0 <= j < i ==> es[j].0@ != key@,
            decreases es.len() - i,
        {
            let ghost rest = es.skip(i as int);
            assert(rest[0] == es[i as int]);
            if str_eq(self.state[i].0.as_str(), key) {
                return Some(i);
            }
            assert(rest.drop_first() =~= es.skip(i + 1));
            i = i + 1;
        }
        None
    }

    /// The window of `key` after the entry at `i` is replaced by one with the
    /// same key (keys distinct).
    proof fn lemma_window_set(es: Seq<(String, WindowState)>, i: int, e: (String, WindowState), key: Seq<char>)
        requires
            0 <= i < es.len(),
            e.0@ == es[i].0@,
            distinct_keys(es),
        ensures
            distinct_keys(es.update(i, e)),
            window_of(es.update(i, e), key) == if key == es[i].0@ {
                Some(e.1)
            } else {
                window_of(es, key)
            },
    {
        let es2 = es.update(i, e);
        assert forall|a: int, b: int| 0 <= a < b < es2.len() implies (#[trigger] es2[a]).0@ != (#[trigger] es2[b]).0@ by {
            assert(es[a].0@ != es[b].0@);
        }
        lemma_window_first(es, key);
        lemma_window_first(es2, key);
        if key == es[i].0@ {
            assert(es2[i].0@ == key);
        } else {
            assert forall|j: int| 0 <= j < es.len() implies (#[trigger] es2[j]).0@ == key <==> es[j].0@ == key by {}
            if exists|j: int| 0 <= j < es.len() && (#[trigger] es[j]).0@ == key {
                let j = choose|j: int| 0 <= j < es.len() && (#[trigger] es[j]).0@ == key;
                assert(es2[j] == es[j]);
            }
        }
    }

    /// The window of `key` after an entry with a new key is appended.
    proof fn lemma_window_push(es: Seq<(String, WindowState)>, e: (String, WindowState), key: Seq<char>)
        requires
            window_of(es, e.0@) is None,
            distinct_keys(es),
        ensures
            distinct_keys(es.push(e)),
            window_of(es.push(e), key) == if key == e.0@ {
                Some(e.1)
            } else {
                window_of(es, key)
            },
    {
        let es2 = es.push(e);
        lemma_window_first(es, e.0@);
        lemma_window_first(es, key);
        lemma_window_first(es2, key);
        assert forall|a: int, b: int| 0 <= a < b < es2.len() implies (#[trigger] es2[a]).0@ != (#[trigger] es2[b]).0@ by {
            if b == es.len() {
                assert(es[a].0@ != e.0@);
            } else {
                assert(es[a].0@ != es[b].0@);
            }
        }
        if key == e.0@ {
            assert(es2[es.len() as int].0@ == key);
        } else {
            if exists|j: int| 0 <= j < es.len() && (#[trigger] es[j]).0@ == key {
                let j = choose|j: int| 0 <= j < es.len() && (#[trigger] es[j]).0@ == key;
                assert(es2[j] == es[j]);
            }
            if exists|j: int| 0 <= j < es2.len() && (#[trigger] es2[j]).0@ == key {
                let j = choose|j: int| 0 <= j < es2.len() && (#[trigger] es2[j]).0@ == key;
                assert(es[j] == es2[j]);
            }
        }
    }

    /// The window of `key` after the entry at `i` is removed (keys distinct).
    proof fn lemma_window_remove(es: Seq<(String, WindowState)>, i: int, key: Seq<char>)
        requires
            0 <= i < es.len(),
            distinct_keys(es),
        ensures
            distinct_keys(es.remove(i)),
            window_of(es.remove(i), key) == if key == es[i].0@ {
                None
            } else {
                window_of(es, key)
            },
    {
        let es2 = es.remove(i);
        es.remove_ensures(i);
        assert forall|a: int, b: int| 0 <= a < b < es2.len() implies (#[trigger] es2[a]).0@ != (#[trigger] es2[b]).0@ by {
            let ba = if a < i { a } else { a + 1 };
            let bb = if b < i { b } else { b + 1 };
            assert(es2[a] == es[ba] && es2[b] == es[bb]);
            assert(es[ba].0@ != es[bb].0@);
        }
        lemma_window_first(es, key);
        lemma_window_first(es2, key);
        if key == es[i].0@ {
            assert forall|j: int| 0 <= j < es2.len() implies (#[trigger] es2[j]).0@ != key by {
                let bj = if j < i { j } else { j + 1 };
                assert(es2[j] == es[bj]);
                assert(es[bj].0@ != es[i].0@);
            }
        } else {
            if exists|j: int| 0 <= j < es.len() && (#[trigger] es[j]).0@ == key {
                let j = choose|j: int| 0 <= j < es.len() && (#[trigger] es[j]).0@ == key;
                assert(j != i);
                let nj = if j < i { j } else { j - 1 };
                assert(es2[nj] == es[j]);
                assert forall|k: int| 0 <= k < nj implies (#[trigger] es2[k]).0@ != key by {
                    let bk = if k < i { k } else { k + 1 };
                    assert(es2[k] == es[bk]);
                    assert(es[bk].0@ != es[j].0@);
                }
                assert forall|k: int| 0 <= k < j implies (#[trigger] es[k]).0@ != key by {
                    assert(es[k].0@ != es[j].0@);
                }
            } else {
                assert forall|j: int| 0 <= j < es2.len() implies (#[trigger] es2[j]).0@ != key by {
                    let bj = if j < i { j } else { j + 1 };
                    assert(es2[j] == es[bj]);
                }
            }
        }
    }

    /// Checks a request of `key` at the instant `now` and counts it when it
    /// is allowed. A key without a window, or whose window has run out,
    /// starts a new window at `now`.
    pub fn check_and_increment_at(&mut self, key: &str, now: i128) -> (r: RateLimitResult)
        requires
            old(self).wf(),
            is_nano_instant(now),
        ensures
            final(self).wf(),
            final(self).config_view() == old(self).config_view(),
            (final(self).window(key@)->Some_0, r) == increment_step(old(self).config_view(), old(self).window(key@), now),
            final(self).window(key@) is Some,
            forall|k: Seq<char>| k != key@ ==> #[trigger] final(self).window(k) == old(self).window(k),
    {
        proof {
            self.lemma_window(key@);
        }
        let duration: i128 = self.config.window_seconds as i128 * 1_000_000_000;
        let ghost before = self.state@;
        let (index, current) = match self.find(key) {
            Some(i) => (Some(i), self.state[i].1),
            None => (None, WindowState { count: 0, window_start: now }),
        };
        let mut window = current;
        if now - window.window_start >= duration {
            window.window_start = now;
            window.count = 0;
        }
        let resets_at = window.window_start + duration;
        let result = if window.count >= self.config.max_requests {
            RateLimitResult::Exceeded { retry_after: resets_at - now, resets_at }
        } else {
            window.count = window.count + 1;
            RateLimitResult::Allowed { remaining: self.config.max_requests - window.count, resets_at }
        };
        match index {
            Some(i) => {
                let k = self.state[i].0.clone();
                self.state.set(i, (k, window));
                proof {
                    Self::lemma_window_set(before, i as int, (k, window), key@);
                    assert forall|k2: Seq<char>| k2 != key@ implies #[trigger] window_of(self.state@, k2) == window_of(
                        before,
                        k2,
                    ) by {
                        Self::lemma_window_set(before, i as int, (k, window), k2);
                    }
                }
            },
            None => {
                let e = (owned(key), window);
                self.state.push(e);
                proof {
                    Self::lemma_window_push(before, e, key@);
                    assert forall|k2: Seq<char>| k2 != key@ implies #[trigger] window_of(self.state@, k2) == window_of(
                        before,
                        k2,
                    ) by {
                        Self::lemma_window_push(before, e, k2);
                    }
                }
            },
        }
        proof {
            assert forall|j: int|
                0 <= j < self.state@.len() implies is_nano_instant((#[trigger] self.state@[j]).1.window_start)
                && self.state@[j].1.count <= self.config.max_requests by {
                if j < before.len() && !(index == Some(j as usize)) {
                    assert(self.state@[j] == before[j]);
                }
            }
        }
        result
    }

    /// Checks a request of `key` now and counts it when it is allowed.
    pub fn check_and_increment(&mut self, key: &str) -> (r: RateLimitResult)
        requires
            old(self).wf(),
        ensures
            final(self).wf(),
            final(self).config_view() == old(self).config_view(),
            exists|now: i128|
                #[trigger] is_nano_instant(now) && (final(self).window(key@)->Some_0, r) == increment_step(
                    old(self).config_view(),
                    old(self).window(key@),
                    now,
                ),
            final(self).window(key@) is Some,
            forall|k: Seq<char>| k != key@ ==> #[trigger] final(self).window(k) == old(self).window(k),
    {
        let now = now_nanos();
        assert(is_nano_instant(now));
        self.check_and_increment_at(key, now)
    }

    /// Checks a request of `key` at the instant `now`, counting nothing.
    pub fn check_at(&self, key: &str, now: i128) -> (r: RateLimitResult)
        requires
            self.wf(),
            is_nano_instant(now),
        ensures
            r == check_answer(self.config_view(), self.window(key@), now),
    {
        proof {
            self.lemma_window(key@);
        }
        let duration: i128 = self.config.window_seconds as i128 * 1_000_000_000;
        let window = match self.find(key) {
            None => WindowState { count: 0, window_start: now },
            Some(i) => {
                let w = self.state[i].1;
                if now - w.window_start >= duration {
                    WindowState { count: 0, window_start: now }
                } else {
                    w
                }
            },
        };
        let resets_at = window.window_start + duration;
        if window.count >= self.config.max_requests {
            return RateLimitResult::Exceeded { retry_after: resets_at - now, resets_at };
        }
        RateLimitResult::Allowed { remaining: self.config.max_requests - window.count, resets_at }
    }

    /// Checks a request of `key` now, counting nothing.
    pub fn check(&self, key: &str) -> (r: RateLimitResult)
        requires
            self.wf(),
        ensures
            exists|now: i128| #[trigger] is_nano_instant(now) && r == check_answer(self.config_view(), self.window(key@), now),
    {
        let now = now_nanos();
        assert(is_nano_instant(now));
        self.check_at(key, now)
    }

    /// Forgets the window of `key`.
    pub fn reset(&mut self, key: &str)
        requires
            old(self).wf(),
        ensures
            final(self).wf(),
            final(self).config_view() == old(self).config_view(),
            final(self).window(key@) is None,
            forall|k: Seq<char>| k != key@ ==> #[trigger] final(self).window(k) == old(self).window(k),
    {
        let ghost before = self.state@;
        match self.find(key) {
            None => {},
            Some(i) => {
                self.state.remove(i);
                proof {
                    Self::lemma_window_remove(before, i as int, key@);
                    assert forall|k2: Seq<char>| k2 != key@ implies #[trigger] window_of(self.state@, k2) == window_of(
                        before,
                        k2,
                    ) by {
                        Self::lemma_window_remove(before, i as int, k2);
                    }
                    before.remove_ensures(i as int);
                    assert forall|j: int|
                        0 <= j < self.state@.len() implies is_nano_instant((#[trigger] self.state@[j]).1.window_start)
                        && self.state@[j].1.count <= self.config.max_requests by {
                        if j < i {
                            assert(self.state@[j] == before[j]);
                        } else {
                            assert(self.state@[j] == before[j + 1]);
                        }
                    }
                }
            },
        }
    }

    /// The configuration.
    pub fn config(&self) -> (r: &RateLimitConfig)
        ensures
            *r == self.config_view(),
    {
        &self.config
    }
}

/// A check that counts nothing foretells the counting check at the same
/// instant: the same refusal, or an allowance with one request fewer left
/// (a refusal when none was left).
pub proof fn law_check_foretells_increment(cfg: RateLimitConfig, w: Option<WindowState>, now: i128)
    requires
        w matches Some(x) ==> is_nano_instant(x.window_start) && x.count <= cfg.max_requests,
        is_nano_instant(now),
    ensures
        (check_answer(cfg, w, now) is Allowed) == (increment_step(cfg, w, now).1 is Allowed),
        check_answer(cfg, w, now) is Exceeded ==> increment_step(cfg, w, now).1 == check_answer(cfg, w, now),
        check_answer(cfg, w, now) matches RateLimitResult::Allowed { remaining, resets_at } ==> remaining > 0
            && increment_step(cfg, w, now).1 == (RateLimitResult::Allowed { remaining: (remaining - 1) as u32, resets_at }),
{
}

/// A key without a window (never used, or reset) is allowed the full number
/// of requests, in a window that starts at the check.
pub proof fn law_fresh_key_allowed(cfg: RateLimitConfig, now: i128)
    requires
        is_nano_instant(now),
    ensures
        cfg.max_requests > 0 ==> check_answer(cfg, None, now) == (RateLimitResult::Allowed {
            remaining: cfg.max_requests,
            resets_at: (now + window_nanos(cfg)) as i128,
        }),
        cfg.max_requests == 0 ==> check_answer(cfg, None, now) == (RateLimitResult::Exceeded {
            retry_after: window_nanos(cfg) as i128,
            resets_at: (now + window_nanos(cfg)) as i128,
        }),
        cfg.max_requests > 0 ==> increment_step(cfg, None, now).1 == (RateLimitResult::Allowed {
            remaining: (cfg.max_requests - 1) as u32,
            resets_at: (now + window_nanos(cfg)) as i128,
        }),
{
}

} // verus!
