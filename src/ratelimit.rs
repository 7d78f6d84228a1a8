//! Fixed-window rate limiting: a bucket allows `limit` calls per
//! `time_span` seconds to each scope (typically the invoking user).

use std::collections::HashMap;
use vstd::prelude::*;

verus! {

broadcast use vstd::std_specs::hash::group_hash_axioms;

/// The quota of one named bucket, shared by every scope that uses it.
#[derive(Debug, Clone, Copy, PartialEq, Eq, Structural)]
pub struct Bucket {
    /// Length of a window, in seconds.
    pub time_span: u64,
    /// Calls allowed per window.
    pub limit: u32,
}

/// The current window of one scope.
#[derive(Debug, Clone, Copy, PartialEq, Eq, Structural)]
pub struct Window {
    /// When the window began, in seconds.
    pub start: u64,
    /// Calls allowed so far in the window.
    pub count: u32,
    /// Whether a refusal in this window was already reported.
    pub notified: bool,
}

/// The answer to one call.
#[derive(Debug, Clone, Copy, PartialEq, Eq, Structural)]
pub enum RateDecision {
    Allowed,
    /// Refused; the window ends in `retry_after` seconds. `first_notice`
    /// holds for the first refusal in a window only.
    Limited { retry_after: u64, first_notice: bool },
}

/// Seconds from the start of `w` to `now`; a clock that went back counts as no time.
pub open spec fn elapsed(w: Window, now: u64) -> int {
    if now >= w.start {
        now - w.start
    } else {
        0
    }
}

/// The new window of a scope and the answer, for a call at `now` by a scope
/// whose window was `w` (`None`: no call recorded yet).
pub open spec fn step(b: Bucket, w: Option<Window>, now: u64) -> (Window, RateDecision) {
    match w {
        Some(w) if elapsed(w, now) < b.time_span => {
            if w.count < b.limit {
                (Window { count: (w.count + 1) as u32, ..w }, RateDecision::Allowed)
            } else {
                (
                    Window { notified: true, ..w },
                    RateDecision::Limited {
                        retry_after: (b.time_span - elapsed(w, now)) as u64,
                        first_notice: !w.notified,
                    },
                )
            }
        },
        _ => {
            if b.limit > 0 {
                (Window { start: now, count: 1, notified: false }, RateDecision::Allowed)
            } else {
                (
                    Window { start: now, count: 0, notified: true },
                    RateDecision::Limited { retry_after: b.time_span, first_notice: true },
                )
            }
        },
    }
}

/// The window that `scope` has in `windows`, if it made a call.
pub open spec fn window_of(windows: Map<u64, Window>, scope: u64) -> Option<Window> {
    if windows.contains_key(scope) {
        Some(windows[scope])
    } else {
        None
    }
}

/// One bucket and the windows of the scopes that used it.
pub struct RateLimiter {
    bucket: Bucket,
    windows: HashMap<u64, Window>,
}

impl RateLimiter {
    /// The bucket this limiter enforces.
    pub closed spec fn bucket(&self) -> Bucket {
        self.bucket
    }

    /// The current window of each scope that made a call.
    pub closed spec fn windows(&self) -> Map<u64, Window> {
        self.windows@
    }

    /// The limiter's invariant: every window can occur under its bucket.
    pub open spec fn wf(&self) -> bool {
        windows_ok(self.bucket(), self.windows())
    }

    /// A limiter for `bucket` with no call recorded.
    pub fn new(bucket: Bucket) -> (r: Self)
        ensures
            r.wf(),
            r.bucket() == bucket,
            r.windows() == Map::<u64, Window>::empty(),
    {
        RateLimiter { bucket, windows: HashMap::new() }
    }

    /// The bucket this limiter enforces.
    pub fn quota(&self) -> (r: Bucket)
        ensures
            r == self.bucket(),
    {
        self.bucket
    }

    /// Records a call by `scope` at `now` (seconds) and says whether it may run.
    pub fn check(&mut self, scope: u64, now: u64) -> (r: RateDecision)
        ensures
            old(self).wf() ==> final(self).wf(),
            final(self).bucket() == old(self).bucket(),
            ({
                let (nw, d) = step(old(self).bucket(), window_of(old(self).windows(), scope), now);
                r == d && final(self).windows() == old(self).windows().insert(scope, nw)
            }),
    {
        let b = self.bucket;
        let current = match self.windows.get(&scope) {
            Some(w) => Some(*w),
            None => None,
        };
        let (nw, d) = match current {
            Some(w) if (if now >= w.start { now - w.start } else { 0 }) < b.time_span => {
                let e = if now >= w.start { now - w.start } else { 0 };
                if w.count < b.limit {
                    (Window { count: w.count + 1, ..w }, RateDecision::Allowed)
                } else {
                    (
                        Window { notified: true, ..w },
                        RateDecision::Limited { retry_after: b.time_span - e, first_notice: !w.notified },
                    )
                }
            },
            _ => {
                if b.limit > 0 {
                    (Window { start: now, count: 1, notified: false }, RateDecision::Allowed)
                } else {
                    (
                        Window { start: now, count: 0, notified: true },
                        RateDecision::Limited { retry_after: b.time_span, first_notice: true },
                    )
                }
            },
        };
        self.windows.insert(scope, nw);
        proof {
            if old(self).wf() {
                lemma_step_keeps_window_ok(b, window_of(old(self).windows(), scope), now);
            }
        }
        d
    }
}

/// Whether window `w` can occur under bucket `b`: its count is within the
/// limit, and a window exists only once a call was counted in it where the
/// limit allows any.
pub open spec fn window_ok(b: Bucket, w: Window) -> bool {
    w.count <= b.limit && (b.limit >= 1 ==> w.count >= 1)
}

/// Whether every window in `windows` can occur under bucket `b`.
pub open spec fn windows_ok(b: Bucket, windows: Map<u64, Window>) -> bool {
    forall|s: u64| windows.contains_key(s) ==> window_ok(b, #[trigger] windows[s])
}

/// A call keeps a scope's window possible: the count never passes the limit.
pub proof fn lemma_step_keeps_window_ok(b: Bucket, w: Option<Window>, now: u64)
    requires
        w matches Some(w) ==> window_ok(b, w),
    ensures
        window_ok(b, step(b, w, now).0),
{
}

/// A scope with no running window may call once the limit allows any call.
pub proof fn lemma_fresh_window_allows(b: Bucket, w: Option<Window>, now: u64)
    requires
        b.limit >= 1,
        w matches Some(w) ==> elapsed(w, now) >= b.time_span,
    ensures
        step(b, w, now).1 == RateDecision::Allowed,
        step(b, w, now).0.start == now,
{
}

/// With one call per window, from any possible state: after a call at
/// `t1` is allowed, a second call before the window has elapsed is refused
/// with the time left until it does, with a notice; a call once it has
/// elapsed is allowed again.
pub proof fn lemma_one_call_per_window(b: Bucket, w: Option<Window>, t1: u64, t2: u64, t3: u64)
    requires
        b.limit == 1,
        w matches Some(w) ==> window_ok(b, w),
        step(b, w, t1).1 == RateDecision::Allowed,
        t1 <= t2 < t1 + b.time_span,
        t3 >= t1 + b.time_span,
    ensures
        ({
            let (w1, d1) = step(b, w, t1);
            let (w2, d2) = step(b, Some(w1), t2);
            let (w3, d3) = step(b, Some(w2), t3);
            &&& d2 matches RateDecision::Limited { retry_after, first_notice }
                && retry_after == t1 + b.time_span - t2 && first_notice
            &&& d3 == RateDecision::Allowed
        }),
{
}

} // verus!
