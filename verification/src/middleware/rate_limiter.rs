//! Sliding-window rate limiting. Each identity keeps the times of its
//! admitted requests; a request is admitted while fewer than
//! `max_requests` of them lie within `window` of now.

use crate::middleware::share;
use std::collections::VecDeque;
use std::sync::Arc;
use vstd::prelude::*;

verus! {

/// Gives the key that a request is limited under.
pub trait GetId {
    type Id: Eq + core::hash::Hash + Clone + Send + Sync + 'static;

    fn id(&self) -> Self::Id;
}

/// Limits each identity to `max_requests` requests per `window_nanos`,
/// keeping request times in `store`.
pub struct RateLimiter<St> {
    store: Arc<St>,
    max_requests: usize,
    window_nanos: u128,
}

impl<St> Clone for RateLimiter<St> {
    /// Another limiter on the same store, with the same limits.
    fn clone(&self) -> (r: Self)
        ensures
            r == *self,
    {
        RateLimiter { store: share(&self.store), max_requests: self.max_requests, window_nanos: self.window_nanos }
    }
}

/// `RateLimiter` wrapped around a service.
pub struct RateLimiterMiddleware<S, St> {
    service: Arc<S>,
    limiter: RateLimiter<St>,
}

impl<S, St> RateLimiterMiddleware<S, St> {
    pub closed spec fn service_spec(&self) -> S {
        *self.service
    }

    pub closed spec fn limiter_spec(&self) -> RateLimiter<St> {
        self.limiter
    }

    /// The wrapped service, shared.
    pub fn inner(&self) -> (r: &Arc<S>)
        ensures
            **r == self.service_spec(),
    {
        &self.service
    }

    /// The limiter.
    pub fn limiter(&self) -> (r: &RateLimiter<St>)
        ensures
            *r == self.limiter_spec(),
    {
        &self.limiter
    }
}

impl<St> RateLimiter<St> {
    /// Wraps the limiter around `service`.
    pub fn new_transform<S>(&self, service: S) -> (r: RateLimiterMiddleware<S, St>)
        ensures
            r.service_spec() == service,
            r.limiter_spec() == *self,
    {
        RateLimiterMiddleware { service: Arc::new(service), limiter: self.clone() }
    }

    pub closed spec fn store_spec(&self) -> Arc<St> {
        self.store
    }

    pub closed spec fn max_spec(&self) -> usize {
        self.max_requests
    }

    pub closed spec fn window_spec(&self) -> u128 {
        self.window_nanos
    }

    /// A limiter admitting `max_requests` requests per `window_nanos`.
    pub fn new(store: Arc<St>, max_requests: usize, window_nanos: u128) -> (r: Self)
        ensures
            r.store_spec() == store,
            r.max_spec() == max_requests,
            r.window_spec() == window_nanos,
    {
        RateLimiter { store, max_requests, window_nanos }
    }

    /// The store of request times.
    pub fn store(&self) -> (r: &Arc<St>)
        ensures
            *r == self.store_spec(),
    {
        &self.store
    }

    /// One step of the limiter on a request.
    pub fn step(&self, phase: LimitPhase, event: LimitEvent) -> (r: (LimitPhase, LimitAction))
        ensures
            limit_step_ok(self.max_spec(), self.window_spec(), phase, event, r.0, r.1),
    {
        match (phase, event) {
            (LimitPhase::Start, LimitEvent::Identified { found, now }) => {
                if found {
                    (LimitPhase::Loading { now }, LimitAction::Load)
                } else {
                    (LimitPhase::Done, LimitAction::PassThrough)
                }
            },
            (LimitPhase::Loading { now }, LimitEvent::Loaded { history }) => {
                let mut h = match history {
                    Ok(Some(h)) => h,
                    _ => VecDeque::new(),
                };
                let admitted = record_request(&mut h, now, self.window_nanos, self.max_requests);
                (LimitPhase::Saving { admitted }, LimitAction::Save { history: h })
            },
            (LimitPhase::Saving { admitted }, LimitEvent::Saved) => {
                if admitted {
                    (LimitPhase::Done, LimitAction::CallService)
                } else {
                    (LimitPhase::Done, LimitAction::TooManyRequests)
                }
            },
            _ => (LimitPhase::Done, LimitAction::Unexpected),
        }
    }
}

/// Where a request stands in the limiter.
pub enum LimitPhase {
    /// Nothing is known of the request yet.
    Start,
    /// The identity's history is being read; the request came at `now`.
    Loading { now: u128 },
    /// The new history is being written; `admitted` is the decision.
    Saving { admitted: bool },
    /// The request has been let through or refused.
    Done,
}

/// What happened since the last step.
pub enum LimitEvent {
    /// The identity was extracted (`found`) or not, at time `now`.
    Identified { found: bool, now: u128 },
    /// The store answered with the identity's history (`Err` when it
    /// failed; a failed or empty answer counts as no history).
    Loaded { history: Result<Option<VecDeque<u128>>, ()> },
    /// The store answered the write; its outcome changes nothing.
    Saved,
}

/// What the limiter does next.
pub enum LimitAction {
    /// No identity: call the service without limiting.
    PassThrough,
    /// Read the identity's history.
    Load,
    /// Write `history` back for the identity.
    Save { history: VecDeque<u128> },
    /// Call the service.
    CallService,
    /// Answer 429 Too Many Requests.
    TooManyRequests,
    /// The event does not belong to this phase.
    Unexpected,
}

/// The history an answer of the store stands for.
pub open spec fn loaded_history(history: Result<Option<VecDeque<u128>>, ()>) -> Seq<u128> {
    match history {
        Ok(Some(h)) => h@,
        _ => Seq::empty(),
    }
}

/// One step of the limiter with `max_requests` per `window`.
pub open spec fn limit_step_ok(
    max_requests: usize,
    window: u128,
    phase: LimitPhase,
    event: LimitEvent,
    next: LimitPhase,
    action: LimitAction,
) -> bool {
    match (phase, event) {
        (LimitPhase::Start, LimitEvent::Identified { found, now }) => if found {
            next == LimitPhase::Loading { now } && action is Load
        } else {
            next is Done && action is PassThrough
        },
        (LimitPhase::Loading { now }, LimitEvent::Loaded { history }) => {
            let h = loaded_history(history);
            &&& next == LimitPhase::Saving { admitted: admits(h, now, window, max_requests) }
            &&& action matches LimitAction::Save { history: saved } && saved@ == history_after(
                h,
                now,
                window,
                max_requests,
            )
        },
        (LimitPhase::Saving { admitted }, LimitEvent::Saved) => next is Done && if admitted {
            action is CallService
        } else {
            action is TooManyRequests
        },
        _ => next is Done && action is Unexpected,
    }
}

/// The time from `t` to `now`, or zero when `t` is later than `now`.
pub open spec fn elapsed(now: u128, t: u128) -> u128 {
    if now >= t {
        (now - t) as u128
    } else {
        0
    }
}

/// `history` without the leading times that lie more than `window` before
/// `now`: old times are dropped from the front until a recent one comes.
pub open spec fn prune(history: Seq<u128>, now: u128, window: u128) -> Seq<u128>
    decreases history.len(),
{
    if history.len() > 0 && elapsed(now, history[0]) > window {
        prune(history.drop_first(), now, window)
    } else {
        history
    }
}

/// Whether a request at `now` is admitted.
pub open spec fn admits(history: Seq<u128>, now: u128, window: u128, max_requests: usize) -> bool {
    prune(history, now, window).len() < max_requests
}

/// The history kept after a request at `now`.
pub open spec fn history_after(history: Seq<u128>, now: u128, window: u128, max_requests: usize) -> Seq<
    u128,
> {
    if admits(history, now, window, max_requests) {
        prune(history, now, window).push(now)
    } else {
        prune(history, now, window)
    }
}

/// Pruning only removes times, from the front.
pub proof fn lemma_prune_is_suffix(history: Seq<u128>, now: u128, window: u128)
    ensures
        prune(history, now, window).len() <= history.len(),
        prune(history, now, window) == history.skip(
            history.len() - prune(history, now, window).len(),
        ),
    decreases history.len(),
{
    if history.len() > 0 && elapsed(now, history[0]) > window {
        lemma_prune_is_suffix(history.drop_first(), now, window);
        let p = prune(history.drop_first(), now, window);
        assert(history.drop_first().skip(history.drop_first().len() - p.len()) == history.skip(
            history.len() - p.len(),
        ));
    } else {
        assert(history.skip(0) == history);
    }
}

/// Records a request at `now` in `history` and answers whether it is
/// admitted: times more than `window` old are dropped from the front, then
/// the request is admitted, and its time appended, only while fewer than
/// `max_requests` times remain.
pub fn record_request(history: &mut VecDeque<u128>, now: u128, window: u128, max_requests: usize) -> (r: bool)
    ensures
        r == admits(old(history)@, now, window, max_requests),
        final(history)@ == history_after(old(history)@, now, window, max_requests),
{
    let ghost start = old(history)@;
    loop
        invariant
            prune(history@, now, window) == prune(start, now, window),
        ensures
            history@ == prune(start, now, window),
        decreases history@.len(),
    {
        if history.len() == 0 {
            assert(prune(history@, now, window) == history@);
            break;
        }
        let front = history[0];
        let old_enough = if now >= front {
            now - front > window
        } else {
            false
        };
        if old_enough {
            let ghost before = history@;
            history.pop_front();
            assert(history@ == before.drop_first());
        } else {
            assert(prune(history@, now, window) == history@);
            break;
        }
    }
    if history.len() >= max_requests {
        false
    } else {
        history.push_back(now);
        true
    }
}

/// Whether the times are in non-decreasing order.
pub open spec fn sorted(h: Seq<u128>) -> bool {
    forall|i: int, j: int| 0 <= i <= j < h.len() ==> h[i] <= h[j]
}

/// Whether no time is later than `now`.
pub open spec fn none_after(h: Seq<u128>, now: u128) -> bool {
    forall|i: int| 0 <= i < h.len() ==> h[i] <= now
}

/// Whether every time lies within `window` of `now`.
pub open spec fn all_recent(h: Seq<u128>, now: u128, window: u128) -> bool {
    forall|i: int| 0 <= i < h.len() ==> elapsed(now, #[trigger] h[i]) <= window
}

/// How many times lie within `window` of `now`.
pub open spec fn recent_count(h: Seq<u128>, now: u128, window: u128) -> nat
    decreases h.len(),
{
    if h.len() == 0 {
        0
    } else {
        (if elapsed(now, h[0]) <= window {
            1nat
        } else {
            0nat
        }) + recent_count(h.drop_first(), now, window)
    }
}

/// When every time is recent, all of them count.
proof fn lemma_all_recent_count(h: Seq<u128>, now: u128, window: u128)
    requires
        all_recent(h, now, window),
    ensures
        recent_count(h, now, window) == h.len(),
    decreases h.len(),
{
    if h.len() > 0 {
        assert(elapsed(now, h[0]) <= window);
        assert forall|i: int| 0 <= i < h.drop_first().len() implies elapsed(
            now,
            #[trigger] h.drop_first()[i],
        ) <= window by {
            assert(h.drop_first()[i] == h[i + 1]);
        }
        lemma_all_recent_count(h.drop_first(), now, window);
    }
}

/// On a sorted history of past times, pruning keeps exactly the recent
/// times, in order.
proof fn lemma_prune_sorted(h: Seq<u128>, now: u128, window: u128)
    requires
        sorted(h),
        none_after(h, now),
    ensures
        sorted(prune(h, now, window)),
        none_after(prune(h, now, window), now),
        all_recent(prune(h, now, window), now, window),
        prune(h, now, window).len() == recent_count(h, now, window),
    decreases h.len(),
{
    if h.len() == 0 {
    } else if elapsed(now, h[0]) > window {
        let t = h.drop_first();
        assert forall|i: int, j: int| 0 <= i <= j < t.len() implies t[i] <= t[j] by {
            assert(t[i] == h[i + 1] && t[j] == h[j + 1]);
        }
        assert forall|i: int| 0 <= i < t.len() implies t[i] <= now by {
            assert(t[i] == h[i + 1]);
        }
        lemma_prune_sorted(t, now, window);
    } else {
        assert forall|i: int| 0 <= i < h.len() implies elapsed(now, #[trigger] h[i]) <= window by {
            assert(h[0] <= h[i]);
            assert(h[i] <= now);
        }
        lemma_all_recent_count(h, now, window);
    }
}

/// The sliding window: when the history holds past times in order, a
/// request is admitted exactly when fewer than `max_requests` of them lie
/// within `window` of now.
pub proof fn law_admits_iff_fewer_recent_than_limit(
    history: Seq<u128>,
    now: u128,
    window: u128,
    max_requests: usize,
)
    requires
        sorted(history),
        none_after(history, now),
    ensures
        admits(history, now, window, max_requests) == (recent_count(history, now, window)
            < max_requests),
{
    lemma_prune_sorted(history, now, window);
}

/// The kept history never grows past the limit: starting from at most
/// `max_requests` times, it holds at most `max_requests` afterwards.
pub proof fn law_history_stays_within_limit(
    history: Seq<u128>,
    now: u128,
    window: u128,
    max_requests: usize,
)
    requires
        history.len() <= max_requests,
    ensures
        history_after(history, now, window, max_requests).len() <= max_requests,
{
    lemma_prune_is_suffix(history, now, window);
}

/// The invariant across requests arriving in time order: the history
/// stays sorted, holds no future time, holds only times within the window
/// of the latest request, and holds at most `max_requests` times.
pub proof fn law_history_invariant(
    history: Seq<u128>,
    before: u128,
    now: u128,
    window: u128,
    max_requests: usize,
)
    requires
        sorted(history),
        none_after(history, before),
        before <= now,
        history.len() <= max_requests,
    ensures
        sorted(history_after(history, now, window, max_requests)),
        none_after(history_after(history, now, window, max_requests), now),
        all_recent(history_after(history, now, window, max_requests), now, window),
        history_after(history, now, window, max_requests).len() <= max_requests,
{
    assert forall|i: int| 0 <= i < history.len() implies history[i] <= now by {
        assert(history[i] <= before);
    }
    lemma_prune_sorted(history, now, window);
    lemma_prune_is_suffix(history, now, window);
    let p = prune(history, now, window);
    if admits(history, now, window, max_requests) {
        let q = p.push(now);
        assert forall|i: int, j: int| 0 <= i <= j < q.len() implies q[i] <= q[j] by {
            if j < p.len() {
                assert(q[i] == p[i] && q[j] == p[j]);
            } else {
                if i < p.len() {
                    assert(q[i] == p[i]);
                }
            }
        }
        assert forall|i: int| 0 <= i < q.len() implies elapsed(now, #[trigger] q[i]) <= window by {
            if i < p.len() {
                assert(q[i] == p[i]);
            }
        }
    }
}

/// A request whose identity cannot be extracted passes through unlimited:
/// the store is not consulted.
pub proof fn law_unidentified_passes_unlimited(
    max_requests: usize,
    window: u128,
    now: u128,
    next: LimitPhase,
    action: LimitAction,
)
    requires
        limit_step_ok(max_requests, window, LimitPhase::Start, LimitEvent::Identified { found: false, now }, next, action),
    ensures
        action is PassThrough,
        next is Done,
{
}

/// An identified request runs through the store and then either reaches
/// the handler, recorded at `now` in the identity's history, or, over the
/// limit, is answered 429 without reaching the handler and without being
/// recorded.
pub proof fn law_identified_request_outcome(
    max_requests: usize,
    window: u128,
    now: u128,
    history: Result<Option<VecDeque<u128>>, ()>,
    p1: LimitPhase,
    a1: LimitAction,
    p2: LimitPhase,
    a2: LimitAction,
    p3: LimitPhase,
    a3: LimitAction,
)
    requires
        limit_step_ok(max_requests, window, LimitPhase::Start, LimitEvent::Identified { found: true, now }, p1, a1),
        limit_step_ok(max_requests, window, p1, LimitEvent::Loaded { history }, p2, a2),
        limit_step_ok(max_requests, window, p2, LimitEvent::Saved, p3, a3),
    ensures
        a1 is Load,
        admits(loaded_history(history), now, window, max_requests) ==> {
            &&& a3 is CallService
            &&& a2 matches LimitAction::Save { history: saved } && saved@ == prune(
                loaded_history(history),
                now,
                window,
            ).push(now)
        },
        !admits(loaded_history(history), now, window, max_requests) ==> {
            &&& a3 is TooManyRequests
            &&& a2 matches LimitAction::Save { history: saved } && saved@ == prune(
                loaded_history(history),
                now,
                window,
            )
        },
        p3 is Done,
{
}

/// The history kept for an identity after its requests at `times`, in
/// order, starting from none.
pub open spec fn replay(times: Seq<u128>, window: u128, max_requests: usize) -> Seq<u128>
    decreases times.len(),
{
    if times.len() == 0 {
        Seq::empty()
    } else {
        history_after(replay(times.drop_last(), window, max_requests), times.last(), window, max_requests)
    }
}

/// The times, among `times`, of the requests that were admitted.
pub open spec fn admitted(times: Seq<u128>, window: u128, max_requests: usize) -> Seq<u128>
    decreases times.len(),
{
    if times.len() == 0 {
        Seq::empty()
    } else {
        let before = admitted(times.drop_last(), window, max_requests);
        if admits(replay(times.drop_last(), window, max_requests), times.last(), window, max_requests) {
            before.push(times.last())
        } else {
            before
        }
    }
}

/// The times that pruning drops are more than `window` old.
proof fn lemma_prune_drops_old(h: Seq<u128>, now: u128, window: u128)
    ensures
        forall|i: int|
            0 <= i < h.len() - prune(h, now, window).len() ==> elapsed(now, #[trigger] h[i]) > window,
    decreases h.len(),
{
    lemma_prune_is_suffix(h, now, window);
    if h.len() > 0 && elapsed(now, h[0]) > window {
        let t = h.drop_first();
        lemma_prune_drops_old(t, now, window);
        assert forall|i: int| 0 <= i < h.len() - prune(h, now, window).len() implies elapsed(
            now,
            #[trigger] h[i],
        ) > window by {
            if i > 0 {
                assert(h[i] == t[i - 1]);
            }
        }
    }
}

/// Times that are old at `cur` do not count, whatever comes after them.
proof fn lemma_old_prefix_does_not_count(a: Seq<u128>, k: int, now: u128, window: u128)
    requires
        0 <= k <= a.len(),
        forall|i: int| 0 <= i < k ==> elapsed(now, #[trigger] a[i]) > window,
    ensures
        recent_count(a, now, window) == recent_count(a.skip(k), now, window),
    decreases k,
{
    if k == 0 {
        assert(a.skip(0) == a);
    } else {
        let t = a.drop_first();
        assert forall|i: int| 0 <= i < k - 1 implies elapsed(now, #[trigger] t[i]) > window by {
            assert(t[i] == a[i + 1]);
        }
        lemma_old_prefix_does_not_count(t, k - 1, now, window);
        assert(t.skip(k - 1) == a.skip(k));
        assert(elapsed(now, a[0]) > window);
    }
}

/// Over a run of requests in time order, all at or before `cur`: the kept
/// history is the admitted times without a front part, every time of which
/// is more than `window` old at `cur`; and the admitted times are in order
/// and at or before `cur`.
proof fn lemma_replay(times: Seq<u128>, cur: u128, window: u128, max_requests: usize) -> (k: int)
    requires
        sorted(times),
        none_after(times, cur),
    ensures
        0 <= k <= admitted(times, window, max_requests).len(),
        replay(times, window, max_requests) == admitted(times, window, max_requests).skip(k),
        forall|i: int|
            0 <= i < k ==> elapsed(cur, #[trigger] admitted(times, window, max_requests)[i]) > window,
        sorted(admitted(times, window, max_requests)),
        none_after(admitted(times, window, max_requests), cur),
    decreases times.len(),
{
    let a = admitted(times, window, max_requests);
    if times.len() == 0 {
        assert(a.skip(0) == a);
        0
    } else {
        let prev = times.drop_last();
        let t = times.last();
        assert(sorted(prev));
        assert forall|i: int| 0 <= i < prev.len() implies prev[i] <= t by {
            assert(prev[i] == times[i]);
            assert(times[i] <= times[times.len() - 1]);
        }
        let k0 = lemma_replay(prev, t, window, max_requests);
        let a0 = admitted(prev, window, max_requests);
        let h0 = replay(prev, window, max_requests);
        lemma_prune_is_suffix(h0, t, window);
        lemma_prune_drops_old(h0, t, window);
        let p = prune(h0, t, window);
        let j = h0.len() - p.len();
        assert(t <= cur);
        assert(p == a0.skip(k0 + j));
        assert forall|i: int| 0 <= i < k0 + j implies elapsed(cur, #[trigger] a[i]) > window by {
            assert(a[i] == a0[i]);
            if i < k0 {
                assert(elapsed(t, a0[i]) > window);
            } else {
                assert(a0[i] == h0[i - k0]);
                assert(elapsed(t, h0[i - k0]) > window);
            }
        }
        if admits(h0, t, window, max_requests) {
            assert(a == a0.push(t));
            assert(replay(times, window, max_requests) == p.push(t));
            assert(a.skip(k0 + j) == a0.skip(k0 + j).push(t));
        } else {
            assert(a == a0);
        }
        assert forall|i: int| 0 <= i < a.len() implies a[i] <= cur by {
            if i < a0.len() {
                assert(a[i] == a0[i]);
            }
        }
        k0 + j
    }
}

/// The sliding window over a run of requests for one identity, in time
/// order and all at or before `now`: a request at `now` is admitted exactly
/// when fewer than `max_requests` of the earlier admitted requests lie
/// within `window` of `now`.
pub proof fn law_sliding_window(times: Seq<u128>, now: u128, window: u128, max_requests: usize)
    requires
        sorted(times),
        none_after(times, now),
    ensures
        admits(replay(times, window, max_requests), now, window, max_requests) == (recent_count(
            admitted(times, window, max_requests),
            now,
            window,
        ) < max_requests),
{
    let k = lemma_replay(times, now, window, max_requests);
    let a = admitted(times, window, max_requests);
    let h = replay(times, window, max_requests);
    lemma_old_prefix_does_not_count(a, k, now, window);
    assert forall|i: int, j: int| 0 <= i <= j < h.len() implies h[i] <= h[j] by {
        assert(h[i] == a[i + k] && h[j] == a[j + k]);
    }
    assert forall|i: int| 0 <= i < h.len() implies h[i] <= now by {
        assert(h[i] == a[i + k]);
    }
    law_admits_iff_fewer_recent_than_limit(h, now, window, max_requests);
}

} // verus!
