//! Request deduplication by an idempotency key: the first request with a
//! key runs and its response is recorded; a request with the same key while
//! the first runs is refused with 409; once the first has finished, the
//! recorded response is replayed without running the handler again.

use crate::middleware::cache::copy_bytes;
use crate::middleware::share;
use std::rc::Rc;
use std::sync::Arc;
use vstd::prelude::*;

verus! {

/// A recorded response: status, text headers and body.
pub struct CachedResponse {
    pub status: u16,
    pub headers: Vec<(String, String)>,
    pub body: Vec<u8>,
}

/// The contents of a recorded response.
pub ghost struct RecordedView {
    pub status: u16,
    pub headers: Seq<(Seq<char>, Seq<char>)>,
    pub body: Seq<u8>,
}

/// The contents of a list of text headers.
pub open spec fn text_headers_view(h: Seq<(String, String)>) -> Seq<(Seq<char>, Seq<char>)> {
    h.map_values(|p: (String, String)| (p.0@, p.1@))
}

impl View for CachedResponse {
    type V = RecordedView;

    open spec fn view(&self) -> RecordedView {
        RecordedView {
            status: self.status,
            headers: text_headers_view(self.headers@),
            body: self.body@,
        }
    }
}

/// What the store knows of a key.
pub enum IdempotencyState {
    /// A request with this key is running.
    InProgress,
    /// A request with this key finished with this response.
    Completed(CachedResponse),
}

/// The default time a key is held: one hour, in nanoseconds.
pub const DEFAULT_TTL_NANOS: u128 = 3_600_000_000_000;

/// Deduplicates requests carrying the header `header` (by default
/// `Idempotency-Key`), holding keys in `store` for `ttl_nanos`.
pub struct Idempotency<S> {
    store: Arc<S>,
    ttl_nanos: u128,
    header: &'static str,
}

impl<S> Idempotency<S> {
    /// The store.
    pub closed spec fn store_spec(&self) -> Arc<S> {
        self.store
    }

    /// How long a key is held, in nanoseconds.
    pub closed spec fn ttl_spec(&self) -> u128 {
        self.ttl_nanos
    }

    /// The header that carries the key.
    pub closed spec fn header_spec(&self) -> &'static str {
        self.header
    }

    /// Deduplication through `store`, with keys held for one hour and read
    /// from `Idempotency-Key`.
    pub fn new(store: Arc<S>) -> (r: Self)
        ensures
            r.store_spec() == store,
            r.ttl_spec() == DEFAULT_TTL_NANOS,
            r.header_spec()@ == "Idempotency-Key"@,
    {
        Self { store, ttl_nanos: DEFAULT_TTL_NANOS, header: "Idempotency-Key" }
    }

    /// The same, holding keys for `ttl_nanos`.
    pub fn ttl(self, ttl_nanos: u128) -> (r: Self)
        ensures
            r.store_spec() == self.store_spec(),
            r.ttl_spec() == ttl_nanos,
            r.header_spec() == self.header_spec(),
    {
        Self { ttl_nanos, ..self }
    }

    /// The same, reading the key from `header`.
    pub fn header(self, header: &'static str) -> (r: Self)
        ensures
            r.store_spec() == self.store_spec(),
            r.ttl_spec() == self.ttl_spec(),
            r.header_spec() == header,
    {
        Self { header, ..self }
    }

    /// The store.
    pub fn store(&self) -> (r: &Arc<S>)
        ensures
            *r == self.store_spec(),
    {
        &self.store
    }

    /// How long a key is held, in nanoseconds.
    pub fn ttl_nanos(&self) -> (r: u128)
        ensures
            r == self.ttl_spec(),
    {
        self.ttl_nanos
    }

    /// The header that carries the key.
    pub fn header_name(&self) -> (r: &'static str)
        ensures
            r == self.header_spec(),
    {
        self.header
    }
}

/// `Idempotency` wrapped around a service.
pub struct IdempotencyMiddleware<Svc, S> {
    service: Rc<Svc>,
    config: Idempotency<S>,
}

impl<S> Idempotency<S> {
    /// Wraps the middleware around `service`.
    pub fn new_transform<Svc>(&self, service: Svc) -> (r: IdempotencyMiddleware<Svc, S>)
        ensures
            r.service_spec() == service,
            r.config_spec().store_spec() == self.store_spec(),
            r.config_spec().ttl_spec() == self.ttl_spec(),
            r.config_spec().header_spec() == self.header_spec(),
    {
        let config = Idempotency { store: share(&self.store), ttl_nanos: self.ttl_nanos, header: self.header };
        IdempotencyMiddleware { service: Rc::new(service), config }
    }
}

impl<Svc, S> IdempotencyMiddleware<Svc, S> {
    pub closed spec fn service_spec(&self) -> Svc {
        *self.service
    }

    pub closed spec fn config_spec(&self) -> Idempotency<S> {
        self.config
    }

    /// The wrapped service, shared.
    pub fn inner(&self) -> (r: &Rc<Svc>)
        ensures
            **r == self.service_spec(),
    {
        &self.service
    }

    /// The configuration.
    pub fn config(&self) -> (r: &Idempotency<S>)
        ensures
            *r == self.config_spec(),
    {
        &self.config
    }
}

/// Where a request stands in the idempotency middleware.
pub enum IdemPhase {
    /// Nothing is known of the request yet.
    Start,
    /// The store is asked to reserve `key`.
    Acquiring { key: String },
    /// The store is asked what it holds for `key`.
    Looking { key: String },
    /// The handler runs for `key`.
    Running { key: String },
    /// The body of the handler's response is being read.
    Reading { key: String, status: u16, headers: Vec<(String, String)> },
    /// The response is being recorded under `key`.
    Completing { key: String, status: u16, body: Vec<u8> },
    /// Recording failed; `key` is being released.
    Releasing { status: u16, body: Vec<u8> },
    /// The handler failed; its key is being released.
    Abandoning,
    /// The request has been answered.
    Done,
}

/// What happened since the last step.
pub enum IdemEvent {
    /// The request arrived, with the key header's text if it has one.
    Request { key: Option<String> },
    /// The store answered the reservation (`Err` when it failed).
    Acquired { result: Result<bool, ()> },
    /// The store answered the lookup (`Err` when it failed).
    Looked { result: Result<Option<IdempotencyState>, ()> },
    /// The handler answered: its status and headers, each header value as
    /// text when it is text.
    Responded { status: u16, headers: Vec<(String, Option<String>)> },
    /// The body was read (`None` when reading it failed).
    BodyRead { body: Option<Vec<u8>> },
    /// The store answered the recording.
    Recorded { ok: bool },
    /// The store answered the release; its outcome changes nothing.
    Released,
    /// The handler answered with an error instead of a response.
    HandlerFailed,
}

/// What the middleware does next.
pub enum IdemAction {
    /// No key: call the handler and return its answer, store untouched.
    PassThrough,
    /// Ask the store to reserve `key`.
    Acquire { key: String },
    /// Ask the store what it holds for `key`.
    Lookup { key: String },
    /// Answer with the recorded `response`, headers included.
    Replay { response: CachedResponse },
    /// Answer 409 Conflict: a request with this key is still running.
    Conflict,
    /// Answer 500 Internal Server Error.
    InternalError,
    /// Call the handler.
    CallService,
    /// Read the body of the handler's response.
    ReadBody,
    /// Record `response` under `key`.
    Complete { key: String, response: CachedResponse },
    /// Give up the reservation of `key`.
    Release { key: String },
    /// Hand the handler's error on.
    HandOnError,
    /// Answer with `status` and `body`.
    Respond { status: u16, body: Vec<u8> },
    /// The event does not belong to this phase.
    Unexpected,
}

/// The headers whose value is text, in order.
pub open spec fn text_headers(h: Seq<(String, Option<String>)>) -> Seq<(Seq<char>, Seq<char>)>
    decreases h.len(),
{
    if h.len() == 0 {
        Seq::empty()
    } else {
        let rest = text_headers(h.drop_last());
        match h.last().1 {
            Some(v) => rest.push((h.last().0@, v@)),
            None => rest,
        }
    }
}

/// The headers whose value is text, in order.
pub fn keep_text_headers(h: Vec<(String, Option<String>)>) -> (r: Vec<(String, String)>)
    ensures
        text_headers_view(r@) == text_headers(h@),
{
    let mut r: Vec<(String, String)> = Vec::new();
    let mut i: usize = 0;
    let n = h.len();
    while i < n
        invariant
            n == h@.len(),
            i <= n,
            text_headers_view(r@) == text_headers(h@.take(i as int)),
        decreases n - i,
    {
        assert(h@.take(i + 1).drop_last() == h@.take(i as int));
        let name = h[i].0.clone();
        match &h[i].1 {
            Some(v) => {
                let value = v.clone();
                r.push((name, value));
                assert(text_headers_view(r@) =~= text_headers(h@.take(i + 1)));
            },
            None => {},
        }
        i += 1;
    }
    assert(h@.take(n as int) == h@);
    r
}

/// One step of the idempotency middleware: from `phase`, on `event`, to
/// `next` doing `action`.
pub open spec fn idem_step_ok(phase: IdemPhase, event: IdemEvent, next: IdemPhase, action: IdemAction) -> bool {
    match (phase, event) {
        (IdemPhase::Start, IdemEvent::Request { key }) => match key {
            None => next is Done && action is PassThrough,
            Some(k) => {
                &&& next matches IdemPhase::Acquiring { key: k1 } && k1@ == k@
                &&& action matches IdemAction::Acquire { key: k2 } && k2@ == k@
            },
        },
        (IdemPhase::Acquiring { key }, IdemEvent::Acquired { result }) => match result {
            Ok(true) => (next matches IdemPhase::Running { key: k1 } && k1@ == key@) && action is CallService,
            Ok(false) => {
                &&& next matches IdemPhase::Looking { key: k1 } && k1@ == key@
                &&& action matches IdemAction::Lookup { key: k2 } && k2@ == key@
            },
            Err(_) => next is Done && action is InternalError,
        },
        (IdemPhase::Looking { key }, IdemEvent::Looked { result }) => match result {
            Ok(Some(IdempotencyState::Completed(c))) => next is Done && (action matches IdemAction::Replay { response }
                && response@ == c@),
            Ok(Some(IdempotencyState::InProgress)) => next is Done && action is Conflict,
            _ => next is Done && action is InternalError,
        },
        (IdemPhase::Running { key }, IdemEvent::Responded { status, headers }) => {
            &&& next matches IdemPhase::Reading { key: k1, status: s1, headers: h1 } && k1@ == key@
                && s1 == status && text_headers_view(h1@) == text_headers(headers@)
            &&& action is ReadBody
        },
        (IdemPhase::Reading { key, status, headers }, IdemEvent::BodyRead { body }) => match body {
            None => next is Done && action is InternalError,
            Some(b) => {
                &&& next matches IdemPhase::Completing { key: k1, status: s1, body: b1 } && k1@ == key@
                    && s1 == status && b1@ == b@
                &&& action matches IdemAction::Complete { key: k2, response } && k2@ == key@
                    && response.status == status && text_headers_view(response.headers@)
                    == text_headers_view(headers@) && response.body@ == b@
            },
        },
        (IdemPhase::Completing { key, status, body }, IdemEvent::Recorded { ok }) => if ok {
            next is Done && (action matches IdemAction::Respond { status: s, body: b } && s == status
                && b@ == body@)
        } else {
            &&& next matches IdemPhase::Releasing { status: s, body: b } && s == status && b@ == body@
            &&& action matches IdemAction::Release { key: k } && k@ == key@
        },
        (IdemPhase::Releasing { status, body }, IdemEvent::Released) => next is Done && (action
            matches IdemAction::Respond { status: s, body: b } && s == status && b@ == body@),
        (IdemPhase::Running { key }, IdemEvent::HandlerFailed) => next is Abandoning && (action
            matches IdemAction::Release { key: k } && k@ == key@),
        (IdemPhase::Abandoning, IdemEvent::Released) => next is Done && action is HandOnError,
        _ => next is Done && action is Unexpected,
    }
}

/// A copy of a list of text headers.
pub fn copy_text_headers(h: &Vec<(String, String)>) -> (r: Vec<(String, String)>)
    ensures
        text_headers_view(r@) == text_headers_view(h@),
{
    let mut r: Vec<(String, String)> = Vec::new();
    for i in 0..h.len()
        invariant
            r@.len() == i,
            forall|j: int| #![trigger r@[j]] 0 <= j < i ==> r@[j].0@ == h@[j].0@ && r@[j].1@ == h@[j].1@,
    {
        let name = h[i].0.clone();
        let value = h[i].1.clone();
        let ghost before = r@;
        r.push((name, value));
        assert forall|j: int| #![trigger r@[j]] 0 <= j < i + 1 implies r@[j].0@ == h@[j].0@
            && r@[j].1@ == h@[j].1@ by {
            if j < i {
                assert(r@[j] == before[j]);
            }
        }
    }
    assert(text_headers_view(r@) =~= text_headers_view(h@));
    r
}

/// One step of the idempotency middleware.
pub fn idem_step(phase: IdemPhase, event: IdemEvent) -> (r: (IdemPhase, IdemAction))
    ensures
        idem_step_ok(phase, event, r.0, r.1),
{
    match (phase, event) {
        (IdemPhase::Start, IdemEvent::Request { key }) => match key {
            None => (IdemPhase::Done, IdemAction::PassThrough),
            Some(k) => {
                let again = k.clone();
                (IdemPhase::Acquiring { key: k }, IdemAction::Acquire { key: again })
            },
        },
        (IdemPhase::Acquiring { key }, IdemEvent::Acquired { result }) => match result {
            Ok(true) => (IdemPhase::Running { key }, IdemAction::CallService),
            Ok(false) => {
                let again = key.clone();
                (IdemPhase::Looking { key }, IdemAction::Lookup { key: again })
            },
            Err(_) => (IdemPhase::Done, IdemAction::InternalError),
        },
        (IdemPhase::Looking { key }, IdemEvent::Looked { result }) => match result {
            Ok(Some(IdempotencyState::Completed(c))) => (
                IdemPhase::Done,
                IdemAction::Replay { response: c },
            ),
            Ok(Some(IdempotencyState::InProgress)) => (IdemPhase::Done, IdemAction::Conflict),
            _ => (IdemPhase::Done, IdemAction::InternalError),
        },
        (IdemPhase::Running { key }, IdemEvent::Responded { status, headers }) => {
            let kept = keep_text_headers(headers);
            (IdemPhase::Reading { key, status, headers: kept }, IdemAction::ReadBody)
        },
        (IdemPhase::Reading { key, status, headers }, IdemEvent::BodyRead { body }) => match body {
            None => (IdemPhase::Done, IdemAction::InternalError),
            Some(b) => {
                let recorded = CachedResponse {
                    status,
                    headers: copy_text_headers(&headers),
                    body: copy_bytes(&b),
                };
                let again = key.clone();
                (
                    IdemPhase::Completing { key, status, body: b },
                    IdemAction::Complete { key: again, response: recorded },
                )
            },
        },
        (IdemPhase::Completing { key, status, body }, IdemEvent::Recorded { ok }) => {
            if ok {
                (IdemPhase::Done, IdemAction::Respond { status, body })
            } else {
                (IdemPhase::Releasing { status, body }, IdemAction::Release { key })
            }
        },
        (IdemPhase::Releasing { status, body }, IdemEvent::Released) => (
            IdemPhase::Done,
            IdemAction::Respond { status, body },
        ),
        (IdemPhase::Running { key }, IdemEvent::HandlerFailed) => (
            IdemPhase::Abandoning,
            IdemAction::Release { key },
        ),
        (IdemPhase::Abandoning, IdemEvent::Released) => (IdemPhase::Done, IdemAction::HandOnError),
        _ => (IdemPhase::Done, IdemAction::Unexpected),
    }
}

/// A request without a key runs untouched: the store is never consulted.
pub proof fn law_no_key_passes_through(next: IdemPhase, action: IdemAction)
    requires
        idem_step_ok(IdemPhase::Start, IdemEvent::Request { key: None }, next, action),
    ensures
        action is PassThrough,
        next is Done,
{
}

/// A key whose first request is still running is answered 409 Conflict,
/// and the handler does not run.
pub proof fn law_running_key_conflicts(
    key: String,
    p1: IdemPhase,
    a1: IdemAction,
    p2: IdemPhase,
    a2: IdemAction,
    p3: IdemPhase,
    a3: IdemAction,
)
    requires
        idem_step_ok(IdemPhase::Start, IdemEvent::Request { key: Some(key) }, p1, a1),
        idem_step_ok(p1, IdemEvent::Acquired { result: Ok(false) }, p2, a2),
        idem_step_ok(
            p2,
            IdemEvent::Looked { result: Ok(Some(IdempotencyState::InProgress)) },
            p3,
            a3,
        ),
    ensures
        a3 is Conflict,
        p3 is Done,
        !(a1 is CallService) && !(a2 is CallService),
{
}

/// A request that finds its key completed is answered with the recorded
/// response, verbatim, and the handler does not run.
pub proof fn law_completed_key_replays(
    key: String,
    recorded: CachedResponse,
    p1: IdemPhase,
    a1: IdemAction,
    p2: IdemPhase,
    a2: IdemAction,
    p3: IdemPhase,
    a3: IdemAction,
)
    requires
        idem_step_ok(IdemPhase::Start, IdemEvent::Request { key: Some(key) }, p1, a1),
        idem_step_ok(p1, IdemEvent::Acquired { result: Ok(false) }, p2, a2),
        idem_step_ok(
            p2,
            IdemEvent::Looked { result: Ok(Some(IdempotencyState::Completed(recorded))) },
            p3,
            a3,
        ),
    ensures
        a2 matches IdemAction::Lookup { key: k } && k@ == key@,
        a3 matches IdemAction::Replay { response } && response@ == recorded@,
        p3 is Done,
        !(a1 is CallService) && !(a2 is CallService),
{
}

/// Retrying after completion: the first request with a key runs the
/// handler once and records its response; when the store then answers a
/// second request with the same key with that record, the second request
/// receives the status and body the first one received.
pub proof fn law_retry_receives_first_response(
    key: String,
    status: u16,
    headers: Vec<(String, Option<String>)>,
    body: Vec<u8>,
    p1: IdemPhase,
    a1: IdemAction,
    p2: IdemPhase,
    a2: IdemAction,
    p3: IdemPhase,
    a3: IdemAction,
    p4: IdemPhase,
    a4: IdemAction,
    p5: IdemPhase,
    a5: IdemAction,
    stored: CachedResponse,
    q1: IdemPhase,
    b1: IdemAction,
    q2: IdemPhase,
    b2: IdemAction,
    q3: IdemPhase,
    b3: IdemAction,
)
    requires
        idem_step_ok(IdemPhase::Start, IdemEvent::Request { key: Some(key) }, p1, a1),
        idem_step_ok(p1, IdemEvent::Acquired { result: Ok(true) }, p2, a2),
        idem_step_ok(p2, IdemEvent::Responded { status, headers }, p3, a3),
        idem_step_ok(p3, IdemEvent::BodyRead { body: Some(body) }, p4, a4),
        idem_step_ok(p4, IdemEvent::Recorded { ok: true }, p5, a5),
        a4 matches IdemAction::Complete { key: _, response } && stored@ == response@,
        idem_step_ok(IdemPhase::Start, IdemEvent::Request { key: Some(key) }, q1, b1),
        idem_step_ok(q1, IdemEvent::Acquired { result: Ok(false) }, q2, b2),
        idem_step_ok(
            q2,
            IdemEvent::Looked { result: Ok(Some(IdempotencyState::Completed(stored))) },
            q3,
            b3,
        ),
    ensures
        a2 is CallService,
        a4 matches IdemAction::Complete { key: k, response: _ } && k@ == key@,
        b2 matches IdemAction::Lookup { key: k } && k@ == key@,
        a5 matches IdemAction::Respond { status: s, body: bd } && s == status && bd@ == body@,
        b3 matches IdemAction::Replay { response } && response.status == status && response.body@
            == body@ && response@.headers == text_headers(headers@),
        !(b1 is CallService) && !(b2 is CallService) && !(b3 is CallService),
{
}

/// A handler that fails does not leave its key reserved: the key is
/// released, and then the handler's error is handed on.
pub proof fn law_handler_error_releases_key(
    key: String,
    p1: IdemPhase,
    a1: IdemAction,
    p2: IdemPhase,
    a2: IdemAction,
)
    requires
        idem_step_ok(IdemPhase::Running { key }, IdemEvent::HandlerFailed, p1, a1),
        idem_step_ok(p1, IdemEvent::Released, p2, a2),
    ensures
        a1 matches IdemAction::Release { key: k } && k@ == key@,
        a2 is HandOnError,
        p2 is Done,
{
}

/// Whether a header's value is text.
pub open spec fn is_text_header(p: (String, Option<String>)) -> bool {
    p.1 is Some
}

/// A text header's name and value.
pub open spec fn text_header_of(p: (String, Option<String>)) -> (Seq<char>, Seq<char>) {
    (p.0@, p.1->0@)
}

/// The recorded headers are exactly the handler's headers whose value is
/// text, each with its name and value, in the handler's order: as many as
/// there are text headers, the i-th recorded one being the i-th of them.
pub proof fn law_recorded_headers_are_the_text_headers(h: Seq<(String, Option<String>)>)
    ensures
        text_headers(h) == h.filter(|p: (String, Option<String>)| is_text_header(p)).map_values(
            |p: (String, Option<String>)| text_header_of(p),
        ),
        text_headers(h).len() == h.filter(|p: (String, Option<String>)| is_text_header(p)).len(),
    decreases h.len(),
{
    reveal(Seq::filter);
    let pred = |p: (String, Option<String>)| is_text_header(p);
    let f = |p: (String, Option<String>)| text_header_of(p);
    if h.len() > 0 {
        law_recorded_headers_are_the_text_headers(h.drop_last());
        let sub = h.drop_last().filter(pred);
        assert(h.filter(pred) == if pred(h.last()) {
            sub.push(h.last())
        } else {
            sub
        });
        if pred(h.last()) {
            assert(sub.push(h.last()).map_values(f) =~= sub.map_values(f).push(f(h.last())));
        }
    } else {
        assert(h.filter(pred) =~= Seq::<(String, Option<String>)>::empty());
        assert(text_headers(h) =~= h.filter(pred).map_values(f));
    }
}

} // verus!
