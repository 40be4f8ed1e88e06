//! GET-only response caching. The cache key is `host + path + query`; a
//! response is kept only when its status is 2xx, it sets no cookie, its
//! `Cache-Control` says neither `no-store` nor `private`, and its body has a
//! known length.

use crate::text::{contains_ignoring_ascii_case, contains_lowered};
use vstd::prelude::*;

verus! {

/// A response as kept in the cache: status, headers (name and raw value)
/// and body.
pub struct CachedResponse {
    pub status: u16,
    pub headers: Vec<(String, Vec<u8>)>,
    pub body: Vec<u8>,
}

/// The contents of a cached response.
pub ghost struct ResponseView {
    pub status: u16,
    pub headers: Seq<(Seq<char>, Seq<u8>)>,
    pub body: Seq<u8>,
}

/// The contents of a list of raw headers.
pub open spec fn raw_headers_view(h: Seq<(String, Vec<u8>)>) -> Seq<(Seq<char>, Seq<u8>)> {
    h.map_values(|p: (String, Vec<u8>)| (p.0@, p.1@))
}

impl View for CachedResponse {
    type V = ResponseView;

    open spec fn view(&self) -> ResponseView {
        ResponseView { status: self.status, headers: raw_headers_view(self.headers@), body: self.body@ }
    }
}

/// A copy of `v`.
pub fn copy_bytes(v: &Vec<u8>) -> (r: Vec<u8>)
    ensures
        r@ == v@,
{
    let mut r: Vec<u8> = Vec::new();
    for i in 0..v.len()
        invariant
            r@ == v@.take(i as int),
    {
        r.push(v[i]);
        assert(v@.take(i + 1) == v@.take(i as int).push(v@[i as int]));
    }
    assert(v@.take(v@.len() as int) == v@);
    r
}

/// A copy of a list of raw headers.
pub fn copy_raw_headers(h: &Vec<(String, Vec<u8>)>) -> (r: Vec<(String, Vec<u8>)>)
    ensures
        raw_headers_view(r@) == raw_headers_view(h@),
{
    let mut r: Vec<(String, Vec<u8>)> = Vec::new();
    for i in 0..h.len()
        invariant
            r@.len() == i,
            forall|j: int| #![trigger r@[j]] 0 <= j < i ==> r@[j].0@ == h@[j].0@ && r@[j].1@ == h@[j].1@,
    {
        let name = h[i].0.clone();
        let value = copy_bytes(&h[i].1);
        let ghost before = r@;
        r.push((name, value));
        assert forall|j: int| #![trigger r@[j]] 0 <= j < i + 1 implies r@[j].0@ == h@[j].0@
            && r@[j].1@ == h@[j].1@ by {
            if j < i {
                assert(r@[j] == before[j]);
            }
        }
    }
    assert(raw_headers_view(r@) =~= raw_headers_view(h@));
    r
}

impl Clone for CachedResponse {
    fn clone(&self) -> (r: Self)
        ensures
            r@ == self@,
    {
        CachedResponse {
            status: self.status,
            headers: copy_raw_headers(&self.headers),
            body: copy_bytes(&self.body),
        }
    }
}

impl CachedResponse {
    pub fn new(status: u16, headers: Vec<(String, Vec<u8>)>, body: Vec<u8>) -> (r: Self)
        ensures
            r.status == status,
            r.headers@ == headers@,
            r.body@ == body@,
    {
        CachedResponse { status, headers, body }
    }
}

/// `host + path`, then `?` and the query when there is one.
pub open spec fn cache_key_spec(host: Seq<char>, path: Seq<char>, query: Option<Seq<char>>) -> Seq<
    char,
> {
    match query {
        Some(q) => host + path + seq!['?'] + q,
        None => host + path,
    }
}

/// The cache key of a request.
pub fn cache_key(host: &str, path: &str, query: Option<&str>) -> (r: String)
    ensures
        r@ == cache_key_spec(host@, path@, match query {
            Some(q) => Some(q@),
            None => None,
        }),
{
    let mut key = String::from_str(host);
    key.append(path);
    match query {
        Some(q) => {
            key.push('?');
            key.append(q);
        },
        None => {},
    }
    key
}

/// `"no-store"`.
pub open spec fn no_store() -> Seq<char> {
    seq!['n', 'o', '-', 's', 't', 'o', 'r', 'e']
}

/// `"private"`.
pub open spec fn private() -> Seq<char> {
    seq!['p', 'r', 'i', 'v', 'a', 't', 'e']
}

/// Whether a response may be kept: a 2xx status, no `Set-Cookie`, and a
/// `Cache-Control` (when it is readable text) that mentions neither
/// `no-store` nor `private` in any letter case.
pub open spec fn cacheable(status: u16, has_set_cookie: bool, cache_control: Option<Seq<char>>) -> bool {
    &&& 200 <= status <= 299
    &&& !has_set_cookie
    &&& match cache_control {
        Some(cc) => !contains_lowered(cc, no_store()) && !contains_lowered(cc, private()),
        None => true,
    }
}

/// Whether a response may be kept.
pub fn is_cacheable(status: u16, has_set_cookie: bool, cache_control: Option<&str>) -> (r: bool)
    ensures
        r == cacheable(status, has_set_cookie, match cache_control {
            Some(c) => Some(c@),
            None => None,
        }),
{
    if !(200 <= status && status <= 299) {
        return false;
    }
    if has_set_cookie {
        return false;
    }
    match cache_control {
        Some(cc) => {
            proof {
                reveal_strlit("no-store");
                reveal_strlit("private");
                assert("no-store"@ =~= no_store());
                assert("private"@ =~= private());
            }
            !contains_ignoring_ascii_case(cc, "no-store") && !contains_ignoring_ascii_case(
                cc,
                "private",
            )
        },
        None => true,
    }
}

/// Where a request stands in the cache middleware.
pub enum CachePhase {
    /// Nothing is known of the request yet.
    Start,
    /// The store is being asked for `key`.
    Looking { key: String },
    /// The wrapped service is handling the request.
    Calling { key: String },
    /// The body of the service's response is being read.
    Buffering { key: String, status: u16, headers: Vec<(String, Vec<u8>)> },
    /// `reply` is being kept in the store.
    Storing { reply: CachedResponse },
    /// The request has been answered.
    Done,
}

/// What happened since the last step.
pub enum CacheEvent {
    /// The request arrived.
    Request { is_get: bool, host: String, path: String, query: Option<String> },
    /// The store answered the lookup (`Err` when it failed).
    Looked { result: Result<Option<CachedResponse>, ()> },
    /// The service answered: its status and headers, whether it sets a
    /// cookie, its first `Cache-Control` value when that is text, and
    /// whether its body has a known length.
    Responded {
        status: u16,
        headers: Vec<(String, Vec<u8>)>,
        has_set_cookie: bool,
        cache_control: Option<String>,
        sized: bool,
    },
    /// The body was read (`None` when reading it failed).
    Buffered { body: Option<Vec<u8>> },
    /// The store answered the write; its outcome changes nothing.
    Stored,
}

/// What the middleware does next.
pub enum CacheAction {
    /// Not a GET: call the service and return its answer, cache untouched.
    PassThrough,
    /// Ask the store for `key`.
    Lookup { key: String },
    /// Answer with the cached `response`; the service is not called.
    Serve { response: CachedResponse },
    /// Call the wrapped service.
    CallService,
    /// Return the service's response as it is.
    ReturnAsIs,
    /// Read the body of the service's response.
    ReadBody,
    /// Keep `response` in the store under `key`.
    Store { key: String, response: CachedResponse },
    /// Answer with `response`.
    Reply { response: CachedResponse },
    /// The event does not belong to this phase.
    Unexpected,
}

/// The optional string's view.
pub open spec fn opt_view(o: Option<String>) -> Option<Seq<char>> {
    match o {
        Some(s) => Some(s@),
        None => None,
    }
}

/// One step of the cache middleware: from `phase`, on `event`, to `next`
/// doing `action`.
pub open spec fn cache_step_ok(
    phase: CachePhase,
    event: CacheEvent,
    next: CachePhase,
    action: CacheAction,
) -> bool {
    match (phase, event) {
        (CachePhase::Start, CacheEvent::Request { is_get, host, path, query }) => if !is_get {
            next is Done && action is PassThrough
        } else {
            let key = cache_key_spec(host@, path@, opt_view(query));
            &&& next matches CachePhase::Looking { key: k } && k@ == key
            &&& action matches CacheAction::Lookup { key: k } && k@ == key
        },
        (CachePhase::Looking { key }, CacheEvent::Looked { result }) => match result {
            Ok(Some(c)) => next is Done && (action matches CacheAction::Serve { response }
                && response@ == c@),
            _ => next matches CachePhase::Calling { key: k } && k@ == key@ && action is CallService,
        },
        (
            CachePhase::Calling { key },
            CacheEvent::Responded { status, headers, has_set_cookie, cache_control, sized },
        ) => if cacheable(status, has_set_cookie, opt_view(cache_control)) && sized {
            next matches CachePhase::Buffering { key: k, status: st, headers: hs } && k@ == key@
                && st == status && hs@ == headers@ && action is ReadBody
        } else {
            next is Done && action is ReturnAsIs
        },
        (CachePhase::Buffering { key, status, headers }, CacheEvent::Buffered { body }) => match body {
            Some(b) => {
                let response = CachedResponse { status, headers, body: b };
                &&& next matches CachePhase::Storing { reply } && reply@ == response@
                &&& action matches CacheAction::Store { key: k, response: stored } && k@ == key@
                    && stored@ == response@
            },
            None => {
                &&& next is Done
                &&& action matches CacheAction::Reply { response }
                &&& response.status == status
                &&& response.headers@ == headers@
                &&& response.body@.len() == 0
            },
        },
        (CachePhase::Storing { reply }, CacheEvent::Stored) => next is Done && (action
            matches CacheAction::Reply { response } && response@ == reply@),
        _ => next is Done && action is Unexpected,
    }
}

/// One step of the cache middleware.
pub fn cache_step(phase: CachePhase, event: CacheEvent) -> (r: (CachePhase, CacheAction))
    ensures
        cache_step_ok(phase, event, r.0, r.1),
{
    match (phase, event) {
        (CachePhase::Start, CacheEvent::Request { is_get, host, path, query }) => {
            if !is_get {
                (CachePhase::Done, CacheAction::PassThrough)
            } else {
                let q = match &query {
                    Some(q) => Some(q.as_str()),
                    None => None,
                };
                let key = cache_key(host.as_str(), path.as_str(), q);
                let again = key.clone();
                (CachePhase::Looking { key }, CacheAction::Lookup { key: again })
            }
        },
        (CachePhase::Looking { key }, CacheEvent::Looked { result }) => match result {
            Ok(Some(c)) => (CachePhase::Done, CacheAction::Serve { response: c }),
            _ => (CachePhase::Calling { key }, CacheAction::CallService),
        },
        (
            CachePhase::Calling { key },
            CacheEvent::Responded { status, headers, has_set_cookie, cache_control, sized },
        ) => {
            let cc = match &cache_control {
                Some(c) => Some(c.as_str()),
                None => None,
            };
            if is_cacheable(status, has_set_cookie, cc) && sized {
                (CachePhase::Buffering { key, status, headers }, CacheAction::ReadBody)
            } else {
                (CachePhase::Done, CacheAction::ReturnAsIs)
            }
        },
        (CachePhase::Buffering { key, status, headers }, CacheEvent::Buffered { body }) => match body {
            Some(b) => {
                let response = CachedResponse { status, headers, body: b };
                let stored = response.clone();
                (CachePhase::Storing { reply: response }, CacheAction::Store { key, response: stored })
            },
            None => (
                CachePhase::Done,
                CacheAction::Reply { response: CachedResponse { status, headers, body: Vec::new() } },
            ),
        },
        (CachePhase::Storing { reply }, CacheEvent::Stored) => (
            CachePhase::Done,
            CacheAction::Reply { response: reply },
        ),
        _ => (CachePhase::Done, CacheAction::Unexpected),
    }
}

/// Requests other than GET go straight to the service: no lookup, no store.
pub proof fn law_non_get_bypasses_cache(
    host: String,
    path: String,
    query: Option<String>,
    next: CachePhase,
    action: CacheAction,
)
    requires
        cache_step_ok(
            CachePhase::Start,
            CacheEvent::Request { is_get: false, host, path, query },
            next,
            action,
        ),
    ensures
        action is PassThrough,
        next is Done,
{
}

/// A hit is answered from the store without calling the service.
pub proof fn law_hit_is_served_without_service(
    key: String,
    cached: CachedResponse,
    next: CachePhase,
    action: CacheAction,
)
    requires
        cache_step_ok(
            CachePhase::Looking { key },
            CacheEvent::Looked { result: Ok(Some(cached)) },
            next,
            action,
        ),
    ensures
        next is Done,
        action matches CacheAction::Serve { response } && response@ == cached@,
{
}

/// Only a response that is cacheable and has a known length is ever
/// written to the store, and what is written is what the client receives.
pub proof fn law_only_cacheable_responses_are_stored(
    key: String,
    status: u16,
    headers: Vec<(String, Vec<u8>)>,
    has_set_cookie: bool,
    cache_control: Option<String>,
    sized: bool,
    body: Option<Vec<u8>>,
    p1: CachePhase,
    a1: CacheAction,
    p2: CachePhase,
    a2: CacheAction,
    p3: CachePhase,
    a3: CacheAction,
)
    requires
        cache_step_ok(
            CachePhase::Calling { key },
            CacheEvent::Responded { status, headers, has_set_cookie, cache_control, sized },
            p1,
            a1,
        ),
        cache_step_ok(p1, CacheEvent::Buffered { body }, p2, a2),
        cache_step_ok(p2, CacheEvent::Stored, p3, a3),
        a2 is Store,
    ensures
        cacheable(status, has_set_cookie, opt_view(cache_control)),
        sized,
        body is Some,
        a2 matches CacheAction::Store { key: k, response } && k@ == key@ && response.status == status
            && response@.headers == raw_headers_view(headers@) && response@.body == body->0@,
        a3 matches CacheAction::Reply { response } && a2 matches CacheAction::Store {
            key: _,
            response: stored,
        } && response@ == stored@,
{
}

/// When the host holds no `/`, the path starts with `/` and holds no `?`,
/// and the query holds no `?` either, the key tells requests apart: equal
/// keys come from equal host, path and query.
pub proof fn law_cache_key_distinguishes_requests(
    h1: Seq<char>,
    p1: Seq<char>,
    q1: Option<Seq<char>>,
    h2: Seq<char>,
    p2: Seq<char>,
    q2: Option<Seq<char>>,
)
    requires
        !h1.contains('/'),
        !h2.contains('/'),
        p1.len() > 0 && p1[0] == '/',
        p2.len() > 0 && p2[0] == '/',
        !p1.contains('?'),
        !p2.contains('?'),
        cache_key_spec(h1, p1, q1) == cache_key_spec(h2, p2, q2),
    ensures
        h1 == h2,
        p1 == p2,
        q1 == q2,
{
    let k = cache_key_spec(h1, p1, q1);
    assert(k.take(h1.len() as int) == h1);
    assert(k.take(h2.len() as int) == h2);
    // the host ends at the first '/'
    if h1.len() < h2.len() {
        assert(k[h1.len() as int] == p1[0]);
        assert(k[h1.len() as int] == h2[h1.len() as int]);
        assert(h2.contains('/'));
    }
    if h2.len() < h1.len() {
        assert(k[h2.len() as int] == p2[0]);
        assert(k[h2.len() as int] == h1[h2.len() as int]);
        assert(h1.contains('/'));
    }
    assert(h1.len() == h2.len());
    assert(h1 =~= h2);
    let r = k.skip(h1.len() as int);
    // the path ends at the first '?', or at the end of the key
    assert(r.take(p1.len() as int) == p1);
    assert(r.take(p2.len() as int) == p2);
    if p1.len() < p2.len() {
        assert(r[p1.len() as int] == p2[p1.len() as int]);
        if q1 is Some {
            assert(r[p1.len() as int] == '?');
            assert(p2.contains('?'));
        } else {
            assert(r.len() == p1.len());
        }
    }
    if p2.len() < p1.len() {
        assert(r[p2.len() as int] == p1[p2.len() as int]);
        if q2 is Some {
            assert(r[p2.len() as int] == '?');
            assert(p1.contains('?'));
        } else {
            assert(r.len() == p2.len());
        }
    }
    assert(p1.len() == p2.len());
    assert(p1 =~= p2);
    let t = r.skip(p1.len() as int);
    match (q1, q2) {
        (Some(a), Some(b)) => {
            assert(t == seq!['?'] + a);
            assert(t == seq!['?'] + b);
            assert(a =~= t.skip(1));
            assert(b =~= t.skip(1));
        },
        (None, None) => {},
        (Some(a), None) => {
            assert(t.len() >= 1);
            assert(t.len() == 0);
        },
        (None, Some(b)) => {
            assert(t.len() >= 1);
            assert(t.len() == 0);
        },
    }
}

/// A response that sets a cookie is never kept, whatever its status and
/// `Cache-Control`; nor is a response whose status is not 2xx, nor one whose
/// `Cache-Control` says `no-store` or `private` in any letter case.
pub proof fn law_never_cacheable(status: u16, has_set_cookie: bool, cache_control: Option<Seq<char>>)
    ensures
        has_set_cookie ==> !cacheable(status, has_set_cookie, cache_control),
        !(200 <= status <= 299) ==> !cacheable(status, has_set_cookie, cache_control),
        cache_control matches Some(cc) && (contains_lowered(cc, no_store()) || contains_lowered(
            cc,
            private(),
        )) ==> !cacheable(status, has_set_cookie, cache_control),
{
}

/// A response that sets a cookie goes back to the client as it is and is
/// never written to the store.
pub proof fn law_cookie_responses_are_returned_as_is(
    key: String,
    status: u16,
    headers: Vec<(String, Vec<u8>)>,
    cache_control: Option<String>,
    sized: bool,
    next: CachePhase,
    action: CacheAction,
)
    requires
        cache_step_ok(
            CachePhase::Calling { key },
            CacheEvent::Responded { status, headers, has_set_cookie: true, cache_control, sized },
            next,
            action,
        ),
    ensures
        action is ReturnAsIs,
        next is Done,
{
}

} // verus!
