use actixutils::middleware::cache::{
    cache_key, cache_step, is_cacheable, CacheAction, CacheEvent, CachePhase, CachedResponse,
};
use std::collections::HashMap;

#[test]
fn cache_key_includes_host_path_and_query_only() {
    assert_eq!(
        cache_key("example.com", "/products", Some("page=2&limit=20")),
        "example.com/products?page=2&limit=20"
    );
}

#[test]
fn cache_key_distinguishes_query_variants_and_hosts() {
    let keys = [
        cache_key("example.com", "/products", None),
        cache_key("example.com", "/products", Some("page=1")),
        cache_key("example.com", "/products", Some("page=2")),
        cache_key("api.example.com", "/products", Some("page=2")),
    ];
    for i in 0..keys.len() {
        for j in (i + 1)..keys.len() {
            assert_ne!(keys[i], keys[j], "keys must be distinct: {:?} vs {:?}", keys[i], keys[j]);
        }
    }
}

#[test]
fn cacheability_rules() {
    assert!(is_cacheable(200, false, None));
    assert!(is_cacheable(206, false, Some("max-age=60")));
    assert!(!is_cacheable(201 + 100, false, None));
    assert!(!is_cacheable(404, false, None));
    assert!(!is_cacheable(500, false, None));
    assert!(!is_cacheable(199, false, None));
    assert!(!is_cacheable(200, true, None));
    assert!(!is_cacheable(200, false, Some("no-store")));
    assert!(!is_cacheable(200, false, Some("private, max-age=60")));
    assert!(!is_cacheable(200, false, Some("Public, No-Store")));
    assert!(is_cacheable(299, false, Some("public, max-age=3600")));
}

fn request(is_get: bool, path: &str) -> CacheEvent {
    CacheEvent::Request {
        is_get,
        host: "localhost:8080".to_string(),
        path: path.to_string(),
        query: None,
    }
}

#[test]
fn miss_then_store_then_hit() {
    let (p, a) = cache_step(CachePhase::Start, request(true, "/products"));
    let key = match a {
        CacheAction::Lookup { key } => key,
        _ => panic!("expected a lookup"),
    };
    assert_eq!(key, "localhost:8080/products");
    let (p, a) = cache_step(p, CacheEvent::Looked { result: Ok(None) });
    assert!(matches!(a, CacheAction::CallService));
    let headers = vec![("x-custom".to_string(), b"value".to_vec())];
    let (p, a) = cache_step(
        p,
        CacheEvent::Responded {
            status: 206,
            headers: headers.clone(),
            has_set_cookie: false,
            cache_control: None,
            sized: true,
        },
    );
    assert!(matches!(a, CacheAction::ReadBody));
    let (p, a) = cache_step(p, CacheEvent::Buffered { body: Some(b"hello".to_vec()) });
    let stored = match a {
        CacheAction::Store { key: k, response } => {
            assert_eq!(k, "localhost:8080/products");
            response
        },
        _ => panic!("expected a store"),
    };
    assert_eq!(stored.status, 206);
    assert_eq!(stored.headers, headers);
    assert_eq!(stored.body, b"hello");
    let (p, a) = cache_step(p, CacheEvent::Stored);
    assert!(matches!(p, CachePhase::Done));
    match a {
        CacheAction::Reply { response } => assert_eq!(response.body, b"hello"),
        _ => panic!("expected a reply"),
    }
    // second request: hit
    let (p, _) = cache_step(CachePhase::Start, request(true, "/products"));
    let (p, a) = cache_step(p, CacheEvent::Looked { result: Ok(Some(stored.clone())) });
    assert!(matches!(p, CachePhase::Done));
    match a {
        CacheAction::Serve { response } => {
            assert_eq!(response.status, 206);
            assert_eq!(response.body, b"hello");
        },
        _ => panic!("expected a hit"),
    }
}

#[test]
fn uncacheable_and_streaming_responses_are_returned_as_is() {
    for (status, cookie, cc, sized) in [
        (200u16, false, Some("no-store"), true),
        (200, true, None, true),
        (500, false, None, true),
        (200, false, None, false),
    ] {
        let p = CachePhase::Calling { key: "k".to_string() };
        let (p, a) = cache_step(
            p,
            CacheEvent::Responded {
                status,
                headers: vec![],
                has_set_cookie: cookie,
                cache_control: cc.map(|c| c.to_string()),
                sized,
            },
        );
        assert!(matches!(p, CachePhase::Done));
        assert!(matches!(a, CacheAction::ReturnAsIs));
    }
}

#[test]
fn failed_lookup_and_failed_buffering() {
    let p = CachePhase::Looking { key: "k".to_string() };
    let (_, a) = cache_step(p, CacheEvent::Looked { result: Err(()) });
    assert!(matches!(a, CacheAction::CallService));
    let p = CachePhase::Buffering {
        key: "k".to_string(),
        status: 200,
        headers: vec![("a".to_string(), vec![1])],
    };
    let (p, a) = cache_step(p, CacheEvent::Buffered { body: None });
    assert!(matches!(p, CachePhase::Done));
    match a {
        CacheAction::Reply { response } => {
            assert_eq!(response.status, 200);
            assert!(response.body.is_empty());
            assert_eq!(response.headers.len(), 1);
        },
        _ => panic!("expected a reply"),
    }
    let (_, a) = cache_step(CachePhase::Done, CacheEvent::Stored);
    assert!(matches!(a, CacheAction::Unexpected));
    let c = CachedResponse::new(200, vec![], vec![9]);
    assert_eq!(c.clone().body, vec![9]);
}

/// An in-memory store whose entries expire `ttl` ticks after they were set.
struct MemoryStore {
    entries: HashMap<String, (CachedResponse, u64)>,
    ttl: u64,
    clock: u64,
}

impl MemoryStore {
    fn new() -> Self {
        MemoryStore { entries: HashMap::new(), ttl: 60, clock: 0 }
    }

    fn get(&self, key: &str) -> Option<CachedResponse> {
        match self.entries.get(key) {
            Some((r, expires)) if self.clock < *expires => Some(r.clone()),
            _ => None,
        }
    }
}

/// A handler that answers with a fixed response and counts its calls;
/// `body: None` stands for a streamed body of unknown length.
struct Handler {
    status: u16,
    headers: Vec<(String, Vec<u8>)>,
    body: Option<Vec<u8>>,
    calls: usize,
}

impl Handler {
    fn ok(body: &str) -> Self {
        Handler { status: 200, headers: vec![], body: Some(body.as_bytes().to_vec()), calls: 0 }
    }

    fn with_header(mut self, name: &str, value: &str) -> Self {
        self.headers.push((name.to_string(), value.as_bytes().to_vec()));
        self
    }
}

/// What a client receives.
struct Answer {
    status: u16,
    headers: Vec<(String, Vec<u8>)>,
    body: Vec<u8>,
}

/// Runs one request through the cache middleware's steps, doing each
/// action against `store` and `handler`.
fn run(store: &mut MemoryStore, handler: &mut Handler, is_get: bool, host: &str, uri: &str) -> Answer {
    let (path, query) = match uri.split_once('?') {
        Some((p, q)) => (p.to_string(), Some(q.to_string())),
        None => (uri.to_string(), None),
    };
    let handler_answer = |h: &Handler| Answer {
        status: h.status,
        headers: h.headers.clone(),
        body: h.body.clone().unwrap_or_else(|| b"chunk".to_vec()),
    };
    let answer_of = |r: CachedResponse| Answer { status: r.status, headers: r.headers, body: r.body };
    let (mut phase, mut action) =
        cache_step(CachePhase::Start, CacheEvent::Request { is_get, host: host.to_string(), path, query });
    loop {
        let event = match action {
            CacheAction::PassThrough => {
                handler.calls += 1;
                return handler_answer(handler);
            }
            CacheAction::Lookup { key } => CacheEvent::Looked { result: Ok(store.get(&key)) },
            CacheAction::Serve { response } => return answer_of(response),
            CacheAction::CallService => {
                handler.calls += 1;
                let find = |name: &str| {
                    handler.headers.iter().find(|(n, _)| n.eq_ignore_ascii_case(name)).map(|(_, v)| v.clone())
                };
                CacheEvent::Responded {
                    status: handler.status,
                    headers: handler.headers.clone(),
                    has_set_cookie: find("set-cookie").is_some(),
                    cache_control: find("cache-control").map(|v| String::from_utf8(v).unwrap()),
                    sized: handler.body.is_some(),
                }
            }
            CacheAction::ReturnAsIs => return handler_answer(handler),
            CacheAction::ReadBody => CacheEvent::Buffered { body: handler.body.clone() },
            CacheAction::Store { key, response } => {
                let expires = store.clock + store.ttl;
                store.entries.insert(key, (response, expires));
                CacheEvent::Stored
            }
            CacheAction::Reply { response } => return answer_of(response),
            CacheAction::Unexpected => panic!("unexpected step"),
        };
        let (next_phase, next_action) = cache_step(phase, event);
        phase = next_phase;
        action = next_action;
    }
}

const LOCAL: &str = "localhost:8080";

#[test]
fn get_miss_calls_underlying_service() {
    let (mut store, mut h) = (MemoryStore::new(), Handler::ok("hello"));
    let res = run(&mut store, &mut h, true, LOCAL, "/products");
    assert!((200..300).contains(&res.status));
    assert_eq!(h.calls, 1);
}

#[test]
fn second_identical_get_is_served_from_cache() {
    let (mut store, mut h) = (MemoryStore::new(), Handler::ok("hello"));
    run(&mut store, &mut h, true, LOCAL, "/products");
    let res2 = run(&mut store, &mut h, true, LOCAL, "/products");
    assert!((200..300).contains(&res2.status));
    assert_eq!(h.calls, 1, "second request must be served from cache");
}

#[test]
fn different_paths_produce_different_entries() {
    let (mut store, mut h) = (MemoryStore::new(), Handler::ok("hello"));
    run(&mut store, &mut h, true, LOCAL, "/a");
    run(&mut store, &mut h, true, LOCAL, "/b");
    assert_eq!(h.calls, 2);
}

#[test]
fn different_query_strings_produce_different_entries() {
    let (mut store, mut h) = (MemoryStore::new(), Handler::ok("hello"));
    run(&mut store, &mut h, true, LOCAL, "/products?page=1");
    run(&mut store, &mut h, true, LOCAL, "/products?page=2");
    // Re-request page=1: a cache hit, no new service call.
    run(&mut store, &mut h, true, LOCAL, "/products?page=1");
    assert_eq!(h.calls, 2);
}

#[test]
fn different_hosts_produce_different_entries() {
    let (mut store, mut h) = (MemoryStore::new(), Handler::ok("hello"));
    run(&mut store, &mut h, true, "example.com", "/products");
    run(&mut store, &mut h, true, "api.example.com", "/products");
    assert_eq!(h.calls, 2);
}

#[test]
fn non_get_requests_bypass_cache() {
    let (p, a) = cache_step(CachePhase::Start, request(false, "/products"));
    assert!(matches!(p, CachePhase::Done));
    assert!(matches!(a, CacheAction::PassThrough));
    let mut store = MemoryStore::new();
    let mut h = Handler { status: 201, headers: vec![], body: Some(vec![]), calls: 0 };
    run(&mut store, &mut h, false, LOCAL, "/products");
    run(&mut store, &mut h, false, LOCAL, "/products");
    assert_eq!(h.calls, 2, "POST must never be cached");
    assert!(store.entries.is_empty());
}

#[test]
fn ttl_expiration_reaches_underlying_service_again() {
    let (mut store, mut h) = (MemoryStore::new(), Handler::ok("hello"));
    run(&mut store, &mut h, true, LOCAL, "/products");
    store.clock += 60;
    run(&mut store, &mut h, true, LOCAL, "/products");
    assert_eq!(h.calls, 2, "expired entry must be refetched");
}

#[test]
fn cached_status_code_is_preserved() {
    let mut store = MemoryStore::new();
    let mut h = Handler { status: 206, headers: vec![], body: Some(vec![]), calls: 0 };
    run(&mut store, &mut h, true, LOCAL, "/partial");
    let res = run(&mut store, &mut h, true, LOCAL, "/partial");
    assert_eq!(h.calls, 1);
    assert_eq!(res.status, 206);
}

#[test]
fn cached_headers_are_preserved() {
    let mut store = MemoryStore::new();
    let mut h = Handler::ok("").with_header("x-custom", "value");
    run(&mut store, &mut h, true, LOCAL, "/products");
    let res = run(&mut store, &mut h, true, LOCAL, "/products");
    assert_eq!(h.calls, 1);
    let found = res.headers.iter().find(|(n, _)| n.eq_ignore_ascii_case("X-Custom")).map(|(_, v)| v.clone());
    assert_eq!(found, Some(b"value".to_vec()));
}

#[test]
fn cached_body_is_preserved() {
    let (mut store, mut h) = (MemoryStore::new(), Handler::ok("hello"));
    run(&mut store, &mut h, true, LOCAL, "/products");
    let res = run(&mut store, &mut h, true, LOCAL, "/products");
    assert_eq!(h.calls, 1);
    assert_eq!(res.body, b"hello");
}

#[test]
fn no_store_responses_are_not_cached() {
    let mut store = MemoryStore::new();
    let mut h = Handler::ok("secret").with_header("cache-control", "no-store");
    run(&mut store, &mut h, true, LOCAL, "/products");
    run(&mut store, &mut h, true, LOCAL, "/products");
    assert_eq!(h.calls, 2);
}

#[test]
fn private_responses_are_not_cached_by_default() {
    let mut store = MemoryStore::new();
    let mut h = Handler::ok("account data").with_header("cache-control", "private, max-age=60");
    run(&mut store, &mut h, true, LOCAL, "/account");
    run(&mut store, &mut h, true, LOCAL, "/account");
    assert_eq!(h.calls, 2);
}

#[test]
fn set_cookie_responses_are_not_cached_by_default() {
    let mut store = MemoryStore::new();
    let mut h = Handler::ok("").with_header("set-cookie", "session=abc");
    run(&mut store, &mut h, true, LOCAL, "/login-callback");
    run(&mut store, &mut h, true, LOCAL, "/login-callback");
    assert_eq!(h.calls, 2);
}

#[test]
fn unbufferable_streaming_body_is_not_cached_and_store_stays_clean() {
    let mut store = MemoryStore::new();
    let mut h = Handler { status: 200, headers: vec![], body: None, calls: 0 };
    run(&mut store, &mut h, true, LOCAL, "/stream");
    run(&mut store, &mut h, true, LOCAL, "/stream");
    // Neither request was served from cache, and nothing was written.
    assert_eq!(h.calls, 2);
    assert!(store.get("localhost:8080/stream").is_none());
}
