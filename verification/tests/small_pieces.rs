use actixutils::middleware::constant_time::ResponseEqualizer;
use actixutils::middleware::pagination::{pagination_for, Pagination, SafePagination};
use actixutils::middleware::session::{SessionAction, SessionEvent, SessionMiddleware, SessionPhase};
use actixutils::middleware::timeout::{TimedOut, TimeoutMiddleware, TimeoutMiddlewareService};
use actixutils::session::{Session, SessionRejection, SessionStore};
use actixutils::store_keys::{framed_key, namespace_prefix};
use std::sync::Arc;

#[test]
fn equalizer_pads_to_the_minimum() {
    let e = ResponseEqualizer::new(150_000_000);
    assert_eq!(e.max_jitter_nanos, 0);
    let m = e.new_transform(());
    assert_eq!(m.padding(100_000_000), 50_000_000);
    assert_eq!(m.padding(200_000_000), 0);
    assert_eq!(m.jitter(), None);
    // errors are held as long as responses
    let held = m.hold(Err::<u8, &str>("failed"), 100_000_000);
    assert_eq!(held.outcome, Err("failed"));
    assert_eq!(held.wait_nanos, 50_000_000);
    assert_eq!(held.jitter_nanos, None);
    let held = m.hold(Ok::<u8, &str>(7), 100_000_000);
    assert_eq!((held.outcome, held.wait_nanos), (Ok(7), 50_000_000));
    let j = ResponseEqualizer::with_jitter(150_000_000, 50_000_000).new_transform(());
    let draws: Vec<u64> = (0..100).map(|_| j.jitter().unwrap()).collect();
    assert!(draws.iter().all(|&d| d <= 50_000_000));
    assert!(draws.iter().any(|&d| d != 50_000_000));
    assert!(draws.iter().any(|&d| d != draws[0]));
}

#[test]
fn pagination_defaults() {
    let d = Pagination::default();
    assert_eq!((d.page, d.limit), (0, 100));
    assert_eq!(Pagination::get(None), d);
    let p = Pagination { page: 2, limit: 25 };
    assert_eq!(Pagination::get(Some(p)), p);
    let q = SafePagination { page: Some(2), limit: Some(25) };
    assert_eq!(pagination_for(Some(q)), p);
    let half = SafePagination { page: Some(3), limit: None };
    assert_eq!(half.get(), Pagination { page: 3, limit: 100 });
    assert_eq!(pagination_for(None), d);
    let s = SafePagination::default();
    assert_eq!((s.page, s.limit), (Some(0), Some(100)));
}

#[test]
fn timeout_settles() {
    let t = TimeoutMiddleware::new(5_000_000_000);
    let s = t.new_transform(7u8);
    assert_eq!(s.timeout_nanos, 5_000_000_000);
    assert_eq!(s.service, 7);
    assert_eq!(TimeoutMiddlewareService::<u8>::settle(Some(3)), Ok(3));
    let r: Result<u8, TimedOut> = TimeoutMiddlewareService::<u8>::settle(None);
    assert_eq!(r.unwrap_err().status(), 504);
}

#[test]
fn sessions_optional_and_required() {
    let optional = SessionMiddleware::new(Arc::new(())).cookie_name("cart_session".to_string());
    assert_eq!(optional.cookie(), "cart_session");
    let svc = optional.new_transform(());
    // no cookie: a fresh session and a cookie for it
    let (p, a) = svc.step(SessionPhase::Start, SessionEvent::Request { cookie: None });
    let id = match a {
        SessionAction::ServeFresh { id } => id,
        _ => panic!("expected a fresh session"),
    };
    let (p, a) = svc.step(p, SessionEvent::Responded { dirty: true });
    assert!(matches!(a, SessionAction::Save { id: s } if s == id));
    let (_, a) = svc.step(p, SessionEvent::Saved { result: Ok(()) });
    let cookie = match a {
        SessionAction::Respond { set_cookie: Some(c) } => c,
        _ => panic!("expected a cookie"),
    };
    assert_eq!(cookie, uuid::Uuid::from_u128(id).to_string());
    // the cookie leads back to the session
    let (p, a) = svc.step(SessionPhase::Start, SessionEvent::Request { cookie: Some(cookie) });
    assert!(matches!(a, SessionAction::Load { id: s } if s == id));
    let (p, a) = svc.step(p, SessionEvent::Loaded { found: Ok(true) });
    assert!(matches!(a, SessionAction::Serve { id: s } if s == id));
    // read only: nothing saved, no new cookie
    let (_, a) = svc.step(p, SessionEvent::Responded { dirty: false });
    assert!(matches!(a, SessionAction::Respond { set_cookie: None }));

    let required = SessionMiddleware::required(Arc::new(()));
    assert_eq!(required.cookie(), "session");
    let rsvc = required.new_transform(());
    let (_, a) = rsvc.step(SessionPhase::Start, SessionEvent::Request { cookie: None });
    assert!(matches!(a, SessionAction::Reject));
    let (_, a) = rsvc.step(SessionPhase::Start, SessionEvent::Request { cookie: Some("junk".into()) });
    assert!(matches!(a, SessionAction::Reject));
    let (_, a) = rsvc.step(SessionPhase::Loading { id: 1 }, SessionEvent::Loaded { found: Ok(false) });
    assert!(matches!(a, SessionAction::Reject));
    let (_, a) = rsvc.step(SessionPhase::Loading { id: 1 }, SessionEvent::Loaded { found: Err(()) });
    assert!(matches!(a, SessionAction::Fail));
}

struct OneSession;

impl SessionStore<String> for OneSession {
    fn get(&self, session_id: &str) -> Option<String> {
        if session_id == "abc" {
            Some("alice".to_string())
        } else {
            None
        }
    }
}

#[test]
fn legacy_session_lookup() {
    let store = OneSession;
    let s: &dyn SessionStore<String> = &store;
    assert!(matches!(Session::<String>::lookup(None, Some("abc")), Err(SessionRejection::MissingStore)));
    assert!(matches!(Session::lookup(Some(s), None), Err(SessionRejection::MissingSession)));
    assert!(matches!(Session::lookup(Some(s), Some("zzz")), Err(SessionRejection::InvalidSession)));
    match Session::lookup(Some(s), Some("abc")) {
        Ok(Session(v)) => assert_eq!(v, "alice"),
        Err(_) => panic!("expected the session"),
    }
    assert_eq!(SessionRejection::MissingStore.status(), 500);
    assert_eq!(SessionRejection::InvalidSession.message(), "Invalid session");
}

#[test]
fn namespaced_keys() {
    let prefix = namespace_prefix("authnz:cache");
    assert_eq!(prefix, b"authnz:cache:".to_vec());
    assert_eq!(framed_key(&prefix, &[1, 2]), b"authnz:cache:\x01\x02".to_vec());
    let a = framed_key(&namespace_prefix("foo"), b"bar");
    let b = framed_key(&namespace_prefix("fo"), b"obar");
    assert_ne!(a, b);
}
