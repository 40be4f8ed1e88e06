use actixutils::middleware::idempotency::{
    idem_step, keep_text_headers, CachedResponse, IdemAction, IdemEvent, IdemPhase, Idempotency,
    IdempotencyState, DEFAULT_TTL_NANOS,
};
use actixutils::middleware::rate_limiter::{record_request, LimitAction, LimitEvent, LimitPhase, RateLimiter};
use std::collections::VecDeque;
use std::sync::Arc;

#[test]
fn idempotency_builder_defaults() {
    let i = Idempotency::new(Arc::new(()));
    assert_eq!(i.ttl_nanos(), 3_600_000_000_000);
    assert_eq!(DEFAULT_TTL_NANOS, 3_600 * 1_000_000_000);
    assert_eq!(i.header_name(), "Idempotency-Key");
    let i = i.ttl(86_400_000_000_000).header("X-Key");
    assert_eq!(i.ttl_nanos(), 86_400_000_000_000);
    assert_eq!(i.header_name(), "X-Key");
}

#[test]
fn request_without_key_passes_through() {
    let (p, a) = idem_step(IdemPhase::Start, IdemEvent::Request { key: None });
    assert!(matches!(p, IdemPhase::Done));
    assert!(matches!(a, IdemAction::PassThrough));
}

#[test]
fn first_request_runs_and_is_recorded_then_replayed() {
    let key = Some("6c1b1c1e".to_string());
    let (p, a) = idem_step(IdemPhase::Start, IdemEvent::Request { key: key.clone() });
    assert!(matches!(a, IdemAction::Acquire { ref key } if key == "6c1b1c1e"));
    let (p, a) = idem_step(p, IdemEvent::Acquired { result: Ok(true) });
    assert!(matches!(a, IdemAction::CallService));
    let headers = vec![
        ("content-type".to_string(), Some("text/plain".to_string())),
        ("x-binary".to_string(), None),
    ];
    let (p, a) = idem_step(p, IdemEvent::Responded { status: 201, headers });
    assert!(matches!(a, IdemAction::ReadBody));
    let (p, a) = idem_step(p, IdemEvent::BodyRead { body: Some(b"charged".to_vec()) });
    let recorded = match a {
        IdemAction::Complete { key, response } => {
            assert_eq!(key, "6c1b1c1e");
            response
        },
        _ => panic!("expected a record"),
    };
    assert_eq!(recorded.status, 201);
    assert_eq!(recorded.headers, vec![("content-type".to_string(), "text/plain".to_string())]);
    assert_eq!(recorded.body, b"charged");
    let (p, a) = idem_step(p, IdemEvent::Recorded { ok: true });
    assert!(matches!(p, IdemPhase::Done));
    match a {
        IdemAction::Respond { status, body } => {
            assert_eq!(status, 201);
            assert_eq!(body, b"charged");
        },
        _ => panic!("expected a response"),
    }
    // retry with the same key
    let (p, _) = idem_step(IdemPhase::Start, IdemEvent::Request { key });
    let (p, a) = idem_step(p, IdemEvent::Acquired { result: Ok(false) });
    assert!(matches!(a, IdemAction::Lookup { .. }));
    let (p, a) = idem_step(
        p,
        IdemEvent::Looked { result: Ok(Some(IdempotencyState::Completed(recorded))) },
    );
    assert!(matches!(p, IdemPhase::Done));
    match a {
        IdemAction::Replay { response } => {
            assert_eq!(response.status, 201);
            assert_eq!(response.body, b"charged");
        },
        _ => panic!("expected a replay"),
    }
}

#[test]
fn running_key_conflicts_and_failures_are_500() {
    let p = IdemPhase::Looking { key: "k".to_string() };
    let (_, a) = idem_step(p, IdemEvent::Looked { result: Ok(Some(IdempotencyState::InProgress)) });
    assert!(matches!(a, IdemAction::Conflict));
    let p = IdemPhase::Looking { key: "k".to_string() };
    let (_, a) = idem_step(p, IdemEvent::Looked { result: Ok(None) });
    assert!(matches!(a, IdemAction::InternalError));
    let p = IdemPhase::Looking { key: "k".to_string() };
    let (_, a) = idem_step(p, IdemEvent::Looked { result: Err(()) });
    assert!(matches!(a, IdemAction::InternalError));
    let p = IdemPhase::Acquiring { key: "k".to_string() };
    let (_, a) = idem_step(p, IdemEvent::Acquired { result: Err(()) });
    assert!(matches!(a, IdemAction::InternalError));
    let p = IdemPhase::Reading { key: "k".to_string(), status: 200, headers: vec![] };
    let (_, a) = idem_step(p, IdemEvent::BodyRead { body: None });
    assert!(matches!(a, IdemAction::InternalError));
}

#[test]
fn failed_record_releases_the_key() {
    let p = IdemPhase::Completing { key: "k".to_string(), status: 200, body: vec![1, 2] };
    let (p, a) = idem_step(p, IdemEvent::Recorded { ok: false });
    assert!(matches!(a, IdemAction::Release { ref key } if key == "k"));
    let (p, a) = idem_step(p, IdemEvent::Released);
    assert!(matches!(p, IdemPhase::Done));
    assert!(matches!(a, IdemAction::Respond { status: 200, ref body } if body == &vec![1, 2]));
    let kept = keep_text_headers(vec![("a".into(), None), ("b".into(), Some("1".into()))]);
    assert_eq!(kept, vec![("b".to_string(), "1".to_string())]);
    let _ = CachedResponse { status: 200, headers: vec![], body: vec![] };
}

#[test]
fn sliding_window_admits_up_to_the_limit() {
    let mut h: VecDeque<u128> = VecDeque::new();
    // 3 per 10 units
    assert!(record_request(&mut h, 0, 10, 3));
    assert!(record_request(&mut h, 1, 10, 3));
    assert!(record_request(&mut h, 2, 10, 3));
    assert!(!record_request(&mut h, 3, 10, 3));
    assert_eq!(h.len(), 3);
    // at 10 the first time is exactly the window old: still counted
    assert!(!record_request(&mut h, 10, 10, 3));
    // at 11 the first time has left the window
    assert!(record_request(&mut h, 11, 10, 3));
    assert_eq!(h, VecDeque::from(vec![1, 2, 11]));
    // a zero limit admits nothing
    let mut e: VecDeque<u128> = VecDeque::new();
    assert!(!record_request(&mut e, 5, 10, 0));
    assert!(e.is_empty());
}

#[test]
fn limiter_steps() {
    let rl = RateLimiter::new(Arc::new(()), 1, 100);
    let (p, a) = rl.step(LimitPhase::Start, LimitEvent::Identified { found: false, now: 0 });
    assert!(matches!(p, LimitPhase::Done) && matches!(a, LimitAction::PassThrough));
    let (p, a) = rl.step(LimitPhase::Start, LimitEvent::Identified { found: true, now: 50 });
    assert!(matches!(a, LimitAction::Load));
    let (p, a) = rl.step(p, LimitEvent::Loaded { history: Ok(None) });
    let saved = match a {
        LimitAction::Save { history } => history,
        _ => panic!("expected a save"),
    };
    assert_eq!(saved, VecDeque::from(vec![50]));
    let (_, a) = rl.step(p, LimitEvent::Saved);
    assert!(matches!(a, LimitAction::CallService));
    let (p, _) = rl.step(LimitPhase::Start, LimitEvent::Identified { found: true, now: 60 });
    let (p, a) = rl.step(p, LimitEvent::Loaded { history: Ok(Some(saved)) });
    assert!(matches!(a, LimitAction::Save { ref history } if history == &VecDeque::from(vec![50])));
    let (_, a) = rl.step(p, LimitEvent::Saved);
    assert!(matches!(a, LimitAction::TooManyRequests));
    let (p, _) = rl.step(LimitPhase::Start, LimitEvent::Identified { found: true, now: 60 });
    let (_, a) = rl.step(p, LimitEvent::Loaded { history: Err(()) });
    assert!(matches!(a, LimitAction::Save { ref history } if history == &VecDeque::from(vec![60])));
}

#[test]
fn failed_handler_releases_its_key() {
    let p = IdemPhase::Running { key: "k".to_string() };
    let (p, a) = idem_step(p, IdemEvent::HandlerFailed);
    assert!(matches!(p, IdemPhase::Abandoning));
    assert!(matches!(a, IdemAction::Release { ref key } if key == "k"));
    let (p, a) = idem_step(p, IdemEvent::Released);
    assert!(matches!(p, IdemPhase::Done));
    assert!(matches!(a, IdemAction::HandOnError));
    let (_, a) = idem_step(IdemPhase::Start, IdemEvent::HandlerFailed);
    assert!(matches!(a, IdemAction::Unexpected));
}

#[test]
fn window_counts_earlier_admitted_requests() {
    // 3 per 10 units; a request is refused exactly when 3 earlier admitted
    // requests lie within 10 units of it
    let times = [0u128, 1, 2, 3, 5, 10, 11, 12, 12, 13, 25, 26];
    let mut h: VecDeque<u128> = VecDeque::new();
    let mut admitted: Vec<u128> = vec![];
    for &now in &times {
        let recent = admitted.iter().filter(|&&t| now - t <= 10).count();
        let ok = record_request(&mut h, now, 10, 3);
        assert_eq!(ok, recent < 3, "at {now}");
        if ok {
            admitted.push(now);
        }
    }
    assert_eq!(admitted, vec![0, 1, 2, 11, 12, 13, 25, 26]);
}
