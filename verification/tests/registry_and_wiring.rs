use actixutils::cache_registry::{plan_cache, CachePlan, CacheRegistry, CACHE_MAX_ENTRIES};
use actixutils::middleware::idempotency::Idempotency;
use actixutils::middleware::rate_limiter::RateLimiter;
use actixutils::text::same_text;
use std::sync::Arc;

#[test]
fn registry_hands_back_what_was_registered() {
    let mut reg: CacheRegistry<u32> = CacheRegistry::new();
    assert_eq!(reg.get("membership_items"), None);
    reg.insert("membership_items".to_string(), 7);
    reg.insert("groups".to_string(), 9);
    assert_eq!(reg.get("membership_items"), Some(&7));
    assert_eq!(reg.get("groups"), Some(&9));
    assert_eq!(reg.get("membership"), None);
    reg.insert("membership_items".to_string(), 8);
    assert_eq!(reg.get("membership_items"), Some(&8));
    assert_eq!(reg.get("groups"), Some(&9));
}

#[test]
fn cache_requests_are_planned_by_what_is_registered() {
    assert!(matches!(plan_cache::<u8>(None), CachePlan::BuildAndRegister));
    assert!(matches!(plan_cache::<u8>(Some(None)), CachePlan::BuildUnshared));
    assert!(matches!(plan_cache(Some(Some(5u8))), CachePlan::Share(5)));
    assert_eq!(CACHE_MAX_ENTRIES, 1000);
}

#[test]
fn text_equality() {
    assert!(same_text("abc", "abc"));
    assert!(!same_text("abc", "abd"));
    assert!(!same_text("abc", "ab"));
    assert!(same_text("", ""));
}

#[test]
fn idempotency_wraps_a_service_with_its_settings() {
    let store = Arc::new(5u8);
    let cfg = Idempotency::new(store.clone()).ttl(42).header("X-Key");
    let m = cfg.new_transform("svc");
    assert_eq!(**m.inner(), "svc");
    assert_eq!(m.config().ttl_nanos(), 42);
    assert_eq!(m.config().header_name(), "X-Key");
    assert!(Arc::ptr_eq(m.config().store(), &store));
}

#[test]
fn rate_limiter_clones_share_the_store() {
    let store = Arc::new(0u8);
    let l = RateLimiter::new(store.clone(), 3, 1_000);
    let c = l.clone();
    assert!(Arc::ptr_eq(c.store(), &store));
    let m = l.new_transform(17u32);
    assert_eq!(**m.inner(), 17);
    assert!(Arc::ptr_eq(m.limiter().store(), &store));
}
