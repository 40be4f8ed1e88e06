use actixutils::auth::{
    bearer_token, extract_step, request_token, Access, Auth, AuthRejection, ExtractStep,
    HeaderText,
};
use actixutils::claims::{role_permits, Authority, Identity, TOKEN_LIFETIME_SECS};
use actixutils::middleware::auth::{Auth as AuthLayer, AuthStep};
use actixutils::middleware::guards::authority_guard;
use actixutils::signing::Validate;
use std::sync::Arc;
use uuid::Uuid;

fn authority_with(role: u128) -> Authority {
    Authority::issued_at(Uuid::nil(), role, Uuid::nil(), vec!["svc".to_string()], 1_000)
}

#[test]
fn check_reads_bit_perm_id() {
    let a = authority_with(0b1000);
    assert!(a.check(3));
    assert!(!a.check(2));
    assert!(!a.check(4));
    assert!(authority_with(1).check(0));
    assert!(authority_with(1 << 127).check(127));
    assert!(!authority_with(u128::MAX ^ (1 << 127)).check(127));
}

#[test]
fn guard_reads_bit_perm_id() {
    assert!(role_permits(0b1000, 3));
    assert!(!role_permits(0b1000, 2));
    assert!(role_permits(1 << 127, 127));
    assert_eq!(authority_guard(&authority_with(0b1000), 3), None);
    assert_eq!(authority_guard(&authority_with(0b1000), 1), Some(403));
}

#[test]
fn check_and_guard_agree() {
    for perm in 0..128u16 {
        for role in [0u128, u128::MAX, 1 << perm, 0b1011_0110, u128::MAX ^ (1 << perm)] {
            let a = authority_with(role);
            assert_eq!(a.check(perm), role_permits(role, perm as u32));
            assert_eq!(a.check(perm), authority_guard(&a, perm as u32).is_none());
        }
    }
}

#[test]
fn issued_claims_expire_after_five_hundred_seconds() {
    let id = Identity::issued_at(Uuid::nil(), vec!["a".into()], 1_700_000_000);
    assert_eq!(id.iat, 1_700_000_000usize);
    assert_eq!(id.exp, 1_700_000_500usize);
    assert_eq!(TOKEN_LIFETIME_SECS, 500);
    let now = Identity::new(Uuid::nil(), vec![]);
    assert_eq!(now.exp, now.iat + 500);
    let clock = chrono::Utc::now().timestamp() as usize;
    assert!(now.iat <= clock && clock - now.iat < 60);
    let a = Authority::new(Uuid::nil(), 7, Uuid::nil(), vec![]);
    assert_eq!(a.exp, a.iat + 500);
    assert_eq!(a.role, 7);
}

#[test]
fn bearer_prefix_is_stripped_once() {
    assert_eq!(bearer_token("Bearer abc"), Some("abc".to_string()));
    assert_eq!(bearer_token("Bearer Bearer abc"), Some("Bearer abc".to_string()));
    assert_eq!(bearer_token("Basic abc"), None);
    assert_eq!(bearer_token("bearer abc"), None);
    assert_eq!(bearer_token("Bearer "), Some(String::new()));
}

#[test]
fn middleware_token_removes_every_bearer_and_falls_back_to_cookie() {
    let h = HeaderText::Text("Bearer abc".to_string());
    assert_eq!(request_token(&h, Some("cookie")), Some("abc".to_string()));
    let h = HeaderText::Text("Bearer xBearer y".to_string());
    assert_eq!(request_token(&h, None), Some("xy".to_string()));
    let h = HeaderText::Text("raw".to_string());
    assert_eq!(request_token(&h, None), Some("raw".to_string()));
    assert_eq!(request_token(&HeaderText::Absent, Some("c")), Some("c".to_string()));
    assert_eq!(request_token(&HeaderText::Unreadable, Some("c")), Some("c".to_string()));
    assert_eq!(request_token(&HeaderText::Absent, None), None);
    let a = Access::from_parts(&HeaderText::Absent, None);
    assert!(matches!(a, Err(AuthRejection::MissingToken)));
    let a = Access::from_parts(&HeaderText::Absent, Some("tok")).ok().unwrap();
    assert_eq!(a.token, "tok");
}

struct OnlyGood;

impl Validate<u32> for OnlyGood {
    fn validate(&self, token: &str) -> Result<u32, anyhow::Error> {
        if token == "good" {
            Ok(42)
        } else {
            Err(anyhow::Error::msg("bad token"))
        }
    }
}

#[test]
fn extractor_decides_in_order() {
    let good = OnlyGood;
    let v: &dyn Validate<u32> = &good;
    let text = |s: &str| HeaderText::Text(s.to_string());
    assert!(matches!(Auth::<u32>::extract(Some(7), None, HeaderText::Absent, None), Ok(Auth(7))));
    assert!(matches!(
        Auth::<u32>::extract(None, None, text("Bearer good"), None),
        Err(AuthRejection::MissingValidator)
    ));
    assert!(matches!(Auth::extract(None, Some(v), text("Bearer good"), None), Ok(Auth(42))));
    assert!(matches!(
        Auth::extract(None, Some(v), text("Bearer bad"), Some("good")),
        Err(AuthRejection::InvalidToken)
    ));
    assert!(matches!(
        Auth::extract(None, Some(v), HeaderText::Absent, None),
        Err(AuthRejection::MissingHeader)
    ));
    assert!(matches!(
        Auth::extract(None, Some(v), HeaderText::Unreadable, None),
        Err(AuthRejection::InvalidHeaderFormat)
    ));
    assert!(matches!(
        Auth::extract(None, Some(v), text("Token good"), None),
        Err(AuthRejection::InvalidScheme)
    ));
    assert!(matches!(
        extract_step::<u32>(None, true, text("Bearer t"), None),
        ExtractStep::Validate(t) if t == "t"
    ));
    assert!(matches!(
        extract_step::<u32>(None, true, HeaderText::Absent, Some("c")),
        ExtractStep::Validate(t) if t == "c"
    ));
    assert!(matches!(Auth::extract(None, Some(v), HeaderText::Absent, Some("good")), Ok(Auth(42))));
    assert!(matches!(Auth::extract(None, Some(v), HeaderText::Unreadable, Some("good")), Ok(Auth(42))));
    assert!(matches!(
        Auth::extract(None, Some(v), HeaderText::Absent, Some("bad")),
        Err(AuthRejection::InvalidToken)
    ));
    assert_eq!(AuthRejection::MissingValidator.status(), 500);
    assert_eq!(AuthRejection::InvalidScheme.status(), 401);
    assert_eq!(AuthRejection::InvalidScheme.message(), "Invalid auth scheme");
}

#[test]
fn middleware_keeps_existing_claims_and_validates_otherwise() {
    let layer = AuthLayer::<u32> { validator: Arc::new(OnlyGood) };
    let mw = layer.new_transform(());
    let text = |s: &str| HeaderText::Text(s.to_string());
    assert!(matches!(mw.authenticate(true, &HeaderText::Absent, None), AuthStep::Forward));
    assert!(matches!(
        mw.authenticate(false, &HeaderText::Absent, None),
        AuthStep::Reject(AuthRejection::MissingToken)
    ));
    assert!(matches!(mw.authenticate(false, &text("Bearer good"), None), AuthStep::Insert(42)));
    assert!(matches!(mw.authenticate(false, &HeaderText::Absent, Some("good")), AuthStep::Insert(42)));
    assert!(matches!(
        mw.authenticate(false, &text("Bearer nope"), Some("good")),
        AuthStep::Reject(AuthRejection::InvalidOrExpiredToken)
    ));
    assert_eq!(AuthRejection::InvalidOrExpiredToken.message(), "Invalid or expired token");
}
