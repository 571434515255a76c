use snippet_vault::error::AppError;
use snippet_vault::token::ACCESS_TOKEN_EXPIRATION_HOURS;
use snippet_vault::token::REFRESH_TOKEN_EXPIRATION_HOURS;
use snippet_vault::token::TokenClass;
use snippet_vault::token::create_token;
use snippet_vault::token::expiration_hours;
use snippet_vault::token::issue;
use snippet_vault::token::verify_token;

fn secret() -> Vec<u8> {
    b"test-signing-secret".to_vec()
}

#[test]
fn issue_then_verify_returns_same_subject() {
    let s = secret();
    let t0: i64 = 1_700_000_000;
    for class in [TokenClass::Access, TokenClass::Refresh] {
        let token = issue(&s, &"alice@example.com".to_owned(), class, t0).unwrap();
        let claims = verify_token(&s, &token, t0 + 60).unwrap();
        assert_eq!(claims.sub, "alice@example.com");
        assert_eq!(claims.iat, t0);
        assert_eq!(claims.exp, t0 + expiration_hours(class) * 3600);
    }
}

#[test]
fn access_token_verifies_just_before_expiry_and_fails_just_after() {
    let s = secret();
    let t0: i64 = 1_700_000_000;
    let lifetime = ACCESS_TOKEN_EXPIRATION_HOURS * 3600;
    let token = issue(&s, &"bob@example.com".to_owned(), TokenClass::Access, t0).unwrap();
    let ok = verify_token(&s, &token, t0 + lifetime - 1);
    assert_eq!(ok.unwrap().sub, "bob@example.com");
    let expired = verify_token(&s, &token, t0 + lifetime + 1);
    match expired {
        Err(AppError::TokenError(m)) => assert_eq!(m, "Token expired"),
        _ => panic!("a token past its expiry must fail with a token error"),
    }
}

#[test]
fn verification_rejects_garbage_and_wrong_secret() {
    let s = secret();
    let t0: i64 = 1_700_000_000;
    let garbage = "not.a.token".to_owned();
    match verify_token(&s, &garbage, t0) {
        Err(AppError::TokenError(m)) => assert_eq!(m, "Invalid token"),
        _ => panic!("a malformed token must fail with a token error"),
    }
    let token = issue(&s, &"carol@example.com".to_owned(), TokenClass::Access, t0).unwrap();
    let other = b"another-secret".to_vec();
    match verify_token(&other, &token, t0) {
        Err(AppError::TokenError(m)) => assert_eq!(m, "Invalid token"),
        _ => panic!("a token signed under another secret must fail"),
    }
}

#[test]
fn token_class_is_read_off_the_validity_window() {
    let s = secret();
    let t0: i64 = 1_700_000_000;
    let access = issue(&s, &"a@x.com".to_owned(), TokenClass::Access, t0).unwrap();
    let refresh = issue(&s, &"a@x.com".to_owned(), TokenClass::Refresh, t0).unwrap();
    let ca = verify_token(&s, &access, t0).unwrap();
    let cr = verify_token(&s, &refresh, t0).unwrap();
    assert_eq!(ca.token_class(), Some(TokenClass::Access));
    assert_eq!(cr.token_class(), Some(TokenClass::Refresh));
}

#[test]
fn create_token_uses_the_clock_and_requested_lifetime() {
    let s = secret();
    let token = create_token(&s, &"dave@example.com".to_owned(), REFRESH_TOKEN_EXPIRATION_HOURS)
        .unwrap();
    let now = chrono::Utc::now().timestamp();
    let claims = verify_token(&s, &token, now).unwrap();
    assert_eq!(claims.sub, "dave@example.com");
    assert_eq!(claims.exp - claims.iat, REFRESH_TOKEN_EXPIRATION_HOURS * 3600);
    assert!((claims.iat - now).abs() < 60);
}

#[test]
fn issuance_is_deterministic_for_fixed_inputs() {
    let s = secret();
    let t0: i64 = 1_700_000_000;
    let first = issue(&s, &"erin@example.com".to_owned(), TokenClass::Access, t0).unwrap();
    let second = issue(&s, &"erin@example.com".to_owned(), TokenClass::Access, t0).unwrap();
    assert_eq!(first, second);
    let refresh = issue(&s, &"erin@example.com".to_owned(), TokenClass::Refresh, t0).unwrap();
    assert_ne!(first, refresh);
}

#[test]
fn issuance_fails_exactly_on_expiry_overflow() {
    let s = secret();
    match issue(&s, &"erin@example.com".to_owned(), TokenClass::Access, i64::MAX - 1) {
        Err(AppError::TokenError(m)) => assert_eq!(m, "Token lifetime overflow"),
        _ => panic!("an expiry past the timestamp range must fail"),
    }
    assert!(issue(&s, &"erin@example.com".to_owned(), TokenClass::Access, 0).is_ok());
}

#[test]
fn lifetimes_are_twelve_hours_and_one_week() {
    assert_eq!(ACCESS_TOKEN_EXPIRATION_HOURS, 12);
    assert_eq!(REFRESH_TOKEN_EXPIRATION_HOURS, 168);
    assert_eq!(expiration_hours(TokenClass::Access), 12);
    assert_eq!(expiration_hours(TokenClass::Refresh), 168);
}
