//! Tokens, password hashing and the request-authentication stage,
//! exercised against the real signing and hashing crates.

use bugtrack::auth::{
    create_token, extract_user_id_from_token, hash_with_salt, issue_then_validate,
    validate_token, verify_with_salt, AuthMiddleware,
};

const NOW: u64 = 1_700_000_000;
const LIFETIME: u64 = 3600;

#[test]
fn fresh_token_is_valid() {
    let token = create_token(42, NOW);
    assert!(validate_token(&token, NOW));
}

#[test]
fn token_expires_after_lifetime() {
    let token = create_token(42, NOW);
    assert!(validate_token(&token, NOW + LIFETIME - 1));
    assert!(!validate_token(&token, NOW + LIFETIME));
    assert!(!validate_token(&token, NOW + LIFETIME + 1));
}

#[test]
fn token_with_past_expiry_is_invalid() {
    // Issued long ago, read now: the expiry lies in the past.
    let token = create_token(42, NOW - 2 * LIFETIME);
    assert!(!validate_token(&token, NOW));
}

#[test]
fn issue_then_validate_matches_expiry_window() {
    assert!(issue_then_validate(7, NOW, NOW));
    assert!(issue_then_validate(7, NOW, NOW + LIFETIME - 1));
    assert!(!issue_then_validate(7, NOW, NOW + LIFETIME));
}

#[test]
fn token_subject_round_trip() {
    let user_id: u128 = 0x0123_4567_89ab_cdef_0123_4567_89ab_cdef;
    let token = create_token(user_id, NOW);
    assert_eq!(extract_user_id_from_token(&token, NOW), Some(user_id));
}

#[test]
fn expired_token_yields_no_subject() {
    let token = create_token(42, NOW);
    assert_eq!(extract_user_id_from_token(&token, NOW + LIFETIME), None);
}

#[test]
fn garbage_token_is_rejected() {
    assert!(!validate_token("not-a-token", NOW));
    assert_eq!(extract_user_id_from_token("not-a-token", NOW), None);
    let mut tampered = create_token(42, NOW);
    tampered.push('x');
    assert!(!validate_token(&tampered, NOW));
}

#[test]
fn hash_then_verify_accepts_same_password() {
    let hash = hash_with_salt("hunter2", "pepper").expect("hashing failed");
    assert!(matches!(verify_with_salt("hunter2", "pepper", &hash), Ok(true)));
}

#[test]
fn verify_rejects_wrong_password_and_wrong_salt() {
    let hash = hash_with_salt("hunter2", "pepper").expect("hashing failed");
    assert!(matches!(
        verify_with_salt("hunter3", "pepper", &hash),
        Ok(false)
    ));
    assert!(matches!(
        verify_with_salt("hunter2", "salt", &hash),
        Ok(false)
    ));
}

#[test]
fn verify_with_malformed_hash_errors() {
    assert!(verify_with_salt("hunter2", "pepper", "no-bcrypt-hash").is_err());
}

#[test]
fn authorize_accepts_bearer_token() {
    let user_id: u128 = 99;
    let token = create_token(user_id, NOW);
    let header = format!("Bearer {}", token);
    let outcome = AuthMiddleware.authorize(Some(&header), NOW);
    assert_eq!(outcome, Some(user_id));
}

#[test]
fn authorize_rejects_missing_header() {
    assert_eq!(AuthMiddleware.authorize(None, NOW), None);
}

#[test]
fn authorize_rejects_other_schemes() {
    let token = create_token(99, NOW);
    let basic = format!("Basic {}", token);
    assert_eq!(AuthMiddleware.authorize(Some(&basic), NOW), None);
    // The scheme check is exact: a lower-case prefix does not pass.
    let lower = format!("bearer {}", token);
    assert_eq!(AuthMiddleware.authorize(Some(&lower), NOW), None);
    assert_eq!(AuthMiddleware.authorize(Some(&token), NOW), None);
}

#[test]
fn authorize_rejects_expired_token() {
    let token = create_token(99, NOW);
    let header = format!("Bearer {}", token);
    assert_eq!(AuthMiddleware.authorize(Some(&header), NOW + LIFETIME), None);
}
