use url_shortener::auth::{authenticate, AuthError};
use url_shortener::jwt::{decode_jwt, encode_jwt, validate_token, TokenError};
use url_shortener::store::Store;

const NOW: i64 = 1_700_000_000;

#[test]
fn issued_token_decodes_to_its_claims() {
    let token = encode_jwt("token_secret", 42, NOW).unwrap();
    let claims = decode_jwt("token_secret", token.as_str()).unwrap();
    assert_eq!(claims.sub, "42");
    assert_eq!(claims.iat, NOW);
    assert_eq!(claims.exp, NOW + 14400);
}

#[test]
fn no_token_before_the_epoch() {
    // Decoding reads the expiry as an unsigned number, so tokens are only
    // issued for nonnegative instants.
    assert_eq!(encode_jwt("token_secret", 7, -1), None);
    assert_eq!(encode_jwt("token_secret", 7, i64::MIN), None);
}

#[test]
fn token_valid_through_expiry_instant() {
    let token = encode_jwt("token_secret", 7, NOW).unwrap();
    // Exactly at issued_at + 4h the token is still accepted: expiry is
    // strict, with no leeway window in either direction.
    let claims = validate_token("token_secret", token.as_str(), NOW + 14400).unwrap();
    assert_eq!(claims.sub, "7");
}

#[test]
fn token_expired_one_second_past_expiry() {
    let token = encode_jwt("token_secret", 7, NOW).unwrap();
    let r = validate_token("token_secret", token.as_str(), NOW + 14401);
    assert_eq!(r.unwrap_err(), TokenError::Expired);
}

#[test]
fn token_rejected_under_wrong_secret() {
    let token = encode_jwt("token_secret", 7, NOW).unwrap();
    let r = validate_token("other_secret", token.as_str(), NOW);
    assert_eq!(r.unwrap_err(), TokenError::BadSignature);
}

#[test]
fn garbage_token_malformed() {
    let r = validate_token("token_secret", "not.a.token", NOW);
    assert_eq!(r.unwrap_err(), TokenError::Malformed);
}

#[test]
fn authenticate_requires_bearer_shape() {
    let store = Store::new();
    assert_eq!(
        authenticate(&store, "token_secret", None, NOW).unwrap_err(),
        AuthError::MissingCredentials
    );
    assert_eq!(
        authenticate(&store, "token_secret", Some("Basic xyz"), NOW).unwrap_err(),
        AuthError::MissingCredentials
    );
}

#[test]
fn bearer_scheme_is_exact() {
    let store = Store::new();
    let token = encode_jwt("token_secret", 1, NOW).unwrap();
    // The scheme match is literal: a lowercase scheme or a missing space
    // is not a bearer header.
    let lower = format!("bearer {}", token);
    assert_eq!(
        authenticate(&store, "token_secret", Some(lower.as_str()), NOW).unwrap_err(),
        AuthError::MissingCredentials
    );
    assert_eq!(
        authenticate(&store, "token_secret", Some("Bearer"), NOW).unwrap_err(),
        AuthError::MissingCredentials
    );
}

#[test]
fn authenticate_rejects_tampered_token() {
    let store = Store::new();
    let token = encode_jwt("token_secret", 1, NOW).unwrap();
    let header = format!("Bearer e{}", token);
    assert_eq!(
        authenticate(&store, "token_secret", Some(header.as_str()), NOW).unwrap_err(),
        AuthError::InvalidToken
    );
}

#[test]
fn authenticate_unknown_subject_is_wrong_credentials() {
    let store = Store::new();
    let token = encode_jwt("token_secret", 999, NOW).unwrap();
    let header = format!("Bearer {}", token);
    assert_eq!(
        authenticate(&store, "token_secret", Some(header.as_str()), NOW).unwrap_err(),
        AuthError::WrongCredentials
    );
}

#[test]
fn auth_error_status_codes() {
    assert_eq!(AuthError::WrongCredentials.status_code(), 401);
    assert_eq!(AuthError::MissingCredentials.status_code(), 400);
    assert_eq!(AuthError::InvalidToken.status_code(), 403);
    assert_eq!(AuthError::TokenCreation.status_code(), 500);
    assert_eq!(AuthError::InternalError.status_code(), 500);
}
