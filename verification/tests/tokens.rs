use vectra::auth::error::{AuthError, ErrorBody};
use vectra::auth::jwt::{issue_jwt, issue_jwt_at};
use vectra::auth::service::{
    draw_entropy, hash_refresh_token, issue_refresh_token, issue_tokens, issue_tokens_with,
    Entropy,
};
use vectra::auth::utils::generate_nonce;

const SECRET: &str = "an-access-token-secret";
const USER: u128 = 0x0123_4567_89ab_cdef_0123_4567_89ab_cdef;

fn claims(token: &str, secret: &str) -> serde_json::Value {
    let mut validation = jsonwebtoken::Validation::new(jsonwebtoken::Algorithm::HS256);
    validation.validate_exp = false;
    let key = jsonwebtoken::DecodingKey::from_secret(secret.as_bytes());
    jsonwebtoken::decode::<serde_json::Value>(token, &key, &validation).unwrap().claims
}

#[test]
fn nonce_is_32_letters_and_digits() {
    let nonce = generate_nonce();
    assert_eq!(nonce.len(), 32);
    assert!(nonce.chars().all(|c| c.is_ascii_alphanumeric()));
    assert_ne!(nonce, generate_nonce());
}

#[test]
fn access_token_carries_the_claims() {
    let token = issue_jwt_at(USER, Some(SECRET), 1_700_000_000, 42).unwrap();
    let parts: Vec<&str> = token.split('.').collect();
    assert_eq!(parts.len(), 3);
    assert_eq!(parts[0], "eyJ0eXAiOiJKV1QiLCJhbGciOiJIUzI1NiJ9");
    let claims = claims(&token, SECRET);
    assert_eq!(claims.get("sub").unwrap().as_str(), Some("01234567-89ab-cdef-0123-456789abcdef"));
    assert_eq!(claims.get("iat").unwrap().as_i64(), Some(1_700_000_000));
    assert_eq!(claims.get("exp").unwrap().as_i64(), Some(1_700_000_900));
    assert_eq!(
        claims.get("jti").unwrap().as_str(),
        Some("00000000-0000-0000-0000-00000000002a")
    );
    assert_eq!(claims.as_object().unwrap().len(), 4);
}

#[test]
fn access_token_is_a_function_of_its_inputs() {
    let token = issue_jwt_at(USER, Some(SECRET), 1_700_000_000, 42);
    assert_eq!(token, issue_jwt_at(USER, Some(SECRET), 1_700_000_000, 42));
    assert_ne!(token, issue_jwt_at(USER, Some(SECRET), 1_700_000_001, 42));
    assert_ne!(token, issue_jwt_at(USER, Some(SECRET), 1_700_000_000, 43));
    assert_ne!(token, issue_jwt_at(USER + 1, Some(SECRET), 1_700_000_000, 42));
    assert_ne!(token, issue_jwt_at(USER, Some("another secret"), 1_700_000_000, 42));
}

#[test]
fn access_token_is_signed_with_the_secret() {
    let token = issue_jwt_at(USER, Some(SECRET), 1_700_000_000, 42).unwrap();
    let validation = {
        let mut v = jsonwebtoken::Validation::new(jsonwebtoken::Algorithm::HS256);
        v.validate_exp = false;
        v
    };
    let wrong = jsonwebtoken::DecodingKey::from_secret(b"another secret");
    assert!(jsonwebtoken::decode::<serde_json::Value>(&token, &wrong, &validation).is_err());
}

#[test]
fn access_token_needs_a_secret() {
    assert_eq!(
        issue_jwt_at(USER, None, 1_700_000_000, 42),
        Err(AuthError::Internal("Missing JWT secret".to_string()))
    );
    assert_eq!(issue_jwt(USER, None), Err(AuthError::Internal("Missing JWT secret".to_string())));
}

#[test]
fn access_token_expiry_has_to_fit() {
    assert_eq!(
        issue_jwt_at(USER, Some(SECRET), i64::MAX - 899, 42),
        Err(AuthError::Internal("Token expiry out of range".to_string()))
    );
    assert!(issue_jwt_at(USER, Some(SECRET), i64::MAX - 900, 42).is_ok());
}

#[test]
fn access_token_from_the_clock() {
    let before = std::time::SystemTime::now()
        .duration_since(std::time::UNIX_EPOCH)
        .unwrap()
        .as_secs() as i64;
    let first = issue_jwt(USER, Some(SECRET)).unwrap();
    let second = issue_jwt(USER, Some(SECRET)).unwrap();
    assert_ne!(first, second);
    let claims = claims(&first, SECRET);
    let iat = claims.get("iat").unwrap().as_i64().unwrap();
    assert!(iat >= before && iat <= before + 5);
    assert_eq!(claims.get("exp").unwrap().as_i64(), Some(iat + 900));
    assert_eq!(claims.get("jti").unwrap().as_str().unwrap().len(), 36);
}

#[test]
fn refresh_token_hash_is_sha256_in_hex() {
    assert_eq!(
        hash_refresh_token("abc"),
        "ba7816bf8f01cfea414140de5dae2223b00361a396177a9cb410ff61f20015ad"
    );
    assert_eq!(
        hash_refresh_token(""),
        "e3b0c44298fc1c149afbf4c8996fb92427ae41e4649b934ca495991b7852b855"
    );
}

#[test]
fn refresh_token_record_holds_the_hash_only() {
    let (raw, record) = issue_refresh_token(USER, 1_700_000_000, 0xabcdef).unwrap();
    assert_eq!(raw, "00000000-0000-0000-0000-000000abcdef");
    assert_eq!(record.user_id, USER);
    assert_eq!(record.token_hash, hash_refresh_token(&raw));
    assert_eq!(record.token_hash.len(), 64);
    assert_ne!(record.token_hash, raw);
    assert_eq!(record.created_at, 1_700_000_000);
    assert_eq!(record.expires_at, 1_700_000_000 + 30 * 24 * 60 * 60);
}

#[test]
fn refresh_token_expiry_has_to_fit() {
    assert_eq!(
        issue_refresh_token(USER, i64::MAX - 2_591_999, 1),
        Err(AuthError::Internal("Token expiry out of range".to_string()))
    );
    assert!(issue_refresh_token(USER, i64::MAX - 2_592_000, 1).is_ok());
}

#[test]
fn both_tokens_are_issued_together() {
    let entropy = Entropy { now: 1_700_000_000, token_id: 1, refresh_id: 2 };
    let issued = issue_tokens_with(USER, Some(SECRET), entropy).unwrap();
    assert_eq!(Ok(issued.access_token.clone()), issue_jwt_at(USER, Some(SECRET), entropy.now, 1));
    assert_eq!(issued.refresh_token, "00000000-0000-0000-0000-000000000002");
    assert_eq!(issued.record.token_hash, hash_refresh_token(&issued.refresh_token));
    assert_eq!(
        issue_tokens_with(USER, None, entropy),
        Err(AuthError::Internal("Missing JWT secret".to_string()))
    );
    let late = Entropy { now: i64::MAX - 1000, token_id: 1, refresh_id: 2 };
    assert_eq!(
        issue_tokens_with(USER, Some(SECRET), late),
        Err(AuthError::Internal("Token expiry out of range".to_string()))
    );
}

#[test]
fn tokens_from_the_clock_and_the_generator() {
    let first = issue_tokens(USER, Some(SECRET)).unwrap();
    let second = issue_tokens(USER, Some(SECRET)).unwrap();
    assert_ne!(first.refresh_token, second.refresh_token);
    assert_eq!(first.refresh_token.len(), 36);
    assert_eq!(first.record.token_hash, hash_refresh_token(&first.refresh_token));
    assert_eq!(first.record.expires_at, first.record.created_at + 2_592_000);
    assert!(issue_tokens(USER, None).is_err());
    let drawn = draw_entropy();
    assert_ne!(drawn.token_id, drawn.refresh_id);
    assert!(drawn.now > 1_600_000_000);
}

#[test]
fn failures_become_responses() {
    let body = |text: &str| ErrorBody { error: text.to_string() };
    assert_eq!(
        AuthError::BadRequest("Invalid URI: x".to_string()).into_response(),
        (400, body("Invalid URI: x"))
    );
    assert_eq!(
        AuthError::Unauthorized("Nonce expired".to_string()).into_response(),
        (401, body("Nonce expired"))
    );
    assert_eq!(
        AuthError::Storage("relation \"users\" does not exist".to_string()).into_response(),
        (500, body("Database error"))
    );
    assert_eq!(
        AuthError::Signing("key rejected".to_string()).into_response(),
        (500, body("Internal server error"))
    );
    assert_eq!(
        AuthError::Internal("Missing JWT secret".to_string()).into_response(),
        (500, body("Internal server error"))
    );
    assert_eq!(AuthError::BadRequest(String::new()).status_code(), 400);
    assert_eq!(AuthError::Unauthorized(String::new()).status_code(), 401);
    assert_eq!(AuthError::Storage(String::new()).status_code(), 500);
    assert_eq!(AuthError::Signing(String::new()).status_code(), 500);
    assert_eq!(AuthError::Internal(String::new()).status_code(), 500);
}
