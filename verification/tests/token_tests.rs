use pixel_astral_backend::ids::{format_id, parse_id};
use pixel_astral_backend::token::{issue_token_at, verify_token_at, TokenError};
use pixel_astral_backend::user_service::UserService;

const SECRET: &[u8] = b"SECRET-REDACTED";
const OTHER_SECRET: &[u8] = b"a-different-signing-secret";
const WEEK: u64 = 7 * 24 * 60 * 60;

#[test]
fn format_id_renders_decimal() {
    assert_eq!(format_id(0), b"0".to_vec());
    assert_eq!(format_id(7), b"7".to_vec());
    assert_eq!(format_id(1234), b"1234".to_vec());
    assert_eq!(format_id(u128::MAX), b"340282366920938463463374607431768211455".to_vec());
}

#[test]
fn parse_id_round_trips_and_rejects_junk() {
    assert_eq!(parse_id(b"0"), Some(0));
    assert_eq!(parse_id(b"1234"), Some(1234));
    assert_eq!(parse_id(&format_id(u128::MAX)), Some(u128::MAX));
    assert_eq!(parse_id(b""), None);
    assert_eq!(parse_id(b"12a4"), None);
    assert_eq!(parse_id(b"-1"), None);
    // One past the largest 128-bit value.
    assert_eq!(parse_id(b"340282366920938463463374607431768211456"), None);
    // Far past it.
    assert_eq!(parse_id(b"99999999999999999999999999999999999999999999"), None);
}

#[test]
fn issue_then_verify_returns_the_user_id() {
    let now: u64 = 1_700_000_000;
    let token = issue_token_at(42, now, WEEK, SECRET);
    assert_eq!(verify_token_at(&token, SECRET, now), Ok(42));
    assert_eq!(verify_token_at(&token, SECRET, now + WEEK - 1), Ok(42));
    let top = issue_token_at(u128::MAX, now, WEEK, SECRET);
    assert_eq!(verify_token_at(&top, SECRET, now), Ok(u128::MAX));
}

#[test]
fn verify_after_expiry_fails_with_expired() {
    let now: u64 = 1_700_000_000;
    let token = issue_token_at(42, now, WEEK, SECRET);
    assert_eq!(verify_token_at(&token, SECRET, now + WEEK), Err(TokenError::Expired));
    assert_eq!(verify_token_at(&token, SECRET, u64::MAX), Err(TokenError::Expired));
}

#[test]
fn verify_with_a_different_secret_fails_with_invalid_signature() {
    let now: u64 = 1_700_000_000;
    let token = issue_token_at(42, now, WEEK, SECRET);
    assert_eq!(
        verify_token_at(&token, OTHER_SECRET, now),
        Err(TokenError::InvalidSignature)
    );
    // A differing secret of the same length, the case the contract promises.
    let mut flipped = SECRET.to_vec();
    flipped[0] ^= 1;
    assert_eq!(
        verify_token_at(&token, &flipped, now),
        Err(TokenError::InvalidSignature)
    );
}

#[test]
fn a_zero_padded_secret_is_the_same_signing_key() {
    // The signer pads secrets with zeros up to its 64-byte block, so a
    // trailing zero byte does not change the key: this is why the
    // wrong-secret promise is restricted to secrets of equal length.
    let now: u64 = 1_700_000_000;
    let token = issue_token_at(42, now, WEEK, SECRET);
    let mut padded = SECRET.to_vec();
    padded.push(0);
    assert_eq!(verify_token_at(&token, &padded, now), Ok(42));
}

#[test]
fn verify_rejects_garbage_as_malformed() {
    assert_eq!(verify_token_at("", SECRET, 0), Err(TokenError::Malformed));
    assert_eq!(verify_token_at("not.a.token", SECRET, 0), Err(TokenError::Malformed));
    assert_eq!(
        verify_token_at("header.payload", SECRET, 0),
        Err(TokenError::Malformed)
    );
}

#[test]
fn verify_rejects_a_tampered_token() {
    let now: u64 = 1_700_000_000;
    let token = issue_token_at(42, now, WEEK, SECRET);
    let mut tampered = token.clone();
    let last = tampered.pop().unwrap();
    tampered.push(if last == 'A' { 'B' } else { 'A' });
    assert_ne!(verify_token_at(&tampered, SECRET, now), Ok(42));
}

#[test]
fn verify_rejects_a_non_numeric_subject() {
    let mut claims = serde_json::Map::new();
    claims.insert(
        "sub".to_string(),
        serde_json::Value::String("not-a-number".to_string()),
    );
    claims.insert("exp".to_string(), serde_json::Value::from(4_000_000_000u64));
    let token = jsonwebtoken::encode(
        &jsonwebtoken::Header::default(),
        &serde_json::Value::Object(claims),
        &jsonwebtoken::EncodingKey::from_secret(SECRET),
    )
    .unwrap();
    assert_eq!(verify_token_at(&token, SECRET, 0), Err(TokenError::InvalidSubject));
}

#[test]
fn verify_rejects_a_missing_expiry_as_malformed() {
    let mut claims = serde_json::Map::new();
    claims.insert("sub".to_string(), serde_json::Value::String("42".to_string()));
    let token = jsonwebtoken::encode(
        &jsonwebtoken::Header::default(),
        &serde_json::Value::Object(claims),
        &jsonwebtoken::EncodingKey::from_secret(SECRET),
    )
    .unwrap();
    assert_eq!(verify_token_at(&token, SECRET, 0), Err(TokenError::Malformed));
}

#[test]
fn generate_token_verifies_against_the_clock() {
    let token = UserService::generate_token(99, SECRET, WEEK).unwrap();
    assert_eq!(UserService::verify_token(&token, SECRET), Ok(99));
    assert_eq!(
        UserService::verify_token(&token, OTHER_SECRET),
        Err(TokenError::InvalidSignature)
    );
}
