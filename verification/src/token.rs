//! Stateless signed tokens: minting and validation.
//!
//! A token carries a subject (the user id as a decimal string) and an
//! absolute expiry, signed with a process-wide symmetric secret.  Nothing
//! is stored server-side: validity is a function of the signature and the
//! expiry at the moment of verification.  There is no revocation and no
//! refresh; a minted token stays valid for its whole lifetime.

use vstd::prelude::*;

use crate::ids::{
    format_id, lemma_digits_are_digits, lemma_parse_digits_round_trip, parse_id, spec_digits,
    spec_parse_id,
};
use crate::user_type::Claims;

verus! {

/// Why a token was rejected.
#[derive(Clone, Copy, Debug, PartialEq, Eq, Structural)]
pub enum TokenError {
    /// The signature does not verify under the given secret.
    InvalidSignature,
    /// The signature verifies but the expiry has passed.
    Expired,
    /// The token cannot be parsed into claims.
    Malformed,
    /// The claims carry a subject that is not a well-formed identifier.
    InvalidSubject,
}

/// What decoding a token under a secret yields, before any expiry or
/// subject check: the claims, a signature failure, or a parse failure.
pub enum DecodedToken {
    Claims { sub: Seq<u8>, exp: u64 },
    BadSignature,
    Malformed,
}

/// The token that signing the claims `{sub, exp}` under `secret` mints.
/// The signature scheme is deterministic, so this is a function of its
/// arguments alone.
pub uninterp spec fn token_of(sub: Seq<u8>, exp: u64, secret: Seq<u8>) -> Seq<char>;

/// What decoding `token` under `secret` yields.  Decoding checks shape
/// and signature only, so this too is a function of its arguments alone.
pub uninterp spec fn decode_of(token: Seq<char>, secret: Seq<u8>) -> DecodedToken;

/// A token minted for `user_id` with expiry `exp` under `secret`: it is
/// the signed form of those claims, and decoding it under the same
/// secret gives the claims back.
pub open spec fn issued_token(token: Seq<char>, user_id: u128, exp: u64, secret: Seq<u8>) -> bool {
    &&& token == token_of(spec_digits(user_id as nat), exp, secret)
    &&& decode_of(token, secret) == (DecodedToken::Claims {
        sub: spec_digits(user_id as nat),
        exp,
    })
}

/// How a minted token behaves under other secrets.  Decoding it under
/// any other secret either fails the signature check or still yields
/// the very claims it was minted with, never different ones (the claims
/// travel in the token itself); and for another secret of the same
/// length, up to the signer's 64-byte key block, the signature check
/// does fail.
pub open spec fn bound_to_secret(token: Seq<char>, user_id: u128, exp: u64, secret: Seq<u8>) -> bool {
    &&& forall|other: Seq<u8>|
        decode_of(token, other) == DecodedToken::BadSignature || decode_of(token, other) == (
        DecodedToken::Claims { sub: spec_digits(user_id as nat), exp })
    &&& forall|other: Seq<u8>|
        other != secret && other.len() == secret.len() && secret.len() <= 64 ==> decode_of(
            token,
            other,
        ) == DecodedToken::BadSignature
}

/// Signs the claims under the secret.
///
/// Relies on `jsonwebtoken::encode` with the default header (HS256): the
/// output is a deterministic function of claims and secret, and signing
/// with a raw symmetric secret cannot fail (the HMAC key accepts any
/// length, and serializing a string-and-integer claims object cannot
/// error).  Decoding the result with the same secret yields the same
/// claims.  Under any other secret the payload is unchanged, so decoding
/// yields either a signature failure or these exact claims; and because
/// the HMAC pads secrets up to its 64-byte block with zeros and hashes
/// longer ones first — so a secret and that secret with a trailing zero
/// byte sign alike — the signature failure is only promised for a
/// differing secret of the same length, at most 64 bytes.
#[verifier::external_body]
fn sign_claims(c: &Claims, secret: &[u8]) -> (r: String)
    requires
        forall|i: int| 0 <= i < c.sub@.len() ==> c.sub@[i] < 128,
    ensures
        r@ == token_of(c.sub@, c.exp, secret@),
        decode_of(r@, secret@) == (DecodedToken::Claims { sub: c.sub@, exp: c.exp }),
        forall|other: Seq<u8>|
            decode_of(r@, other) == DecodedToken::BadSignature || decode_of(r@, other) == (
            DecodedToken::Claims { sub: c.sub@, exp: c.exp }),
        forall|other: Seq<u8>|
            other != secret@ && other.len() == secret@.len() && secret@.len() <= 64 ==> decode_of(
                r@,
                other,
            ) == DecodedToken::BadSignature,
{
    let mut claims = serde_json::Map::new();
    let sub = String::from_utf8_lossy(c.sub.as_slice()).into_owned();
    claims.insert("sub".to_string(), serde_json::Value::String(sub));
    claims.insert("exp".to_string(), serde_json::Value::from(c.exp));
    jsonwebtoken::encode(
        &jsonwebtoken::Header::default(),
        &serde_json::Value::Object(claims),
        &jsonwebtoken::EncodingKey::from_secret(secret),
    )
    .expect("HS256 signing of string-and-integer claims cannot fail")
}

/// Decodes a token under the secret, checking shape and signature only;
/// the expiry is judged by the caller against an explicit clock reading.
///
/// Relies on `jsonwebtoken::decode` restricted to HS256 with expiry
/// validation turned off: a signature mismatch reports
/// `ErrorKind::InvalidSignature`; every other failure — a token that
/// does not parse, a header naming another algorithm, claims without a
/// string `sub` and an integer `exp`, or claims carrying an audience
/// (which this library never mints) — counts as malformed here.
#[verifier::external_body]
fn decode_token(token: &str, secret: &[u8]) -> (r: Result<Claims, TokenError>)
    ensures
        r matches Ok(c) ==> decode_of(token@, secret@) == (DecodedToken::Claims {
            sub: c.sub@,
            exp: c.exp,
        }),
        r matches Err(e) ==> e == TokenError::InvalidSignature || e == TokenError::Malformed,
        (r == Err::<Claims, TokenError>(TokenError::InvalidSignature)) == (decode_of(
            token@,
            secret@,
        ) == DecodedToken::BadSignature),
        (r == Err::<Claims, TokenError>(TokenError::Malformed)) == (decode_of(token@, secret@)
            == DecodedToken::Malformed),
{
    let mut v = jsonwebtoken::Validation::default();
    v.validate_exp = false;
    v.required_spec_claims.clear();
    let key = jsonwebtoken::DecodingKey::from_secret(secret);
    let data = jsonwebtoken::decode::<serde_json::Value>(token, &key, &v).map_err(|e| match e
        .kind() {
        jsonwebtoken::errors::ErrorKind::InvalidSignature => TokenError::InvalidSignature,
        _ => TokenError::Malformed,
    })?;
    match (data.claims.get("sub").and_then(|s| s.as_str()), data.claims.get("exp").and_then(|x| x.as_u64())) {
        (Some(sub), Some(exp)) => Ok(Claims { sub: sub.as_bytes().to_vec(), exp }),
        _ => Err(TokenError::Malformed),
    }
}

/// Reads the system clock.
///
/// Relies on `chrono::Utc::now`: seconds since the Unix epoch.  The value
/// depends on the wall clock, so nothing is promised of it.
#[verifier::external_body]
pub(crate) fn now_unix_seconds() -> i64 {
    chrono::Utc::now().timestamp()
}

/// The verdict on `token` under `secret` at time `now`: the subject's
/// identifier when the signature verifies, the expiry lies strictly in
/// the future and the subject parses; otherwise the first failure among
/// signature, shape, expiry and subject.
pub open spec fn spec_verify_token(token: Seq<char>, secret: Seq<u8>, now: u64) -> Result<
    u128,
    TokenError,
> {
    match decode_of(token, secret) {
        DecodedToken::BadSignature => Err(TokenError::InvalidSignature),
        DecodedToken::Malformed => Err(TokenError::Malformed),
        DecodedToken::Claims { sub, exp } => if exp <= now {
            Err(TokenError::Expired)
        } else {
            match spec_parse_id(sub) {
                Some(id) => Ok(id),
                None => Err(TokenError::InvalidSubject),
            }
        },
    }
}

/// Mints a token for `user_id` that expires `lifetime` seconds after
/// `now`.
pub fn issue_token_at(user_id: u128, now: u64, lifetime: u64, secret: &[u8]) -> (r: String)
    requires
        now + lifetime <= u64::MAX,
    ensures
        issued_token(r@, user_id, (now + lifetime) as u64, secret@),
        bound_to_secret(r@, user_id, (now + lifetime) as u64, secret@),
{
    let exp = now + lifetime;
    let sub = format_id(user_id);
    proof {
        lemma_digits_are_digits(user_id as nat);
    }
    sign_claims(&Claims { sub, exp }, secret)
}

/// Validates `token` under `secret` against the explicit clock reading
/// `now`, exactly as [`spec_verify_token`] says.
pub fn verify_token_at(token: &str, secret: &[u8], now: u64) -> (r: Result<u128, TokenError>)
    ensures
        r == spec_verify_token(token@, secret@, now),
{
    match decode_token(token, secret) {
        Err(e) => Err(e),
        Ok(c) => {
            if c.exp <= now {
                Err(TokenError::Expired)
            } else {
                match parse_id(c.sub.as_slice()) {
                    Some(id) => Ok(id),
                    None => Err(TokenError::InvalidSubject),
                }
            }
        },
    }
}

/// A token minted for a user verifies, before its expiry, to exactly
/// that user's identifier.
pub proof fn lemma_issue_then_verify(
    token: Seq<char>,
    user_id: u128,
    exp: u64,
    secret: Seq<u8>,
    now: u64,
)
    requires
        issued_token(token, user_id, exp, secret),
        now < exp,
    ensures
        spec_verify_token(token, secret, now) == Ok::<u128, TokenError>(user_id),
{
    lemma_parse_digits_round_trip(user_id);
}

/// Once the expiry of a minted token has passed, verification fails with
/// `Expired`, whoever the subject was.
pub proof fn lemma_verify_after_expiry(
    token: Seq<char>,
    user_id: u128,
    exp: u64,
    secret: Seq<u8>,
    now: u64,
)
    requires
        issued_token(token, user_id, exp, secret),
        exp <= now,
    ensures
        spec_verify_token(token, secret, now) == Err::<u128, TokenError>(TokenError::Expired),
{
}

/// A minted token presented under a different secret of the same length
/// (up to the signer's 64-byte key block) fails verification with
/// `InvalidSignature`, at every time.  The length restriction is the
/// signer's own: it pads shorter keys with zeros and hashes longer
/// ones, so some unequal secrets — a secret and that secret plus a
/// trailing zero byte — share a signing key.
pub proof fn lemma_verify_wrong_secret(
    token: Seq<char>,
    user_id: u128,
    exp: u64,
    secret: Seq<u8>,
    other: Seq<u8>,
    now: u64,
)
    requires
        bound_to_secret(token, user_id, exp, secret),
        other != secret,
        other.len() == secret.len(),
        secret.len() <= 64,
    ensures
        spec_verify_token(token, other, now) == Err::<u128, TokenError>(
            TokenError::InvalidSignature,
        ),
{
}

/// Under *any* secret whatsoever, a minted token never verifies to a
/// different subject: the verdict is the owner's identifier or a
/// failure, because the claims travel in the token itself and only the
/// signature check depends on the key.
pub proof fn lemma_verify_never_misidentifies(
    token: Seq<char>,
    user_id: u128,
    exp: u64,
    secret: Seq<u8>,
    other: Seq<u8>,
    now: u64,
)
    requires
        bound_to_secret(token, user_id, exp, secret),
    ensures
        spec_verify_token(token, other, now) matches Ok(id) ==> id == user_id,
{
    lemma_parse_digits_round_trip(user_id);
}

} // verus!
