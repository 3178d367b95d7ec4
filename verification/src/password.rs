//! One-way password hashing and verification.
//!
//! The digest embeds its own salt and work factor, so verification is a
//! pure function of the plaintext and the digest.  `digest_matches` names
//! that function, `well_formed_digest` names the digests verification
//! accepts at all; hashing promises a well-formed digest that matches the
//! plaintext it was minted from.

use vstd::prelude::*;

verus! {

/// Whether recomputing the digest's hash from `password`, with the salt
/// and cost embedded in `digest`, reproduces the digest.  This names the
/// value `bcrypt::verify` computes for a well-formed digest; it depends
/// on nothing but its two arguments.
pub uninterp spec fn digest_matches(password: Seq<char>, digest: Seq<char>) -> bool;

/// Whether `digest` has the shape verification accepts: the 60-byte
/// digest format with a version tag, an in-range cost and valid salt and
/// hash encodings.  This names the condition under which `bcrypt::verify`
/// returns a verdict rather than an error; it depends on the digest
/// alone, and every digest that hashing mints satisfies it.
pub uninterp spec fn well_formed_digest(digest: Seq<char>) -> bool;

/// The hashing backend failed; fatal for the request that needed it.
#[derive(Clone, Copy, Debug, PartialEq, Eq, Structural)]
pub struct HashError;

/// The digest under verification is not a well-formed digest string.
#[derive(Clone, Copy, Debug, PartialEq, Eq, Structural)]
pub struct VerifyError;

/// Hashes a password with a fresh random salt and the fixed work factor.
///
/// Relies on `bcrypt::hash` with `DEFAULT_COST`: it salts randomly, so two
/// calls on one password give different digests, but each digest it
/// returns is in the accepted digest format and verifies against the
/// password it was computed from (`bcrypt::verify` re-runs the same
/// computation on the same salt).  It fails only if the operating
/// system's randomness source does.
#[verifier::external_body]
pub fn hash_password(password: &str) -> (r: Result<String, HashError>)
    ensures
        r matches Ok(digest) ==> digest_matches(password@, digest@) && well_formed_digest(
            digest@,
        ),
{
    bcrypt::hash(password, bcrypt::DEFAULT_COST).map_err(|_| HashError)
}

/// Checks a password against a stored digest in constant time.  Returns
/// `Err` exactly when the digest is not a well-formed digest string.
///
/// Relies on `bcrypt::verify`: it splits the digest into cost, salt and
/// hash — failing on a malformed digest, and on nothing else — then
/// recomputes the hash from the password and compares; the outcome is a
/// function of the password and the digest alone.
#[verifier::external_body]
pub fn verify_password(password: &str, digest: &str) -> (r: Result<bool, VerifyError>)
    ensures
        r is Ok <==> well_formed_digest(digest@),
        r matches Ok(b) ==> b == digest_matches(password@, digest@),
{
    bcrypt::verify(password, digest).map_err(|_| VerifyError)
}

} // verus!
