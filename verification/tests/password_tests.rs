use pixel_astral_backend::password::{hash_password, verify_password};

#[test]
fn hash_then_verify_accepts_the_password() {
    let digest = hash_password("correct horse battery staple").unwrap();
    assert_eq!(verify_password("correct horse battery staple", &digest), Ok(true));
}

#[test]
fn verify_rejects_a_different_password() {
    let digest = hash_password("pw1").unwrap();
    assert_eq!(verify_password("pw2", &digest), Ok(false));
    assert_eq!(verify_password("", &digest), Ok(false));
}

#[test]
fn two_hashes_of_one_password_differ_and_both_verify() {
    let first = hash_password("pw1").unwrap();
    let second = hash_password("pw1").unwrap();
    assert_ne!(first, second);
    assert_eq!(verify_password("pw1", &first), Ok(true));
    assert_eq!(verify_password("pw1", &second), Ok(true));
}

#[test]
fn the_digest_is_not_the_password() {
    let digest = hash_password("pw1").unwrap();
    assert_ne!(digest, "pw1");
    assert_eq!(digest.len(), 60);
}

#[test]
fn verify_errors_on_a_malformed_digest() {
    assert!(verify_password("pw1", "not a digest").is_err());
    assert!(verify_password("pw1", "").is_err());
}
