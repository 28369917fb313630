use rusty_auth::hasher::{hash_password, verify_password, HashError};

#[test]
fn hash_then_verify_accepts() {
    let h = hash_password("correct horse").unwrap();
    assert!(h.starts_with("$argon2"));
    assert_eq!(verify_password("correct horse", &h), Ok(true));
}

#[test]
fn two_hashes_differ_and_both_verify() {
    let a = hash_password("pw1").unwrap();
    let b = hash_password("pw1").unwrap();
    assert_ne!(a, b);
    assert_eq!(verify_password("pw1", &a), Ok(true));
    assert_eq!(verify_password("pw1", &b), Ok(true));
}

#[test]
fn other_secret_is_rejected() {
    let h = hash_password("pw1").unwrap();
    assert_eq!(verify_password("pw2", &h), Ok(false));
}

#[test]
fn hash_is_not_the_plaintext() {
    let h = hash_password("plain").unwrap();
    assert!(!h.contains("plain"));
}

#[test]
fn malformed_hash_is_reported() {
    assert_eq!(verify_password("pw1", "not a hash"), Err(HashError::MalformedHash));
    assert_eq!(verify_password("pw1", ""), Err(HashError::MalformedHash));
}

#[test]
fn unknown_algorithm_is_unverifiable() {
    let r = verify_password("pw1", "$md5$c2FsdHNhbHQ$aGFzaGhhc2hoYXNo");
    assert_eq!(r, Err(HashError::Unverifiable));
}

#[test]
fn empty_password_hashes() {
    let h = hash_password("").unwrap();
    assert_eq!(verify_password("", &h), Ok(true));
    assert_eq!(verify_password("x", &h), Ok(false));
}
