use blog_core::errors::InternalError;
use blog_core::password::{hash_password, verify_password};

#[test]
fn hash_then_verify_round_trip() {
    let h = hash_password("password123").unwrap();
    assert_eq!(h.len(), 60);
    assert!(h.starts_with("$2b$12$"));
    assert_ne!(h, "password123");
    assert_eq!(verify_password("password123", &h), Ok(true));
    assert_eq!(verify_password("password124", &h), Ok(false));
}

#[test]
fn two_hashes_of_one_password_differ() {
    let a = hash_password("hunter22").unwrap();
    let b = hash_password("hunter22").unwrap();
    assert_ne!(a, b);
}

#[test]
fn malformed_hash_is_a_verification_failure() {
    assert_eq!(
        verify_password("password123", "not a hash"),
        Err(InternalError::VerificationFailure)
    );
    assert_eq!(
        verify_password("password123", "password123"),
        Err(InternalError::VerificationFailure)
    );
}
