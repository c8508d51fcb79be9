use piarch_token::tenant::Services;
use piarch_token::text::to_lower;
use piarch_token::validator::{validate_user, StoreLookup};
use piarch_token::AuthError;

fn b(s: &str) -> Vec<u8> {
    s.as_bytes().to_vec()
}

#[test]
fn lowercasing_is_ascii_and_idempotent() {
    let once = to_lower(&b("AlIcE-123_z"));
    assert_eq!(once, b("alice-123_z"));
    let twice = to_lower(&once);
    assert_eq!(twice, once);
}

#[test]
fn validation_is_case_insensitive() {
    let upper = validate_user(&b("Alice"), &b("Secret1"), &Services::Piarcha, StoreLookup::Found);
    let lower = validate_user(&b("alice"), &b("secret1"), &Services::Piarcha, StoreLookup::Found);
    assert_eq!(upper, lower);
    assert_eq!(upper.unwrap().username, b("alice"));
}

#[test]
fn bypass_succeeds_for_every_store_outcome() {
    for store in [
        StoreLookup::Unavailable,
        StoreLookup::Found,
        StoreLookup::NotFound,
        StoreLookup::Failed,
    ] {
        let r = validate_user(&b("testuser"), &b("testpass"), &Services::Piarcha, store);
        assert_eq!(r.unwrap().username, b("testuser"));
    }
}

#[test]
fn bypass_matches_case_insensitively() {
    let r = validate_user(&b("TestUser"), &b("TESTPASS"), &Services::Piarcha, StoreLookup::Unavailable);
    assert_eq!(r.unwrap().username, b("testuser"));
}

#[test]
fn bypass_needs_both_fields() {
    let r = validate_user(&b("testuser"), &b("wrong"), &Services::Piarcha, StoreLookup::NotFound);
    assert_eq!(r, Err(AuthError::InvalidCredentials));
}

#[test]
fn unknown_username_with_reachable_store_is_invalid_credentials() {
    let r = validate_user(&b("nobody"), &b("pw"), &Services::Piarcha, StoreLookup::NotFound);
    assert_eq!(r, Err(AuthError::InvalidCredentials));
}

#[test]
fn missing_store_connection_is_store_unavailable() {
    let r = validate_user(&b("alice"), &b("pw"), &Services::Piarcha, StoreLookup::Unavailable);
    assert_eq!(r, Err(AuthError::StoreUnavailable));
}

#[test]
fn failed_store_query_is_store_unavailable() {
    let r = validate_user(&b("alice"), &b("pw"), &Services::Piarcha, StoreLookup::Failed);
    assert_eq!(r, Err(AuthError::StoreUnavailable));
}

#[test]
fn found_record_authenticates_with_normalized_username() {
    let r = validate_user(&b("ALICE"), &b("anything"), &Services::UnusualRefugee, StoreLookup::Found);
    assert_eq!(r.unwrap().username, b("alice"));
}
