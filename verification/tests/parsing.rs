use piarch_token::parser::parse_credentials;
use piarch_token::AuthError;

fn b(s: &str) -> Vec<u8> {
    s.as_bytes().to_vec()
}

#[test]
fn well_formed_credential_splits_into_three_pieces() {
    let parsed = parse_credentials(&b("Basic alice:secret1")).unwrap();
    assert_eq!(parsed.method, b("Basic"));
    assert_eq!(parsed.username, b("alice"));
    assert_eq!(parsed.password, b("secret1"));
}

#[test]
fn no_space_is_malformed() {
    assert_eq!(parse_credentials(&b("alice:secret1")), Err(AuthError::MalformedCount));
}

#[test]
fn two_spaces_is_malformed() {
    assert_eq!(parse_credentials(&b("Basic alice secret1")), Err(AuthError::MalformedCount));
}

#[test]
fn empty_string_is_malformed() {
    assert_eq!(parse_credentials(&b("")), Err(AuthError::MalformedCount));
}

#[test]
fn no_colon_after_space_is_malformed() {
    assert_eq!(parse_credentials(&b("Basic alicesecret1")), Err(AuthError::MalformedCount));
}

#[test]
fn two_colons_after_space_is_malformed() {
    assert_eq!(parse_credentials(&b("Basic alice:sec:ret1")), Err(AuthError::MalformedCount));
}

#[test]
fn colon_count_is_checked_on_the_piece_after_the_space_only() {
    // The method piece may not carry the colon: the split happens on the
    // single space first, and the second piece must then hold exactly one.
    assert_eq!(parse_credentials(&b("Ba:sic alicesecret1")), Err(AuthError::MalformedCount));
}

#[test]
fn empty_username_and_password_are_structurally_valid() {
    let parsed = parse_credentials(&b("Basic :")).unwrap();
    assert_eq!(parsed.method, b("Basic"));
    assert_eq!(parsed.username, b(""));
    assert_eq!(parsed.password, b(""));
}

#[test]
fn empty_method_is_structurally_valid() {
    let parsed = parse_credentials(&b(" u:p")).unwrap();
    assert_eq!(parsed.method, b(""));
    assert_eq!(parsed.username, b("u"));
    assert_eq!(parsed.password, b("p"));
}
