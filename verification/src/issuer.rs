//! Token issuance: builds the claim set for an authenticated user and signs
//! it with the tenant's RSA private key into a compact RS256 token.
//!
//! The expiration unit is seconds since the Unix epoch throughout: a claim
//! expires a fixed validity window after the issuance instant.

use vstd::prelude::*;

use jsonwebtoken::{encode, Algorithm, EncodingKey, Header};

use crate::tenant::{company_name, company_of, Services};
use crate::text::subvec;
use crate::AuthError;

verus! {

/// How long an issued token stays valid, in seconds.
pub const VALIDITY_SECS: u64 = 3600;

/// The claim set embedded in an issued token.
#[derive(Debug, PartialEq, Eq)]
pub struct Claims {
    /// The authenticated, normalized username.
    pub sub: Vec<u8>,
    /// The resolved tenant's company identifier.
    pub company: Vec<u8>,
    /// Absolute expiration, in seconds since the Unix epoch.
    pub exp: u64,
}

/// A signed, compact token; immutable once produced.
#[derive(Debug, PartialEq, Eq)]
pub struct Token(pub String);

/// The compact RS256 token that signing produces for the given claim fields
/// and key bytes. RS256 is RSASSA-PKCS1-v1_5, a deterministic signature, and
/// the claim map is serialized with a fixed key order, so the token is a
/// function of these arguments alone.
pub uninterp spec fn jwt_of(sub: Seq<u8>, company: Seq<u8>, exp: u64, key_pem: Seq<u8>) -> Seq<
    char,
>;

/// Relies on `jsonwebtoken::encode` with `Algorithm::RS256`, and on
/// `jsonwebtoken::EncodingKey::from_rsa_pem` to convert the PEM argument into
/// the key it needs: RSASSA-PKCS1-v1_5 signing is deterministic and the claim
/// map (`serde_json::Map`) serializes its keys in a fixed order, so the
/// compact token depends on the claim fields and the key bytes alone. A
/// malformed key or a failed signing operation comes back as `SigningError`.
#[verifier::external_body]
fn sign_token(sub: &Vec<u8>, company: &Vec<u8>, exp: u64, key_pem: &Vec<u8>) -> (r: Result<
    String,
    AuthError,
>)
    ensures
        (r matches Ok(t) ==> t@ == jwt_of(sub@, company@, exp, key_pem@)),
        (r matches Err(e) ==> e == AuthError::SigningError),
{
    let mut claims = serde_json::Map::new();
    let sub_text = String::from_utf8_lossy(sub).into_owned();
    let company_text = String::from_utf8_lossy(company).into_owned();
    claims.insert("sub".to_string(), serde_json::Value::String(sub_text));
    claims.insert("company".to_string(), serde_json::Value::String(company_text));
    claims.insert("exp".to_string(), serde_json::Value::from(exp));
    let key = match EncodingKey::from_rsa_pem(key_pem) {
        Ok(k) => k,
        Err(_) => return Err(AuthError::SigningError),
    };
    match encode(&Header::new(Algorithm::RS256), &serde_json::Value::Object(claims), &key) {
        Ok(t) => Ok(t),
        Err(_) => Err(AuthError::SigningError),
    }
}

/// Builds the claim set for an authenticated user: the subject is the
/// username, the company is the tenant's identifier, and the expiration is
/// the issuance instant plus the validity window, hence strictly in the
/// future.
pub fn make_claims(username: &Vec<u8>, service: &Services, now_seconds: u64) -> (c: Claims)
    requires
        now_seconds + VALIDITY_SECS <= u64::MAX,
    ensures
        c.sub@ == username@,
        c.company@ == company_of(*service),
        c.exp == now_seconds + VALIDITY_SECS,
        c.exp > now_seconds,
{
    Claims {
        sub: subvec(username, 0, username.len()),
        company: company_name(service),
        exp: now_seconds + VALIDITY_SECS,
    }
}

/// Issues a signed token for an authenticated username under the given
/// tenant: on success the token is the RS256 compact serialization of claims
/// whose subject is the username, whose company is the tenant's identifier
/// and whose expiration lies the validity window after `now_seconds`; every
/// failure is a distinct `SigningError`, never a sentinel token value.
pub fn create_token(username: &Vec<u8>, service: &Services, key_pem: &Vec<u8>, now_seconds: u64) -> (r:
    Result<Token, AuthError>)
    requires
        now_seconds + VALIDITY_SECS <= u64::MAX,
    ensures
        (r matches Ok(t) ==> t.0@ == jwt_of(
            username@,
            company_of(*service),
            (now_seconds + VALIDITY_SECS) as u64,
            key_pem@,
        )),
        (r matches Err(e) ==> e == AuthError::SigningError),
{
    let c = make_claims(username, service, now_seconds);
    match sign_token(&c.sub, &c.company, c.exp, key_pem) {
        Ok(t) => Ok(Token(t)),
        Err(e) => Err(e),
    }
}

} // verus!
