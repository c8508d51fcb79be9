//! Authentication guard: drives parser, validator and issuer for one
//! request, maps the outcome to a success or a uniform unauthorized result,
//! and names the usage counter that the outcome earns.
//!
//! The HTTP listener itself is an external collaborator: it extracts the
//! credential header, runs the store lookup that the validator's decision
//! needs, and emits the counters; everything it decides with is here.

use vstd::prelude::*;

use crate::issuer::{create_token, jwt_of, Token, VALIDITY_SECS};
use crate::parser::{lemma_parse_case_insensitive, parse_credentials, parse_spec};
use crate::tenant::{company_of, Services};
use crate::text::lower;
use crate::validator::{lemma_validate_case_insensitive, validate_spec, validate_user, StoreLookup};
use crate::AuthError;

verus! {

/// What the guard hands back to the HTTP boundary: the signed token on
/// success, and one uniform unauthorized class otherwise. Which pipeline
/// stage failed is kept for internal counters only, never for the caller.
#[derive(Debug, PartialEq, Eq)]
pub enum GuardOutcome {
    Success(Token),
    Unauthorized(AuthError),
}

/// The authentication decision for a raw credential string and a store
/// outcome: the normalized username to issue a token for, or the pipeline
/// error. Everything up to signing is decided here.
pub open spec fn auth_decision(raw: Seq<u8>, store: StoreLookup) -> Result<Seq<u8>, AuthError> {
    match parse_spec(raw) {
        Ok(parts) => validate_spec(parts.1, parts.2, store),
        Err(e) => Err(e),
    }
}

/// Runs parser, validator and issuer over one raw credential string,
/// short-circuiting on the first failure.
///
/// The outcome follows [`auth_decision`] exactly: a decision error is
/// returned unchanged, and for an authenticated username the result is its
/// signed token, or `SigningError` if the signer refused the key material.
pub fn evaluate_credentials(
    raw: &Vec<u8>,
    service: &Services,
    store: StoreLookup,
    key_pem: &Vec<u8>,
    now_seconds: u64,
) -> (r: Result<Token, AuthError>)
    requires
        now_seconds + VALIDITY_SECS <= u64::MAX,
    ensures
        (auth_decision(raw@, store) matches Err(e) ==> r == Err::<Token, AuthError>(e)),
        (auth_decision(raw@, store) matches Ok(u) ==> ((r matches Ok(t) ==> t.0@ == jwt_of(
            u,
            company_of(*service),
            (now_seconds + VALIDITY_SECS) as u64,
            key_pem@,
        )) && (r matches Err(e) ==> e == AuthError::SigningError))),
{
    let parsed = match parse_credentials(raw) {
        Ok(c) => c,
        Err(e) => {
            return Err(e);
        },
    };
    let auth = match validate_user(&parsed.username, &parsed.password, service, store) {
        Ok(a) => a,
        Err(e) => {
            return Err(e);
        },
    };
    create_token(&auth.username, service, key_pem, now_seconds)
}

/// Guards one inbound request: an absent credential header fails immediately
/// as `Unauthenticated` with no parsing attempted; a present one runs the
/// pipeline, and every pipeline error maps to the one unauthorized class.
pub fn authorize_request(
    header: Option<&Vec<u8>>,
    service: &Services,
    store: StoreLookup,
    key_pem: &Vec<u8>,
    now_seconds: u64,
) -> (r: GuardOutcome)
    requires
        now_seconds + VALIDITY_SECS <= u64::MAX,
    ensures
        (header is None ==> r == GuardOutcome::Unauthorized(AuthError::Unauthenticated)),
        (header matches Some(h) ==> ((auth_decision(h@, store) matches Err(e) ==> r
            == GuardOutcome::Unauthorized(e)) && (auth_decision(h@, store) matches Ok(u) ==> ((
        r matches GuardOutcome::Success(t) ==> t.0@ == jwt_of(
            u,
            company_of(*service),
            (now_seconds + VALIDITY_SECS) as u64,
            key_pem@,
        )) && (r matches GuardOutcome::Unauthorized(e) ==> e == AuthError::SigningError))))),
{
    match header {
        None => GuardOutcome::Unauthorized(AuthError::Unauthenticated),
        Some(raw) => match evaluate_credentials(raw, service, store, key_pem, now_seconds) {
            Ok(t) => GuardOutcome::Success(t),
            Err(e) => GuardOutcome::Unauthorized(e),
        },
    }
}

/// The whole decision pipeline is case-insensitive: two raw credential
/// strings that agree up to ASCII case decide identically, for every store
/// outcome.
pub proof fn lemma_auth_decision_case_insensitive(r1: Seq<u8>, r2: Seq<u8>, store: StoreLookup)
    requires
        lower(r1) == lower(r2),
    ensures
        auth_decision(r1, store) == auth_decision(r2, store),
{
    lemma_parse_case_insensitive(r1, r2);
    if parse_spec(r1) is Ok && parse_spec(r2) is Ok {
        let p1 = parse_spec(r1)->Ok_0;
        let p2 = parse_spec(r2)->Ok_0;
        lemma_validate_case_insensitive(p1.1, p1.2, p2.1, p2.2, store);
    }
}

/// Names the usage counter a guard outcome earns: every success counts as
/// `requests.success`; an absent header (the only source of
/// `Unauthenticated`) counts as `requests.unauthorized`; every other
/// failure counts as `requests.failed`. `requests.total` is emitted by the
/// boundary on every invocation regardless of outcome.
pub fn metric_label(outcome: &GuardOutcome) -> (r: &'static str)
    ensures
        (outcome matches GuardOutcome::Success(_) ==> r@ == "requests.success"@),
        (outcome matches GuardOutcome::Unauthorized(e) && e == AuthError::Unauthenticated ==> r@
            == "requests.unauthorized"@),
        (outcome matches GuardOutcome::Unauthorized(e) && e != AuthError::Unauthenticated ==> r@
            == "requests.failed"@),
{
    match outcome {
        GuardOutcome::Success(_) => "requests.success",
        GuardOutcome::Unauthorized(AuthError::Unauthenticated) => "requests.unauthorized",
        GuardOutcome::Unauthorized(_) => "requests.failed",
    }
}

} // verus!
