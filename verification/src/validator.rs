//! User validation: normalizes the credential pair to ASCII lower case,
//! applies the diagnostic bypass, and otherwise decides authentication from
//! the outcome of the user-store lookup that the caller performed.
//!
//! The store itself is an external collaborator; its `find_and_touch_login`
//! query is run by the caller and its outcome handed in as a [`StoreLookup`].
//! The stored password is never compared: authentication is "user exists"
//! plus the structural validation done upstream.

use vstd::prelude::*;

use crate::tenant::Services;
use crate::text::{lower, lower_byte, to_lower, bytes_eq};
use crate::AuthError;

verus! {

/// The outcome of the caller's atomic lookup-and-touch query against the
/// user store, as seen by the validator.
#[derive(Debug, Clone, Copy, PartialEq, Eq, Structural)]
pub enum StoreLookup {
    /// No store connection was available, so no query was run.
    Unavailable,
    /// A record matching the username was found and its last-login
    /// timestamp was updated.
    Found,
    /// No record matches the username.
    NotFound,
    /// The lookup-and-update query itself failed.
    Failed,
}

/// A successfully authenticated user; the username is already normalized.
#[derive(Debug, PartialEq, Eq)]
pub struct AuthenticatedUser {
    pub username: Vec<u8>,
}

/// The normalized bytes of the diagnostic bypass username, `"testuser"`.
pub open spec fn testuser_bytes() -> Seq<u8> {
    seq![116u8, 101u8, 115u8, 116u8, 117u8, 115u8, 101u8, 114u8]
}

/// The normalized bytes of the diagnostic bypass password, `"testpass"`.
pub open spec fn testpass_bytes() -> Seq<u8> {
    seq![116u8, 101u8, 115u8, 116u8, 112u8, 97u8, 115u8, 115u8]
}

/// Whether a credential pair hits the diagnostic bypass after normalization.
///
/// Security caveat: the bypass is meant for testing only, and nothing here
/// turns it off at run time. A deployment that must not honor the skeleton
/// key has to build without it; shipping it enabled is a deliberate,
/// documented hazard rather than a hidden one.
pub open spec fn bypass_spec(user: Seq<u8>, pass: Seq<u8>) -> bool {
    lower(user) == testuser_bytes() && lower(pass) == testpass_bytes()
}

/// What validation decides for a credential pair and a store outcome: the
/// bypass succeeds without the store; otherwise a found (and touched) record
/// succeeds, a missing record is `InvalidCredentials`, and a missing
/// connection or a failed query is `StoreUnavailable`. Success carries the
/// normalized username.
pub open spec fn validate_spec(user: Seq<u8>, pass: Seq<u8>, store: StoreLookup) -> Result<
    Seq<u8>,
    AuthError,
> {
    if bypass_spec(user, pass) {
        Ok(lower(user))
    } else {
        match store {
            StoreLookup::Found => Ok(lower(user)),
            StoreLookup::NotFound => Err(AuthError::InvalidCredentials),
            StoreLookup::Unavailable => Err(AuthError::StoreUnavailable),
            StoreLookup::Failed => Err(AuthError::StoreUnavailable),
        }
    }
}

/// Returns whether `v` holds exactly the bytes of `"testuser"`.
fn is_testuser(v: &Vec<u8>) -> (r: bool)
    ensures
        r <==> v@ == testuser_bytes(),
{
    let mut expected: Vec<u8> = Vec::new();
    expected.push(116);
    expected.push(101);
    expected.push(115);
    expected.push(116);
    expected.push(117);
    expected.push(115);
    expected.push(101);
    expected.push(114);
    proof {
        assert(expected@ =~= testuser_bytes());
    }
    bytes_eq(v, &expected)
}

/// Returns whether `v` holds exactly the bytes of `"testpass"`.
fn is_testpass(v: &Vec<u8>) -> (r: bool)
    ensures
        r <==> v@ == testpass_bytes(),
{
    let mut expected: Vec<u8> = Vec::new();
    expected.push(116);
    expected.push(101);
    expected.push(115);
    expected.push(116);
    expected.push(112);
    expected.push(97);
    expected.push(115);
    expected.push(115);
    proof {
        assert(expected@ =~= testpass_bytes());
    }
    bytes_eq(v, &expected)
}

/// Returns whether the credential pair hits the diagnostic bypass, so that
/// a caller can skip the store lookup exactly when validation will.
pub fn is_bypass(user: &Vec<u8>, password: &Vec<u8>) -> (r: bool)
    ensures
        r == bypass_spec(user@, password@),
{
    let u = to_lower(user);
    let p = to_lower(password);
    is_testuser(&u) && is_testpass(&p)
}

/// Authenticates a credential pair against the given store outcome.
///
/// The pair is normalized to lower case first, so validation is
/// case-insensitive. The diagnostic bypass pair succeeds for every store
/// outcome; otherwise the store outcome alone decides. The `service`
/// parameter is the seam for per-tenant user stores; no tenant-specific
/// store exists yet, so it does not influence the decision.
#[allow(unused_variables)]
pub fn validate_user(user: &Vec<u8>, password: &Vec<u8>, service: &Services, store: StoreLookup) -> (r:
    Result<AuthenticatedUser, AuthError>)
    ensures
        (r matches Ok(a) ==> validate_spec(user@, password@, store) == Ok::<_, AuthError>(
            a.username@,
        )),
        (r matches Err(e) ==> validate_spec(user@, password@, store) == Err::<Seq<u8>, _>(e)),
        bypass_spec(user@, password@) ==> r is Ok,
        !bypass_spec(user@, password@) && store == StoreLookup::NotFound ==> r == Err::<
            AuthenticatedUser,
            AuthError,
        >(AuthError::InvalidCredentials),
{
    let u = to_lower(user);
    let p = to_lower(password);
    if is_testuser(&u) && is_testpass(&p) {
        return Ok(AuthenticatedUser { username: u });
    }
    match store {
        StoreLookup::Found => Ok(AuthenticatedUser { username: u }),
        StoreLookup::NotFound => Err(AuthError::InvalidCredentials),
        StoreLookup::Unavailable => Err(AuthError::StoreUnavailable),
        StoreLookup::Failed => Err(AuthError::StoreUnavailable),
    }
}

/// ASCII lower-casing is idempotent: normalizing twice equals normalizing once.
pub proof fn lemma_lower_idempotent(s: Seq<u8>)
    ensures
        lower(lower(s)) == lower(s),
{
    assert forall|i: int| 0 <= i < s.len() implies lower(lower(s))[i] == lower(s)[i] by {
        assert(lower(s)[i] == lower_byte(s[i]));
        assert(lower(lower(s))[i] == lower_byte(lower_byte(s[i])));
    }
    assert(lower(lower(s)) =~= lower(s));
}

/// Validation is case-insensitive: two credential pairs that agree up to
/// ASCII case validate identically, for every store outcome.
pub proof fn lemma_validate_case_insensitive(
    u1: Seq<u8>,
    p1: Seq<u8>,
    u2: Seq<u8>,
    p2: Seq<u8>,
    store: StoreLookup,
)
    requires
        lower(u1) == lower(u2),
        lower(p1) == lower(p2),
    ensures
        validate_spec(u1, p1, store) == validate_spec(u2, p2, store),
{
}

/// Normalization is idempotent at the validation level: an already-normalized
/// credential pair validates exactly as the original pair does.
pub proof fn lemma_validate_normalized(u: Seq<u8>, p: Seq<u8>, store: StoreLookup)
    ensures
        validate_spec(lower(u), lower(p), store) == validate_spec(u, p, store),
{
    lemma_lower_idempotent(u);
    lemma_lower_idempotent(p);
}

/// The diagnostic bypass is independent of store availability: for a bypass
/// pair, validation succeeds with the normalized username under every store
/// outcome.
pub proof fn lemma_bypass_independent_of_store(
    u: Seq<u8>,
    p: Seq<u8>,
    s1: StoreLookup,
    s2: StoreLookup,
)
    requires
        bypass_spec(u, p),
    ensures
        validate_spec(u, p, s1) == validate_spec(u, p, s2),
        validate_spec(u, p, s1) == Ok::<Seq<u8>, AuthError>(lower(u)),
{
}

} // verus!
