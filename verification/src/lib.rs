//! Credential-to-token issuance core.
//!
//! Given a raw authorization credential of the form `"<method> <user>:<password>"`,
//! the library parses and structurally validates it, normalizes the username and
//! password to ASCII lower case, decides authentication against the outcome of a
//! user-store lookup (with a diagnostic bypass for a fixed test credential), and
//! mints a signed, tenant-scoped identity token through an RS256 JWT signer.
//!
//! The store itself, the HTTP boundary and the metrics transport are external
//! collaborators: callers perform the lookup and hand its outcome in as a
//! [`validator::StoreLookup`] value, and perform all I/O themselves.

use vstd::prelude::*;

pub mod guard;
pub mod issuer;
pub mod parser;
pub mod tenant;
pub mod text;
pub mod validator;

verus! {

/// The error taxonomy of the authentication pipeline.
#[derive(Debug, Clone, Copy, PartialEq, Eq, Structural)]
pub enum AuthError {
    /// The credential string does not have the expected space/colon structure.
    MalformedCount,
    /// The username was not found in the user store.
    InvalidCredentials,
    /// The store connection is missing, or the lookup-and-update failed.
    StoreUnavailable,
    /// The key material was rejected or the signing operation failed.
    SigningError,
    /// The credential header was absent entirely.
    Unauthenticated,
}

} // verus!
