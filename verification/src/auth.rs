//! AuthGate: validates the bearer credential carried by the `Authorization`
//! header. Every failure cause (absent header, wrong scheme, wrong token)
//! collapses into one uniform forbidden outcome, so callers never get a
//! failure-reason oracle.

use vstd::prelude::*;
use vstd::string::StringSliceAdditionalSpecFns;

use crate::wire::is_concat_of;

verus! {

/// The exact header value that authenticates a request holding secret `tok`:
/// `Bearer ` followed by the secret, byte for byte.
pub open spec fn valid_bearer(header: Seq<u8>, tok: Seq<u8>) -> bool {
    header == "Bearer ".spec_bytes() + tok
}

/// The validation outcome for an optional header value: an absent header
/// fails, a present one succeeds exactly on the valid bearer spelling.
pub open spec fn bearer_outcome(header: Option<Seq<u8>>, tok: Seq<u8>) -> bool {
    match header {
        Some(h) => valid_bearer(h, tok),
        None => false,
    }
}

/// Validates the `Authorization` header value against the configured secret.
///
/// Succeeds exactly when the header is present and equals
/// `Bearer <expected_token>`; an absent header, a different scheme, or a
/// token that differs from the secret in any byte all fail alike.
pub fn validate_token(auth_header: Option<&str>, expected_token: &str) -> (r: bool)
    ensures
        r == match auth_header {
            Some(h) => valid_bearer(h.spec_bytes(), expected_token.spec_bytes()),
            None => false,
        },
{
    match auth_header {
        None => false,
        Some(h) => is_concat_of(h.as_bytes(), "Bearer ".as_bytes(), expected_token.as_bytes()),
    }
}

/// Uniform forbidden outcome: every authentication failure surfaces as this
/// one status and message, regardless of its cause.
pub struct AuthError;

impl AuthError {
    /// The status code and body of the uniform forbidden response.
    pub fn forbidden() -> (r: (u16, &'static str))
        ensures
            r.0 == 403,
            r.1@ == "Forbidden: Invalid or missing authentication token"@,
    {
        (403, "Forbidden: Invalid or missing authentication token")
    }
}

/// AuthGate law: the one header value spelling out the configured secret
/// succeeds, and any two other values — an absent header among them — meet
/// the same failing outcome, leaving callers no failure-reason oracle.
pub proof fn auth_outcome_uniform(tok: Seq<u8>, h1: Option<Seq<u8>>, h2: Option<Seq<u8>>)
    requires
        h1 != Some("Bearer ".spec_bytes() + tok),
        h2 != Some("Bearer ".spec_bytes() + tok),
    ensures
        bearer_outcome(Some("Bearer ".spec_bytes() + tok), tok),
        !bearer_outcome(h1, tok),
        bearer_outcome(h1, tok) == bearer_outcome(h2, tok),
{
}

} // verus!
