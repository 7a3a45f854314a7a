//! Errors of the verification flow.
use vstd::prelude::*;

verus! {

/// Why a step of the flow failed. The variants are for the operator's log;
/// callers of `complete` see one rejection whichever variant caused it.
#[derive(Debug, Clone, Copy, PartialEq, Eq, Structural)]
pub enum DuoError {
    /// A configured URL could not be parsed or joined.
    BadUrl,
    /// A claim set could not be signed.
    Signing,
    /// A timestamp computation left the representable range.
    Clock,
    /// The verifier's health check reported a failure or an unexpected status.
    HealthCheck,
    /// An authorization code was empty.
    EmptyCode,
    /// The token endpoint answered with a non-success HTTP status.
    TokenStatus,
    /// The identity token did not decode, verify, or carry the expected claims.
    IdToken,
    /// The identity token names another user or carries another nonce.
    IdentityMismatch,
    /// The authentication context could not be stored.
    Storage,
    /// The combined code/state token did not have the shape `code|state`.
    MalformedToken,
    /// No live context matched the state, or it was bound to another user.
    ContextRejected,
}

} // verus!
