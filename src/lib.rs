//! Server-side connector for an OIDC-based multi-factor verifier: random
//! state tokens, signed request assertions, the short-lived authentication
//! context store and the begin / complete decisions of the flow.
pub mod claims;
pub mod client;
pub mod ct;
pub mod error;
pub mod flow;
pub mod jwt;
pub mod store;
pub mod token;
pub mod urls;
