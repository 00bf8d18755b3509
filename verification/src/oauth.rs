//! OAuth building blocks: scopes, tokens and client authentication.
pub mod client_auth;
pub mod scopes;
pub mod token;
