//! Verified logic of an identity provider: OAuth scopes, tokens and flows,
//! client credentials, sessions, role-based access, notifications and
//! account rules.
pub mod codec;
pub mod crypto;
pub mod error;
pub mod oauth;
pub mod text;
pub mod models;
pub mod rbac;
pub mod policy;
pub mod session;
pub mod helpers;
pub mod routes;
pub mod middleware;
pub mod render;
pub mod cfg;
pub mod legacy;
