//! The request handlers' decisions, one module per group of routes.
pub mod oauth;
pub mod notifications;
pub mod captcha;
pub mod auth;
pub mod avatar;
pub mod security;
pub mod admin;
pub mod settings;
pub mod user;
