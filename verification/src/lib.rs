//! Brokering of an OAuth2 authorization-code login with PKCE, a session record
//! that holds the resulting bearer token, and a two-phase preview and commit
//! migration of a tenant's Auth configuration, with every decision verified.
pub mod handlers;
pub mod history;
pub mod json;
pub mod models;
pub mod session;
pub mod text;
pub mod upstream;
