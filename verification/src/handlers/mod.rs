//! The decisions of each endpoint.
pub mod auth;
pub mod migrate;
pub mod oauth;
