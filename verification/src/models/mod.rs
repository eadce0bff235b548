//! The records that the handlers exchange.
pub mod app_config;
pub mod auth_config;
pub mod migrate;
pub mod oauth;

pub use app_config::{AppConfig, AppState};
pub use oauth::{CallbackParams, OAuthSessionData, OAuthSessionDataView, TokenResponse, TokenResponseView};
