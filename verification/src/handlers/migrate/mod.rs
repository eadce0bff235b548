//! Preview and commit of a configuration migration.
pub mod config_diff;
pub mod migrate_handler;
pub mod preview_handler;
pub mod project_list_handler;

pub use config_diff::json_diff;
pub use migrate_handler::migrate_handler;
pub use preview_handler::preview_handler;
pub use project_list_handler::project_list_handler;
