//! Whether a session is signed in, and signing it out.
pub mod signout_handler;
pub mod status_handler;

pub use signout_handler::signout_handler;
pub use status_handler::status_handler;
