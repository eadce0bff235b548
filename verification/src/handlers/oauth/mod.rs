//! Login through the platform: the redirect out and the callback.
pub mod callback_handler;
pub mod login_handler;

pub use callback_handler::callback_handler;
pub use login_handler::login_handler;
