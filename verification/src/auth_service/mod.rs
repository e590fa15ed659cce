//! The authentication service: credential checks and token issuing.
pub mod config;
pub mod service;

pub use config::Settings;
pub use service::AuthServiceImpl;
