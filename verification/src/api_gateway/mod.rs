//! The API gateway: its settings, error types and the decisions taken by
//! its middlewares.
pub mod config;
pub mod errors;
pub mod handlers;
pub mod middlewares;

pub use config::{AppConfig, AppSettings, Settings, ZitadelSettings};
pub use errors::{AppError, AuthError, UserError, ValidationError};
