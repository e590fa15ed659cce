//! Runtime environment, feature flags and the configuration fields shared by
//! every service.
pub mod env;
pub mod features;
pub mod loader;

pub use env::AppEnv;
pub use loader::CommonConfig;
