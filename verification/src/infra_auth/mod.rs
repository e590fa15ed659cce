//! JWT claims and token issuing shared by the services.
pub mod claims;
pub mod error;
pub mod jwt_manager;

pub use claims::Claims;
pub use error::JwtError;
pub use jwt_manager::JwtManager;
