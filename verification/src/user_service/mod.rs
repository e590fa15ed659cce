//! The user service: a gRPC front for the Zitadel user API. This module
//! holds its request checks, paging rules, response mapping and the
//! translation of Zitadel users into service users.
pub mod config;
pub mod service;

pub use config::Settings;
