//! The first HTTP gateway: its user service placeholder, authentication
//! request checks, time helpers and greeting endpoint.
pub mod handlers;
pub mod time;
pub mod user_service;
