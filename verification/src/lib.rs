//! Verified core of the PIM services: configuration, request validation,
//! error mapping, pagination and request planning for the Zitadel
//! management API, JWT claims and telemetry decisions.
pub mod ids;
pub mod text;
pub mod infra_config;
pub mod zitadel;
pub mod gateway;
pub mod infra_auth;
pub mod auth_service;
pub mod rpc;
pub mod user_service;
pub mod common;
pub mod infra_telemetry;
pub mod api_gateway;
