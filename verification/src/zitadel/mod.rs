//! Client-side logic for the Zitadel Management REST API: credentials, error
//! mapping, pagination, request planning and the wire types of each endpoint.
pub mod error;

pub use error::ZitadelError;
pub mod auth;
pub mod pagination;

pub use auth::AdminCredential;
pub use pagination::{Page, PageCursor, PageRequest, PageStep};
pub mod client;

pub use client::ZitadelClient;
pub mod endpoint;
pub mod app;
pub mod project;
pub mod project_role;
pub mod user;
pub mod user_grant;
pub mod user_key;

pub use endpoint::{Endpoint, HttpMethod};
