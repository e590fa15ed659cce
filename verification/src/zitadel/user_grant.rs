use vstd::prelude::*;

use crate::zitadel::pagination::PageRequest;
use crate::zitadel::project::{ListDetails, ObjectDetails};
use crate::text::concat2;
use crate::zitadel::endpoint::{Endpoint, HttpMethod};

verus! {

/// A grant of project roles to a user.
#[derive(Debug, Clone)]
pub struct UserGrant {
    pub id: String,
    pub user_id: String,
    pub project_id: String,
    pub role_keys: Vec<String>,
    pub state: Option<String>,
}

/// Body of a user grant search.
#[derive(Debug, Clone, Default)]
pub struct ListUserGrantsRequest {
    pub page: PageRequest,
    pub queries: Option<Vec<UserGrantQuery>>,
}

/// User grant search filter: by user or by project.
#[derive(Debug, Clone)]
pub enum UserGrantQuery {
    UserId { user_id: String },
    ProjectId { project_id: String },
}

/// Result of a user grant search.
#[derive(Debug, Clone)]
pub struct ListUserGrantsResponse {
    pub result: Vec<UserGrant>,
    pub details: ListDetails,
}

/// Body of a user grant creation.
#[derive(Debug, Clone)]
pub struct CreateUserGrantRequest {
    pub user_id: String,
    pub project_id: String,
    pub role_keys: Vec<String>,
}

/// Result of a user grant creation.
#[derive(Debug, Clone)]
pub struct CreateUserGrantResponse {
    pub user_grant_id: String,
    pub details: ObjectDetails,
}

/// Body of a user grant update.
#[derive(Debug, Clone)]
pub struct UpdateUserGrantRequest {
    pub role_keys: Vec<String>,
}

/// Result of a user grant update.
#[derive(Debug, Clone)]
pub struct UpdateUserGrantResponse {
    pub details: ObjectDetails,
}

/// Result of a user grant removal.
#[derive(Debug, Clone)]
pub struct RemoveUserGrantResponse {
    pub details: ObjectDetails,
}

/// `POST /management/v1/user-grants/_search`.
pub fn list_user_grants_endpoint() -> (e: Endpoint)
    ensures
        e.method == HttpMethod::Post,
        e.path@ == "/management/v1/user-grants/_search"@,
{
    Endpoint { method: HttpMethod::Post, path: "/management/v1/user-grants/_search".to_owned() }
}

/// `POST /management/v1/user-grants`.
pub fn create_user_grant_endpoint() -> (e: Endpoint)
    ensures
        e.method == HttpMethod::Post,
        e.path@ == "/management/v1/user-grants"@,
{
    Endpoint { method: HttpMethod::Post, path: "/management/v1/user-grants".to_owned() }
}

/// `PUT /management/v1/user-grants/{grant_id}`.
pub fn update_user_grant_endpoint(grant_id: &str) -> (e: Endpoint)
    ensures
        e.method == HttpMethod::Put,
        e.path@ == "/management/v1/user-grants/"@ + grant_id@,
{
    Endpoint { method: HttpMethod::Put, path: concat2("/management/v1/user-grants/", grant_id) }
}

/// `DELETE /management/v1/user-grants/{grant_id}`.
pub fn remove_user_grant_endpoint(grant_id: &str) -> (e: Endpoint)
    ensures
        e.method == HttpMethod::Delete,
        e.path@ == "/management/v1/user-grants/"@ + grant_id@,
{
    Endpoint { method: HttpMethod::Delete, path: concat2("/management/v1/user-grants/", grant_id) }
}

} // verus!
