use vstd::prelude::*;

use crate::zitadel::pagination::PageRequest;
use crate::zitadel::project::{ListDetails, ObjectDetails};
use crate::zitadel::endpoint::{Endpoint, HttpMethod};

verus! {

#[verifier::external_type_specification]
#[verifier::external_body]
pub struct ExJsonValue(serde_json::Value);

/// A Zitadel user; the human profile is kept as raw JSON.
#[derive(Debug, Clone)]
pub struct User {
    pub id: String,
    pub state: Option<String>,
    pub user_name: String,
    pub human: Option<serde_json::Value>,
    pub machine: Option<MachineUser>,
}

/// The machine part of a user.
#[derive(Debug, Clone)]
pub struct MachineUser {
    pub name: String,
    pub description: String,
    pub access_token_type: Option<String>,
}

/// Body of a user search.
#[derive(Debug, Clone, Default)]
pub struct ListUsersRequest {
    pub page: PageRequest,
    pub queries: Option<Vec<UserQuery>>,
}

/// User search filter: match on the user name.
#[derive(Debug, Clone)]
pub enum UserQuery {
    UserName { user_name: String, method: Option<String> },
}

/// Result of a user search.
#[derive(Debug, Clone)]
pub struct ListUsersResponse {
    pub result: Vec<User>,
    pub details: ListDetails,
}

/// Kind of access token a machine user receives.
#[derive(Debug, Clone, Copy, PartialEq, Eq, Structural)]
pub enum AccessTokenType {
    Bearer,
    Jwt,
}

/// Body of a machine user creation.
#[derive(Debug, Clone)]
pub struct CreateMachineUserRequest {
    pub user_name: String,
    pub name: String,
    pub description: String,
    pub access_token_type: AccessTokenType,
}

/// Result of a machine user creation.
#[derive(Debug, Clone)]
pub struct CreateMachineUserResponse {
    pub user_id: String,
    pub details: ObjectDetails,
}

/// `POST /management/v1/users/_search`.
pub fn list_users_endpoint() -> (e: Endpoint)
    ensures
        e.method == HttpMethod::Post,
        e.path@ == "/management/v1/users/_search"@,
{
    Endpoint { method: HttpMethod::Post, path: "/management/v1/users/_search".to_owned() }
}

/// `POST /management/v1/users/machine`.
pub fn create_machine_user_endpoint() -> (e: Endpoint)
    ensures
        e.method == HttpMethod::Post,
        e.path@ == "/management/v1/users/machine"@,
{
    Endpoint { method: HttpMethod::Post, path: "/management/v1/users/machine".to_owned() }
}

} // verus!
