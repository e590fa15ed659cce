use vstd::prelude::*;

use crate::zitadel::pagination::PageRequest;
use crate::zitadel::project::{ListDetails, ObjectDetails};
use crate::text::concat3;
use crate::zitadel::endpoint::{Endpoint, HttpMethod};

verus! {

/// A role of a project.
#[derive(Debug, Clone)]
pub struct ProjectRole {
    pub key: String,
    pub display_name: String,
    pub group: String,
}

/// Body of a project role search.
#[derive(Debug, Clone, Default)]
pub struct ListProjectRolesRequest {
    pub page: PageRequest,
    pub queries: Option<Vec<ProjectRoleQuery>>,
}

/// Project role search filter on the key.
#[derive(Debug, Clone)]
pub enum ProjectRoleQuery {
    Key { key: String, method: Option<String> },
}

/// Result of a project role search.
#[derive(Debug, Clone)]
pub struct ListProjectRolesResponse {
    pub result: Vec<ProjectRole>,
    pub details: ListDetails,
}

/// Body of a role creation; an empty group means "no group".
#[derive(Debug, Clone)]
pub struct AddProjectRoleRequest {
    pub role_key: String,
    pub display_name: String,
    pub group: String,
}

/// Result of a role creation.
#[derive(Debug, Clone)]
pub struct AddProjectRoleResponse {
    pub details: ObjectDetails,
}

/// Body of a bulk role creation.
#[derive(Debug, Clone)]
pub struct BulkAddProjectRolesRequest {
    pub roles: Vec<AddProjectRoleRequest>,
}

/// Result of a bulk role creation.
#[derive(Debug, Clone)]
pub struct BulkAddProjectRolesResponse {
    pub details: ObjectDetails,
}

/// `POST /management/v1/projects/{project_id}/roles/_search`.
pub fn list_project_roles_endpoint(project_id: &str) -> (e: Endpoint)
    ensures
        e.method == HttpMethod::Post,
        e.path@ == "/management/v1/projects/"@ + project_id@ + "/roles/_search"@,
{
    Endpoint { method: HttpMethod::Post, path: concat3("/management/v1/projects/", project_id, "/roles/_search") }
}

/// `POST /management/v1/projects/{project_id}/roles`.
pub fn add_project_role_endpoint(project_id: &str) -> (e: Endpoint)
    ensures
        e.method == HttpMethod::Post,
        e.path@ == "/management/v1/projects/"@ + project_id@ + "/roles"@,
{
    Endpoint { method: HttpMethod::Post, path: concat3("/management/v1/projects/", project_id, "/roles") }
}

/// `POST /management/v1/projects/{project_id}/roles/_bulk`.
pub fn bulk_add_project_roles_endpoint(project_id: &str) -> (e: Endpoint)
    ensures
        e.method == HttpMethod::Post,
        e.path@ == "/management/v1/projects/"@ + project_id@ + "/roles/_bulk"@,
{
    Endpoint { method: HttpMethod::Post, path: concat3("/management/v1/projects/", project_id, "/roles/_bulk") }
}

} // verus!
