use vstd::prelude::*;

use crate::zitadel::pagination::PageRequest;
use crate::text::concat2;
use crate::zitadel::endpoint::{Endpoint, HttpMethod};

verus! {

/// A Zitadel project, with the fields the provisioning steps read.
#[derive(Debug, Clone)]
pub struct Project {
    pub id: String,
    pub name: String,
    pub state: Option<String>,
    pub project_role_assertion: bool,
    pub project_role_check: bool,
    pub has_project_check: bool,
}

/// Body of a project search.
#[derive(Debug, Clone, Default)]
pub struct ListProjectsRequest {
    pub page: PageRequest,
    pub queries: Option<Vec<ProjectQuery>>,
}

/// Project search filter: exact match on the name unless `method` says otherwise.
#[derive(Debug, Clone)]
pub enum ProjectQuery {
    Name { name: String, method: Option<String> },
}

/// Result of a project search.
#[derive(Debug, Clone)]
pub struct ListProjectsResponse {
    pub result: Vec<Project>,
    pub details: ListDetails,
}

/// Paging details of a search result.
#[derive(Debug, Clone, Default)]
pub struct ListDetails {
    pub total_result: String,
    pub processed_sequence: String,
    pub view_timestamp: Option<String>,
}

/// Body of a project creation.
#[derive(Debug, Clone)]
pub struct CreateProjectRequest {
    pub name: String,
    pub project_role_assertion: bool,
    pub project_role_check: bool,
    pub has_project_check: bool,
    pub private_labeling_setting: Option<String>,
}

/// Result of a project creation.
#[derive(Debug, Clone)]
pub struct CreateProjectResponse {
    pub id: String,
    pub details: ObjectDetails,
}

/// Response envelope of changes.
#[derive(Debug, Clone, Default)]
pub struct ObjectDetails {
    pub sequence: String,
    pub creation_date: Option<String>,
    pub change_date: Option<String>,
    pub resource_owner: String,
}

/// Body of a project update.
#[derive(Debug, Clone)]
pub struct UpdateProjectRequest {
    pub name: String,
    pub project_role_assertion: bool,
    pub project_role_check: bool,
    pub has_project_check: bool,
    pub private_labeling_setting: Option<String>,
}

/// Result of a project update.
#[derive(Debug, Clone)]
pub struct UpdateProjectResponse {
    pub details: ObjectDetails,
}

/// `GET /management/v1/projects/{id}`.
pub fn get_project_endpoint(id: &str) -> (e: Endpoint)
    ensures
        e.method == HttpMethod::Get,
        e.path@ == "/management/v1/projects/"@ + id@,
{
    Endpoint { method: HttpMethod::Get, path: concat2("/management/v1/projects/", id) }
}

/// `POST /management/v1/projects/_search`.
pub fn list_projects_endpoint() -> (e: Endpoint)
    ensures
        e.method == HttpMethod::Post,
        e.path@ == "/management/v1/projects/_search"@,
{
    Endpoint { method: HttpMethod::Post, path: "/management/v1/projects/_search".to_owned() }
}

/// `POST /management/v1/projects`.
pub fn create_project_endpoint() -> (e: Endpoint)
    ensures
        e.method == HttpMethod::Post,
        e.path@ == "/management/v1/projects"@,
{
    Endpoint { method: HttpMethod::Post, path: "/management/v1/projects".to_owned() }
}

/// `PUT /management/v1/projects/{id}`.
pub fn update_project_endpoint(id: &str) -> (e: Endpoint)
    ensures
        e.method == HttpMethod::Put,
        e.path@ == "/management/v1/projects/"@ + id@,
{
    Endpoint { method: HttpMethod::Put, path: concat2("/management/v1/projects/", id) }
}

} // verus!
