use vstd::prelude::*;

use crate::zitadel::pagination::PageRequest;
use crate::zitadel::project::{ListDetails, ObjectDetails};
use crate::text::{concat3, concat4};
use crate::zitadel::endpoint::{Endpoint, HttpMethod};

verus! {

/// A Zitadel application of a project.
#[derive(Debug, Clone)]
pub struct App {
    pub id: String,
    pub name: String,
    pub state: Option<String>,
}

/// Body of an application search.
#[derive(Debug, Clone, Default)]
pub struct ListAppsRequest {
    pub page: PageRequest,
    pub queries: Option<Vec<AppQuery>>,
}

/// Application search filter on the name.
#[derive(Debug, Clone)]
pub enum AppQuery {
    Name { name: String, method: Option<String> },
}

/// Result of an application search.
#[derive(Debug, Clone)]
pub struct ListAppsResponse {
    pub result: Vec<App>,
    pub details: ListDetails,
}

/// How an API application authenticates; `PrivateKeyJwt` is what machine
/// clients use with JWT Profile.
#[derive(Debug, Clone, Copy, PartialEq, Eq, Structural)]
pub enum ApiAuthMethodType {
    Basic,
    PrivateKeyJwt,
}

/// Body of an API application creation.
#[derive(Debug, Clone)]
pub struct CreateApiAppRequest {
    pub name: String,
    pub auth_method_type: ApiAuthMethodType,
}

/// Result of an API application creation; the client id and secret are
/// present only for `Basic` authentication.
#[derive(Debug, Clone)]
pub struct CreateApiAppResponse {
    pub app_id: String,
    pub details: ObjectDetails,
    pub client_id: Option<String>,
    pub client_secret: Option<String>,
}

/// Body of an application update.
#[derive(Debug, Clone)]
pub struct UpdateAppRequest {
    pub name: String,
}

/// Result of an application update.
#[derive(Debug, Clone)]
pub struct UpdateAppResponse {
    pub details: ObjectDetails,
}

/// `GET /management/v1/projects/{project_id}/apps/{app_id}`.
pub fn get_app_endpoint(project_id: &str, app_id: &str) -> (e: Endpoint)
    ensures
        e.method == HttpMethod::Get,
        e.path@ == "/management/v1/projects/"@ + project_id@ + "/apps/"@ + app_id@,
{
    Endpoint { method: HttpMethod::Get, path: concat4("/management/v1/projects/", project_id, "/apps/", app_id) }
}

/// `POST /management/v1/projects/{project_id}/apps/_search`.
pub fn list_apps_endpoint(project_id: &str) -> (e: Endpoint)
    ensures
        e.method == HttpMethod::Post,
        e.path@ == "/management/v1/projects/"@ + project_id@ + "/apps/_search"@,
{
    Endpoint { method: HttpMethod::Post, path: concat3("/management/v1/projects/", project_id, "/apps/_search") }
}

/// `POST /management/v1/projects/{project_id}/apps/api`.
pub fn create_api_app_endpoint(project_id: &str) -> (e: Endpoint)
    ensures
        e.method == HttpMethod::Post,
        e.path@ == "/management/v1/projects/"@ + project_id@ + "/apps/api"@,
{
    Endpoint { method: HttpMethod::Post, path: concat3("/management/v1/projects/", project_id, "/apps/api") }
}

/// `PUT /management/v1/projects/{project_id}/apps/{app_id}`.
pub fn update_app_endpoint(project_id: &str, app_id: &str) -> (e: Endpoint)
    ensures
        e.method == HttpMethod::Put,
        e.path@ == "/management/v1/projects/"@ + project_id@ + "/apps/"@ + app_id@,
{
    Endpoint { method: HttpMethod::Put, path: concat4("/management/v1/projects/", project_id, "/apps/", app_id) }
}

} // verus!
