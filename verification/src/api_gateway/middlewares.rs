use std::rc::Rc;

use vstd::prelude::*;

use crate::common::telemetry::{ERROR_KIND_LOGIC, ERROR_KIND_SYSTEM};
use crate::ids::{is_uuid_v4_text, new_uuid_v4};
use crate::text::concat3;

verus! {

/// User data taken from a token introspection.
#[derive(Debug, Clone)]
pub struct AuthenticatedUser {
    pub user_id: String,
    pub email: Option<String>,
    pub name: Option<String>,
    pub roles: Vec<String>,
}

impl AuthenticatedUser {
    /// The user described by an introspection answer; `project_roles` holds
    /// the role names of the project roles map when it is present.
    pub fn from_introspection(
        user_id: String,
        email: Option<String>,
        name: Option<String>,
        project_roles: Option<Vec<String>>,
    ) -> (u: Self)
        ensures
            u.user_id == user_id,
            u.email == email,
            u.name == name,
            project_roles matches Some(r) ==> u.roles == r,
            project_roles is None ==> u.roles@.len() == 0,
    {
        let roles = match project_roles {
            Some(r) => r,
            None => Vec::new(),
        };
        AuthenticatedUser { user_id, email, name, roles }
    }
}

/// Request ID header name.
pub const REQUEST_ID_HEADER: &'static str = "X-Request-Id";

/// Request ID stored in the request extensions for handlers.
#[derive(Debug, Clone)]
pub struct RequestIdExt(pub String);

/// Middleware that gives every request an ID, echoed in the response.
pub struct RequestId;

impl RequestId {
    /// The ID of a request: the one it arrived with when its header value is
    /// visible ASCII text (`incoming`), a fresh UUID otherwise.
    pub fn resolve(incoming: Option<String>) -> (id: String)
        ensures
            incoming matches Some(s) ==> id == s,
            incoming is None ==> is_uuid_v4_text(id@),
    {
        match incoming {
            Some(s) => s,
            None => new_uuid_v4(),
        }
    }
}

/// Middleware that counts HTTP requests and errors and times them.
pub struct HttpMetrics;

/// A service wrapped by `HttpMetrics`.
pub struct HttpMetricsMiddleware<S> {
    service: Rc<S>,
}

impl HttpMetrics {
    /// Wraps `service` so that its requests are measured.
    pub fn new_transform<S>(&self, service: S) -> (m: HttpMetricsMiddleware<S>)
        ensures
            m.spec_service() == service,
    {
        HttpMetricsMiddleware { service: Rc::new(service) }
    }

    /// Label of a request's method: the HTTP method and the matched route
    /// pattern, or `unknown` when no route matched (keeps label values few).
    pub fn method_label(method: &str, pattern: Option<&str>) -> (l: String)
        ensures
            pattern matches Some(p) ==> l@ == method@ + " "@ + p@,
            pattern is None ==> l@ == "unknown"@,
    {
        match pattern {
            Some(p) => concat3(method, " ", p),
            None => "unknown".to_owned(),
        }
    }

    /// Error kind counted for a response status: `system` from 500, `logic`
    /// from 400, none below.
    pub fn error_kind(status: u16) -> (k: Option<&'static str>)
        ensures
            status >= 500 ==> (k matches Some(s) && s@ == ERROR_KIND_SYSTEM@),
            400 <= status < 500 ==> (k matches Some(s) && s@ == ERROR_KIND_LOGIC@),
            status < 400 ==> k is None,
    {
        if status >= 400 {
            if status >= 500 {
                Some(ERROR_KIND_SYSTEM)
            } else {
                Some(ERROR_KIND_LOGIC)
            }
        } else {
            None
        }
    }
}

impl<S> HttpMetricsMiddleware<S> {
    /// The wrapped service.
    pub closed spec fn spec_service(&self) -> S {
        *self.service
    }

    /// The wrapped service.
    pub fn service(&self) -> (r: &Rc<S>)
        ensures
            **r == self.spec_service(),
    {
        &self.service
    }
}

/// Level of the event logged when a request finishes.
#[derive(Debug, Clone, Copy, PartialEq, Eq, Structural)]
pub enum LogLevel {
    Info,
    Warn,
    Error,
}

/// Middleware that logs one structured event per request.
pub struct RequestLogging;

/// A service wrapped by `RequestLogging`.
pub struct RequestLoggingMiddleware<S> {
    service: Rc<S>,
}

impl RequestLogging {
    /// Wraps `service` so that its requests are logged.
    pub fn new_transform<S>(&self, service: S) -> (m: RequestLoggingMiddleware<S>)
        ensures
            m.spec_service() == service,
    {
        RequestLoggingMiddleware { service: Rc::new(service) }
    }

    /// Level of the `request_finished` event: error from 500, warning from
    /// 400, information below.
    pub fn finished_level(status: u16) -> (l: LogLevel)
        ensures
            status >= 500 ==> l == LogLevel::Error,
            400 <= status < 500 ==> l == LogLevel::Warn,
            status < 400 ==> l == LogLevel::Info,
    {
        if status >= 500 {
            LogLevel::Error
        } else if status >= 400 {
            LogLevel::Warn
        } else {
            LogLevel::Info
        }
    }
}

impl<S> RequestLoggingMiddleware<S> {
    /// The wrapped service.
    pub closed spec fn spec_service(&self) -> S {
        *self.service
    }

    /// The wrapped service.
    pub fn service(&self) -> (r: &Rc<S>)
        ensures
            **r == self.spec_service(),
    {
        &self.service
    }
}

} // verus!
