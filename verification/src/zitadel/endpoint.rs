use vstd::prelude::*;

verus! {

/// HTTP method of a Management API call.
#[derive(Debug, Clone, Copy, PartialEq, Eq, Structural)]
pub enum HttpMethod {
    Get,
    Post,
    Put,
    Delete,
}

/// A Management API call: its method and the path joined onto the authority.
#[derive(Debug, Clone)]
pub struct Endpoint {
    pub method: HttpMethod,
    pub path: String,
}

} // verus!
