use vstd::prelude::*;

verus! {

/// JWT claims shared across all services: subject (user id), expiration and
/// issue times (Unix seconds) and roles.
#[derive(Debug, Clone)]
pub struct Claims {
    pub sub: String,
    pub exp: i64,
    pub iat: i64,
    pub roles: Vec<String>,
}

} // verus!
