use vstd::prelude::*;

use crate::api_gateway::errors::UserError;
use crate::text::str_eq;

verus! {

/// The user fields the user endpoints answer with (the creation time is
/// added when the answer is sent).
#[derive(Debug, Clone)]
pub struct UserProfile {
    pub id: String,
    pub email: String,
    pub name: String,
}

/// Users listed by `GET /api/v1/users` until the user service is wired in:
/// one placeholder user.
pub fn list_user_profiles() -> (v: Vec<UserProfile>)
    ensures
        v@.len() == 1,
        v@[0].id@ == "placeholder"@,
        v@[0].email@ == "placeholder@example.com"@,
        v@[0].name@ == "Placeholder User"@,
{
    let mut v: Vec<UserProfile> = Vec::new();
    v.push(
        UserProfile {
            id: "placeholder".to_owned(),
            email: "placeholder@example.com".to_owned(),
            name: "Placeholder User".to_owned(),
        },
    );
    v
}

/// The user answered by `GET /api/v1/users/{id}`: id `0` is not found; any
/// other id is the example user with that id.
pub fn user_profile(user_id: String) -> (r: Result<UserProfile, UserError>)
    ensures
        user_id@ == "0"@ ==> r == Err::<UserProfile, UserError>(UserError::NotFound { user_id }),
        user_id@ != "0"@ ==> (r matches Ok(u) && u.id == user_id && u.email@ == "user@example.com"@
            && u.name@ == "Example User"@),
{
    if str_eq(user_id.as_str(), "0") {
        return Err(UserError::NotFound { user_id });
    }
    Ok(UserProfile { id: user_id, email: "user@example.com".to_owned(), name: "Example User".to_owned() })
}

/// The user answered by `GET /api/v1/users/me`: the authenticated user's id,
/// email and name, absent fields being empty.
pub fn current_user_profile(user_id: String, email: Option<String>, name: Option<String>) -> (u:
    UserProfile)
    ensures
        u.id == user_id,
        email matches Some(e) ==> u.email == e,
        email is None ==> u.email@.len() == 0,
        name matches Some(n) ==> u.name == n,
        name is None ==> u.name@.len() == 0,
{
    let email = match email {
        Some(e) => e,
        None => String::new(),
    };
    let name = match name {
        Some(n) => n,
        None => String::new(),
    };
    UserProfile { id: user_id, email, name }
}

} // verus!
