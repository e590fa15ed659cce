use vstd::prelude::*;

use crate::api_gateway::errors::AppError;
use crate::ids::{is_uuid_v4_text, new_uuid_v4};

verus! {

/// User domain model.
#[derive(Debug, Clone)]
pub struct User {
    pub id: String,
    pub email: String,
    pub name: String,
    pub password_hash: String,
}

/// User service: the business rules behind the user endpoints. It answers
/// from fixed example data until a user store is attached.
pub struct UserService;

impl UserService {
    pub fn new() -> UserService {
        UserService
    }

    /// Find user by ID: id `0` is unknown; any other id is the example user.
    pub fn find_by_id(&self, id: &str) -> (r: Result<Option<User>, AppError>)
        ensures
            id@ == "0"@ ==> (r matches Ok(u) && u is None),
            id@ != "0"@ ==> (r matches Ok(Some(u)) && u.id@ == id@ && u.email@ == "user@example.com"@
                && u.name@ == "Example User"@ && u.password_hash@ == "hashed"@),
    {
        if crate::text::str_eq(id, "0") {
            return Ok(None);
        }
        Ok(
            Some(
                User {
                    id: id.to_owned(),
                    email: "user@example.com".to_owned(),
                    name: "Example User".to_owned(),
                    password_hash: "hashed".to_owned(),
                },
            ),
        )
    }

    /// Find user by email: every email belongs to the example user `1`.
    pub fn find_by_email(&self, email: &str) -> (r: Result<Option<User>, AppError>)
        ensures
            r matches Ok(Some(u)) && u.id@ == "1"@ && u.email@ == email@ && u.name@ == "Example User"@
                && u.password_hash@ == "hashed"@,
    {
        Ok(
            Some(
                User {
                    id: "1".to_owned(),
                    email: email.to_owned(),
                    name: "Example User".to_owned(),
                    password_hash: "hashed".to_owned(),
                },
            ),
        )
    }

    /// Create a new user with a fresh UUID; the password is stored as given.
    pub fn create(&self, email: &str, name: &str, password: &str) -> (r: Result<User, AppError>)
        ensures
            r matches Ok(u) && is_uuid_v4_text(u.id@) && u.email@ == email@ && u.name@ == name@
                && u.password_hash@ == password@,
    {
        Ok(
            User {
                id: new_uuid_v4(),
                email: email.to_owned(),
                name: name.to_owned(),
                password_hash: password.to_owned(),
            },
        )
    }

    /// List all users: the two example users `1` and `2`.
    pub fn list(&self) -> (r: Result<Vec<User>, AppError>)
        ensures
            r matches Ok(v) && v@.len() == 2 && v@[0].id@ == "1"@ && v@[0].email@ == "user1@example.com"@
                && v@[0].name@ == "User One"@ && v@[0].password_hash@ == "hashed"@ && v@[1].id@ == "2"@
                && v@[1].email@ == "user2@example.com"@ && v@[1].name@ == "User Two"@
                && v@[1].password_hash@ == "hashed"@,
    {
        let mut v: Vec<User> = Vec::new();
        v.push(
            User {
                id: "1".to_owned(),
                email: "user1@example.com".to_owned(),
                name: "User One".to_owned(),
                password_hash: "hashed".to_owned(),
            },
        );
        v.push(
            User {
                id: "2".to_owned(),
                email: "user2@example.com".to_owned(),
                name: "User Two".to_owned(),
                password_hash: "hashed".to_owned(),
            },
        );
        Ok(v)
    }
}

impl Default for UserService {
    fn default() -> UserService {
        UserService::new()
    }
}

} // verus!
