use vstd::prelude::*;

use crate::api_gateway::errors::ValidationError;
use crate::text::{concat3, contains_char, has_char, utf8_len};

verus! {

/// Minimum password length, in bytes.
pub const MIN_PASSWORD_LEN: usize = 8;

/// Checks a login request: both fields must be present.
pub fn validate_login(email: &str, password: &str) -> (r: Result<(), ValidationError>)
    ensures
        r is Ok <==> (email@.len() != 0 && password@.len() != 0),
        r matches Err(e) ==> e == ValidationError::MissingCredentials,
{
    if email.is_empty() || password.is_empty() {
        return Err(ValidationError::MissingCredentials);
    }
    Ok(())
}

/// The first problem of a registration request, checked in this order: a
/// missing field, an email without `@`, a password shorter than 8 bytes.
pub open spec fn spec_registration_problem(email: Seq<char>, password: Seq<char>, name: Seq<char>) -> Option<
    ValidationError,
> {
    if email.len() == 0 || password.len() == 0 || name.len() == 0 {
        Some(ValidationError::MissingRegistrationFields)
    } else if !has_char(email, '@') {
        Some(ValidationError::InvalidEmail)
    } else if utf8_len(password) < 8 {
        Some(ValidationError::WeakPassword { min_len: 8 })
    } else {
        None
    }
}

/// Checks a registration request.
pub fn validate_registration(email: &str, password: &str, name: &str) -> (r: Result<(), ValidationError>)
    ensures
        r is Ok <==> spec_registration_problem(email@, password@, name@) is None,
        r matches Err(e) ==> spec_registration_problem(email@, password@, name@) == Some(e),
{
    if email.is_empty() || password.is_empty() || name.is_empty() {
        return Err(ValidationError::MissingRegistrationFields);
    }
    if !contains_char(email, '@') {
        return Err(ValidationError::InvalidEmail);
    }
    if password.as_bytes().len() < MIN_PASSWORD_LEN {
        return Err(ValidationError::WeakPassword { min_len: MIN_PASSWORD_LEN });
    }
    Ok(())
}

/// Answer of the greeting endpoint `GET /{name}`.
pub fn greeting(name: &str) -> (s: String)
    ensures
        s@ == "Hi "@ + name@ + "!"@,
{
    concat3("Hi ", name, "!")
}

} // verus!
