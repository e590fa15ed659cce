use vstd::prelude::*;

use crate::text::{concat3, decimal, to_decimal};

verus! {

#[verifier::external_type_specification]
#[verifier::external_body]
pub struct ExAnyhowError(anyhow::Error);

/// Errors about users.
#[derive(Debug, Clone)]
pub enum UserError {
    NotFound { user_id: String },
}

/// Application error types; each maps to an HTTP status.
#[derive(Debug)]
pub enum AppError {
    User(UserError),
    Internal(anyhow::Error),
}

impl AppError {
    /// Short label of the error class: `user` or `internal`.
    pub fn kind(&self) -> (k: &'static str)
        ensures
            self is User ==> k@ == "user"@,
            self is Internal ==> k@ == "internal"@,
    {
        match self {
            AppError::User(_) => "user",
            AppError::Internal(_) => "internal",
        }
    }

    /// HTTP status of the error: 404 for a missing user, 500 otherwise.
    pub fn status_code(&self) -> (s: u16)
        ensures
            self is User ==> s == 404,
            self is Internal ==> s == 500,
    {
        match self {
            AppError::User(UserError::NotFound { .. }) => 404,
            AppError::Internal(_) => 500,
        }
    }
}

/// Authentication failures.
#[derive(Debug, Clone, Copy, PartialEq, Eq, Structural)]
pub enum AuthError {
    MissingOrInvalidAuthorizationHeader,
    InvalidToken,
    IntrospectionFailed,
}

impl AuthError {
    /// Human-readable message of the failure.
    pub fn to_string(&self) -> (s: String)
        ensures
            *self == AuthError::MissingOrInvalidAuthorizationHeader ==> s@
                == "Missing or invalid authorization header"@,
            *self == AuthError::InvalidToken ==> s@ == "Invalid or expired token"@,
            *self == AuthError::IntrospectionFailed ==> s@ == "Token introspection failed"@,
    {
        match self {
            AuthError::MissingOrInvalidAuthorizationHeader => "Missing or invalid authorization header".to_owned(),
            AuthError::InvalidToken => "Invalid or expired token".to_owned(),
            AuthError::IntrospectionFailed => "Token introspection failed".to_owned(),
        }
    }
}

/// Request validation failures.
#[derive(Debug, Clone, Copy, PartialEq, Eq, Structural)]
pub enum ValidationError {
    MissingCredentials,
    MissingRegistrationFields,
    InvalidEmail,
    WeakPassword { min_len: usize },
}

impl ValidationError {
    /// Human-readable message of the failure.
    pub fn to_string(&self) -> (s: String)
        ensures
            *self == ValidationError::MissingCredentials ==> s@ == "Email and password are required"@,
            *self == ValidationError::MissingRegistrationFields ==> s@ == "All fields are required"@,
            *self == ValidationError::InvalidEmail ==> s@ == "Invalid email format"@,
            self matches ValidationError::WeakPassword { min_len } ==> s@ == "Password must be at least "@
                + decimal(min_len as nat) + " characters"@,
    {
        match self {
            ValidationError::MissingCredentials => "Email and password are required".to_owned(),
            ValidationError::MissingRegistrationFields => "All fields are required".to_owned(),
            ValidationError::InvalidEmail => "Invalid email format".to_owned(),
            ValidationError::WeakPassword { min_len } => {
                let n = to_decimal(*min_len as u64);
                concat3("Password must be at least ", n.as_str(), " characters")
            },
        }
    }
}

} // verus!
