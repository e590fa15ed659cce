use vstd::prelude::*;

use crate::text::{concat3, concat4, debug_str, spec_debug_str, trim, trim_str};
use crate::zitadel::error::ZitadelError;

verus! {

/// Admin credential material used when issuing Management API calls: a
/// personal access token, or a JWT Profile key with its audience.
#[derive(Clone)]
pub enum AdminCredential {
    Pat(String),
    JwtProfile { key_json: Vec<u8>, audience: String },
}

impl AdminCredential {
    /// A personal access token read from the environment variable `var_name`,
    /// given the variable's value (`None` when it is unset or not Unicode).
    /// A missing or blank value is refused as `Unauthenticated`.
    pub fn from_pat_value(var_name: &str, value: Option<String>) -> (r: Result<Self, ZitadelError>)
        ensures
            value is None ==> (r matches Err(ZitadelError::Unauthenticated(m)) && m@
                == "environment variable `"@ + var_name@ + "` is not set"@),
            value matches Some(v) && trim(v@).len() == 0 ==> (r matches Err(
                ZitadelError::Unauthenticated(m),
            ) && m@ == "environment variable `"@ + var_name@ + "` is empty"@),
            value matches Some(v) && trim(v@).len() != 0 ==> (r matches Ok(AdminCredential::Pat(p))
                && value == Some(p)),
    {
        match value {
            None => Err(
                ZitadelError::Unauthenticated(concat3("environment variable `", var_name, "` is not set")),
            ),
            Some(v) => {
                let t = trim_str(v.as_str());
                if t.as_str().is_empty() {
                    Err(
                        ZitadelError::Unauthenticated(
                            concat3("environment variable `", var_name, "` is empty"),
                        ),
                    )
                } else {
                    Ok(AdminCredential::Pat(v))
                }
            },
        }
    }

    /// A JWT Profile credential from the outcome of reading its key file:
    /// `path` is the file's displayed path, `read` the bytes or the read
    /// error's text. A failed read is refused as `Unauthenticated`.
    pub fn from_jwt_key_read(path: &str, read: Result<Vec<u8>, String>, audience: String) -> (r: Result<
        Self,
        ZitadelError,
    >)
        ensures
            read matches Ok(bytes) ==> (r matches Ok(AdminCredential::JwtProfile { key_json, audience: a })
                && key_json == bytes && a == audience),
            read matches Err(e) ==> (r matches Err(ZitadelError::Unauthenticated(m)) && m@
                == "failed to read JWT key `"@ + path@ + "`: "@ + e@),
    {
        match read {
            Ok(bytes) => Ok(AdminCredential::JwtProfile { key_json: bytes, audience }),
            Err(e) => Err(
                ZitadelError::Unauthenticated(concat4("failed to read JWT key `", path, "`: ", e.as_str())),
            ),
        }
    }

    /// Diagnostic rendering that never shows secret material: the token of a
    /// `Pat` and the key of a `JwtProfile` are replaced by `<redacted>`.
    pub fn debug_repr(&self) -> (s: String)
        ensures
            self is Pat ==> s@ == "AdminCredential::Pat(<redacted>)"@,
            self matches AdminCredential::JwtProfile { audience, .. } ==> s@
                == "AdminCredential::JwtProfile { audience: "@ + spec_debug_str(audience@)
                + ", key_json: \"<redacted>\" }"@,
    {
        match self {
            AdminCredential::Pat(_) => "AdminCredential::Pat(<redacted>)".to_owned(),
            AdminCredential::JwtProfile { audience, .. } => {
                let a = debug_str(audience.as_str());
                concat3("AdminCredential::JwtProfile { audience: ", a.as_str(), ", key_json: \"<redacted>\" }")
            },
        }
    }
}

} // verus!
