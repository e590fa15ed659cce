use vstd::prelude::*;

use crate::text::concat2;

verus! {

#[verifier::external_type_specification]
#[verifier::external_body]
pub struct ExJwtError(jsonwebtoken::errors::Error);

/// JWT operation errors.
#[derive(Debug)]
pub enum JwtError {
    Encode(jsonwebtoken::errors::Error),
    Decode(jsonwebtoken::errors::Error),
}

/// Text of a JWT library error (`Display` of
/// `jsonwebtoken::errors::Error`); nothing is claimed of its content.
#[verifier::external_body]
fn jwt_error_text(e: &jsonwebtoken::errors::Error) -> String {
    e.to_string()
}

impl JwtError {
    /// Human-readable message: `failed to encode token: ...` or
    /// `failed to decode token: ...`.
    pub fn to_string(&self) -> (s: String)
        ensures
            self is Encode ==> "failed to encode token: "@.is_prefix_of(s@),
            self is Decode ==> "failed to decode token: "@.is_prefix_of(s@),
    {
        match self {
            JwtError::Encode(e) => {
                let t = jwt_error_text(e);
                let s = concat2("failed to encode token: ", t.as_str());
                assert(s@.subrange(0, 24) =~= "failed to encode token: "@) by {
                    reveal_strlit("failed to encode token: ");
                }
                s
            },
            JwtError::Decode(e) => {
                let t = jwt_error_text(e);
                let s = concat2("failed to decode token: ", t.as_str());
                assert(s@.subrange(0, 24) =~= "failed to decode token: "@) by {
                    reveal_strlit("failed to decode token: ");
                }
                s
            },
        }
    }
}

} // verus!
