use vstd::prelude::*;
use vstd::std_specs::convert::FromSpecImpl;

use crate::text::{concat2, concat4, decimal, to_decimal};

verus! {

#[verifier::external_type_specification]
#[verifier::external_body]
pub struct ExReqwestError(reqwest::Error);

/// Error taxonomy for Zitadel Management API calls.
///
/// Status to variant mapping: 400 `BadRequest`, 401 `Unauthenticated`,
/// 403 `PermissionDenied`, 404 `NotFound`, 409 `AlreadyExists`,
/// 412 `FailedPrecondition`, 429 `ResourceExhausted`, 5xx `Internal`,
/// others `Unknown`. Transport failures map to `Transport`; undecodable
/// response bodies to `Deserialize`.
#[derive(Debug)]
pub enum ZitadelError {
    Transport(reqwest::Error),
    BadRequest(String),
    Unauthenticated(String),
    PermissionDenied(String),
    NotFound(String),
    AlreadyExists(String),
    InvalidArgument(String),
    FailedPrecondition(String),
    ResourceExhausted(String),
    Internal { status: u16, body: String },
    Unknown { status: u16, body: String },
    Deserialize(String),
}

/// The variant that a non-2xx status and its body map to.
pub open spec fn spec_from_status(status: u16, body: String) -> ZitadelError {
    if status == 400 {
        ZitadelError::BadRequest(body)
    } else if status == 401 {
        ZitadelError::Unauthenticated(body)
    } else if status == 403 {
        ZitadelError::PermissionDenied(body)
    } else if status == 404 {
        ZitadelError::NotFound(body)
    } else if status == 409 {
        ZitadelError::AlreadyExists(body)
    } else if status == 412 {
        ZitadelError::FailedPrecondition(body)
    } else if status == 429 {
        ZitadelError::ResourceExhausted(body)
    } else if 500 <= status <= 599 {
        ZitadelError::Internal { status, body }
    } else {
        ZitadelError::Unknown { status, body }
    }
}

/// Text of a transport error (`Display` of `reqwest::Error`); nothing is
/// claimed of its content.
#[verifier::external_body]
fn transport_text(e: &reqwest::Error) -> String {
    e.to_string()
}

impl ZitadelError {
    /// Map a non-2xx HTTP status and its body into the matching variant.
    pub fn from_status(status: u16, body: String) -> (e: Self)
        ensures
            e == spec_from_status(status, body),
    {
        match status {
            400 => ZitadelError::BadRequest(body),
            401 => ZitadelError::Unauthenticated(body),
            403 => ZitadelError::PermissionDenied(body),
            404 => ZitadelError::NotFound(body),
            409 => ZitadelError::AlreadyExists(body),
            412 => ZitadelError::FailedPrecondition(body),
            429 => ZitadelError::ResourceExhausted(body),
            500..=599 => ZitadelError::Internal { status, body },
            _ => ZitadelError::Unknown { status, body },
        }
    }

    /// Human-readable message of the error.
    pub fn to_string(&self) -> (s: String)
        ensures
            self matches ZitadelError::BadRequest(b) ==> s@ == "bad request (400): "@ + b@,
            self matches ZitadelError::Unauthenticated(b) ==> s@ == "unauthenticated (401): "@ + b@,
            self matches ZitadelError::PermissionDenied(b) ==> s@ == "permission denied (403): "@
                + b@,
            self matches ZitadelError::NotFound(b) ==> s@ == "not found (404): "@ + b@,
            self matches ZitadelError::AlreadyExists(b) ==> s@ == "already exists (409): "@ + b@,
            self matches ZitadelError::InvalidArgument(b) ==> s@ == "invalid argument: "@ + b@,
            self matches ZitadelError::FailedPrecondition(b) ==> s@ == "failed precondition (412): "@
                + b@,
            self matches ZitadelError::ResourceExhausted(b) ==> s@ == "resource exhausted (429): "@
                + b@,
            self matches ZitadelError::Internal { status, body } ==> s@ == "internal server error ("@
                + decimal(status as nat) + "): "@ + body@,
            self matches ZitadelError::Unknown { status, body } ==> s@ == "unknown status "@
                + decimal(status as nat) + ": "@ + body@,
            self matches ZitadelError::Deserialize(b) ==> s@ == "response deserialization failed: "@
                + b@,
            self is Transport ==> "transport error: "@.is_prefix_of(s@),
    {
        match self {
            ZitadelError::Transport(e) => {
                let t = transport_text(e);
                let m = concat2("transport error: ", t.as_str());
                assert(m@.subrange(0, 17) =~= "transport error: "@) by {
                    reveal_strlit("transport error: ");
                }
                m
            },
            ZitadelError::BadRequest(b) => concat2("bad request (400): ", b.as_str()),
            ZitadelError::Unauthenticated(b) => concat2("unauthenticated (401): ", b.as_str()),
            ZitadelError::PermissionDenied(b) => concat2("permission denied (403): ", b.as_str()),
            ZitadelError::NotFound(b) => concat2("not found (404): ", b.as_str()),
            ZitadelError::AlreadyExists(b) => concat2("already exists (409): ", b.as_str()),
            ZitadelError::InvalidArgument(b) => concat2("invalid argument: ", b.as_str()),
            ZitadelError::FailedPrecondition(b) => concat2("failed precondition (412): ", b.as_str()),
            ZitadelError::ResourceExhausted(b) => concat2("resource exhausted (429): ", b.as_str()),
            ZitadelError::Internal { status, body } => {
                let d = to_decimal(*status as u64);
                concat4("internal server error (", d.as_str(), "): ", body.as_str())
            },
            ZitadelError::Unknown { status, body } => {
                let d = to_decimal(*status as u64);
                concat4("unknown status ", d.as_str(), ": ", body.as_str())
            },
            ZitadelError::Deserialize(b) => concat2("response deserialization failed: ", b.as_str()),
        }
    }
}

impl From<reqwest::Error> for ZitadelError {
    fn from(e: reqwest::Error) -> (r: Self)
        ensures
            r == ZitadelError::Transport(e),
    {
        ZitadelError::Transport(e)
    }
}

impl FromSpecImpl<reqwest::Error> for ZitadelError {
    open spec fn obeys_from_spec() -> bool {
        true
    }

    open spec fn from_spec(e: reqwest::Error) -> ZitadelError {
        ZitadelError::Transport(e)
    }
}

/// Every 5xx status maps to `Internal` carrying that status.
pub proof fn lemma_server_errors_are_internal(status: u16, body: String)
    requires
        500 <= status <= 599,
    ensures
        spec_from_status(status, body) == (ZitadelError::Internal { status, body }),
{
}

/// The body of the response is always kept in the error.
pub proof fn lemma_from_status_keeps_body(status: u16, body: String)
    ensures
        match spec_from_status(status, body) {
            ZitadelError::BadRequest(b) => b == body,
            ZitadelError::Unauthenticated(b) => b == body,
            ZitadelError::PermissionDenied(b) => b == body,
            ZitadelError::NotFound(b) => b == body,
            ZitadelError::AlreadyExists(b) => b == body,
            ZitadelError::FailedPrecondition(b) => b == body,
            ZitadelError::ResourceExhausted(b) => b == body,
            ZitadelError::Internal { status: s, body: b } => s == status && b == body,
            ZitadelError::Unknown { status: s, body: b } => s == status && b == body,
            _ => false,
        },
{
}

} // verus!
