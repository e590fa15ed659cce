use vstd::prelude::*;

use crate::zitadel::pagination::PageRequest;
use crate::zitadel::project::{ListDetails, ObjectDetails};
use crate::text::{concat3, concat4};
use crate::zitadel::endpoint::{Endpoint, HttpMethod};

verus! {

/// A key of a machine user.
#[derive(Debug, Clone)]
pub struct Key {
    pub id: String,
    /// The key's type, sent on the wire as `type`.
    pub key_type: Option<String>,
    pub expiration_date: Option<String>,
}

/// Format of a machine user key; `Json` is the format stored on disk.
#[derive(Debug, Clone, Copy, PartialEq, Eq, Structural)]
pub enum KeyType {
    Unspecified,
    Json,
}

/// Body of a machine user key search.
#[derive(Debug, Clone, Default)]
pub struct ListMachineUserKeysRequest {
    pub page: PageRequest,
}

/// Result of a machine user key search.
#[derive(Debug, Clone)]
pub struct ListMachineUserKeysResponse {
    pub result: Vec<Key>,
    pub details: ListDetails,
}

/// Body of a machine user key creation; `expiration_date` is an RFC 3339
/// timestamp in the future. The type is sent on the wire as `type`.
#[derive(Debug, Clone)]
pub struct AddMachineUserKeyRequest {
    pub key_type: KeyType,
    pub expiration_date: String,
}

/// Result of a machine user key creation: the key material, base64
/// encoded, is delivered only here.
#[derive(Debug, Clone)]
pub struct AddMachineUserKeyResponse {
    pub key_id: String,
    pub key_details: String,
    pub details: ObjectDetails,
}

/// Result of a machine user key removal.
#[derive(Debug, Clone)]
pub struct RemoveMachineUserKeyResponse {
    pub details: ObjectDetails,
}

/// `POST /management/v1/users/{user_id}/keys/_search`.
pub fn list_machine_user_keys_endpoint(user_id: &str) -> (e: Endpoint)
    ensures
        e.method == HttpMethod::Post,
        e.path@ == "/management/v1/users/"@ + user_id@ + "/keys/_search"@,
{
    Endpoint { method: HttpMethod::Post, path: concat3("/management/v1/users/", user_id, "/keys/_search") }
}

/// `POST /management/v1/users/{user_id}/keys`.
pub fn add_machine_user_key_endpoint(user_id: &str) -> (e: Endpoint)
    ensures
        e.method == HttpMethod::Post,
        e.path@ == "/management/v1/users/"@ + user_id@ + "/keys"@,
{
    Endpoint { method: HttpMethod::Post, path: concat3("/management/v1/users/", user_id, "/keys") }
}

/// `DELETE /management/v1/users/{user_id}/keys/{key_id}`.
pub fn remove_machine_user_key_endpoint(user_id: &str, key_id: &str) -> (e: Endpoint)
    ensures
        e.method == HttpMethod::Delete,
        e.path@ == "/management/v1/users/"@ + user_id@ + "/keys/"@ + key_id@,
{
    Endpoint { method: HttpMethod::Delete, path: concat4("/management/v1/users/", user_id, "/keys/", key_id) }
}

} // verus!
