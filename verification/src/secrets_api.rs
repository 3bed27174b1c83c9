//! The agent's secrets API: the requests it takes and the replies it sends
//! for each outcome of the storage.  Statuses are HTTP status codes.
use vstd::prelude::*;
use vstd::string::*;
use crate::secrets::{SecretMetadata, SecretWithValue};

verus! {

/// A request to set a secret.
pub struct SetSecretRequest {
    pub project_id: String,
    pub project_name: String,
    pub name: String,
    pub value: String,
    pub tags: Option<Vec<String>>,
    pub performed_by: String,
}

/// A request to read a secret (named in the path).
pub struct GetSecretRequest {
    pub project_id: String,
    pub project_name: String,
    pub performed_by: String,
}

/// A request to delete a secret (named in the path).
pub struct DeleteSecretRequest {
    pub project_id: String,
    pub performed_by: String,
}

/// A request to list a project's secrets.
pub struct ListSecretsRequest {
    pub project_id: String,
}

/// A request to read all of a project's secrets.
pub struct GetAllSecretsRequest {
    pub project_id: String,
    pub project_name: String,
    pub performed_by: String,
}

/// The reply to a secret that was set.
pub struct SetSecretResponse {
    pub success: bool,
    pub message: String,
}

/// The reply with a secret.
pub struct GetSecretResponse {
    pub secret: SecretWithValue,
}

/// The reply with a project's secrets, without values.
pub struct ListSecretsResponse {
    pub secrets: Vec<SecretMetadata>,
}

/// The reply with a project's secrets and their values.
pub struct GetAllSecretsResponse {
    pub secrets: Vec<SecretWithValue>,
}

/// The reply to a secret that was deleted.
pub struct DeleteSecretResponse {
    pub success: bool,
    pub message: String,
}

/// The reply to a request that failed.
pub struct ErrorResponse {
    pub error: String,
}

/// The body of a reply of the secrets API.
pub enum SecretsReply {
    Stored(SetSecretResponse),
    Got(GetSecretResponse),
    Listed(ListSecretsResponse),
    GotAll(GetAllSecretsResponse),
    Deleted(DeleteSecretResponse),
    Failed(ErrorResponse),
}

/// The reply is an error with this status and text.
pub open spec fn failed_with(r: (u16, SecretsReply), status: u16, text: Seq<char>) -> bool {
    r.0 == status && (r.1 matches SecretsReply::Failed(e) && e.error@ == text)
}

fn failure(status: u16, prefix: &str, e: &str) -> (r: (u16, SecretsReply))
    ensures
        failed_with(r, status, prefix@ + e@),
{
    let mut m = String::from_str(prefix);
    m.append(e);
    (status, SecretsReply::Failed(ErrorResponse { error: m }))
}

/// The reply once a secret was (or could not be) set: 200 naming it, else
/// 500 with the error.
pub fn set_secret_reply(outcome: Result<(), String>, name: &str) -> (r: (u16, SecretsReply))
    ensures
        outcome is Ok ==> r.0 == 200 && (r.1 matches SecretsReply::Stored(b) && b.success && b.message@ == "Secret '"@
            + name@ + "' set successfully"@),
        outcome matches Err(e) ==> failed_with(r, 500, "Failed to set secret: "@ + e@),
{
    match outcome {
        Ok(()) => {
            let mut m = String::from_str("Secret '");
            m.append(name);
            m.append("' set successfully");
            (200, SecretsReply::Stored(SetSecretResponse { success: true, message: m }))
        },
        Err(e) => failure(500, "Failed to set secret: ", e.as_str()),
    }
}

/// The reply to a read of a secret: 200 with it, else 404 with the error.
pub fn get_secret_reply(outcome: Result<SecretWithValue, String>) -> (r: (u16, SecretsReply))
    ensures
        outcome matches Ok(s) ==> r.0 == 200 && (r.1 matches SecretsReply::Got(b) && b.secret == s),
        outcome matches Err(e) ==> failed_with(r, 404, "Failed to get secret: "@ + e@),
{
    match outcome {
        Ok(secret) => (200, SecretsReply::Got(GetSecretResponse { secret })),
        Err(e) => failure(404, "Failed to get secret: ", e.as_str()),
    }
}

/// The reply to a listing: 200 with the secrets, else 500 with the error.
pub fn list_secrets_reply(outcome: Result<Vec<SecretMetadata>, String>) -> (r: (u16, SecretsReply))
    ensures
        outcome matches Ok(v) ==> r.0 == 200 && (r.1 matches SecretsReply::Listed(b) && b.secrets == v),
        outcome matches Err(e) ==> failed_with(r, 500, "Failed to list secrets: "@ + e@),
{
    match outcome {
        Ok(secrets) => (200, SecretsReply::Listed(ListSecretsResponse { secrets })),
        Err(e) => failure(500, "Failed to list secrets: ", e.as_str()),
    }
}

/// The reply to a read of all secrets: 200 with them, else 500 with the
/// error.
pub fn get_all_secrets_reply(outcome: Result<Vec<SecretWithValue>, String>) -> (r: (u16, SecretsReply))
    ensures
        outcome matches Ok(v) ==> r.0 == 200 && (r.1 matches SecretsReply::GotAll(b) && b.secrets == v),
        outcome matches Err(e) ==> failed_with(r, 500, "Failed to get all secrets: "@ + e@),
{
    match outcome {
        Ok(secrets) => (200, SecretsReply::GotAll(GetAllSecretsResponse { secrets })),
        Err(e) => failure(500, "Failed to get all secrets: ", e.as_str()),
    }
}

/// The reply once a secret was (or could not be) deleted: 200 naming it,
/// else 404 with the error.
pub fn delete_secret_reply(outcome: Result<(), String>, name: &str) -> (r: (u16, SecretsReply))
    ensures
        outcome is Ok ==> r.0 == 200 && (r.1 matches SecretsReply::Deleted(b) && b.success && b.message@
            == "Secret '"@ + name@ + "' deleted successfully"@),
        outcome matches Err(e) ==> failed_with(r, 404, "Failed to delete secret: "@ + e@),
{
    match outcome {
        Ok(()) => {
            let mut m = String::from_str("Secret '");
            m.append(name);
            m.append("' deleted successfully");
            (200, SecretsReply::Deleted(DeleteSecretResponse { success: true, message: m }))
        },
        Err(e) => failure(404, "Failed to delete secret: ", e.as_str()),
    }
}

} // verus!
