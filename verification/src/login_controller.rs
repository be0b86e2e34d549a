//! Credentials as the caller supplies them, and the thin controller that
//! turns them into the engine's form.

use vstd::prelude::*;

verus! {

/// The key derivation function used for passphrase keys.  Argon2id is the
/// only supported one.
#[derive(Debug, PartialEq, Eq, Structural, Clone, Copy)]
pub enum KdfType {
    Bcrypt,
    Argon2id,
}

/// How an external (link-based) user's key is derived: the caller-supplied
/// salt and the KDF to use.
#[derive(Debug)]
pub struct ExternalUserKeyDeriver {
    pub kdf_type: KdfType,
    pub salt: Vec<u8>,
}

/// Whether the account is a full account or an external, link-based one.
#[derive(Debug, PartialEq, Eq, Structural, Clone, Copy)]
pub enum CredentialType {
    Internal,
    External,
}

impl CredentialType {
    pub fn value(&self) -> (r: &'static str)
        ensures
            *self == CredentialType::Internal ==> r@ == "internal"@,
            *self == CredentialType::External ==> r@ == "external"@,
    {
        match *self {
            CredentialType::Internal => "internal",
            CredentialType::External => "external",
        }
    }
}

/// The caller-facing part of stored credentials.
#[derive(Debug)]
pub struct CredentialsInfo {
    pub login: String,
    pub user_id: String,
    pub credential_type: CredentialType,
}

/// Credentials as handed over the binding boundary.
#[derive(Debug)]
pub struct UnencryptedCredentials {
    pub credential_info: CredentialsInfo,
    pub access_token: String,
    pub database_key: Option<Vec<u8>>,
    pub encrypted_password: String,
}

/// Credentials as the session engine consumes them, for one resume
/// attempt.
#[derive(Debug)]
pub struct Credentials {
    pub login: String,
    pub user_id: String,
    pub access_token: String,
    pub encrypted_password: String,
    pub credential_type: CredentialType,
}

impl Credentials {
    pub fn from_unencrypted_credentials(unencrypted_credentials: UnencryptedCredentials) -> (r:
        Credentials)
        ensures
            r.login == unencrypted_credentials.credential_info.login,
            r.user_id == unencrypted_credentials.credential_info.user_id,
            r.credential_type == unencrypted_credentials.credential_info.credential_type,
            r.access_token == unencrypted_credentials.access_token,
            r.encrypted_password == unencrypted_credentials.encrypted_password,
    {
        Credentials {
            login: unencrypted_credentials.credential_info.login,
            user_id: unencrypted_credentials.credential_info.user_id,
            credential_type: unencrypted_credentials.credential_info.credential_type,
            access_token: unencrypted_credentials.access_token,
            encrypted_password: unencrypted_credentials.encrypted_password,
        }
    }
}

/// Entry point for a caller-initiated session resume: converts the stored
/// credentials into the engine's form.
pub struct LoginController {}

impl LoginController {
    pub fn new() -> (r: LoginController) {
        LoginController {  }
    }

    pub fn resume_session(
        unencrypted_credentials: UnencryptedCredentials,
        external_user_key_deriver: Option<ExternalUserKeyDeriver>,
        offline_time_range_days: Option<i64>,
    ) -> (r: Credentials)
        ensures
            r.login == unencrypted_credentials.credential_info.login,
            r.user_id == unencrypted_credentials.credential_info.user_id,
            r.credential_type == unencrypted_credentials.credential_info.credential_type,
            r.access_token == unencrypted_credentials.access_token,
            r.encrypted_password == unencrypted_credentials.encrypted_password,
    {
        Credentials::from_unencrypted_credentials(unencrypted_credentials)
    }
}

} // verus!
