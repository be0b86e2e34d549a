//! The session authentication engine: derives the session identifier from
//! the access token, validates passphrase keys against server-held
//! verifiers, installs the signed-in user, and drives the one-at-a-time
//! background resume state machine.
//!
//! Network and cryptographic transport stay outside: callers load entities
//! and decrypt the stored passphrase, then hand the plain values to these
//! functions, which make every decision and every state change under an
//! exact contract.

use vstd::prelude::*;

use crate::b64::{b64_std_of, b64_url_decode, b64_url_decode_of, b64_url_encode, b64_url_of};
use crate::cache_storage::CacheInfo;
use crate::crypto::{argon2id_derive, argon2id_of, sha256, sha256_of};
use crate::decimal::{parse_dec_u64_from, spec_parse_u64};
use crate::element_value::IdTuple;
use crate::entities::User;
use crate::login_controller::{Credentials, ExternalUserKeyDeriver, KdfType};
use crate::login_listener::{LoginFailReason, LoginListener};
use crate::metamodel::TypeRef;
use crate::strutil::{bytes_range, push_str, str_chars};
use crate::user_facade::UserFacade;
use vstd::string::StringSliceAdditionalSpecFns;

verus! {

/// How the session came to be: a fresh interactive login, a temporary
/// session, or a persistent (stored-credentials) one.
#[derive(Debug, PartialEq, Eq, Structural, Clone, Copy)]
pub enum SessionType {
    Login,
    Temporary,
    Persistent,
}

/// The background-resume state machine: `Idle` before and after a
/// completed resume, `Running` while one is in flight, `Failed` with the
/// credentials retained for a caller-initiated retry.
#[derive(Debug, PartialEq, Eq, Structural, Clone, Copy)]
pub enum LoginPhase {
    Idle,
    Running,
    Failed,
}

pub struct AsyncLoginState {
    pub phase: LoginPhase,
    pub credentials: Option<Credentials>,
}

/// A classified server-side failure of a remote call.
#[derive(Debug)]
pub enum HttpError {
    SessionExpiredError,
    NotAuthenticatedError,
    ConnectionError,
    ServerError { status: u16, precondition: Option<String> },
}

/// The engine's error surface.
#[derive(Debug)]
pub enum ApiCallError {
    /// Codec, conversion and key-derivation failures, wrapped into one
    /// internal kind.
    InternalSdkError { error_message: String },
    /// Verifier or salt mismatch: the stored credentials or link are no
    /// longer valid.
    AuthenticationError { error_message: String },
    /// A resume is already in flight, or a conflicting user is signed in.
    ConcurrencyError { error_message: String },
    /// A reserved feature was requested (an unsupported KDF kind).
    NotImplemented { error_message: String },
    /// A non-2xx server response or a connection-level failure.
    ServerResponseError { source: HttpError },
}

/// A failed login step: the error, and, where the failure invalidates the
/// remote session, the access token whose session must be deleted.
#[derive(Debug)]
pub struct LoginFailure {
    pub error: ApiCallError,
    pub delete_session_token: Option<String>,
}

/// A symmetric session key; the variant records the key length.
#[derive(Debug)]
pub enum GenericAesKey {
    Aes128(Vec<u8>),
    Aes256(Vec<u8>),
}

pub open spec fn aes_key_bytes(k: GenericAesKey) -> Seq<u8> {
    match k {
        GenericAesKey::Aes128(b) => b@,
        GenericAesKey::Aes256(b) => b@,
    }
}

/// What the session entity yields: the user id and the wrapped access key.
#[derive(Debug)]
pub struct SessionData {
    pub user_id: String,
    pub access_key: Option<GenericAesKey>,
}

/// How a resume proceeds after the user entity is loaded: synchronously to
/// the end, or provisionally with the rest deferred to the background.
#[derive(Debug)]
pub enum ResumeBranch {
    FinishNow { user: User, passphrase_salt: Vec<u8> },
    DeferredBackground { passphrase_salt: Vec<u8> },
}

/// What the listener is told and whether an external retry collaborator
/// should take over, after a failed background resume.
#[derive(Debug)]
pub struct FailureDisposition {
    pub notify: LoginFailReason,
    pub retry_externally: bool,
}

/// An authenticated deletion of the remote session resource, ready for the
/// transport.
#[derive(Debug)]
pub struct SessionDeleteRequest {
    pub url: String,
    pub access_token: String,
    pub model_version: u64,
}

/// The number of leading access-token bytes that form the list-id material
/// of the session identifier; the rest is element-id material.
pub const GENERATED_ID_BYTES_LENGTH: usize = 9;

/// Account tiers, decoded from the wire integer.
#[derive(Debug, PartialEq, Eq, Structural, Clone, Copy)]
#[allow(non_camel_case_types)]
pub enum AccountType {
    SYSTEM,
    FREE,
    STARTER,
    PAID,
    EXTERNAL,
}

pub open spec fn spec_account_type_from(value: i64) -> Option<AccountType> {
    if value == 0 {
        Some(AccountType::SYSTEM)
    } else if value == 1 {
        Some(AccountType::FREE)
    } else if value == 2 {
        Some(AccountType::STARTER)
    } else if value == 3 {
        Some(AccountType::PAID)
    } else if value == 4 {
        Some(AccountType::EXTERNAL)
    } else {
        None
    }
}

impl AccountType {
    /// Decodes the wire integer; an unknown tier is a typed error, never a
    /// process abort.
    pub fn from(value: i64) -> (r: Result<AccountType, ApiCallError>)
        ensures
            match r {
                Ok(a) => spec_account_type_from(value) == Some(a),
                Err(e) => spec_account_type_from(value) is None && e is InternalSdkError,
            },
    {
        match value {
            0 => Ok(AccountType::SYSTEM),
            1 => Ok(AccountType::FREE),
            2 => Ok(AccountType::STARTER),
            3 => Ok(AccountType::PAID),
            4 => Ok(AccountType::EXTERNAL),
            _ => Err(internal_error("Invalid account type")),
        }
    }
}

fn internal_error(msg: &str) -> (e: ApiCallError)
    ensures
        e is InternalSdkError,
{
    ApiCallError::InternalSdkError { error_message: msg.to_owned() }
}

/// The list-id half of the session identifier derived from the decoded
/// access token.
pub open spec fn spec_session_list_id(bytes: Seq<u8>) -> Seq<char> {
    b64_url_of(sha256_of(bytes.subrange(0, GENERATED_ID_BYTES_LENGTH as int)))
}

/// The element-id half of the session identifier derived from the decoded
/// access token.
pub open spec fn spec_session_element_id(bytes: Seq<u8>) -> Seq<char> {
    b64_url_of(sha256_of(bytes.skip(GENERATED_ID_BYTES_LENGTH as int)))
}

/// The stored verifier accepts the derived key: the base64 rendering of
/// `SHA256(SHA256(key))` equals the base64 rendering of the stored bytes.
pub open spec fn verifier_ok(stored: Seq<u8>, key_bytes: Seq<u8>) -> bool {
    b64_std_of(sha256_of(sha256_of(key_bytes))) == b64_std_of(stored)
}

/// The caller-supplied external salt still matches the user's stored salt
/// hash.
pub open spec fn external_salt_ok(user: User, salt: Seq<u8>) -> bool {
    &&& user.external_auth_info matches Some(i)
    &&& user.external_auth_info->Some_0.latest_salt_hash matches Some(h)
    &&& user.external_auth_info->Some_0.latest_salt_hash->Some_0@ == sha256_of(salt)
}

/// Session identifier determinism: the identifier is a function of the
/// access token alone, so equal tokens always yield equal identifiers.
pub proof fn lemma_session_id_deterministic(
    token: Seq<char>,
    l1: Seq<char>,
    e1: Seq<char>,
    l2: Seq<char>,
    e2: Seq<char>,
)
    requires
        b64_url_decode_of(token) matches Some(bs1) && l1 == spec_session_list_id(bs1) && e1
            == spec_session_element_id(bs1),
        b64_url_decode_of(token) matches Some(bs2) && l2 == spec_session_list_id(bs2) && e2
            == spec_session_element_id(bs2),
    ensures
        l1 == l2,
        e1 == e2,
{
}

/// The session authentication engine.
pub struct LoginFacade {
    pub async_login_state: AsyncLoginState,
    pub user_facade: UserFacade,
    pub login_listener: LoginListener,
    pub base_url: String,
}

impl LoginFacade {
    pub fn new(user_facade: UserFacade, login_listener: LoginListener, base_url: &str) -> (r:
        LoginFacade)
        ensures
            r.async_login_state.phase == LoginPhase::Idle,
            r.async_login_state.credentials is None,
            r.user_facade == user_facade,
            r.base_url@ == base_url@,
    {
        LoginFacade {
            async_login_state: AsyncLoginState { phase: LoginPhase::Idle, credentials: None },
            user_facade,
            login_listener,
            base_url: base_url.to_owned(),
        }
    }

    /// Derives the session identifier from the access token: the decoded
    /// token splits into a fixed-length list-id part and an element-id
    /// remainder, each hashed with SHA-256 and base64url-encoded.  A token
    /// that is not base64url, or too short to split, is a typed error.
    pub fn get_session_id(&self, access_token: &str) -> (r: Result<IdTuple, ApiCallError>)
        ensures
            match r {
                Ok(t) => b64_url_decode_of(access_token@) matches Some(bs) && bs.len()
                    >= GENERATED_ID_BYTES_LENGTH && t.list_id@ == spec_session_list_id(bs)
                    && t.element_id@ == spec_session_element_id(bs),
                Err(e) => e is InternalSdkError && (b64_url_decode_of(access_token@) matches Some(
                    bs,
                ) ==> bs.len() < GENERATED_ID_BYTES_LENGTH),
            },
    {
        let bytes = match b64_url_decode(access_token) {
            Some(b) => b,
            None => {
                return Err(internal_error("Failed to parse session id from access token"));
            },
        };
        if bytes.len() < GENERATED_ID_BYTES_LENGTH {
            return Err(internal_error("Access token too short for a session id"));
        }
        let list_part = bytes_range(&bytes, 0, GENERATED_ID_BYTES_LENGTH);
        let element_part = bytes_range(&bytes, GENERATED_ID_BYTES_LENGTH, bytes.len());
        proof {
            assert(bytes@.subrange(
                GENERATED_ID_BYTES_LENGTH as int,
                bytes@.len() as int,
            ) =~= bytes@.skip(GENERATED_ID_BYTES_LENGTH as int));
        }
        let list_id = b64_url_encode(&sha256(&list_part));
        let element_id = b64_url_encode(&sha256(&element_part));
        Ok(IdTuple::new(list_id, element_id))
    }

    /// Classifies the session entity's wrapped access key by length:
    /// 16 bytes is AES-128, 32 bytes AES-256, anything else a typed error.
    pub fn session_data_from(user_id: String, access_key: Option<Vec<u8>>) -> (r: Result<
        SessionData,
        ApiCallError,
    >)
        ensures
            match r {
                Ok(sd) => sd.user_id == user_id && (match access_key {
                    Option::None => sd.access_key is None,
                    Option::Some(k) => (k@.len() == 16 || k@.len() == 32) && (k@.len() == 16
                        ==> sd.access_key == Some(GenericAesKey::Aes128(k))) && (k@.len() == 32
                        ==> sd.access_key == Some(GenericAesKey::Aes256(k))),
                }),
                Err(e) => e is InternalSdkError && (access_key matches Some(k) && k@.len() != 16
                    && k@.len() != 32),
            },
    {
        match access_key {
            None => Ok(SessionData { user_id, access_key: None }),
            Some(k) => {
                if k.len() == 16 {
                    Ok(SessionData { user_id, access_key: Some(GenericAesKey::Aes128(k)) })
                } else if k.len() == 32 {
                    Ok(SessionData { user_id, access_key: Some(GenericAesKey::Aes256(k)) })
                } else {
                    Err(internal_error("Invalid access key length"))
                }
            },
        }
    }

    /// Derives the user's passphrase key.  Argon2id is the only supported
    /// KDF; any other kind is a typed "not implemented" error, never an
    /// abort.
    pub fn derive_user_passphrase_key(
        kdf_type: KdfType,
        passphrase: &str,
        salt: &Vec<u8>,
    ) -> (r: Result<GenericAesKey, ApiCallError>)
        requires
            salt@.len() == 16,
        ensures
            match r {
                Ok(k) => kdf_type == KdfType::Argon2id && (k matches GenericAesKey::Aes256(b)
                    && b@ == argon2id_of(passphrase.spec_bytes(), salt@) && b@.len() == 32),
                Err(e) => (kdf_type == KdfType::Bcrypt && e is NotImplemented) || (kdf_type
                    == KdfType::Argon2id && passphrase.spec_bytes().len() >= 0x1_0000_0000
                    && e is InternalSdkError),
            },
    {
        match kdf_type {
            KdfType::Argon2id => {
                let pw = passphrase.as_bytes();
                if (pw.len() as u64) >= 0x1_0000_0000u64 {
                    return Err(internal_error("Passphrase too long"));
                }
                let pwv = vstd::slice::slice_to_vec(pw);
                let key = argon2id_derive(&pwv, salt);
                Ok(GenericAesKey::Aes256(key))
            },
            KdfType::Bcrypt => Err(
                ApiCallError::NotImplemented { error_message: "BCrypt not implemented".to_owned() },
            ),
        }
    }

    /// Derives the 256-bit passphrase key for an internal user.
    pub fn load_user_passphrase_key(passphrase: &str, salt: &Vec<u8>) -> (r: Result<
        Vec<u8>,
        ApiCallError,
    >)
        requires
            salt@.len() == 16,
        ensures
            match r {
                Ok(b) => b@ == argon2id_of(passphrase.spec_bytes(), salt@) && b@.len() == 32,
                Err(e) => passphrase.spec_bytes().len() >= 0x1_0000_0000 && e is InternalSdkError,
            },
    {
        match Self::derive_user_passphrase_key(KdfType::Argon2id, passphrase, salt) {
            Ok(GenericAesKey::Aes256(b)) => Ok(b),
            Ok(GenericAesKey::Aes128(b)) => Err(internal_error("Invalid key size")),
            Err(e) => Err(e),
        }
    }

    /// Whether the stored verifier accepts the derived key, compared as
    /// base64 renderings of `SHA256(SHA256(key))`.
    pub fn verifier_matches(stored_verifier: &Vec<u8>, passphrase_key_bytes: &Vec<u8>) -> (r: bool)
        ensures
            r == verifier_ok(stored_verifier@, passphrase_key_bytes@),
    {
        let hashed = sha256(passphrase_key_bytes);
        let double_hashed = sha256(&hashed);
        let ours = crate::b64::b64_std_encode(&double_hashed);
        let theirs = crate::b64::b64_std_encode(stored_verifier);
        ours == theirs
    }

    /// Clears the User Session State: after this, nobody is signed in.
    pub fn reset_session(&mut self)
        ensures
            final(self).user_facade.user is None,
            final(self).user_facade.access_token is None,
            final(self).async_login_state == old(self).async_login_state,
            final(self).base_url == old(self).base_url,
            final(self).login_listener == old(self).login_listener,
    {
        self.user_facade.reset();
    }

    /// Checks the stored verifier against the derived key.  A mismatch
    /// means the password changed: the local session is cleared, the
    /// remote session must be deleted, and the caller gets an
    /// authentication error.
    pub fn check_outdated_verifier(
        &mut self,
        access_token: &str,
        user: &User,
        user_passphrase_key: &GenericAesKey,
    ) -> (r: Result<(), LoginFailure>)
        ensures
            verifier_ok(user.verifier@, aes_key_bytes(*user_passphrase_key)) ==> r is Ok && *final(self) == *old(self),
            !verifier_ok(user.verifier@, aes_key_bytes(*user_passphrase_key)) ==> (r matches Err(f)
                && f.error is AuthenticationError && (f.delete_session_token matches Some(t) && t@
                == access_token@) && final(self).user_facade.user is None && final(self).user_facade.access_token is None && final(self).async_login_state == old(self).async_login_state && final(self).base_url == old(self).base_url),
    {
        let key_bytes: &Vec<u8> = match user_passphrase_key {
            GenericAesKey::Aes128(b) => b,
            GenericAesKey::Aes256(b) => b,
        };
        if Self::verifier_matches(&user.verifier, key_bytes) {
            Ok(())
        } else {
            self.reset_session();
            Err(
                LoginFailure {
                    error: ApiCallError::AuthenticationError {
                        error_message: "Auth verifier has changed".to_owned(),
                    },
                    delete_session_token: Some(access_token.to_owned()),
                },
            )
        }
    }

    /// Checks that an external user's caller-supplied salt still matches
    /// the stored salt hash.  A mismatch means the link is stale: the
    /// local session is cleared, the remote session must be deleted, and
    /// the caller gets an authentication error.
    pub fn check_outdated_external_salt(
        &mut self,
        access_token: &str,
        user: &User,
        external_user_salt: &Vec<u8>,
    ) -> (r: Result<(), LoginFailure>)
        ensures
            ({
                let has_hash = user.external_auth_info matches Some(i)
                    && user.external_auth_info->Some_0.latest_salt_hash is Some;
                &&& !has_hash ==> (r matches Err(f) && f.error is InternalSdkError
                    && f.delete_session_token is None && final(self).user_facade.user == old(self).user_facade.user && (final(self).user_facade.access_token matches Some(t) && t@
                    == access_token@))
                &&& (has_hash && external_salt_ok(*user, external_user_salt@)) ==> (r is Ok && final(self).user_facade.user == old(self).user_facade.user && (final(self).user_facade.access_token matches Some(t) && t@ == access_token@))
                &&& (has_hash && !external_salt_ok(*user, external_user_salt@)) ==> (r matches Err(
                    f,
                ) && f.error is AuthenticationError && (f.delete_session_token matches Some(t) && t@
                    == access_token@) && final(self).user_facade.user is None && final(self).user_facade.access_token is None)
                &&& final(self).async_login_state == old(self).async_login_state
                &&& final(self).base_url == old(self).base_url
            }),
    {
        self.user_facade.set_access_token(access_token);
        let latest_salt: &Vec<u8> = match &user.external_auth_info {
            Some(info) => match &info.latest_salt_hash {
                Some(h) => h,
                None => {
                    return Err(
                        LoginFailure {
                            error: internal_error("Missing latestSaltHash"),
                            delete_session_token: None,
                        },
                    );
                },
            },
            None => {
                return Err(
                    LoginFailure {
                        error: internal_error("Missing authInfo and latestSaltHash"),
                        delete_session_token: None,
                    },
                );
            },
        };
        let salt_hash = sha256(external_user_salt);
        if crate::strutil::bytes_eq(latest_salt, &salt_hash) {
            Ok(())
        } else {
            self.reset_session();
            Err(
                LoginFailure {
                    error: ApiCallError::AuthenticationError {
                        error_message: "Salt changed, outdated link?".to_owned(),
                    },
                    delete_session_token: Some(access_token.to_owned()),
                },
            )
        }
    }

    /// Installs the authenticated session: rejects a conflicting signed-in
    /// user, optionally checks the verifier (internal users), and installs
    /// the user and token.  The full-login-success notification is the
    /// caller's step, after the group info is loaded.
    pub fn init_session(
        &mut self,
        user: User,
        access_token: &str,
        user_passphrase_key: Option<&GenericAesKey>,
    ) -> (r: Result<(), LoginFailure>)
        ensures
            ({
                let guard_bad = old(self).user_facade.user matches Some(u) && u._id@ != user._id@;
                let vok = match user_passphrase_key {
                    Option::Some(k) => verifier_ok(user.verifier@, aes_key_bytes(*k)),
                    Option::None => true,
                };
                &&& guard_bad ==> (r matches Err(f) && f.error is ConcurrencyError
                    && f.delete_session_token is None && *final(self) == *old(self))
                &&& (!guard_bad && !vok) ==> (r matches Err(f) && f.error is AuthenticationError && (
                f.delete_session_token matches Some(t) && t@ == access_token@) && final(self).user_facade.user is None && final(self).user_facade.access_token is None)
                &&& (!guard_bad && vok) ==> (r is Ok && final(self).user_facade.user == Some(user)
                    && (final(self).user_facade.access_token matches Some(t) && t@
                    == access_token@))
                &&& final(self).async_login_state == old(self).async_login_state
                &&& final(self).base_url == old(self).base_url
            }),
    {
        match self.user_facade.get_user() {
            Some(u) => {
                if !(u._id == user._id) {
                    return Err(
                        LoginFailure {
                            error: ApiCallError::ConcurrencyError {
                                error_message:
                                    "Different user tried to login in existing other user's session".to_owned(),
                            },
                            delete_session_token: None,
                        },
                    );
                }
            },
            None => {},
        }
        self.user_facade.set_access_token(access_token);
        match user_passphrase_key {
            Some(key) => {
                match self.check_outdated_verifier(access_token, &user, key) {
                    Ok(()) => {},
                    Err(f) => {
                        return Err(f);
                    },
                }
            },
            None => {},
        }
        self.user_facade.set_user(user);
        Ok(())
    }

    /// The full synchronous tail of a resume: derive the passphrase key
    /// (validating the external salt for link-based users, the verifier
    /// for internal ones), install the session, and return the state
    /// machine to `Idle` with no retained credentials.  `passphrase` is
    /// the caller-decrypted passphrase.
    pub fn finish_resume_session(
        &mut self,
        credentials: &Credentials,
        passphrase_salt: &Vec<u8>,
        external_user_key_deriver: Option<&ExternalUserKeyDeriver>,
        passphrase: &str,
        user: User,
    ) -> (r: Result<(), LoginFailure>)
        requires
            passphrase_salt@.len() == 16,
        ensures
            r is Ok ==> ({
                &&& final(self).async_login_state.phase == LoginPhase::Idle
                &&& final(self).async_login_state.credentials is None
                &&& final(self).user_facade.user == Some(user)
                &&& (final(self).user_facade.access_token matches Some(t) && t@
                    == credentials.access_token@)
                &&& (match external_user_key_deriver {
                    Option::Some(d) => external_salt_ok(user, d.salt@),
                    Option::None => verifier_ok(
                        user.verifier@,
                        argon2id_of(passphrase.spec_bytes(), passphrase_salt@),
                    ),
                })
            }),
            ({
                // Verifier mismatch teardown: an internal user whose stored
                // verifier rejects the derived key gets an authentication
                // error, a cleared session, and a pending remote deletion.
                let key = argon2id_of(passphrase.spec_bytes(), passphrase_salt@);
                (external_user_key_deriver is None && passphrase.spec_bytes().len()
                    < 0x1_0000_0000 && !(old(self).user_facade.user matches Some(u) && u._id@
                    != user._id@) && !verifier_ok(user.verifier@, key)) ==> (r matches Err(f)
                    && f.error is AuthenticationError && (f.delete_session_token matches Some(t)
                    && t@ == credentials.access_token@) && final(self).user_facade.user is None
                    && final(self).user_facade.access_token is None)
            }),
            ({
                // Success is owed to an internal user whose verifier accepts
                // the derived key, unless a different user is signed in.
                let key = argon2id_of(passphrase.spec_bytes(), passphrase_salt@);
                (external_user_key_deriver is None && passphrase.spec_bytes().len()
                    < 0x1_0000_0000 && !(old(self).user_facade.user matches Some(u) && u._id@
                    != user._id@) && verifier_ok(user.verifier@, key)) ==> r is Ok
            }),
            ({
                // Success is owed to an external user whose supplied salt
                // still matches the stored hash, under the same guard.
                (external_user_key_deriver matches Some(d) && d.salt@.len() == 16
                    && passphrase.spec_bytes().len() < 0x1_0000_0000 && external_salt_ok(
                    user,
                    d.salt@,
                ) && !(old(self).user_facade.user matches Some(u) && u._id@ != user._id@))
                    ==> r is Ok
            }),
            final(self).base_url == old(self).base_url,
    {
        let access_token = credentials.access_token.as_str();
        match external_user_key_deriver {
            Some(deriver) => {
                if deriver.salt.len() != 16 {
                    return Err(
                        LoginFailure {
                            error: internal_error("Invalid external salt length"),
                            delete_session_token: None,
                        },
                    );
                }
                match self.check_outdated_external_salt(access_token, &user, &deriver.salt) {
                    Ok(()) => {},
                    Err(f) => {
                        return Err(f);
                    },
                }
                // The derived key is what a fuller client would use to
                // unlock the user group key; external users are validated
                // by the salt hash above, not by the verifier, so it plays
                // no further part here.
                let _derived = match Self::derive_user_passphrase_key(
                    KdfType::Argon2id,
                    passphrase,
                    &deriver.salt,
                ) {
                    Ok(k) => k,
                    Err(e) => {
                        return Err(LoginFailure { error: e, delete_session_token: None });
                    },
                };
                match self.init_session(user, access_token, None) {
                    Ok(()) => {},
                    Err(f) => {
                        return Err(f);
                    },
                }
            },
            None => {
                let key_bytes = match Self::load_user_passphrase_key(passphrase, passphrase_salt) {
                    Ok(b) => b,
                    Err(e) => {
                        return Err(LoginFailure { error: e, delete_session_token: None });
                    },
                };
                let key = GenericAesKey::Aes256(key_bytes);
                match self.init_session(user, access_token, Some(&key)) {
                    Ok(()) => {},
                    Err(f) => {
                        return Err(f);
                    },
                }
            },
        }
        self.async_login_state = AsyncLoginState { phase: LoginPhase::Idle, credentials: None };
        Ok(())
    }

    /// Starts a resume: rejects it while a user is signed in or while
    /// another resume is running (without any state change), then installs
    /// the access token and derives the session identifier.
    pub fn resume_session(&mut self, credentials: &Credentials) -> (r: Result<
        IdTuple,
        ApiCallError,
    >)
        ensures
            ({
                let logged_in = old(self).user_facade.user is Some;
                let running = old(self).async_login_state.phase == LoginPhase::Running;
                &&& logged_in ==> (r matches Err(e) && e is ConcurrencyError && *final(self) == *old(self))
                &&& (!logged_in && running) ==> (r matches Err(e) && e is ConcurrencyError && *final(self) == *old(self))
                &&& (!logged_in && !running) ==> ((final(self).user_facade.access_token matches Some(
                    t,
                ) && t@ == credentials.access_token@) && final(self).user_facade.user is None
                    && final(self).async_login_state == old(self).async_login_state && final(self).base_url == old(self).base_url && (match r {
                    Ok(t) => b64_url_decode_of(credentials.access_token@) matches Some(bs)
                        && bs.len() >= GENERATED_ID_BYTES_LENGTH && t.list_id@
                        == spec_session_list_id(bs) && t.element_id@ == spec_session_element_id(
                        bs,
                    ),
                    Err(e) => e is InternalSdkError && (b64_url_decode_of(
                        credentials.access_token@,
                    ) matches Some(bs) ==> bs.len() < GENERATED_ID_BYTES_LENGTH),
                }))
            }),
    {
        if self.user_facade.get_user().is_some() {
            return Err(
                ApiCallError::ConcurrencyError {
                    error_message:
                        "Trying to resume a session while already logged in for another user".to_owned(),
                },
            );
        }
        if matches!(self.async_login_state.phase, LoginPhase::Running) {
            return Err(
                ApiCallError::ConcurrencyError {
                    error_message: "Trying to resume a session while one is already running".to_owned(),
                },
            );
        }
        self.user_facade.set_access_token(credentials.access_token.as_str());
        self.get_session_id(credentials.access_token.as_str())
    }

    /// Decides how a resume proceeds once the user entity is loaded: a
    /// missing or malformed salt and an unknown account tier are typed
    /// errors that clear the User Session State (no failure leaves a stale
    /// access token behind); paid accounts with a persistent cache install
    /// the user and defer the rest to the background, everyone else
    /// finishes now.
    pub fn resume_session_with_user(&mut self, user: User, cache_info: &CacheInfo) -> (r: Result<
        ResumeBranch,
        ApiCallError,
    >)
        ensures
            ({
                let salt_ok = user.salt matches Some(s) && s@.len() == 16;
                let acct = spec_account_type_from(user.account_type);
                let defer = acct == Some(AccountType::PAID) && cache_info.is_persistent;
                &&& (user.salt is None || !salt_ok) ==> (r matches Err(e) && e is InternalSdkError
                    && final(self).user_facade.user is None && final(self).user_facade.access_token is None && final(self).async_login_state == old(self).async_login_state && final(self).base_url == old(self).base_url)
                &&& (salt_ok && acct is None) ==> (r matches Err(e) && e is InternalSdkError
                    && final(self).user_facade.user is None && final(self).user_facade.access_token is None && final(self).async_login_state == old(self).async_login_state && final(self).base_url == old(self).base_url)
                &&& (salt_ok && acct is Some && !defer) ==> (r matches Ok(b) && b matches
                    ResumeBranch::FinishNow { user: u, passphrase_salt: s } && u == user && s@
                    == user.salt->Some_0@ && *final(self) == *old(self))
                &&& (salt_ok && acct is Some && defer) ==> (r matches Ok(b) && b matches
                    ResumeBranch::DeferredBackground { passphrase_salt: s } && s@
                    == user.salt->Some_0@ && final(self).user_facade.user == Some(user) && final(self).user_facade.access_token == old(self).user_facade.access_token && final(self).async_login_state == old(self).async_login_state)
            }),
    {
        let passphrase_salt: Vec<u8> = match &user.salt {
            Some(s) => {
                if s.len() != 16 {
                    self.reset_session();
                    return Err(internal_error("Malformed user salt"));
                }
                bytes_range(s, 0, s.len())
            },
            None => {
                self.reset_session();
                return Err(internal_error("Missing user's salt"));
            },
        };
        proof {
            assert(passphrase_salt@ =~= user.salt->Some_0@);
        }
        let account_type = match AccountType::from(user.account_type) {
            Ok(a) => a,
            Err(e) => {
                self.reset_session();
                return Err(e);
            },
        };
        if matches!(account_type, AccountType::PAID) && cache_info.is_persistent {
            self.user_facade.set_user(user);
            Ok(ResumeBranch::DeferredBackground { passphrase_salt })
        } else {
            Ok(ResumeBranch::FinishNow { user, passphrase_salt })
        }
    }

    /// Marks the background resume as running.  Starting one while another
    /// is running is a concurrency error and changes nothing.
    pub fn start_background_resume(&mut self) -> (r: Result<(), ApiCallError>)
        ensures
            old(self).async_login_state.phase == LoginPhase::Running ==> (r matches Err(e)
                && e is ConcurrencyError && *final(self) == *old(self)),
            old(self).async_login_state.phase != LoginPhase::Running ==> (r is Ok && final(self).async_login_state.phase == LoginPhase::Running && final(self).async_login_state.credentials == old(self).async_login_state.credentials && final(self).user_facade == old(self).user_facade && final(self).base_url == old(self).base_url),
    {
        if matches!(self.async_login_state.phase, LoginPhase::Running) {
            return Err(
                ApiCallError::ConcurrencyError {
                    error_message: "Background resume already running".to_owned(),
                },
            );
        }
        self.async_login_state.phase = LoginPhase::Running;
        Ok(())
    }

    /// Classifies a failed background resume: an expired or rejected
    /// session returns the machine to `Idle` and tells the listener the
    /// session expired; every other failure retains the credentials in
    /// `Failed` for a retry, tells the listener of a generic error, and
    /// flags connection-level failures for the external retry
    /// collaborator.
    pub fn record_resume_failure(
        &mut self,
        credentials: Credentials,
        error: &ApiCallError,
    ) -> (r: FailureDisposition)
        ensures
            ({
                let expired = error matches ApiCallError::ServerResponseError { source } && (
                source is SessionExpiredError || source is NotAuthenticatedError);
                let connection = error matches ApiCallError::ServerResponseError { source }
                    && source is ConnectionError;
                &&& expired ==> (final(self).async_login_state.phase == LoginPhase::Idle && final(self).async_login_state.credentials is None && r.notify
                    == LoginFailReason::SessionExpired && !r.retry_externally)
                &&& !expired ==> (final(self).async_login_state.phase == LoginPhase::Failed && final(self).async_login_state.credentials == Some(credentials) && r.notify
                    == LoginFailReason::Error && r.retry_externally == connection)
                &&& final(self).user_facade == old(self).user_facade
                &&& final(self).base_url == old(self).base_url
            }),
    {
        let expired = match error {
            ApiCallError::ServerResponseError { source } => match source {
                HttpError::SessionExpiredError => true,
                HttpError::NotAuthenticatedError => true,
                _ => false,
            },
            _ => false,
        };
        let connection = match error {
            ApiCallError::ServerResponseError { source } => matches!(
                source,
                HttpError::ConnectionError,
            ),
            _ => false,
        };
        if expired {
            self.async_login_state = AsyncLoginState { phase: LoginPhase::Idle, credentials: None };
            self.login_listener.on_login_failure(LoginFailReason::SessionExpired);
            FailureDisposition { notify: LoginFailReason::SessionExpired, retry_externally: false }
        } else {
            self.async_login_state = AsyncLoginState {
                phase: LoginPhase::Failed,
                credentials: Some(credentials),
            };
            self.login_listener.on_login_failure(LoginFailReason::Error);
            FailureDisposition { notify: LoginFailReason::Error, retry_externally: connection }
        }
    }

    /// Builds the authenticated deletion of the remote session resource
    /// addressed by the identifier derived from the access token.
    pub fn session_delete_request(
        &self,
        type_ref: &TypeRef,
        model_version: &String,
        access_token: &str,
        push_identifier: Option<&String>,
    ) -> (r: Result<SessionDeleteRequest, ApiCallError>)
        ensures
            match r {
                Ok(req) => ({
                    &&& b64_url_decode_of(access_token@) matches Some(bs) && bs.len()
                        >= GENERATED_ID_BYTES_LENGTH
                    &&& spec_parse_u64(model_version@) matches Some(v) && req.model_version == v
                    &&& ({
                        let bs = b64_url_decode_of(access_token@)->Some_0;
                        let base = self.base_url@ + "/rest/"@ + type_ref.app@ + "/"@
                            + type_ref.type_@ + "/"@ + spec_session_list_id(bs) + "/"@
                            + spec_session_element_id(bs);
                        match push_identifier {
                            Option::Some(p) => req.url@ == base + "?pushIdentifier="@ + p@,
                            Option::None => req.url@ == base,
                        }
                    })
                    &&& req.access_token@ == access_token@
                }),
                Err(e) => e is InternalSdkError,
            },
            r is Ok <==> (b64_url_decode_of(access_token@) matches Some(bs) && bs.len()
                >= GENERATED_ID_BYTES_LENGTH && spec_parse_u64(model_version@) is Some),
    {
        let session_id = match self.get_session_id(access_token) {
            Ok(t) => t,
            Err(e) => {
                return Err(e);
            },
        };
        let version_chars = str_chars(model_version.as_str());
        proof {
            assert(version_chars@.skip(0) =~= version_chars@);
        }
        let version = match parse_dec_u64_from(&version_chars, 0) {
            Some(v) => v,
            None => {
                return Err(internal_error("Tried to parse invalid model version"));
            },
        };
        let mut url = String::new();
        push_str(&mut url, self.base_url.as_str());
        push_str(&mut url, "/rest/");
        push_str(&mut url, type_ref.app.as_str());
        push_str(&mut url, "/");
        push_str(&mut url, type_ref.type_.as_str());
        push_str(&mut url, "/");
        push_str(&mut url, session_id.list_id.as_str());
        push_str(&mut url, "/");
        push_str(&mut url, session_id.element_id.as_str());
        match push_identifier {
            Some(p) => {
                push_str(&mut url, "?pushIdentifier=");
                push_str(&mut url, p.as_str());
            },
            None => {},
        }
        Ok(
            SessionDeleteRequest {
                url,
                access_token: access_token.to_owned(),
                model_version: version,
            },
        )
    }

    /// Interprets the response of the session deletion: any 2xx status is
    /// success, anything else a structured server error carrying the
    /// optional precondition token.
    pub fn check_delete_response(status: u16, precondition: Option<String>) -> (r: Result<
        (),
        ApiCallError,
    >)
        ensures
            200 <= status <= 299 <==> r is Ok,
            !(200 <= status <= 299) ==> (r matches Err(e) && e matches
                ApiCallError::ServerResponseError { source } && source matches
                HttpError::ServerError { status: st, precondition: p } && st == status && p
                == precondition),
    {
        if 200 <= status && status <= 299 {
            Ok(())
        } else {
            Err(
                ApiCallError::ServerResponseError {
                    source: HttpError::ServerError { status, precondition },
                },
            )
        }
    }
}

} // verus!
