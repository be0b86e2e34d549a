use tuta_login_core::cache_storage::{CacheInfo, CacheStorageLateInitializer};
use tuta_login_core::element_value::IdTuple;
use tuta_login_core::entities::{ExternalAuthInfo, User, UserGroup};
use tuta_login_core::login_controller::{
    CredentialType, Credentials, CredentialsInfo, ExternalUserKeyDeriver, KdfType, LoginController,
    UnencryptedCredentials,
};
use tuta_login_core::login_facade::{
    AccountType, ApiCallError, AsyncLoginState, GenericAesKey, HttpError, LoginFacade, LoginPhase,
    ResumeBranch, SessionDeleteRequest, GENERATED_ID_BYTES_LENGTH,
};
use tuta_login_core::login_listener::{LoginFailReason, LoginListener};
use tuta_login_core::metamodel::TypeRef;
use tuta_login_core::user_facade::UserFacade;

fn s(x: &str) -> String {
    x.to_owned()
}

fn facade() -> LoginFacade {
    LoginFacade::new(UserFacade::new(), LoginListener::new(), "https://api.example.test")
}

fn b64url(bytes: &[u8]) -> String {
    base64::Engine::encode(&base64::engine::general_purpose::URL_SAFE, bytes)
}

fn sha(bytes: &[u8]) -> Vec<u8> {
    let mut h = <sha2::Sha256 as sha2::Digest>::new();
    sha2::Digest::update(&mut h, bytes);
    sha2::Digest::finalize(h).to_vec()
}

fn argon_key(passphrase: &[u8], salt: &[u8]) -> Vec<u8> {
    let mut out = [0u8; 32];
    argon2::Argon2::default()
        .hash_password_into(passphrase, salt, &mut out)
        .expect("argon2 failed");
    out.to_vec()
}

fn token_of(bytes: &[u8]) -> String {
    b64url(bytes)
}

fn credentials(token: &str) -> Credentials {
    Credentials {
        login: s("user@example.test"),
        user_id: s("user-1"),
        access_token: s(token),
        encrypted_password: s("irrelevant-here"),
        credential_type: CredentialType::Internal,
    }
}

fn user_with_verifier(verifier: Vec<u8>, salt: Vec<u8>, account_type: i64) -> User {
    User {
        _id: s("user-1"),
        verifier,
        salt: Some(salt),
        account_type,
        user_group: UserGroup {
            group_info: IdTuple::new(s("gl"), s("ge")),
        },
        external_auth_info: None,
    }
}

#[test]
fn session_id_is_deterministic_and_matches_the_hashes() {
    // The session id splits the decoded token after nine bytes and hashes
    // each part with SHA-256, base64url-encoding the digests.
    let f = facade();
    let raw: Vec<u8> = (0u8..16).collect();
    let token = token_of(&raw);
    let id1 = f.get_session_id(&token).expect("derivation failed");
    let id2 = f.get_session_id(&token).expect("derivation failed");
    assert_eq!(id1.list_id, id2.list_id);
    assert_eq!(id1.element_id, id2.element_id);

    assert_eq!(GENERATED_ID_BYTES_LENGTH, 9);
    let expected_list = b64url(&sha(&raw[..9]));
    let expected_element = b64url(&sha(&raw[9..]));
    assert_eq!(id1.list_id, expected_list);
    assert_eq!(id1.element_id, expected_element);
}

#[test]
fn distinct_tokens_give_distinct_session_ids() {
    let f = facade();
    let a: Vec<u8> = (0u8..16).collect();
    let mut b = a.clone();
    b[0] = 99;
    let id_a = f.get_session_id(&token_of(&a)).expect("derivation failed");
    let id_b = f.get_session_id(&token_of(&b)).expect("derivation failed");
    assert_ne!(id_a.list_id, id_b.list_id);
}

#[test]
fn malformed_or_short_tokens_are_typed_errors() {
    let f = facade();
    assert!(matches!(
        f.get_session_id("not base64url!!"),
        Err(ApiCallError::InternalSdkError { .. })
    ));
    let short: Vec<u8> = (0u8..5).collect();
    assert!(matches!(
        f.get_session_id(&token_of(&short)),
        Err(ApiCallError::InternalSdkError { .. })
    ));
}

#[test]
fn resume_is_rejected_while_running_without_state_change() {
    // Single-flight: starting a resume while one is Running fails with a
    // concurrency error and mutates nothing.
    let mut f = facade();
    f.start_background_resume().expect("first start failed");
    let creds = credentials(&token_of(&(0u8..16).collect::<Vec<u8>>()));
    match f.resume_session(&creds) {
        Err(ApiCallError::ConcurrencyError { .. }) => {},
        other => panic!("expected ConcurrencyError, got {:?}", other),
    }
    assert!(f.user_facade.get_user().is_none());
    assert!(f.user_facade.access_token.is_none());
    assert_eq!(f.async_login_state.phase, LoginPhase::Running);

    match f.start_background_resume() {
        Err(ApiCallError::ConcurrencyError { .. }) => {},
        other => panic!("expected ConcurrencyError, got {:?}", other),
    }
}

#[test]
fn resume_is_rejected_when_a_user_is_signed_in() {
    let mut f = facade();
    let user = user_with_verifier(vec![1], vec![0u8; 16], 1);
    f.user_facade.set_user(user);
    let creds = credentials(&token_of(&(0u8..16).collect::<Vec<u8>>()));
    assert!(matches!(
        f.resume_session(&creds),
        Err(ApiCallError::ConcurrencyError { .. })
    ));
}

#[test]
fn resume_installs_token_and_returns_session_id() {
    let mut f = facade();
    let raw: Vec<u8> = (10u8..30).collect();
    let token = token_of(&raw);
    let creds = credentials(&token);
    let id = f.resume_session(&creds).expect("resume start failed");
    assert_eq!(id.list_id, b64url(&sha(&raw[..9])));
    assert_eq!(f.user_facade.access_token.as_deref(), Some(token.as_str()));
    assert!(f.user_facade.get_user().is_none());
}

#[test]
fn verifier_mismatch_tears_the_session_down() {
    // A stored verifier that does not match SHA256(SHA256(derived key))
    // yields an authentication error, leaves the session state empty, and
    // demands the remote session's deletion.
    let mut f = facade();
    let raw: Vec<u8> = (0u8..18).collect();
    let token = token_of(&raw);
    let creds = credentials(&token);
    f.resume_session(&creds).expect("resume start failed");

    let salt = vec![7u8; 16];
    let user = user_with_verifier(vec![1, 2, 3], salt.clone(), 1);
    match f.resume_session_with_user(user, &CacheInfo { is_persistent: false, is_new_offline_db: false }) {
        Ok(ResumeBranch::FinishNow { user, passphrase_salt }) => {
            let failure = f
                .finish_resume_session(&creds, &passphrase_salt, None, "passphrase", user)
                .expect_err("expected verifier mismatch");
            assert!(matches!(failure.error, ApiCallError::AuthenticationError { .. }));
            assert_eq!(failure.delete_session_token.as_deref(), Some(token.as_str()));
            assert!(f.user_facade.get_user().is_none());
            assert!(f.user_facade.access_token.is_none());
        },
        other => panic!("expected FinishNow, got {:?}", other),
    }
}

#[test]
fn matching_verifier_completes_the_resume() {
    let mut f = facade();
    let raw: Vec<u8> = (0u8..18).collect();
    let token = token_of(&raw);
    let creds = credentials(&token);
    f.resume_session(&creds).expect("resume start failed");

    let salt = vec![7u8; 16];
    let passphrase = "correct horse";
    let key = argon_key(passphrase.as_bytes(), &salt);
    let verifier = sha(&sha(&key));
    let user = user_with_verifier(verifier, salt.clone(), 1);
    // A retained credential from an earlier failed round must not survive
    // a successful resume.
    f.async_login_state = AsyncLoginState {
        phase: LoginPhase::Failed,
        credentials: Some(credentials(&token)),
    };
    match f.resume_session_with_user(user, &CacheInfo { is_persistent: true, is_new_offline_db: true }) {
        Ok(ResumeBranch::FinishNow { user, passphrase_salt }) => {
            f.finish_resume_session(&creds, &passphrase_salt, None, passphrase, user)
                .expect("resume should succeed");
            assert_eq!(f.async_login_state.phase, LoginPhase::Idle);
            assert!(f.async_login_state.credentials.is_none());
            let signed_in = f.user_facade.get_user().as_ref().expect("user not installed");
            assert_eq!(signed_in._id, "user-1");
            assert_eq!(f.user_facade.access_token.as_deref(), Some(token.as_str()));
        },
        other => panic!("expected FinishNow, got {:?}", other),
    }
}

#[test]
fn external_salt_mismatch_is_a_stale_link() {
    let mut f = facade();
    let raw: Vec<u8> = (0u8..18).collect();
    let token = token_of(&raw);
    let creds = credentials(&token);

    let supplied_salt = vec![9u8; 16];
    let mut user = user_with_verifier(vec![0], vec![7u8; 16], 4);
    user.external_auth_info = Some(ExternalAuthInfo {
        latest_salt_hash: Some(sha(&vec![8u8; 16])),
    });
    let deriver = ExternalUserKeyDeriver { kdf_type: KdfType::Argon2id, salt: supplied_salt };
    let failure = f
        .finish_resume_session(&creds, &vec![7u8; 16], Some(&deriver), "pw", user)
        .expect_err("expected stale link");
    assert!(matches!(failure.error, ApiCallError::AuthenticationError { .. }));
    assert_eq!(failure.delete_session_token.as_deref(), Some(token.as_str()));
    assert!(f.user_facade.get_user().is_none());
}

#[test]
fn external_salt_match_completes_without_verifier_check() {
    let mut f = facade();
    let raw: Vec<u8> = (0u8..18).collect();
    let creds = credentials(&token_of(&raw));

    let supplied_salt = vec![9u8; 16];
    // The stored verifier is junk on purpose: external users are checked
    // against the salt hash instead.
    let mut user = user_with_verifier(vec![0xde, 0xad], vec![7u8; 16], 4);
    user.external_auth_info = Some(ExternalAuthInfo {
        latest_salt_hash: Some(sha(&supplied_salt)),
    });
    let deriver = ExternalUserKeyDeriver { kdf_type: KdfType::Argon2id, salt: supplied_salt };
    f.finish_resume_session(&creds, &vec![7u8; 16], Some(&deriver), "pw", user)
        .expect("external resume should succeed");
    assert!(f.user_facade.get_user().is_some());
    assert_eq!(f.async_login_state.phase, LoginPhase::Idle);
}

#[test]
fn paid_account_with_persistent_cache_defers() {
    let mut f = facade();
    let cache = CacheStorageLateInitializer::new().initialize();
    assert!(cache.is_persistent);
    assert!(cache.is_new_offline_db);
    let user = user_with_verifier(vec![1], vec![7u8; 16], 3);
    match f.resume_session_with_user(user, &cache) {
        Ok(ResumeBranch::DeferredBackground { passphrase_salt }) => {
            assert_eq!(passphrase_salt, vec![7u8; 16]);
            assert!(f.user_facade.get_user().is_some());
        },
        other => panic!("expected DeferredBackground, got {:?}", other),
    }
    f.start_background_resume().expect("background start failed");
    assert_eq!(f.async_login_state.phase, LoginPhase::Running);
}

#[test]
fn missing_or_malformed_salt_is_rejected_and_clears_the_session() {
    // A failed resume after the token install must not leave a stale
    // access token behind.
    let mut f = facade();
    let creds = credentials(&token_of(&(0u8..16).collect::<Vec<u8>>()));
    f.resume_session(&creds).expect("resume start failed");
    assert!(f.user_facade.access_token.is_some());
    let mut user = user_with_verifier(vec![1], vec![7u8; 16], 1);
    user.salt = None;
    assert!(matches!(
        f.resume_session_with_user(user, &CacheInfo { is_persistent: false, is_new_offline_db: false }),
        Err(ApiCallError::InternalSdkError { .. })
    ));
    assert!(f.user_facade.get_user().is_none());
    assert!(f.user_facade.access_token.is_none());

    let user = user_with_verifier(vec![1], vec![7u8; 3], 1);
    assert!(matches!(
        f.resume_session_with_user(user, &CacheInfo { is_persistent: false, is_new_offline_db: false }),
        Err(ApiCallError::InternalSdkError { .. })
    ));
    assert!(f.user_facade.access_token.is_none());
}

#[test]
fn account_type_decoding() {
    assert_eq!(AccountType::from(0).unwrap(), AccountType::SYSTEM);
    assert_eq!(AccountType::from(1).unwrap(), AccountType::FREE);
    assert_eq!(AccountType::from(2).unwrap(), AccountType::STARTER);
    assert_eq!(AccountType::from(3).unwrap(), AccountType::PAID);
    assert_eq!(AccountType::from(4).unwrap(), AccountType::EXTERNAL);
    assert!(matches!(
        AccountType::from(5),
        Err(ApiCallError::InternalSdkError { .. })
    ));
    assert!(matches!(
        AccountType::from(-1),
        Err(ApiCallError::InternalSdkError { .. })
    ));
}

#[test]
fn access_key_length_classification() {
    match LoginFacade::session_data_from(s("u"), Some(vec![0u8; 16])) {
        Ok(sd) => assert!(matches!(sd.access_key, Some(GenericAesKey::Aes128(_)))),
        other => panic!("unexpected {:?}", other),
    }
    match LoginFacade::session_data_from(s("u"), Some(vec![0u8; 32])) {
        Ok(sd) => assert!(matches!(sd.access_key, Some(GenericAesKey::Aes256(_)))),
        other => panic!("unexpected {:?}", other),
    }
    assert!(matches!(
        LoginFacade::session_data_from(s("u"), Some(vec![0u8; 24])),
        Err(ApiCallError::InternalSdkError { .. })
    ));
    match LoginFacade::session_data_from(s("u"), None) {
        Ok(sd) => assert!(sd.access_key.is_none()),
        other => panic!("unexpected {:?}", other),
    }
}

#[test]
fn bcrypt_is_not_implemented() {
    let salt = vec![0u8; 16];
    assert!(matches!(
        LoginFacade::derive_user_passphrase_key(KdfType::Bcrypt, "pw", &salt),
        Err(ApiCallError::NotImplemented { .. })
    ));
}

#[test]
fn derived_key_matches_argon2id() {
    let salt = vec![3u8; 16];
    match LoginFacade::derive_user_passphrase_key(KdfType::Argon2id, "pw", &salt) {
        Ok(GenericAesKey::Aes256(k)) => assert_eq!(k, argon_key(b"pw", &salt)),
        other => panic!("unexpected {:?}", other),
    }
}

#[test]
fn failure_classification() {
    // Session expiry returns to Idle and tells the listener the session
    // expired; other errors retain the credentials in Failed.
    let mut f = facade();
    f.start_background_resume().expect("start failed");
    let creds = credentials("tok");
    let d = f.record_resume_failure(
        creds,
        &ApiCallError::ServerResponseError { source: HttpError::SessionExpiredError },
    );
    assert_eq!(d.notify, LoginFailReason::SessionExpired);
    assert!(!d.retry_externally);
    assert_eq!(f.async_login_state.phase, LoginPhase::Idle);
    assert!(f.async_login_state.credentials.is_none());

    let mut f = facade();
    f.start_background_resume().expect("start failed");
    let creds = credentials("tok");
    let d = f.record_resume_failure(
        creds,
        &ApiCallError::ServerResponseError {
            source: HttpError::ServerError { status: 500, precondition: None },
        },
    );
    assert_eq!(d.notify, LoginFailReason::Error);
    assert!(!d.retry_externally);
    assert_eq!(f.async_login_state.phase, LoginPhase::Failed);
    assert_eq!(
        f.async_login_state.credentials.as_ref().map(|c| c.access_token.as_str()),
        Some("tok")
    );

    let mut f = facade();
    let creds = credentials("tok");
    let d = f.record_resume_failure(
        creds,
        &ApiCallError::ServerResponseError { source: HttpError::ConnectionError },
    );
    assert_eq!(d.notify, LoginFailReason::Error);
    assert!(d.retry_externally);
}

#[test]
fn delete_request_builds_the_session_url() {
    let f = facade();
    let raw: Vec<u8> = (0u8..12).collect();
    let token = token_of(&raw);
    let tref = TypeRef::new(s("sys"), s("Session"));
    let req: SessionDeleteRequest = f
        .session_delete_request(&tref, &s("73"), &token, None)
        .expect("request build failed");
    let expected = format!(
        "https://api.example.test/rest/sys/Session/{}/{}",
        b64url(&sha(&raw[..9])),
        b64url(&sha(&raw[9..])),
    );
    assert_eq!(req.url, expected);
    assert_eq!(req.access_token, token);
    assert_eq!(req.model_version, 73);

    let push = s("push-1");
    let req2 = f
        .session_delete_request(&tref, &s("73"), &token, Some(&push))
        .expect("request build failed");
    assert_eq!(req2.url, format!("{}?pushIdentifier=push-1", expected));

    assert!(matches!(
        f.session_delete_request(&tref, &s("seventy"), &token, None),
        Err(ApiCallError::InternalSdkError { .. })
    ));
}

#[test]
fn delete_response_classification() {
    assert!(LoginFacade::check_delete_response(200, None).is_ok());
    assert!(LoginFacade::check_delete_response(204, None).is_ok());
    match LoginFacade::check_delete_response(412, Some(s("lock"))) {
        Err(ApiCallError::ServerResponseError {
            source: HttpError::ServerError { status, precondition },
        }) => {
            assert_eq!(status, 412);
            assert_eq!(precondition.as_deref(), Some("lock"));
        },
        other => panic!("unexpected {:?}", other),
    }
}

#[test]
fn init_session_rejects_a_conflicting_user() {
    let mut f = facade();
    let other = User {
        _id: s("someone-else"),
        verifier: vec![],
        salt: None,
        account_type: 1,
        user_group: UserGroup { group_info: IdTuple::new(s("a"), s("b")) },
        external_auth_info: None,
    };
    f.user_facade.set_user(other);
    let user = user_with_verifier(vec![1], vec![0u8; 16], 1);
    let failure = f
        .init_session(user, "tok", None)
        .expect_err("expected conflict");
    assert!(matches!(failure.error, ApiCallError::ConcurrencyError { .. }));
    assert!(failure.delete_session_token.is_none());
}

#[test]
fn user_facade_holds_and_clears_state() {
    let mut uf = UserFacade::new();
    assert!(uf.get_user().is_none());
    uf.set_access_token("tok");
    assert_eq!(uf.access_token.as_deref(), Some("tok"));
    uf.set_user(user_with_verifier(vec![], vec![], 1));
    assert!(uf.get_user().is_some());
    uf.reset();
    assert!(uf.get_user().is_none());
    assert!(uf.access_token.is_none());
}

#[test]
fn credentials_conversion_and_type_values() {
    let uc = UnencryptedCredentials {
        credential_info: CredentialsInfo {
            login: s("user@example.test"),
            user_id: s("user-1"),
            credential_type: CredentialType::External,
        },
        access_token: s("tok"),
        database_key: None,
        encrypted_password: s("enc"),
    };
    let c = Credentials::from_unencrypted_credentials(uc);
    assert_eq!(c.login, "user@example.test");
    assert_eq!(c.user_id, "user-1");
    assert_eq!(c.access_token, "tok");
    assert_eq!(c.encrypted_password, "enc");
    assert_eq!(c.credential_type.value(), "external");
    assert_eq!(CredentialType::Internal.value(), "internal");

    let uc2 = UnencryptedCredentials {
        credential_info: CredentialsInfo {
            login: s("a"),
            user_id: s("b"),
            credential_type: CredentialType::Internal,
        },
        access_token: s("t"),
        database_key: Some(vec![1]),
        encrypted_password: s("e"),
    };
    let _controller = LoginController::new();
    let c2 = LoginController::resume_session(uc2, None, Some(30));
    assert_eq!(c2.user_id, "b");
    assert_eq!(c2.credential_type, CredentialType::Internal);
}

#[test]
fn verifier_matches_is_the_double_hash_comparison() {
    let key = vec![5u8; 32];
    let verifier = sha(&sha(&key));
    assert!(LoginFacade::verifier_matches(&verifier, &key));
    let mut wrong = verifier.clone();
    wrong[0] ^= 1;
    assert!(!LoginFacade::verifier_matches(&wrong, &key));
}

#[test]
fn external_user_without_salt_hash_is_an_internal_error() {
    let mut f = facade();
    let creds = credentials(&token_of(&(0u8..18).collect::<Vec<u8>>()));
    let user = user_with_verifier(vec![0], vec![7u8; 16], 4);
    let deriver = ExternalUserKeyDeriver { kdf_type: KdfType::Argon2id, salt: vec![9u8; 16] };
    let failure = f
        .finish_resume_session(&creds, &vec![7u8; 16], Some(&deriver), "pw", user)
        .expect_err("expected missing salt hash");
    assert!(matches!(failure.error, ApiCallError::InternalSdkError { .. }));
    assert!(failure.delete_session_token.is_none());
}

#[test]
fn reset_session_clears_everything() {
    let mut f = facade();
    f.user_facade.set_access_token("tok");
    f.user_facade.set_user(user_with_verifier(vec![], vec![], 1));
    f.reset_session();
    assert!(f.user_facade.get_user().is_none());
    assert!(f.user_facade.access_token.is_none());
}

#[test]
fn type_ref_of_a_model() {
    let tm = tuta_login_core::metamodel::TypeModel {
        app: s("sys"),
        name: s("Session"),
        element_type: tuta_login_core::metamodel::ElementType::ListElement,
        version: s("73"),
        values: vec![],
        associations: vec![],
    };
    let tr = tm.type_ref();
    assert_eq!(tr.app, "sys");
    assert_eq!(tr.type_, "Session");
}
