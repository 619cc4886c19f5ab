use lnav_rs_ext::auth::{
    do_login, set_login_otp, set_one_time_password, CredentialStore, LoginOutcome,
};

#[test]
fn login_with_correct_otp_grants_session() {
    let mut store = CredentialStore::new(String::new());
    set_login_otp(&mut store, "secret-1".to_string());
    let outcome = do_login(&mut store, Some("secret-1".to_string()), None);
    match outcome {
        LoginOutcome::Granted {
            session_id,
            set_cookie,
            target,
        } => {
            assert_eq!(set_cookie, format!("lnav_session_id={}; Path=/", session_id));
            assert_eq!(target, "/");
            assert!(store.has_session(&session_id));
        }
        LoginOutcome::Denied => panic!("expected a granted login"),
    }
    assert!(store.otp.is_none());
}

#[test]
fn login_redirect_target_is_echoed() {
    let mut store = CredentialStore::new(String::new());
    set_login_otp(&mut store, "abc".to_string());
    let outcome = do_login(&mut store, Some("abc".to_string()), Some("/ui".to_string()));
    match outcome {
        LoginOutcome::Granted { target, .. } => assert_eq!(target, "/ui"),
        LoginOutcome::Denied => panic!("expected a granted login"),
    }
}

#[test]
fn second_login_with_same_otp_fails() {
    let mut store = CredentialStore::new(String::new());
    set_login_otp(&mut store, "once".to_string());
    assert!(matches!(
        do_login(&mut store, Some("once".to_string()), None),
        LoginOutcome::Granted { .. }
    ));
    assert!(matches!(
        do_login(&mut store, Some("once".to_string()), None),
        LoginOutcome::Denied
    ));
}

#[test]
fn wrong_otp_consumes_the_secret() {
    let mut store = CredentialStore::new(String::new());
    set_login_otp(&mut store, "right".to_string());
    assert!(matches!(
        do_login(&mut store, Some("wrong".to_string()), None),
        LoginOutcome::Denied
    ));
    // The stored secret is gone: the correct value no longer works.
    assert!(matches!(
        do_login(&mut store, Some("right".to_string()), None),
        LoginOutcome::Denied
    ));
    // Only a freshly stored secret allows a login again.
    set_login_otp(&mut store, "right".to_string());
    assert!(matches!(
        do_login(&mut store, Some("right".to_string()), None),
        LoginOutcome::Granted { .. }
    ));
}

#[test]
fn login_without_stored_otp_is_denied() {
    let mut store = CredentialStore::new(String::new());
    assert!(matches!(
        do_login(&mut store, Some("anything".to_string()), None),
        LoginOutcome::Denied
    ));
}

#[test]
fn login_without_parameter_is_denied_and_consumes() {
    let mut store = CredentialStore::new(String::new());
    set_login_otp(&mut store, "x".to_string());
    assert!(matches!(do_login(&mut store, None, None), LoginOutcome::Denied));
    assert!(store.otp.is_none());
}

#[test]
fn unknown_cookie_is_rejected_even_with_valid_api_key() {
    let mut store = CredentialStore::new("key-123".to_string());
    set_login_otp(&mut store, "p".to_string());
    let _ = do_login(&mut store, Some("p".to_string()), None);
    let stranger = "not-a-session".to_string();
    let key = "key-123".to_string();
    assert!(!store.authorize(Some(&stranger), Some(&key)));
}

#[test]
fn known_cookie_is_accepted() {
    let mut store = CredentialStore::new(String::new());
    set_login_otp(&mut store, "p".to_string());
    let session = match do_login(&mut store, Some("p".to_string()), None) {
        LoginOutcome::Granted { session_id, .. } => session_id,
        LoginOutcome::Denied => panic!("expected a granted login"),
    };
    assert!(store.authorize(Some(&session), None));
}

#[test]
fn api_key_must_be_configured_and_match() {
    let with_key = CredentialStore::new("k".to_string());
    let good = "k".to_string();
    let bad = "other".to_string();
    assert!(with_key.authorize(None, Some(&good)));
    assert!(!with_key.authorize(None, Some(&bad)));
    assert!(!with_key.authorize(None, None));
    // An empty configured key disables the credential entirely.
    let empty_key = CredentialStore::new(String::new());
    let empty = String::new();
    assert!(!empty_key.authorize(None, Some(&empty)));
    assert!(!empty_key.authorize(None, None));
}

#[test]
fn set_one_time_password_stores_what_it_returns() {
    let mut store = CredentialStore::new(String::new());
    let otp = set_one_time_password(&mut store);
    assert_eq!(otp.len(), 36);
    assert_eq!(store.otp.as_deref(), Some(otp.as_str()));
    assert!(matches!(
        do_login(&mut store, Some(otp), None),
        LoginOutcome::Granted { .. }
    ));
}

#[test]
fn minted_tokens_differ_between_logins() {
    let mut store = CredentialStore::new(String::new());
    set_login_otp(&mut store, "a".to_string());
    let first = match do_login(&mut store, Some("a".to_string()), None) {
        LoginOutcome::Granted { session_id, .. } => session_id,
        LoginOutcome::Denied => panic!("expected a granted login"),
    };
    set_login_otp(&mut store, "b".to_string());
    let second = match do_login(&mut store, Some("b".to_string()), None) {
        LoginOutcome::Granted { session_id, .. } => session_id,
        LoginOutcome::Denied => panic!("expected a granted login"),
    };
    assert_ne!(first, second);
    assert!(store.has_session(&first));
    assert!(store.has_session(&second));
}
