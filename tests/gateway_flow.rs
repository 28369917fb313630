use rusqlite::Connection;
use rusty_auth::gateway::{
    auth_check, check_credentials, decide_auth, decide_login, decide_registration, login,
    login_cookie, logout, register_user, removal_cookie, AuthDecision, LoginError, RegisterError,
};
use rusty_auth::hasher::HashError;
use rusty_auth::store::{init_schema, CredentialError};

fn open() -> Connection {
    let conn = Connection::open_in_memory().unwrap();
    init_schema(&conn).unwrap();
    conn
}

#[test]
fn register_login_check_logout_round_trip() {
    let conn = open();
    assert_eq!(register_user(&conn, "alice", "pw1"), Ok(()));
    let id = login(&conn, "alice", "pw1").unwrap();
    let cookie = login_cookie(id.clone());
    assert_eq!(cookie.name, "session");
    assert_eq!(cookie.value, id);
    let answer = auth_check(&conn, Some(&cookie.value));
    assert_eq!(answer.status(), 200);
    assert_eq!(answer.remote_user(), Some("alice".to_string()));
    assert!(logout(&conn, Some(&cookie.value)));
    let gone = removal_cookie();
    assert_eq!(gone.name, "session");
    assert!(gone.expire_now);
    let after = auth_check(&conn, Some(&cookie.value));
    assert_eq!(after.status(), 401);
    assert_eq!(after.remote_user(), None);
}

#[test]
fn auth_check_without_cookie_is_401() {
    let conn = open();
    let answer = auth_check(&conn, None);
    assert_eq!(answer, AuthDecision::Deny);
    assert_eq!(answer.status(), 401);
    assert_eq!(answer.remote_user(), None);
}

#[test]
fn auth_check_with_unknown_or_malformed_cookie_is_401() {
    let conn = open();
    assert_eq!(auth_check(&conn, Some("nonsense")), AuthDecision::Deny);
    assert_eq!(auth_check(&conn, Some("67e55044-10b1-426f-9247-bb680e5fe0c8")), AuthDecision::Deny);
}

#[test]
fn wrong_password_and_unknown_user_look_alike() {
    let conn = open();
    register_user(&conn, "alice", "pw1").unwrap();
    let wrong = login(&conn, "alice", "nope").unwrap_err();
    let unknown = login(&conn, "mallory", "pw1").unwrap_err();
    assert_eq!(wrong, unknown);
    assert_eq!(wrong.message(), unknown.message());
    assert_eq!(wrong.message(), "Invalid username or password");
}

#[test]
fn second_registration_is_duplicate() {
    let conn = open();
    assert_eq!(register_user(&conn, "bob", "one"), Ok(()));
    assert_eq!(register_user(&conn, "bob", "two"), Err(RegisterError::DuplicateUsername));
    assert!(login(&conn, "bob", "one").is_ok());
    assert_eq!(login(&conn, "bob", "two"), Err(LoginError::InvalidCredentials));
}

#[test]
fn corrupted_stored_hash_is_internal() {
    let stored = Ok(Some("corrupted".to_string()));
    assert_eq!(check_credentials(&stored, "pw"), Err(LoginError::Internal));
    assert_eq!(check_credentials(&Ok(None), "pw"), Err(LoginError::InvalidCredentials));
    assert_eq!(check_credentials(&Err(CredentialError::StoreError), "pw"), Err(LoginError::Internal));
}

#[test]
fn login_decisions() {
    assert_eq!(decide_login(None), Err(LoginError::InvalidCredentials));
    assert_eq!(decide_login(Some(Ok(true))), Ok(()));
    assert_eq!(decide_login(Some(Ok(false))), Err(LoginError::InvalidCredentials));
    assert_eq!(decide_login(Some(Err(HashError::MalformedHash))), Err(LoginError::Internal));
    assert_eq!(LoginError::Internal.message(), "Internal server error");
}

#[test]
fn registration_decisions() {
    assert_eq!(decide_registration(Ok(())), Ok(()));
    assert_eq!(decide_registration(Err(CredentialError::DuplicateUsername)), Err(RegisterError::DuplicateUsername));
    assert_eq!(decide_registration(Err(CredentialError::StoreError)), Err(RegisterError::Internal));
    assert_eq!(RegisterError::DuplicateUsername.message(), "Username already exists");
    assert_eq!(RegisterError::Internal.message(), "Internal server error");
}

#[test]
fn auth_decisions() {
    assert_eq!(decide_auth(None), AuthDecision::Deny);
    assert_eq!(decide_auth(Some("carol".to_string())), AuthDecision::Allow("carol".to_string()));
    assert_eq!(decide_auth(Some("bad\nname".to_string())), AuthDecision::Deny);
    assert_eq!(decide_auth(Some("tab\tname é".to_string())), AuthDecision::Allow("tab\tname é".to_string()));
    assert_eq!(AuthDecision::Deny.status(), 401);
    assert_eq!(AuthDecision::Allow("x".to_string()).status(), 200);
}

#[test]
fn logout_without_cookie_expires_nothing() {
    let conn = open();
    assert!(!logout(&conn, None));
    assert!(logout(&conn, Some("already-gone")));
}

#[test]
fn session_cookie_attributes() {
    let c = login_cookie("abc".to_string());
    assert_eq!(c.path, "/");
    assert!(c.http_only && c.secure && c.same_site_lax);
    assert!(!c.expire_now);
    let r = removal_cookie();
    assert_eq!(r.path, "/");
    assert_eq!(r.value, "");
}

#[test]
fn stored_username_unfit_for_a_header_is_denied() {
    let conn = open();
    let id = rusty_auth::sessions::create_session(&conn, "eve\r\nX-Admin: 1").unwrap();
    let answer = auth_check(&conn, Some(&id));
    assert_eq!(answer, AuthDecision::Deny);
    assert_eq!(answer.status(), 401);
    assert_eq!(answer.remote_user(), None);
}

#[test]
fn register_stores_a_verifying_hash() {
    let conn = open();
    register_user(&conn, "dave", "s3cret").unwrap();
    let stored = rusty_auth::store::find_password_hash(&conn, "dave").unwrap().unwrap();
    assert_ne!(stored, "s3cret");
    assert_eq!(rusty_auth::hasher::verify_password("s3cret", &stored), Ok(true));
}

#[test]
fn login_session_resolves_to_user() {
    let conn = open();
    register_user(&conn, "erin", "pw").unwrap();
    let id = login(&conn, "erin", "pw").unwrap();
    assert_eq!(rusty_auth::sessions::get_session_username(&conn, &id), Some("erin".to_string()));
    assert!(logout(&conn, Some(&id)));
    assert_eq!(rusty_auth::sessions::get_session_username(&conn, &id), None);
}
