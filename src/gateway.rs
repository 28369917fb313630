//! The forward-auth check and the login, registration and logout flows that
//! drive the hasher, the credential store and the session manager.

use crate::hasher::{hash_password, verify_outcome, verify_password, HashError, MAX_PASSWORD_CHARS};
use crate::sessions::{SessionError, create_session, delete_session, get_session_username, session_id_shape};
use crate::store::{create_user, find_password_hash, user_insert_outcome, CredentialError, SqlFailure};
use axum::http::HeaderValue;
use rusqlite::Connection;
use vstd::prelude::*;
use vstd::string::StringExecFns;

verus! {

pub const SESSION_COOKIE: &'static str = "session";

pub const ROOT_PATH: &'static str = "/";

pub const INVALID_CREDENTIALS_TEXT: &'static str = "Invalid username or password";

pub const DUPLICATE_USERNAME_TEXT: &'static str = "Username already exists";

pub const INTERNAL_ERROR_TEXT: &'static str = "Internal server error";

/// Whether a character may stand in an HTTP header value: a tab, or anything
/// from the space on except DEL (characters past ASCII encode to bytes of 128
/// and more, which are allowed).
pub open spec fn header_char_ok(c: char) -> bool {
    c == '\t' || (' ' <= c && c != '\x7f')
}

pub open spec fn header_value_ok(s: Seq<char>) -> bool {
    forall|i: int| 0 <= i < s.len() ==> header_char_ok(#[trigger] s[i])
}

/// Relies on `HeaderValue::from_str`, which accepts exactly the strings whose
/// bytes are all a tab, or at least 32 and not 127.
#[verifier::external_body]
fn is_header_value(s: &str) -> (r: bool)
    ensures
        r == header_value_ok(s@),
{
    HeaderValue::from_str(s).is_ok()
}

/// The answer of the forward-auth check.
#[derive(Debug, Clone, PartialEq, Eq)]
pub enum AuthDecision {
    /// 200, with `Remote-User` carrying the authenticated username.
    Allow(String),
    /// 401, with nothing that says why.
    Deny,
}

pub open spec fn status_of(d: AuthDecision) -> u16 {
    match d {
        AuthDecision::Allow(_) => 200,
        AuthDecision::Deny => 401,
    }
}

impl AuthDecision {
    /// The HTTP status of this answer.
    pub fn status(&self) -> (r: u16)
        ensures
            r == status_of(*self),
    {
        match self {
            AuthDecision::Allow(_) => 200,
            AuthDecision::Deny => 401,
            }
    }

    /// The value of the `Remote-User` header, present only on 200.
    pub fn remote_user(&self) -> (r: Option<String>)
        ensures
            match *self {
                AuthDecision::Allow(u) => r == Some(u),
                _ => r is None,
            },
    {
        match self {
            AuthDecision::Allow(u) => Some(u.clone()),
            _ => None,
        }
    }
}

/// The forward-auth answer once the session lookup has returned.
pub open spec fn auth_outcome(username: Option<String>) -> AuthDecision {
    match username {
        None => AuthDecision::Deny,
        Some(u) => if header_value_ok(u@) {
            AuthDecision::Allow(u)
        } else {
            AuthDecision::Deny
        },
    }
}

/// Turns the result of the session lookup into the forward-auth answer.
pub fn decide_auth(username: Option<String>) -> (r: AuthDecision)
    ensures
        r == auth_outcome(username),
{
    match username {
        None => AuthDecision::Deny,
        Some(u) => if is_header_value(u.as_str()) {
            AuthDecision::Allow(u)
        } else {
            AuthDecision::Deny
        },
    }
}

/// The forward-auth check: no cookie, an unknown session and a malformed
/// session id are all the same 401; a live session is 200 with its username.
/// It changes nothing.
pub fn auth_check(conn: &Connection, session_cookie: Option<&str>) -> (r: AuthDecision)
    ensures
        session_cookie is None ==> r == AuthDecision::Deny,
        session_cookie matches Some(c) && !session_id_shape(c@) ==> r == AuthDecision::Deny,
        r matches AuthDecision::Allow(u) ==> header_value_ok(u@),
{
    match session_cookie {
        None => AuthDecision::Deny,
        Some(c) => {
            let found = get_session_username(conn, c);
            decide_auth(found)
        },
    }
}

/// Why a login failed. An unknown username and a wrong password are the
/// same error, so the answer does not tell which usernames exist.
#[derive(Debug, Clone, Copy, PartialEq, Eq, Structural)]
pub enum LoginError {
    InvalidCredentials,
    Internal,
}

pub open spec fn login_error_text(e: LoginError) -> Seq<char> {
    match e {
        LoginError::InvalidCredentials => INVALID_CREDENTIALS_TEXT@,
        LoginError::Internal => INTERNAL_ERROR_TEXT@,
    }
}

impl LoginError {
    /// The text shown to the user.
    pub fn message(&self) -> (r: String)
        ensures
            r@ == login_error_text(*self),
    {
        match self {
            LoginError::InvalidCredentials => String::from_str(INVALID_CREDENTIALS_TEXT),
            LoginError::Internal => String::from_str(INTERNAL_ERROR_TEXT),
        }
    }
}

/// The login verdict from the stored hash of the username (`None`: no such
/// user) and the outcome of checking the password against it.
pub open spec fn login_verdict(checked: Option<Result<bool, HashError>>) -> Result<(), LoginError> {
    match checked {
        None => Err(LoginError::InvalidCredentials),
        Some(Ok(true)) => Ok(()),
        Some(Ok(false)) => Err(LoginError::InvalidCredentials),
        Some(Err(_)) => Err(LoginError::Internal),
    }
}

/// Decides a login from the password check, `None` when the user is unknown.
pub fn decide_login(checked: Option<Result<bool, HashError>>) -> (r: Result<(), LoginError>)
    ensures
        r == login_verdict(checked),
{
    match checked {
        None => Err(LoginError::InvalidCredentials),
        Some(Ok(true)) => Ok(()),
        Some(Ok(false)) => Err(LoginError::InvalidCredentials),
        Some(Err(_)) => Err(LoginError::Internal),
    }
}

/// Whether `password` is the secret of a user whose stored hash lookup gave
/// `stored`.
pub open spec fn credential_outcome(stored: Result<Option<String>, CredentialError>, password: Seq<char>) -> Result<(), LoginError> {
    match stored {
        Err(_) => Err(LoginError::Internal),
        Ok(None) => login_verdict(None),
        Ok(Some(h)) => login_verdict(Some(verify_outcome(password, h@))),
    }
}

/// Checks `password` against what the lookup of the user's hash gave.
pub fn check_credentials(stored: &Result<Option<String>, CredentialError>, password: &str) -> (r: Result<(), LoginError>)
    ensures
        r == credential_outcome(*stored, password@),
{
    match stored {
        Err(_) => Err(LoginError::Internal),
        Ok(None) => decide_login(None),
        Ok(Some(h)) => {
            let checked = verify_password(password, h.as_str());
            decide_login(Some(checked))
        },
    }
}

/// The login result from the lookup of the user's hash and, once the
/// password has verified, the result of issuing the session.
pub open spec fn login_outcome(
    stored: Result<Option<String>, CredentialError>,
    password: Seq<char>,
    issued: Result<String, SessionError>,
) -> Result<String, LoginError> {
    match credential_outcome(stored, password) {
        Err(e) => Err(e),
        Ok(()) => match issued {
            Ok(id) => Ok(id),
            Err(_) => Err(LoginError::Internal),
        },
    }
}

/// Logs a user in: on valid credentials a new session is issued and its id
/// returned, to be sent back as the `session` cookie.
pub fn login(conn: &Connection, username: &str, password: &str) -> (r: Result<String, LoginError>)
    ensures
        r matches Ok(id) ==> session_id_shape(id@),
        r is Ok ==> exists|h: String|
            #[trigger] verify_outcome(password@, h@) == Ok::<bool, HashError>(true),
        exists|stored: Result<Option<String>, CredentialError>, issued: Result<String, SessionError>|
            (issued matches Ok(id) ==> session_id_shape(id@))
                && r == #[trigger] login_outcome(stored, password@, issued),
{
    let stored = find_password_hash(conn, username);
    let checked = check_credentials(&stored, password);
    assert(checked == credential_outcome(stored, password@));
    proof {
        if checked is Ok {
            let h = stored->Ok_0->Some_0;
            assert(verify_outcome(password@, h@) == Ok::<bool, HashError>(true));
        }
    }
    match checked {
        Err(e) => {
            assert(login_outcome(stored, password@, Err(SessionError::StoreError)) == Err::<String, LoginError>(e));
            Err(e)
        },
        Ok(()) => {
            let issued = create_session(conn, username);
            let r = match &issued {
                Ok(id) => Ok(id.clone()),
                Err(_) => Err(LoginError::Internal),
            };
            assert(r == login_outcome(stored, password@, issued));
            r
        },
    }
}

/// Why a registration failed.
#[derive(Debug, Clone, Copy, PartialEq, Eq, Structural)]
pub enum RegisterError {
    DuplicateUsername,
    Internal,
}

pub open spec fn register_error_text(e: RegisterError) -> Seq<char> {
    match e {
        RegisterError::DuplicateUsername => DUPLICATE_USERNAME_TEXT@,
        RegisterError::Internal => INTERNAL_ERROR_TEXT@,
    }
}

impl RegisterError {
    /// The text shown to the user.
    pub fn message(&self) -> (r: String)
        ensures
            r@ == register_error_text(*self),
    {
        match self {
            RegisterError::DuplicateUsername => String::from_str(DUPLICATE_USERNAME_TEXT),
            RegisterError::Internal => String::from_str(INTERNAL_ERROR_TEXT),
        }
    }
}

/// The registration outcome from the result of storing the user.
pub open spec fn registration_outcome(stored: Result<(), CredentialError>) -> Result<(), RegisterError> {
    match stored {
        Ok(()) => Ok(()),
        Err(CredentialError::DuplicateUsername) => Err(RegisterError::DuplicateUsername),
        Err(CredentialError::StoreError) => Err(RegisterError::Internal),
    }
}

/// Maps the result of storing the user to the registration outcome.
pub fn decide_registration(stored: Result<(), CredentialError>) -> (r: Result<(), RegisterError>)
    ensures
        r == registration_outcome(stored),
{
    match stored {
        Ok(()) => Ok(()),
        Err(CredentialError::DuplicateUsername) => Err(RegisterError::DuplicateUsername),
        Err(CredentialError::StoreError) => Err(RegisterError::Internal),
    }
}

/// Registers a user: hashes the password and stores the pair. The store's
/// own uniqueness of usernames decides `DuplicateUsername`.
pub fn register_user(conn: &Connection, username: &str, password: &str) -> (r: Result<(), RegisterError>)
    ensures
        password@.len() <= MAX_PASSWORD_CHARS ==> exists|h: String, res: Result<usize, SqlFailure>|
            #![trigger verify_outcome(password@, h@), user_insert_outcome(res)]
            verify_outcome(password@, h@) == Ok::<bool, HashError>(true)
                && r == registration_outcome(user_insert_outcome(res)),
{
    let hashed = match hash_password(password) {
        Ok(h) => h,
        Err(_) => return Err(RegisterError::Internal),
    };
    let stored = create_user(conn, username, hashed.as_str());
    let r = decide_registration(stored);
    proof {
        let res: Result<usize, SqlFailure> = match stored {
            Ok(()) => Ok(1usize),
            Err(CredentialError::DuplicateUsername) => Err(SqlFailure::Constraint),
            Err(CredentialError::StoreError) => Err(SqlFailure::Other),
        };
        assert(verify_outcome(password@, hashed@) == Ok::<bool, HashError>(true));
        assert(r == registration_outcome(user_insert_outcome(res)));
    }
    r
}

/// Ends the session named by the `session` cookie, if one was sent. Returns
/// whether the caller must tell the client to expire the cookie: only when
/// there was one. A session that is already gone is not an error.
pub fn logout(conn: &Connection, session_cookie: Option<&str>) -> (r: bool)
    ensures
        r == session_cookie is Some,
{
    match session_cookie {
        None => false,
        Some(c) => {
            let _ = delete_session(conn, c);
            true
        },
    }
}

/// A cookie for the caller to set on the response.
#[derive(Debug, Clone, PartialEq, Eq)]
pub struct SessionCookie {
    pub name: String,
    pub value: String,
    pub path: String,
    pub http_only: bool,
    pub secure: bool,
    pub same_site_lax: bool,
    /// Set with a max-age of zero, so the client drops it at once.
    pub expire_now: bool,
}

/// The cookie that carries a new session id: `session`, path `/`,
/// `HttpOnly`, `Secure`, `SameSite=Lax`.
pub fn login_cookie(session_id: String) -> (r: SessionCookie)
    ensures
        r.name@ == SESSION_COOKIE@,
        r.value == session_id,
        r.path@ == ROOT_PATH@,
        r.http_only && r.secure && r.same_site_lax,
        !r.expire_now,
{
    SessionCookie {
        name: String::from_str(SESSION_COOKIE),
        value: session_id,
        path: String::from_str(ROOT_PATH),
        http_only: true,
        secure: true,
        same_site_lax: true,
        expire_now: false,
    }
}

/// The cookie that removes the session cookie: same name and path, empty
/// value, max-age zero.
pub fn removal_cookie() -> (r: SessionCookie)
    ensures
        r.name@ == SESSION_COOKIE@,
        r.value@.len() == 0,
        r.path@ == ROOT_PATH@,
        r.expire_now,
{
    SessionCookie {
        name: String::from_str(SESSION_COOKIE),
        value: String::new(),
        path: String::from_str(ROOT_PATH),
        http_only: false,
        secure: false,
        same_site_lax: false,
        expire_now: true,
    }
}

} // verus!

verus! {

/// The fields of a login form.
#[derive(Debug, Clone, PartialEq, Eq)]
pub struct LoginPayload {
    pub username: String,
    pub password: String,
}

/// The fields of a registration form.
#[derive(Debug, Clone, PartialEq, Eq)]
pub struct RegisterPayload {
    pub username: String,
    pub password: String,
}

} // verus!
