//! The SQL storage handle and the credential store: users with unique
//! usernames and their password hashes.

use rusqlite::types::Value;
use rusqlite::{params_from_iter, Connection, ErrorCode};
use vstd::prelude::*;
use vstd::string::StringExecFns;

verus! {

#[verifier::external_type_specification]
#[verifier::external_body]
pub struct ExConnection(Connection);

/// A positional parameter of an SQL statement.
#[derive(Debug, Clone, PartialEq, Eq)]
pub enum SqlValue {
    Text(String),
    Integer(i64),
}

/// How a statement failed.
#[derive(Debug, Clone, Copy, PartialEq, Eq, Structural)]
pub enum SqlFailure {
    /// The store rejected a write that breaks a constraint (a duplicate key).
    Constraint,
    /// Any other storage failure.
    Other,
}

/// Errors of the credential store.
#[derive(Debug, Clone, Copy, PartialEq, Eq, Structural)]
pub enum CredentialError {
    /// A user with that username already exists.
    DuplicateUsername,
    /// The store could not be used.
    StoreError,
}

pub const CREATE_USERS_TABLE: &'static str = "CREATE TABLE IF NOT EXISTS users (id INTEGER PRIMARY KEY AUTOINCREMENT, username TEXT UNIQUE NOT NULL, password_hash TEXT NOT NULL)";

pub const CREATE_SESSIONS_TABLE: &'static str = "CREATE TABLE IF NOT EXISTS sessions (id TEXT PRIMARY KEY, username TEXT NOT NULL, created_at INTEGER NOT NULL)";

pub const INSERT_USER: &'static str = "INSERT INTO users (username, password_hash) VALUES (?1, ?2)";

pub const SELECT_PASSWORD_HASH: &'static str = "SELECT password_hash FROM users WHERE username = ?1";

/// Relies on `Connection::execute`: runs one statement with positional
/// parameters and returns the number of rows it changed; a failure whose
/// primary code is `ConstraintViolation` is told apart from the others.
#[verifier::external_body]
pub(crate) fn sql_execute(conn: &Connection, sql: &str, args: &Vec<SqlValue>) -> (r: Result<usize, SqlFailure>) {
    let values = args.iter().map(|a| match a {
        SqlValue::Text(s) => Value::from(s.clone()),
        SqlValue::Integer(i) => Value::from(*i),
    });
    match conn.execute(sql, params_from_iter(values)) {
        Ok(n) => Ok(n),
        Err(rusqlite::Error::SqliteFailure(f, _)) if f.code == ErrorCode::ConstraintViolation => Err(SqlFailure::Constraint),
        Err(_) => Err(SqlFailure::Other),
    }
}

/// Relies on `Connection::query_row`: runs one query with positional
/// parameters and reads the first column of its first row as text;
/// `QueryReturnedNoRows` means there is no such row.
#[verifier::external_body]
pub(crate) fn sql_query_text(conn: &Connection, sql: &str, args: &Vec<SqlValue>) -> (r: Result<Option<String>, SqlFailure>) {
    let values = args.iter().map(|a| match a {
        SqlValue::Text(s) => Value::from(s.clone()),
        SqlValue::Integer(i) => Value::from(*i),
    });
    match conn.query_row(sql, params_from_iter(values), |row| row.get::<usize, String>(0)) {
        Ok(s) => Ok(Some(s)),
        Err(rusqlite::Error::QueryReturnedNoRows) => Ok(None),
        Err(_) => Err(SqlFailure::Other),
    }
}

/// Whether `v` is the text `s`.
pub open spec fn is_text(v: SqlValue, s: Seq<char>) -> bool {
    v matches SqlValue::Text(t) && t@ == s
}

/// The parameters of the user insert: `(username, password_hash)`.
pub fn user_row(username: &str, password_hash: &str) -> (r: Vec<SqlValue>)
    ensures
        r@.len() == 2,
        is_text(r@[0], username@),
        is_text(r@[1], password_hash@),
{
    let mut r: Vec<SqlValue> = Vec::new();
    r.push(SqlValue::Text(String::from_str(username)));
    r.push(SqlValue::Text(String::from_str(password_hash)));
    r
}

/// The parameter of the password hash lookup: `(username)`.
pub fn username_key(username: &str) -> (r: Vec<SqlValue>)
    ensures
        r@.len() == 1,
        is_text(r@[0], username@),
{
    let mut r: Vec<SqlValue> = Vec::new();
    r.push(SqlValue::Text(String::from_str(username)));
    r
}

/// Creates the users and sessions tables unless they exist.
pub fn init_schema(conn: &Connection) -> (r: Result<(), SqlFailure>) {
    let no_args: Vec<SqlValue> = Vec::new();
    match sql_execute(conn, CREATE_USERS_TABLE, &no_args) {
        Ok(_) => {},
        Err(e) => return Err(e),
    }
    match sql_execute(conn, CREATE_SESSIONS_TABLE, &no_args) {
        Ok(_) => Ok(()),
        Err(e) => Err(e),
    }
}

/// What inserting a user amounts to, given how the insert went: a
/// constraint failure can only be the username's uniqueness.
pub open spec fn user_insert_outcome(res: Result<usize, SqlFailure>) -> Result<(), CredentialError> {
    match res {
        Ok(_) => Ok(()),
        Err(SqlFailure::Constraint) => Err(CredentialError::DuplicateUsername),
        Err(SqlFailure::Other) => Err(CredentialError::StoreError),
    }
}

/// Maps the result of the user insert to the credential store's outcome.
pub fn classify_user_insert(res: Result<usize, SqlFailure>) -> (r: Result<(), CredentialError>)
    ensures
        r == user_insert_outcome(res),
{
    match res {
        Ok(_) => Ok(()),
        Err(SqlFailure::Constraint) => Err(CredentialError::DuplicateUsername),
        Err(SqlFailure::Other) => Err(CredentialError::StoreError),
    }
}

/// Stores a new user. The store itself rejects a second user with the same
/// username, atomically; that comes back as `DuplicateUsername`.
pub fn create_user(conn: &Connection, username: &str, password_hash: &str) -> (r: Result<(), CredentialError>) {
    let args = user_row(username, password_hash);
    let res = sql_execute(conn, INSERT_USER, &args);
    classify_user_insert(res)
}

/// Looks up the stored password hash of `username`: `Ok(None)` when there
/// is no such user.
pub fn find_password_hash(conn: &Connection, username: &str) -> (r: Result<Option<String>, CredentialError>)
    ensures
        r matches Err(e) ==> e == CredentialError::StoreError,
{
    let args = username_key(username);
    match sql_query_text(conn, SELECT_PASSWORD_HASH, &args) {
        Ok(found) => Ok(found),
        Err(_) => Err(CredentialError::StoreError),
    }
}

} // verus!
