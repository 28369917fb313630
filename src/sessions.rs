//! Session manager: issues, validates and revokes session tokens bound to
//! a username.

use crate::store::{is_text, sql_execute, sql_query_text, SqlFailure, SqlValue};
use rusqlite::Connection;
use uuid::Uuid;
use vstd::prelude::*;
use vstd::string::{StrSliceExecFns, StringExecFns};

verus! {

/// Errors of the session manager.
#[derive(Debug, Clone, Copy, PartialEq, Eq, Structural)]
pub enum SessionError {
    /// No session with that id exists.
    NotFound,
    /// The store could not be used.
    StoreError,
}

pub const INSERT_SESSION: &'static str = "INSERT INTO sessions (id, username, created_at) VALUES (?1, ?2, ?3)";

pub const DELETE_SESSION: &'static str = "DELETE FROM sessions WHERE id = ?1";

pub const SELECT_SESSION_USERNAME: &'static str = "SELECT username FROM sessions WHERE id = ?1";

pub open spec fn is_lower_hex(c: char) -> bool {
    ('0' <= c && c <= '9') || ('a' <= c && c <= 'f')
}

pub open spec fn is_hyphen_position(i: int) -> bool {
    i == 8 || i == 13 || i == 18 || i == 23
}

/// The shape of every session id: a hyphenated lower-case UUID,
/// `xxxxxxxx-xxxx-xxxx-xxxx-xxxxxxxxxxxx`.
pub open spec fn session_id_shape(s: Seq<char>) -> bool {
    &&& s.len() == 36
    &&& forall|i: int|
        0 <= i < 36 ==> if is_hyphen_position(i) {
            s[i] == '-'
        } else {
            is_lower_hex(s[i])
        }
}

/// Relies on `Uuid::new_v4` for 122 bits from the operating system's random
/// source, and on its `Display`, which writes the hyphenated lower-case form.
#[verifier::external_body]
fn new_session_id() -> (r: String)
    ensures
        session_id_shape(r@),
{
    Uuid::new_v4().to_string()
}

/// Relies on `chrono::Utc::now().timestamp()`: seconds since the Unix epoch.
#[verifier::external_body]
fn unix_now() -> (r: i64) {
    chrono::Utc::now().timestamp()
}

/// Whether `s` has the shape of a session id. Anything else cannot name a
/// session, so it is answered without asking the store.
pub fn is_session_id_shaped(s: &str) -> (r: bool)
    ensures
        r == session_id_shape(s@),
{
    let n = s.unicode_len();
    if n != 36 {
        return false;
    }
    let mut i: usize = 0;
    while i < 36
        invariant
            s@.len() == 36,
            i <= 36,
            forall|j: int|
                0 <= j < i ==> if is_hyphen_position(j) {
                    s@[j] == '-'
                } else {
                    is_lower_hex(s@[j])
                },
        decreases 36 - i,
    {
        let c = s.get_char(i);
        let ok = if i == 8 || i == 13 || i == 18 || i == 23 {
            c == '-'
        } else {
            ('0' <= c && c <= '9') || ('a' <= c && c <= 'f')
        };
        if !ok {
            return false;
        }
        i = i + 1;
    }
    true
}

/// The parameters of the session insert: `(id, username, created_at)`.
pub fn session_row(session_id: &str, username: &str, now: i64) -> (r: Vec<SqlValue>)
    ensures
        r@.len() == 3,
        is_text(r@[0], session_id@),
        is_text(r@[1], username@),
        r@[2] == SqlValue::Integer(now),
{
    let mut r: Vec<SqlValue> = Vec::new();
    r.push(SqlValue::Text(String::from_str(session_id)));
    r.push(SqlValue::Text(String::from_str(username)));
    r.push(SqlValue::Integer(now));
    r
}

/// The parameter of the session delete and lookup: `(id)`.
pub fn session_key(session_id: &str) -> (r: Vec<SqlValue>)
    ensures
        r@.len() == 1,
        is_text(r@[0], session_id@),
{
    let mut r: Vec<SqlValue> = Vec::new();
    r.push(SqlValue::Text(String::from_str(session_id)));
    r
}

/// What inserting the session `session_id` amounts to: its id on success,
/// a store error otherwise (a colliding id included).
pub open spec fn session_insert_outcome(session_id: String, res: Result<usize, SqlFailure>) -> Result<String, SessionError> {
    match res {
        Ok(_) => Ok(session_id),
        Err(_) => Err(SessionError::StoreError),
    }
}

/// Maps the result of the session insert to the session manager's outcome.
pub fn classify_session_insert(session_id: String, res: Result<usize, SqlFailure>) -> (r: Result<String, SessionError>)
    ensures
        r == session_insert_outcome(session_id, res),
{
    match res {
        Ok(_) => Ok(session_id),
        Err(_) => Err(SessionError::StoreError),
    }
}

/// Issues a fresh session for `username`, persisting `(id, username, now)`.
/// An id that collides with a stored one fails the insert instead of
/// overwriting it.
pub fn create_session(conn: &Connection, username: &str) -> (r: Result<String, SessionError>)
    ensures
        r matches Ok(id) ==> session_id_shape(id@),
        exists|id: String, res: Result<usize, SqlFailure>|
            session_id_shape(id@) && r == #[trigger] session_insert_outcome(id, res),
{
    let session_id = new_session_id();
    let now = unix_now();
    let args = session_row(session_id.as_str(), username, now);
    let res = sql_execute(conn, INSERT_SESSION, &args);
    let ghost id = session_id;
    let r = classify_session_insert(session_id, res);
    assert(session_id_shape(id@) && r == session_insert_outcome(id, res));
    r
}

/// What deleting a session amounts to, given how the delete went.
pub open spec fn delete_outcome(res: Result<usize, SqlFailure>) -> Result<(), SessionError> {
    match res {
        Ok(n) => if n > 0 {
            Ok(())
        } else {
            Err(SessionError::NotFound)
        },
        Err(_) => Err(SessionError::StoreError),
    }
}

/// Maps the result of the delete statement to the session manager's outcome.
pub fn classify_delete(res: Result<usize, SqlFailure>) -> (r: Result<(), SessionError>)
    ensures
        r == delete_outcome(res),
{
    match res {
        Ok(n) => if n > 0 {
            Ok(())
        } else {
            Err(SessionError::NotFound)
        },
        Err(_) => Err(SessionError::StoreError),
    }
}

/// Revokes the session `session_id`. An id that names no session gives
/// `NotFound`, which callers may ignore.
pub fn delete_session(conn: &Connection, session_id: &str) -> (r: Result<(), SessionError>)
    ensures
        !session_id_shape(session_id@) ==> r == Err::<(), SessionError>(SessionError::NotFound),
{
    if !is_session_id_shaped(session_id) {
        return Err(SessionError::NotFound);
    }
    let args = session_key(session_id);
    let res = sql_execute(conn, DELETE_SESSION, &args);
    classify_delete(res)
}

/// What a session lookup amounts to: a failed query is no session.
pub open spec fn lookup_outcome(res: Result<Option<String>, SqlFailure>) -> Option<String> {
    match res {
        Ok(found) => found,
        Err(_) => None,
    }
}

/// Maps the result of the session query to the username it names, if any.
pub fn classify_lookup(res: Result<Option<String>, SqlFailure>) -> (r: Option<String>)
    ensures
        r == lookup_outcome(res),
{
    match res {
        Ok(found) => found,
        Err(_) => None,
    }
}

/// Resolves a session id to its username: a read-only lookup that is `None`
/// for an unknown or malformed id.
pub fn get_session_username(conn: &Connection, session_id: &str) -> (r: Option<String>)
    ensures
        !session_id_shape(session_id@) ==> r is None,
{
    if !is_session_id_shaped(session_id) {
        return None;
    }
    let args = session_key(session_id);
    let res = sql_query_text(conn, SELECT_SESSION_USERNAME, &args);
    classify_lookup(res)
}

} // verus!
