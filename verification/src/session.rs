//! The session store: the saved session as bytes.
//!
//! A session is what the client needs to resume its connection without a
//! password. It is the client's own value and is carried here unopened: it
//! is written once, as JSON, after a login, and parsed again at every later
//! start. Reading and writing the file is done elsewhere.

use matrix_sdk::Session;
use vstd::prelude::*;

verus! {

#[verifier::external_type_specification]
#[verifier::external_body]
pub struct ExSession(Session);

#[verifier::external_type_specification]
#[verifier::external_body]
pub struct ExJsonError(serde_json::Error);

/// Whether `serde_json::from_slice` finds a session in `bytes`.
pub uninterp spec fn is_session_json(bytes: Seq<u8>) -> bool;

/// Calls `serde_json::from_slice` for a session. Trusted: it succeeds exactly
/// on the bytes of which `is_session_json` holds.
#[verifier::external_body]
fn session_from_json(bytes: &[u8]) -> (parsed: Result<Session, serde_json::Error>)
    ensures
        parsed is Ok <==> is_session_json(bytes@),
{
    serde_json::from_slice(bytes)
}

/// What `serde_json::to_vec_pretty` writes for `session`: the bytes of its
/// pretty-printed JSON, or nothing where the writer fails.
pub uninterp spec fn session_json(session: Session) -> Option<Seq<u8>>;

/// Calls `serde_json::to_vec_pretty` on a session. Trusted: the bytes that
/// come back are `session_json` of the session, and an error comes back
/// exactly where `session_json` has nothing; that is, the writer's answer
/// depends on the session alone.
#[verifier::external_body]
fn session_to_json(session: &Session) -> (written: Result<Vec<u8>, serde_json::Error>)
    ensures
        match written {
            Ok(bytes) => session_json(*session) == Some(bytes@),
            Err(_) => session_json(*session) is None,
        },
{
    serde_json::to_vec_pretty(session)
}

/// Why the session store fails.
#[derive(Clone, Copy, Debug, PartialEq, Eq, Structural)]
pub enum SessionError {
    /// The bytes of the session file are no session.
    Corrupt,
    /// The session could not be written as JSON.
    Unwritable,
}

/// What `load` makes of the parser's answer: the session as it is, or
/// `Corrupt` for any error.
pub open spec fn loaded(
    parsed: Result<Session, serde_json::Error>,
) -> Result<Session, SessionError> {
    match parsed {
        Ok(session) => Ok(session),
        Err(_) => Err(SessionError::Corrupt),
    }
}

/// What `save` makes of the writer's answer: the bytes as they are, or
/// `Unwritable` for any error.
pub open spec fn saved(
    written: Result<Vec<u8>, serde_json::Error>,
) -> Result<Vec<u8>, SessionError> {
    match written {
        Ok(bytes) => Ok(bytes),
        Err(_) => Err(SessionError::Unwritable),
    }
}

/// Takes the parser's answer on the bytes of a session file.
pub fn accept_parsed(
    parsed: Result<Session, serde_json::Error>,
) -> (r: Result<Session, SessionError>)
    ensures
        r == loaded(parsed),
{
    match parsed {
        Ok(session) => Ok(session),
        Err(_) => Err(SessionError::Corrupt),
    }
}

/// Takes the writer's answer on a session.
pub fn accept_written(
    written: Result<Vec<u8>, serde_json::Error>,
) -> (r: Result<Vec<u8>, SessionError>)
    ensures
        r == saved(written),
{
    match written {
        Ok(bytes) => Ok(bytes),
        Err(_) => Err(SessionError::Unwritable),
    }
}

/// Parses the bytes of a session file. Bytes that are no session are
/// refused as `Corrupt`: there is no partly usable session.
pub fn load(bytes: &[u8]) -> (r: Result<Session, SessionError>)
    ensures
        r is Ok <==> is_session_json(bytes@),
        r is Err ==> r == Err::<Session, SessionError>(SessionError::Corrupt),
{
    accept_parsed(session_from_json(bytes))
}

/// Writes a session as the bytes of a session file: its pretty-printed
/// JSON, the same bytes for the same session every time. Where the writer
/// fails, and only there, the session is refused as `Unwritable`.
pub fn save(session: &Session) -> (r: Result<Vec<u8>, SessionError>)
    ensures
        match r {
            Ok(bytes) => session_json(*session) == Some(bytes@),
            Err(e) => e == SessionError::Unwritable && session_json(*session) is None,
        },
{
    accept_written(session_to_json(session))
}

} // verus!
