//! What the HTTP layer answers for the outcome of an operation.
pub mod ws;

use vstd::prelude::*;
use crate::ops::models::auth::SessionType;
use crate::ops::run::prefixed;
use crate::ops::{OpError, OpSuccess};

verus! {

/// The `Set-Cookie` value that hands a login token to the browser.
pub open spec fn session_cookie_text(token: Seq<char>) -> Seq<char> {
    "session_token="@ + token + "; HttpOnly; SameSite=Lax; Path=/; Max-Age=604800"@
}

/// HTTP status and body text that answer a failed operation.
pub open spec fn error_response(e: OpError) -> (u16, Seq<char>) {
    match e {
        OpError::Generic(m) => (500, m@),
        OpError::EntityConflict { reason } => (409, reason@),
        OpError::UserNotLoggedIn => (401, "You must be logged in to perform this operation"@),
        OpError::EntityNotFound { reason } => (404, reason@),
        OpError::ValidationFailed { reason } => (400, reason@),
        OpError::BadRequest { reason } => (400, reason@),
        OpError::TooManyItems => (400, "Too many items to process at once"@),
        OpError::Unauthorized { reason } => (401, reason@),
        OpError::UserOnlyOp => (400, "Operation can only be performed by users (not groups!)"@),
        OpError::GroupOnlyOp => (400, "Operation can only be performed by groups (not users!)"@),
        OpError::OpNeedsPerms { perm } => (403, "This operation needs "@ + perm@ + "!"@),
    }
}

impl OpError {
    /// The status code and body text that answer this failure.
    pub fn into_response(self) -> (r: (u16, String))
        ensures
            r.0 == error_response(self).0,
            r.1@ == error_response(self).1,
    {
        match self {
            OpError::Generic(m) => (500, m),
            OpError::EntityConflict { reason } => (409, String::from_str(reason)),
            OpError::UserNotLoggedIn => (401, String::from_str("You must be logged in to perform this operation")),
            OpError::EntityNotFound { reason } => (404, String::from_str(reason)),
            OpError::ValidationFailed { reason } => (400, reason),
            OpError::BadRequest { reason } => (400, reason),
            OpError::TooManyItems => (400, String::from_str("Too many items to process at once")),
            OpError::Unauthorized { reason } => (401, reason),
            OpError::UserOnlyOp => (400, String::from_str("Operation can only be performed by users (not groups!)")),
            OpError::GroupOnlyOp => (400, String::from_str("Operation can only be performed by groups (not users!)")),
            OpError::OpNeedsPerms { perm } => {
                let mut body = prefixed("This operation needs ", perm.as_str());
                body.append("!");
                (403, body)
            },
        }
    }
}

impl OpSuccess {
    /// The cookie to set with a successful answer: only a login session hands its token
    /// to the browser; group sessions and all other answers set none.
    pub fn session_cookie(&self) -> (r: Option<String>)
        ensures
            match self {
                OpSuccess::CreatedSession { token, token_type: SessionType::Login, .. } => (r matches Some(c)
                    && c@ == session_cookie_text(token@)),
                _ => r is None,
            },
    {
        match self {
            OpSuccess::CreatedSession { token, token_type, .. } => match token_type {
                SessionType::Login => {
                    let mut c = prefixed("session_token=", token.as_str());
                    c.append("; HttpOnly; SameSite=Lax; Path=/; Max-Age=604800");
                    Some(c)
                },
                SessionType::GroupSession => None,
            },
            _ => None,
        }
    }
}

} // verus!
