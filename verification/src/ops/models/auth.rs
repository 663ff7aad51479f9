use vstd::prelude::*;
use crate::crypto::{is_session_token, sample_alphanumeric};
use crate::ids::{parse_uuid, uuid_parse};
use crate::ops::{DbRequest, OpCtx, OpError};
use crate::text::{utf8_len, utf8_shorter_than};

verus! {

/// Request to create an account.
#[derive(Debug, PartialEq)]
pub struct RegisterRequest {
    pub username: String,
    pub password: String,
    pub name: String,
}

/// Request to sign in with a username and a password.
#[derive(Debug, PartialEq)]
pub struct SignInRequest {
    pub username: String,
    pub password: String,
}

/// A session that is being opened for an account.
#[derive(Debug, PartialEq)]
pub struct Session {
    pub user_id: u128,
    pub username: String,
    pub token: String,
}

/// Number of characters of a session token.
pub const TOKEN_LENGTH: usize = 256;

/// Seconds for which a new session stays valid.
pub const SESSION_LIFETIME_SECS: u64 = 86400;

impl Session {
    /// Opens a session for `user_id` under the name `username`: draws a fresh token and
    /// gives back the insertion that stores it, valid for a day, together with
    /// the group membership it acts under, if any.
    pub fn new(user_id: u128, username: String, membership_id: Option<u128>) -> (r: (Session, DbRequest))
        ensures
            r.0.user_id == user_id,
            r.0.username == username,
            is_session_token(r.0.token@),
            r.1 matches DbRequest::InsertSession { user_id: u, token: t, membership_id: m, lifetime_secs: l }
                && u == user_id && t@ == r.0.token@ && m == membership_id && l == SESSION_LIFETIME_SECS,
    {
        let token = sample_alphanumeric(TOKEN_LENGTH);
        let stored = token.clone();
        let request = DbRequest::InsertSession {
            user_id,
            token: stored,
            membership_id,
            lifetime_secs: SESSION_LIFETIME_SECS,
        };
        (Session { user_id, username, token }, request)
    }
}

/// The account that a request was authenticated as.
#[derive(Debug, PartialEq)]
pub struct LoggedInUser {
    pub user_id: u128,
    pub user_type: String,
    pub username: String,
    pub session_id: u128,
    pub group: Option<(u128, String)>,
}

/// Who a request comes from.
#[derive(Debug, PartialEq)]
pub enum OpUser {
    User(LoggedInUser),
    Anon,
}

impl LoggedInUser {
    /// The context that operations run in: only personal accounts ("user") have one.
    pub fn into_ctx(self) -> (r: Result<OpCtx, OpError>)
        ensures
            self.user_type@ == "user"@ ==> r == Ok::<OpCtx, OpError>(
                OpCtx::User { id: self.user_id, username: self.username },
            ),
            self.user_type@ != "user"@ ==> (r matches Err(OpError::Generic(m))
                && m@ == "Invalid user type provided"@),
    {
        if crate::text::text_eq(self.user_type.as_str(), "user") {
            Ok(OpCtx::User { id: self.user_id, username: self.username })
        } else {
            Err(OpError::Generic(String::from_str("Invalid user type provided")))
        }
    }
}

/// A live session with its account, as the database returns it for a token.
#[derive(Debug, PartialEq)]
pub struct SessionRow {
    pub id: u128,
    pub username: String,
    pub user_type: String,
    pub session_id: u128,
}

/// A lookup that identifying a request needs.
#[derive(Debug, PartialEq)]
pub enum AuthQuery {
    /// The live (unexpired) session with this token, with its account.
    FindSession { token: String },
    /// The username of the group that the header names. Only the group id is bound, to
    /// `$1`; the statement also asks for `$2`, which gets no value, so the database
    /// refuses the lookup and the request fails.
    FindGroupName { group_id: u128 },
}

/// SQL of `AuthQuery::FindSession`.
pub const SQL_FIND_SESSION: &'static str = "SELECT u.id, u.user_type, u.username, s.id AS session_id FROM sessions s JOIN users u ON s.user_id = u.id WHERE s.token = $1 AND s.expires_at > NOW()";

/// SQL of `AuthQuery::FindGroupName`.
pub const SQL_FIND_GROUP_NAME: &'static str = "SELECT u.username FROM group_members m JOIN users u ON u.id = m.group_id WHERE m.user_id = $1 AND m.group_id = $2 AND m.state = 'accepted'";

impl AuthQuery {
    /// The lookup's SQL text; its values are bound to `$1, $2, ...` in declaration order.
    pub fn sql(&self) -> (r: &'static str)
        ensures
            r == match self {
                AuthQuery::FindSession { .. } => SQL_FIND_SESSION,
                AuthQuery::FindGroupName { .. } => SQL_FIND_GROUP_NAME,
            },
    {
        match self {
            AuthQuery::FindSession { .. } => SQL_FIND_SESSION,
            AuthQuery::FindGroupName { .. } => SQL_FIND_GROUP_NAME,
        }
    }
}

/// What a lookup answered.
#[derive(Debug, PartialEq)]
pub enum AuthReply {
    Session(Option<SessionRow>),
    GroupName(Option<String>),
    Failed(String),
}

/// The next step of identifying a request.
#[derive(Debug, PartialEq)]
pub enum AuthStep {
    Lookup(AuthQuery),
    /// Who the request comes from, or the status and text it is rejected with.
    Done(Result<OpUser, (u16, String)>),
}

/// Where identifying a request stands.
#[derive(Debug, PartialEq)]
pub enum AuthStage {
    Session { group_header: Option<String> },
    Group { row: SessionRow, group_id: u128 },
    Done,
}

/// The group that the `X-Group` header names, if it holds a UUID.
pub open spec fn header_group(header: Option<Seq<char>>) -> Option<u128> {
    match header {
        Some(t) => uuid_parse(t),
        None => None,
    }
}

pub open spec fn header_view(h: Option<String>) -> Option<Seq<char>> {
    match h {
        Some(s) => Some(s@),
        None => None,
    }
}

pub open spec fn logged_in(row: SessionRow, group: Option<(u128, String)>) -> OpUser {
    OpUser::User(
        LoggedInUser {
            user_id: row.id,
            user_type: row.user_type,
            username: row.username,
            session_id: row.session_id,
            group,
        },
    )
}

/// The first step of identifying a request with this session cookie and `X-Group` header.
pub open spec fn auth_opens(cookie: Option<String>, group_header: Option<String>, st: AuthStage, step: AuthStep) -> bool {
    match cookie {
        None => st is Done && step == AuthStep::Done(Ok(OpUser::Anon)),
        Some(token) => st == AuthStage::Session { group_header } && step == AuthStep::Lookup(
            AuthQuery::FindSession { token },
        ),
    }
}

/// The step that follows reply `r` in stage `s`.
pub open spec fn auth_steps(s: AuthStage, r: AuthReply, ns: AuthStage, step: AuthStep) -> bool {
    match (s, r) {
        (_, AuthReply::Failed(text)) => ns is Done && step == AuthStep::Done(Err((500u16, text))),
        (AuthStage::Session { group_header }, AuthReply::Session(None)) => ns is Done && step == AuthStep::Done(
            Ok(OpUser::Anon),
        ),
        (AuthStage::Session { group_header }, AuthReply::Session(Some(row))) => match header_group(
            header_view(group_header),
        ) {
            None => ns is Done && step == AuthStep::Done(Ok(logged_in(row, None))),
            Some(group_id) => ns == AuthStage::Group { row, group_id } && step == AuthStep::Lookup(
                AuthQuery::FindGroupName { group_id },
            ),
        },
        (AuthStage::Group { row, group_id }, AuthReply::GroupName(Some(name))) => ns is Done && step
            == AuthStep::Done(Ok(logged_in(row, Some((group_id, name))))),
        (AuthStage::Group { .. }, AuthReply::GroupName(None)) => {
            &&& ns is Done
            &&& step matches AuthStep::Done(Err((code, text)))
            &&& code == 401 && text@ == "Could not find selected group in users group list"@
        },
        _ => {
            &&& ns is Done
            &&& step matches AuthStep::Done(Err((code, text)))
            &&& code == 500 && text@ == "unexpected reply to the requested work"@
        },
    }
}

impl OpUser {
    /// The group that the `X-Group` header asks to act for, if the header holds a UUID.
    pub fn get_group_id(header: Option<&str>) -> (r: Option<u128>)
        ensures
            r == match header {
                Some(t) => uuid_parse(t@),
                None => None,
            },
    {
        match header {
            Some(t) => parse_uuid(t),
            None => None,
        }
    }

    /// Starts identifying a request from its `session_token` cookie and `X-Group` header:
    /// no cookie means an anonymous request.
    pub fn from_request_parts(cookie: Option<String>, group_header: Option<String>) -> (r: (AuthStage, AuthStep))
        ensures
            auth_opens(cookie, group_header, r.0, r.1),
    {
        match cookie {
            None => (AuthStage::Done, AuthStep::Done(Ok(OpUser::Anon))),
            Some(token) => (AuthStage::Session { group_header }, AuthStep::Lookup(AuthQuery::FindSession { token })),
        }
    }

    /// Takes a lookup's reply and gives the next step: no live session means an anonymous
    /// request; a group header that holds a UUID must name a group the user belongs to.
    pub fn resume(stage: AuthStage, reply: AuthReply) -> (r: (AuthStage, AuthStep))
        ensures
            auth_steps(stage, reply, r.0, r.1),
    {
        match (stage, reply) {
            (_, AuthReply::Failed(text)) => (AuthStage::Done, AuthStep::Done(Err((500, text)))),
            (AuthStage::Session { group_header }, AuthReply::Session(None)) => (
                AuthStage::Done,
                AuthStep::Done(Ok(OpUser::Anon)),
            ),
            (AuthStage::Session { group_header }, AuthReply::Session(Some(row))) => {
                let group = match &group_header {
                    Some(h) => parse_uuid(h.as_str()),
                    None => None,
                };
                match group {
                    None => (
                        AuthStage::Done,
                        AuthStep::Done(
                            Ok(
                                OpUser::User(
                                    LoggedInUser {
                                        user_id: row.id,
                                        user_type: row.user_type,
                                        username: row.username,
                                        session_id: row.session_id,
                                        group: None,
                                    },
                                ),
                            ),
                        ),
                    ),
                    Some(group_id) => (
                        AuthStage::Group { row, group_id },
                        AuthStep::Lookup(AuthQuery::FindGroupName { group_id }),
                    ),
                }
            },
            (AuthStage::Group { row, group_id }, AuthReply::GroupName(Some(name))) => (
                AuthStage::Done,
                AuthStep::Done(
                    Ok(
                        OpUser::User(
                            LoggedInUser {
                                user_id: row.id,
                                user_type: row.user_type,
                                username: row.username,
                                session_id: row.session_id,
                                group: Some((group_id, name)),
                            },
                        ),
                    ),
                ),
            ),
            (AuthStage::Group { .. }, AuthReply::GroupName(None)) => (
                AuthStage::Done,
                AuthStep::Done(Err((401, String::from_str("Could not find selected group in users group list")))),
            ),
            _ => (
                AuthStage::Done,
                AuthStep::Done(Err((500, String::from_str("unexpected reply to the requested work")))),
            ),
        }
    }
}

/// Request to change the account's username.
#[derive(Debug, PartialEq)]
pub struct ChangeUsername {
    pub username: String,
}

impl ChangeUsername {
    /// A username is accepted when its UTF-8 encoding has at least 5 bytes.
    pub fn validate(&self) -> (r: Result<(), String>)
        ensures
            r is Ok <==> utf8_len(self.username@) >= 5,
            r matches Err(msg) ==> msg@ == "Username must be at least 5 characters"@,
    {
        if utf8_shorter_than(self.username.as_str(), 5) {
            return Err(String::from_str("Username must be at least 5 characters"));
        }
        Ok(())
    }
}

/// Request to change the password, proving the current one.
#[derive(Debug, PartialEq)]
pub struct ChangePassword {
    pub curr_password: String,
    pub new_password: String,
}

/// Request to set for how many days deleted entries are kept.
#[derive(Debug, PartialEq)]
pub struct SetTrashRetention {
    pub days: i32,
}

/// Kind of a session that was created.
#[derive(Clone, Copy, PartialEq, Eq, Structural, Debug)]
pub enum SessionType {
    Login,
    GroupSession,
}

/// State of a membership of a user in a group.
#[derive(Clone, Copy, PartialEq, Eq, Structural, Debug)]
pub enum GroupMemberState {
    PendingInvite,
    Accepted,
}

/// A membership of a user in a group, as listed to the user.
/// `created_at` counts microseconds since the Unix epoch.
#[derive(Debug, PartialEq)]
pub struct GroupMember {
    pub id: u128,
    pub group_id: u128,
    pub group_type: String,
    pub group_name: String,
    pub group_username: String,
    pub user_id: u128,
    pub user_type: String,
    pub sender_id: Option<u128>,
    pub sender_type: Option<String>,
    pub sender_username: Option<String>,
    pub perms: Vec<String>,
    pub state: GroupMemberState,
    pub created_at: i64,
}

} // verus!

verus! {

/// A request acts for a group only after the lookup of exactly the group that the header
/// named answered with that group's name.
pub proof fn lemma_group_confirmed(s: AuthStage, r: AuthReply, ns: AuthStage, u: LoggedInUser)
    requires
        auth_steps(s, r, ns, AuthStep::Done(Ok(OpUser::User(u)))),
        u.group is Some,
    ensures
        ({
            &&& s matches AuthStage::Group { row, group_id }
            &&& u.group matches Some((g, name))
            &&& g == group_id && u.user_id == row.id
            &&& r == AuthReply::GroupName(Some(name))
        }),
{
}

/// A request without a session cookie, or whose token has no live session, is anonymous.
pub proof fn lemma_anonymous_without_session(
    cookie: Option<String>,
    group_header: Option<String>,
    st: AuthStage,
    step: AuthStep,
    r: AuthReply,
    ns: AuthStage,
    step2: AuthStep,
)
    requires
        auth_opens(cookie, group_header, st, step),
        cookie is Some ==> auth_steps(st, r, ns, step2) && r == AuthReply::Session(None),
    ensures
        cookie is None ==> step == AuthStep::Done(Ok(OpUser::Anon)),
        cookie is Some ==> step2 == AuthStep::Done(Ok(OpUser::Anon)),
{
}

} // verus!
