//! The notification socket: a client first proves who it is, then receives
//! the sharing events of its account until either side stops.
use vstd::prelude::*;
use crate::notify::SharingEvent;

verus! {

/// Close code sent when the client could not be identified.
pub const CLOSE_UNAUTHORIZED: u16 = 4001;

/// Where a socket stands.
#[derive(Debug, PartialEq)]
pub enum WsStage {
    /// Waits for the client to send its session token.
    AwaitingAuth,
    /// Waits for the token to be checked.
    Authorizing,
    /// Forwards the account's events.
    Listening { user_id: u128 },
    Closed,
}

/// What happened on a socket.
#[derive(Debug, PartialEq)]
pub enum WsEvent {
    Ping(Vec<u8>),
    Text(String),
    Close,
    /// Any other message.
    Other,
    /// The client's stream ended.
    Ended,
    /// Reading from the client failed.
    Failed,
    /// The checked token: the account, no valid session, or a failure with its text.
    AuthResult(Result<Option<u128>, String>),
    Broadcast(SharingEvent),
    /// The listener fell behind and missed this many events.
    Lagged(u64),
    ChannelClosed,
    /// Forwarding an event to the client failed.
    SendFailed,
}

/// What the socket does next.
#[derive(Debug, PartialEq)]
pub enum WsAction {
    SendPong(Vec<u8>),
    /// Checks a session token.
    Authorize(String),
    /// Sends a close frame and stops.
    Close { code: u16, reason: String },
    /// Starts listening to the account's channel.
    Subscribe(u128),
    Forward(SharingEvent),
    /// Tells the client how many events it missed.
    ReportLagged(u64),
    /// Keeps waiting.
    Wait,
    /// Stops listening, lets the hub drop the account's channel if unused, and stops.
    Release(u128),
    Stop,
}

/// Closes the socket as unauthorized, with the reason `text`.
pub open spec fn closes(ns: WsStage, a: WsAction, text: Seq<char>) -> bool {
    &&& ns is Closed
    &&& a matches WsAction::Close { code, reason }
    &&& code == CLOSE_UNAUTHORIZED && reason@ == text
}

/// The action that follows event `e` in stage `s`, leading to stage `ns`.
pub open spec fn ws_steps(s: WsStage, e: WsEvent, ns: WsStage, a: WsAction) -> bool {
    match s {
        WsStage::AwaitingAuth => match e {
            WsEvent::Ping(data) => ns == s && a == WsAction::SendPong(data),
            WsEvent::Text(token) => ns is Authorizing && a == WsAction::Authorize(token),
            WsEvent::Close | WsEvent::Ended | WsEvent::Failed => closes(ns, a, "Unauthorized"@),
            _ => ns == s && a is Wait,
        },
        WsStage::Authorizing => match e {
            WsEvent::AuthResult(Ok(Some(user_id))) => ns == WsStage::Listening { user_id } && a
                == WsAction::Subscribe(user_id),
            WsEvent::AuthResult(Ok(None)) => closes(ns, a, "Unauthorized"@),
            WsEvent::AuthResult(Err(text)) => closes(ns, a, text@),
            _ => ns == s && a is Wait,
        },
        WsStage::Listening { user_id } => match e {
            WsEvent::Broadcast(ev) => ns == s && a == WsAction::Forward(ev),
            WsEvent::Lagged(n) => ns == s && a == WsAction::ReportLagged(n),
            WsEvent::Ping(data) => ns == s && a == WsAction::SendPong(data),
            WsEvent::SendFailed | WsEvent::ChannelClosed | WsEvent::Close | WsEvent::Ended => ns is Closed
                && a == WsAction::Release(user_id),
            _ => ns == s && a is Wait,
        },
        WsStage::Closed => ns is Closed && a is Stop,
    }
}

/// One notification socket.
pub struct WsSession {
    pub stage: WsStage,
}

impl WsSession {
    /// A socket that waits for its client's token.
    pub fn new() -> (r: Self)
        ensures
            r.stage is AwaitingAuth,
    {
        WsSession { stage: WsStage::AwaitingAuth }
    }

    /// Takes what happened and gives what to do.
    pub fn handle(&mut self, e: WsEvent) -> (a: WsAction)
        ensures
            ws_steps(old(self).stage, e, final(self).stage, a),
    {
        let mut s = WsStage::Closed;
        std::mem::swap(&mut s, &mut self.stage);
        let (ns, a) = match s {
            WsStage::AwaitingAuth => match e {
                WsEvent::Ping(data) => (WsStage::AwaitingAuth, WsAction::SendPong(data)),
                WsEvent::Text(token) => (WsStage::Authorizing, WsAction::Authorize(token)),
                WsEvent::Close | WsEvent::Ended | WsEvent::Failed => (
                    WsStage::Closed,
                    WsAction::Close { code: CLOSE_UNAUTHORIZED, reason: String::from_str("Unauthorized") },
                ),
                _ => (WsStage::AwaitingAuth, WsAction::Wait),
            },
            WsStage::Authorizing => match e {
                WsEvent::AuthResult(Ok(Some(user_id))) => (
                    WsStage::Listening { user_id },
                    WsAction::Subscribe(user_id),
                ),
                WsEvent::AuthResult(Ok(None)) => (
                    WsStage::Closed,
                    WsAction::Close { code: CLOSE_UNAUTHORIZED, reason: String::from_str("Unauthorized") },
                ),
                WsEvent::AuthResult(Err(text)) => (
                    WsStage::Closed,
                    WsAction::Close { code: CLOSE_UNAUTHORIZED, reason: text },
                ),
                _ => (WsStage::Authorizing, WsAction::Wait),
            },
            WsStage::Listening { user_id } => match e {
                WsEvent::Broadcast(ev) => (WsStage::Listening { user_id }, WsAction::Forward(ev)),
                WsEvent::Lagged(n) => (WsStage::Listening { user_id }, WsAction::ReportLagged(n)),
                WsEvent::Ping(data) => (WsStage::Listening { user_id }, WsAction::SendPong(data)),
                WsEvent::SendFailed | WsEvent::ChannelClosed | WsEvent::Close | WsEvent::Ended => (
                    WsStage::Closed,
                    WsAction::Release(user_id),
                ),
                _ => (WsStage::Listening { user_id }, WsAction::Wait),
            },
            WsStage::Closed => (WsStage::Closed, WsAction::Stop),
        };
        self.stage = ns;
        a
    }
}

/// A socket only listens to the account its token was checked for: it subscribes exactly
/// when the check named an account, and to that account.
pub proof fn lemma_ws_subscribes_checked_account(s: WsStage, e: WsEvent, ns: WsStage, user_id: u128)
    requires
        ws_steps(s, e, ns, WsAction::Subscribe(user_id)),
    ensures
        s is Authorizing,
        e == WsEvent::AuthResult(Ok(Some(user_id))),
{
}

/// Events are forwarded only while the socket listens; a socket that has not been
/// authorized never forwards anything.
pub proof fn lemma_ws_forwards_only_when_listening(s: WsStage, e: WsEvent, ns: WsStage, ev: SharingEvent)
    requires
        ws_steps(s, e, ns, WsAction::Forward(ev)),
    ensures
        s is Listening,
        ns == s,
{
}

/// A listening socket that stops always releases the account it listened to.
pub proof fn lemma_ws_release_on_stop(user_id: u128, e: WsEvent, ns: WsStage, a: WsAction)
    requires
        ws_steps(WsStage::Listening { user_id }, e, ns, a),
        ns is Closed,
    ensures
        a == WsAction::Release(user_id),
{
}

} // verus!
