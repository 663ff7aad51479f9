use backend::notify::SharingEvent;
use backend::routes::ws::{WsAction, WsEvent, WsSession, WsStage};

fn closed_unauthorized(a: WsAction) {
    assert_eq!(a, WsAction::Close { code: 4001, reason: "Unauthorized".to_string() });
}

#[test]
fn a_socket_authorizes_then_forwards() {
    let mut s = WsSession::new();
    assert_eq!(s.handle(WsEvent::Ping(vec![1])), WsAction::SendPong(vec![1]));
    assert_eq!(s.handle(WsEvent::Other), WsAction::Wait);
    assert_eq!(s.handle(WsEvent::Text("tok".to_string())), WsAction::Authorize("tok".to_string()));
    assert_eq!(s.handle(WsEvent::AuthResult(Ok(Some(9)))), WsAction::Subscribe(9));
    assert_eq!(s.stage, WsStage::Listening { user_id: 9 });
    let ev = SharingEvent::ShareRequestCancelled { request_id: 3 };
    assert_eq!(s.handle(WsEvent::Broadcast(ev.clone())), WsAction::Forward(ev));
    assert_eq!(s.handle(WsEvent::Lagged(4)), WsAction::ReportLagged(4));
    assert_eq!(s.handle(WsEvent::Ping(vec![])), WsAction::SendPong(vec![]));
    assert_eq!(s.handle(WsEvent::Failed), WsAction::Wait);
    assert_eq!(s.handle(WsEvent::Close), WsAction::Release(9));
    assert_eq!(s.handle(WsEvent::Other), WsAction::Stop);
}

#[test]
fn listening_ends_release_the_account() {
    for end in [WsEvent::SendFailed, WsEvent::ChannelClosed, WsEvent::Ended] {
        let mut s = WsSession::new();
        s.handle(WsEvent::Text("tok".to_string()));
        s.handle(WsEvent::AuthResult(Ok(Some(1))));
        assert_eq!(s.handle(end), WsAction::Release(1));
        assert_eq!(s.stage, WsStage::Closed);
    }
}

#[test]
fn unidentified_sockets_are_closed() {
    for end in [WsEvent::Close, WsEvent::Ended, WsEvent::Failed] {
        let mut s = WsSession::new();
        closed_unauthorized(s.handle(end));
        assert_eq!(s.stage, WsStage::Closed);
    }
    let mut s = WsSession::new();
    s.handle(WsEvent::Text("tok".to_string()));
    closed_unauthorized(s.handle(WsEvent::AuthResult(Ok(None))));
    let mut s = WsSession::new();
    s.handle(WsEvent::Text("tok".to_string()));
    assert_eq!(
        s.handle(WsEvent::AuthResult(Err("db down".to_string()))),
        WsAction::Close { code: 4001, reason: "db down".to_string() }
    );
}

#[test]
fn events_before_authorization_are_not_forwarded() {
    let mut s = WsSession::new();
    let ev = SharingEvent::PermissionRevoked { permission_id: 1, filesystem_id: 2 };
    assert_eq!(s.handle(WsEvent::Broadcast(ev)), WsAction::Wait);
    assert_eq!(s.stage, WsStage::AwaitingAuth);
}
