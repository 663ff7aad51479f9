use backend::notify::{NotifyHub, SharingEvent};

#[test]
fn channels_are_created_on_first_subscription() {
    let mut hub = NotifyHub::new();
    assert!(!hub.has_channel(1));
    let mut rx = hub.subscribe(1);
    assert!(hub.has_channel(1));
    assert!(!hub.has_channel(2));
    hub.send_to(1, SharingEvent::ShareRequestCancelled { request_id: 5 });
    assert_eq!(rx.try_recv().unwrap(), SharingEvent::ShareRequestCancelled { request_id: 5 });
}

#[test]
fn sending_to_nobody_creates_nothing() {
    let hub = NotifyHub::new();
    hub.send_to(3, SharingEvent::ShareRequestCancelled { request_id: 5 });
    assert!(!hub.has_channel(3));
}

#[test]
fn subscribers_share_one_channel() {
    let mut hub = NotifyHub::new();
    let mut a = hub.subscribe(1);
    let mut b = hub.subscribe(1);
    hub.send_to(1, SharingEvent::ShareRequestDeclined { request_id: 2, recipient_username: "bob".to_string() });
    assert!(a.try_recv().is_ok());
    assert!(b.try_recv().is_ok());
}

#[test]
fn unused_channels_are_removed() {
    let mut hub = NotifyHub::new();
    let rx = hub.subscribe(1);
    hub.remove_if_empty(1);
    assert!(hub.has_channel(1));
    drop(rx);
    hub.remove_if_empty(1);
    assert!(!hub.has_channel(1));
    hub.remove_if_empty(7);
    assert!(!hub.has_channel(7));
}

#[test]
fn channel_goes_only_when_no_listener_is_counted() {
    let mut hub = NotifyHub::new();
    let _a = hub.subscribe(1);
    let _b = hub.subscribe(2);
    hub.remove_if_unused(1, 1);
    assert!(hub.has_channel(1));
    hub.remove_if_unused(1, 0);
    assert!(!hub.has_channel(1));
    assert!(hub.has_channel(2));
    hub.remove_if_unused(9, 0);
    assert!(!hub.has_channel(9));
    assert!(hub.has_channel(2));
}

#[test]
fn new_channels_hold_sixty_four_events() {
    let mut hub = NotifyHub::new();
    let mut rx = hub.subscribe(4);
    for id in 0..64u128 {
        hub.send_to(4, SharingEvent::ShareRequestCancelled { request_id: id });
    }
    assert_eq!(rx.try_recv().unwrap(), SharingEvent::ShareRequestCancelled { request_id: 0 });
    let mut late = hub.subscribe(4);
    for id in 64..129u128 {
        hub.send_to(4, SharingEvent::ShareRequestCancelled { request_id: id });
    }
    assert!(matches!(
        late.try_recv(),
        Err(tokio::sync::broadcast::error::TryRecvError::Lagged(1))
    ));
    assert_eq!(late.try_recv().unwrap(), SharingEvent::ShareRequestCancelled { request_id: 65 });
}

#[test]
fn a_receiver_hears_only_its_own_account() {
    let mut hub = NotifyHub::new();
    let mut one = hub.subscribe(1);
    let mut two = hub.subscribe(2);
    hub.send_to(2, SharingEvent::ShareRequestCancelled { request_id: 8 });
    assert!(one.try_recv().is_err());
    assert_eq!(two.try_recv().unwrap(), SharingEvent::ShareRequestCancelled { request_id: 8 });
}
