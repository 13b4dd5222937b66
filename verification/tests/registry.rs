use techni_zlecenia_api::api::chat::{
    admit_socket_at, close_connection, create_connection_manager, open_connection, UserConnection,
};
use techni_zlecenia_api::server::auth::AccessToken;
use techni_zlecenia_api::server::chat::ChatResponse;
use tokio::sync::mpsc::unbounded_channel;

fn error_event(text: &str) -> ChatResponse {
    ChatResponse::Error { message: text.to_string(), code: None }
}

#[test]
fn two_connections_both_receive() {
    let user = 7u128;
    let mut manager = create_connection_manager();
    let (tx1, mut rx1) = unbounded_channel::<ChatResponse>();
    let (tx2, mut rx2) = unbounded_channel::<ChatResponse>();
    manager.register(user, UserConnection { connection_id: 1, sender: tx1 });
    manager.register(user, UserConnection { connection_id: 2, sender: tx2 });
    let event = error_event("hello");
    let deliveries = manager.deliver(user, &event);
    assert_eq!(deliveries.len(), 2);
    assert_eq!(deliveries[0].connection_id, 1);
    assert_eq!(deliveries[1].connection_id, 2);
    assert!(deliveries[0].accepted && deliveries[1].accepted);
    assert_eq!(rx1.try_recv().unwrap(), event);
    assert_eq!(rx2.try_recv().unwrap(), event);
    manager.unregister(user, 1);
    let again = manager.deliver(user, &event);
    assert_eq!(again.len(), 1);
    assert_eq!(again[0].connection_id, 2);
    assert_eq!(rx2.try_recv().unwrap(), event);
    assert!(rx1.try_recv().is_err());
}

#[test]
fn last_unregister_removes_user() {
    let mut manager = create_connection_manager();
    let (tx, _rx) = unbounded_channel::<ChatResponse>();
    assert_eq!(manager.user_count(), 0);
    manager.register(5, UserConnection { connection_id: 9, sender: tx });
    assert!(manager.is_connected(5));
    assert_eq!(manager.user_count(), 1);
    assert_eq!(manager.connection_count(5), 1);
    manager.unregister(5, 9);
    assert!(!manager.is_connected(5));
    assert_eq!(manager.user_count(), 0);
    assert_eq!(manager.connection_count(5), 0);
}

#[test]
fn unregister_unknown_connection_changes_nothing() {
    let mut manager = create_connection_manager();
    let (tx, _rx) = unbounded_channel::<ChatResponse>();
    manager.register(5, UserConnection { connection_id: 9, sender: tx });
    manager.unregister(5, 10);
    manager.unregister(6, 9);
    assert_eq!(manager.connection_count(5), 1);
    assert_eq!(manager.user_count(), 1);
}

#[test]
fn closed_channel_does_not_stop_the_others() {
    let mut manager = create_connection_manager();
    let (tx1, rx1) = unbounded_channel::<ChatResponse>();
    let (tx2, mut rx2) = unbounded_channel::<ChatResponse>();
    manager.register(1, UserConnection { connection_id: 11, sender: tx1 });
    manager.register(1, UserConnection { connection_id: 12, sender: tx2 });
    drop(rx1);
    let event = error_event("x");
    let deliveries = manager.deliver(1, &event);
    assert_eq!(deliveries.len(), 2);
    assert!(!deliveries[0].accepted);
    assert!(deliveries[1].accepted);
    assert_eq!(rx2.try_recv().unwrap(), event);
}

#[test]
fn deliver_to_one_connection_only() {
    let mut manager = create_connection_manager();
    let (tx1, mut rx1) = unbounded_channel::<ChatResponse>();
    let (tx2, mut rx2) = unbounded_channel::<ChatResponse>();
    manager.register(1, UserConnection { connection_id: 11, sender: tx1 });
    manager.register(1, UserConnection { connection_id: 12, sender: tx2 });
    let event = error_event("only you");
    let deliveries = manager.deliver_to_connection(1, 12, &event);
    assert_eq!(deliveries.len(), 1);
    assert_eq!(deliveries[0].connection_id, 12);
    assert!(rx1.try_recv().is_err());
    assert_eq!(rx2.try_recv().unwrap(), event);
    assert_eq!(manager.deliver_to_connection(1, 99, &event).len(), 0);
    assert_eq!(manager.deliver(2, &event).len(), 0);
}

#[test]
fn open_and_close_leave_no_trace() {
    let mut manager = create_connection_manager();
    let (tx, _rx) = unbounded_channel::<ChatResponse>();
    let id = open_connection(&mut manager, 3, tx);
    assert_eq!((id >> 76) & 0xf, 4);
    assert_eq!((id >> 62) & 0x3, 2);
    assert_eq!(manager.connection_count(3), 1);
    close_connection(&mut manager, 3, id);
    assert_eq!(manager.user_count(), 0);
}

#[test]
fn socket_admission_by_token() {
    let token = AccessToken::from_claims(1000, 42);
    assert_eq!(admit_socket_at(Some(token), 999), Ok(token));
    assert_eq!(admit_socket_at(Some(token), 1000), Err(401));
    assert_eq!(admit_socket_at(None, 0), Err(401));
}

#[test]
fn the_user_count_follows_the_sessions() {
    let mut manager = create_connection_manager();
    let (tx1, _rx1) = unbounded_channel::<ChatResponse>();
    let (tx2, _rx2) = unbounded_channel::<ChatResponse>();
    let (tx3, _rx3) = unbounded_channel::<ChatResponse>();
    manager.register(1, UserConnection { connection_id: 11, sender: tx1 });
    assert_eq!(manager.user_count(), 1);
    manager.register(1, UserConnection { connection_id: 12, sender: tx2 });
    assert_eq!(manager.user_count(), 1);
    manager.register(2, UserConnection { connection_id: 21, sender: tx3 });
    assert_eq!(manager.user_count(), 2);
    manager.unregister(1, 11);
    assert_eq!(manager.user_count(), 2);
    manager.unregister(1, 12);
    assert_eq!(manager.user_count(), 1);
    assert!(!manager.is_connected(1));
    manager.unregister(2, 21);
    assert_eq!(manager.user_count(), 0);
}

#[test]
fn a_kept_connection_keeps_its_own_channel() {
    let mut manager = create_connection_manager();
    let (tx1, mut rx1) = unbounded_channel::<ChatResponse>();
    let (tx2, mut rx2) = unbounded_channel::<ChatResponse>();
    let (tx3, mut rx3) = unbounded_channel::<ChatResponse>();
    manager.register(1, UserConnection { connection_id: 11, sender: tx1 });
    manager.register(1, UserConnection { connection_id: 12, sender: tx2 });
    manager.register(1, UserConnection { connection_id: 13, sender: tx3 });
    manager.unregister(1, 12);
    let event = error_event("still here");
    let deliveries = manager.deliver(1, &event);
    assert_eq!(deliveries.iter().map(|d| d.connection_id).collect::<Vec<_>>(), vec![11, 13]);
    assert_eq!(rx1.try_recv().unwrap(), event);
    assert_eq!(rx3.try_recv().unwrap(), event);
    assert!(rx2.try_recv().is_err());
}
