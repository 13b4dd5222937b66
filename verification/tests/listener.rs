use techni_zlecenia_api::api::chat::{create_connection_manager, UserConnection};
use techni_zlecenia_api::api::listener::{
    after_receive, channel_name, channel_names, handle_notification, parse_channel, receive, resume,
    subscriptions, ListenerAction, ListenerEvent, NotificationFlow, NotificationStep,
};
use techni_zlecenia_api::db::messages::{StoreReply, StoreRequest};
use techni_zlecenia_api::db::store::ChatStore;
use techni_zlecenia_api::db::users::update_token_ver;
use techni_zlecenia_api::error::AppError;
use techni_zlecenia_api::server::chat::{ChatResponse, MessageInfo, MessageNotification};
use tokio::sync::mpsc::unbounded_channel;

const THREAD: u128 = 0x11111111_2222_4333_8444_555555555555;

fn notification() -> MessageNotification {
    MessageNotification { message_id: 1, thread_id: THREAD, sender_id: 6, content: "hi".to_string(), sent_at: 3 }
}

#[test]
fn identifiers_print_and_parse() {
    assert_eq!(channel_name(0), "thread_00000000-0000-0000-0000-000000000000");
    assert_eq!(channel_name(0xabcdef), "thread_00000000-0000-0000-0000-000000abcdef");
    assert_eq!(parse_channel("thread_11111111-2222-4333-8444-555555555555").ok(), Some(Some(THREAD)));
    assert_eq!(parse_channel("thread_11111111222243338444555555555555").ok(), Some(Some(THREAD)));
    assert_eq!(parse_channel("thread_11111111-2222-4333-8444-55555555555A").ok(), Some(Some(THREAD + 5)));
    assert!(parse_channel("thread_nonsense").is_err());
    let id = update_token_ver();
    assert_eq!(parse_channel(&channel_name(id)).ok(), Some(Some(id)));
    assert_eq!((id >> 76) & 0xf, 4);
    assert_eq!((id >> 62) & 0x3, 2);
}

#[test]
fn channel_names_are_read_back() {
    assert_eq!(channel_name(THREAD), "thread_11111111-2222-4333-8444-555555555555");
    assert_eq!(parse_channel(&channel_name(THREAD)).ok(), Some(Some(THREAD)));
    assert_eq!(parse_channel("other_channel").ok(), Some(None));
    assert_eq!(parse_channel("thread").ok(), Some(None));
    match parse_channel("thread_xyz") {
        Err(AppError::UuidError(_)) => {}
        other => panic!("unexpected topic {:?}", other),
    }
    match parse_channel("thread_") {
        Err(AppError::UuidError(_)) => {}
        other => panic!("unexpected topic {:?}", other),
    }
    assert_eq!(
        channel_names(&vec![0, THREAD]),
        vec![
            "thread_00000000-0000-0000-0000-000000000000".to_string(),
            "thread_11111111-2222-4333-8444-555555555555".to_string(),
        ]
    );
}

#[test]
fn subscriptions_follow_the_store() {
    assert_eq!(
        subscriptions(StoreReply::ThreadIds(vec![THREAD])).ok(),
        Some(vec!["thread_11111111-2222-4333-8444-555555555555".to_string()])
    );
    match subscriptions(StoreReply::Failed(AppError::SqlxError("down".to_string()))) {
        Err(AppError::SqlxError(text)) => assert_eq!(text, "down"),
        other => panic!("unexpected plan {:?}", other),
    }
    match subscriptions(StoreReply::Username("x".to_string())) {
        Err(AppError::InternalServerError(_)) => {}
        other => panic!("unexpected plan {:?}", other),
    }
}

#[test]
fn the_listener_backs_off_when_idle_and_stops_when_lost() {
    assert_eq!(after_receive(ListenerEvent::Notified), ListenerAction::Handle);
    assert_eq!(after_receive(ListenerEvent::Idle), ListenerAction::Sleep { millis: 100 });
    assert_eq!(after_receive(ListenerEvent::Lost), ListenerAction::Stop);
}

#[test]
fn a_notification_asks_for_the_sender_and_is_delivered() {
    let channel = channel_name(THREAD);
    let flow = match receive(10, &channel, Ok(notification())) {
        NotificationStep::Ask { flow, request } => {
            assert_eq!(request, StoreRequest::Username { user_id: 6 });
            flow
        }
        other => panic!("unexpected step {:?}", other),
    };
    match resume(flow, StoreReply::Username("bob".to_string())) {
        NotificationStep::Deliver { outgoing } => {
            assert_eq!((outgoing.user_id, outgoing.only_connection), (10, None));
            assert_eq!(
                outgoing.event,
                ChatResponse::NewMessage {
                    message: MessageInfo {
                        id: 1,
                        thread_id: THREAD,
                        sender_id: 6,
                        sender_name: "bob".to_string(),
                        content: "hi".to_string(),
                        sent_at: 3,
                    },
                }
            );
        }
        other => panic!("unexpected step {:?}", other),
    }
}

#[test]
fn unreadable_notifications_fail_or_pass() {
    match receive(10, "something_else", Ok(notification())) {
        NotificationStep::Ignore => {}
        other => panic!("unexpected step {:?}", other),
    }
    match receive(10, "thread_bad", Ok(notification())) {
        NotificationStep::Fail { error: AppError::UuidError(_) } => {}
        other => panic!("unexpected step {:?}", other),
    }
    let channel = channel_name(THREAD);
    match receive(10, &channel, Err(AppError::JsonError("eof".to_string()))) {
        NotificationStep::Fail { error: AppError::JsonError(text) } => assert_eq!(text, "eof"),
        other => panic!("unexpected step {:?}", other),
    }
    match receive(10, "thread_bad", Err(AppError::JsonError("eof".to_string()))) {
        NotificationStep::Fail { error: AppError::UuidError(_) } => {}
        other => panic!("unexpected step {:?}", other),
    }
    let flow = NotificationFlow { user_id: 10, notification: notification() };
    match resume(flow, StoreReply::Failed(AppError::SqlxError("down".to_string()))) {
        NotificationStep::Fail { error: AppError::SqlxError(_) } => {}
        other => panic!("unexpected step {:?}", other),
    }
    let flow = NotificationFlow { user_id: 10, notification: notification() };
    match resume(flow, StoreReply::ThreadIds(vec![])) {
        NotificationStep::Fail { error: AppError::InternalServerError(_) } => {}
        other => panic!("unexpected step {:?}", other),
    }
}

#[test]
fn a_notification_reaches_every_connection_of_the_listener() {
    let mut db = ChatStore::new();
    db.add_user(6, "bob".to_string());
    let mut manager = create_connection_manager();
    let (tx1, mut rx1) = unbounded_channel::<ChatResponse>();
    let (tx2, mut rx2) = unbounded_channel::<ChatResponse>();
    manager.register(10, UserConnection { connection_id: 1, sender: tx1 });
    manager.register(10, UserConnection { connection_id: 2, sender: tx2 });
    let channel = channel_name(THREAD);
    let report = handle_notification(&channel, Ok(notification()), 10, &manager, &db).unwrap();
    assert_eq!(report.deliveries.len(), 2);
    assert!(report.deliveries[0].accepted && report.deliveries[1].accepted);
    let expected = ChatResponse::NewMessage {
        message: MessageInfo {
            id: 1,
            thread_id: THREAD,
            sender_id: 6,
            sender_name: "bob".to_string(),
            content: "hi".to_string(),
            sent_at: 3,
        },
    };
    let outgoing = report.outgoing.unwrap();
    assert_eq!((outgoing.user_id, outgoing.only_connection), (10, None));
    assert_eq!(outgoing.event, expected);
    assert_eq!(rx1.try_recv().unwrap(), expected);
    assert_eq!(rx2.try_recv().unwrap(), expected);
    assert!(rx1.try_recv().is_err());
    assert!(rx2.try_recv().is_err());
    let ignored = handle_notification("noise", Ok(notification()), 10, &manager, &db).unwrap();
    assert!(ignored.outgoing.is_none());
    assert_eq!(ignored.deliveries.len(), 0);
    let mut unknown = notification();
    unknown.sender_id = 99;
    match handle_notification(&channel, Ok(unknown), 10, &manager, &db) {
        Err(AppError::NotFound(_)) => {}
        other => panic!("unexpected outcome {:?}", other),
    }
    assert!(rx1.try_recv().is_err());
}

#[test]
fn a_closed_channel_does_not_keep_the_notification_from_the_others() {
    let mut db = ChatStore::new();
    db.add_user(6, "bob".to_string());
    let mut manager = create_connection_manager();
    let (tx1, rx1) = unbounded_channel::<ChatResponse>();
    let (tx2, mut rx2) = unbounded_channel::<ChatResponse>();
    manager.register(10, UserConnection { connection_id: 1, sender: tx1 });
    manager.register(10, UserConnection { connection_id: 2, sender: tx2 });
    drop(rx1);
    let channel = channel_name(THREAD);
    let report = handle_notification(&channel, Ok(notification()), 10, &manager, &db).unwrap();
    assert_eq!(report.deliveries.len(), 2);
    assert!(!report.deliveries[0].accepted);
    assert!(report.deliveries[1].accepted);
    assert_eq!(rx2.try_recv().unwrap(), report.outgoing.unwrap().event);
}
