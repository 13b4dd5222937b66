use techni_zlecenia_api::error::{AppError, ErrorKind};
use techni_zlecenia_api::server::chat::{
    canonical_pair, decode_command, ChatCommand, ChatResponse, Field, Message, MessageInfo,
    MessageNotification, MessageThread, RawCommand,
};

#[test]
fn canonical_pair_puts_lower_first() {
    assert_eq!(canonical_pair(3, 9), (3, 9));
    assert_eq!(canonical_pair(9, 3), (3, 9));
    assert_eq!(canonical_pair(4, 4), (4, 4));
    assert_eq!(canonical_pair(0, u128::MAX), (0, u128::MAX));
}

#[test]
fn thread_assembled_in_either_order_has_same_pair() {
    let a = MessageThread::assemble(1, 100, 20, 10, 5);
    let b = MessageThread::assemble(2, 100, 10, 20, 6);
    assert_eq!((a.user_a, a.user_b), (10, 20));
    assert_eq!((b.user_a, b.user_b), (10, 20));
    assert_eq!(a.created_at, 5);
    assert_eq!(a.updated_at, 5);
    assert_eq!(a.post_id, 100);
    assert_eq!(a.id, 1);
}

#[test]
fn new_thread_has_random_identifier_and_ordered_pair() {
    let t = MessageThread::new(7, 50, 40);
    assert_eq!((t.user_a, t.user_b), (40, 50));
    assert_eq!(t.post_id, 7);
    assert_eq!(t.created_at, t.updated_at);
    assert_eq!((t.id >> 76) & 0xf, 4);
    assert_eq!((t.id >> 62) & 0x3, 2);
    let u = MessageThread::new(7, 50, 40);
    assert_ne!(t.id, u.id);
}

#[test]
fn participants_and_the_other_user() {
    let t = MessageThread::assemble(1, 100, 10, 20, 0);
    assert!(t.contains_user(&10));
    assert!(t.contains_user(&20));
    assert!(!t.contains_user(&30));
    assert_eq!(t.get_other_user(&10), Some(20));
    assert_eq!(t.get_other_user(&20), Some(10));
    assert_eq!(t.get_other_user(&30), None);
}

#[test]
fn new_message_keeps_what_it_is_given() {
    let m = Message::new(5, 6, "hi".to_string());
    assert_eq!(m.thread_id, 5);
    assert_eq!(m.sender_id, 6);
    assert_eq!(m.content, "hi");
    assert_eq!((m.id >> 76) & 0xf, 4);
    let n = Message::assemble(1, 5, 6, "yo".to_string(), 77);
    assert_eq!(n, Message { id: 1, thread_id: 5, sender_id: 6, content: "yo".to_string(), sent_at: 77 });
    assert_eq!(n.clone(), n);
}

#[test]
fn notification_becomes_new_message_event() {
    let m = Message::assemble(1, 5, 6, "yo".to_string(), 77);
    let n = MessageNotification::from_message(&m);
    assert_eq!(
        n,
        MessageNotification { message_id: 1, thread_id: 5, sender_id: 6, content: "yo".to_string(), sent_at: 77 }
    );
    let event = n.into_event("bob".to_string());
    let expected = MessageInfo {
        id: 1,
        thread_id: 5,
        sender_id: 6,
        sender_name: "bob".to_string(),
        content: "yo".to_string(),
        sent_at: 77,
    };
    assert_eq!(event, ChatResponse::NewMessage { message: expected.clone() });
    assert_eq!(event.clone(), event);
    assert_eq!(MessageInfo::from_message(m, "bob".to_string()), expected);
}

fn raw(cmd: &str) -> RawCommand {
    RawCommand {
        cmd: Field::Present(cmd.to_string()),
        post_id: Field::Absent,
        other_user_id: Field::Absent,
        thread_id: Field::Absent,
        content: Field::Absent,
        limit: Field::Absent,
        offset: Field::Absent,
    }
}

fn some_id(text: &str) -> Field<String> {
    Field::Present(text.to_string())
}

#[test]
fn commands_are_read_by_their_kind() {
    assert_eq!(decode_command(raw("get_threads")).ok(), Some(ChatCommand::GetThreads));
    let mut create = raw("create_thread");
    create.post_id = some_id("00000000-0000-0000-0000-000000000001");
    create.other_user_id = some_id("00000000-0000-0000-0000-000000000002");
    create.limit = Field::Malformed;
    assert_eq!(decode_command(create).ok(), Some(ChatCommand::CreateThread { post_id: 1, other_user_id: 2 }));
    let mut send = raw("send_message");
    send.thread_id = some_id("00000000-0000-0000-0000-000000000003");
    send.content = Field::Present("hi".to_string());
    assert_eq!(
        decode_command(send).ok(),
        Some(ChatCommand::SendMessage { thread_id: 3, content: "hi".to_string() })
    );
    let mut list = raw("get_messages");
    list.thread_id = some_id("00000000-0000-0000-0000-000000000003");
    list.offset = Field::Present(7);
    assert_eq!(
        decode_command(list).ok(),
        Some(ChatCommand::GetMessages { thread_id: 3, limit: None, offset: Some(7) })
    );
}

#[test]
fn malformed_commands_are_invalid() {
    match decode_command(raw("shout")) {
        Err(AppError::JsonError(_)) => {}
        other => panic!("unexpected outcome {:?}", other),
    }
    let mut no_kind = raw("get_threads");
    no_kind.cmd = Field::Absent;
    assert_eq!(decode_command(no_kind).unwrap_err().kind(), ErrorKind::ValidationError);
    let mut bad_kind = raw("get_threads");
    bad_kind.cmd = Field::Malformed;
    assert!(decode_command(bad_kind).is_err());
    match decode_command(raw("create_thread")) {
        Err(AppError::JsonError(text)) => assert_eq!(text, "missing field post_id"),
        other => panic!("unexpected outcome {:?}", other),
    }
    let mut create = raw("create_thread");
    create.post_id = some_id("nonsense");
    create.other_user_id = some_id("00000000-0000-0000-0000-000000000002");
    match decode_command(create) {
        Err(AppError::UuidError(_)) => {}
        other => panic!("unexpected outcome {:?}", other),
    }
    let mut send = raw("send_message");
    send.thread_id = some_id("00000000-0000-0000-0000-000000000003");
    send.content = Field::Malformed;
    assert!(decode_command(send).is_err());
    let mut list = raw("get_messages");
    list.thread_id = some_id("00000000-0000-0000-0000-000000000003");
    list.limit = Field::Malformed;
    assert_eq!(decode_command(list).unwrap_err().kind(), ErrorKind::ValidationError);
    let mut list = raw("get_messages");
    list.thread_id = Field::Malformed;
    assert!(decode_command(list).is_err());
}

#[test]
fn events_are_named_on_the_wire() {
    let info = MessageInfo {
        id: 1,
        thread_id: 2,
        sender_id: 3,
        sender_name: "n".to_string(),
        content: "c".to_string(),
        sent_at: 4,
    };
    assert_eq!(ChatResponse::MessageSent { message: info.clone() }.event_name(), "message_sent");
    assert_eq!(ChatResponse::NewMessage { message: info }.event_name(), "new_message");
    assert_eq!(ChatResponse::ThreadsList { threads: vec![] }.event_name(), "threads_list");
    assert_eq!(ChatResponse::MessagesList { messages: vec![] }.event_name(), "messages_list");
    assert_eq!(ChatResponse::Error { message: "m".to_string(), code: None }.event_name(), "error");
}
