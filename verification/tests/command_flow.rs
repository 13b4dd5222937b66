use techni_zlecenia_api::api::command::{
    caller_of, fail, find_summary, make_error_event, resume, start, Caller, CommandFlow, CommandStep,
};
use techni_zlecenia_api::db::messages::{StoreReply, StoreRequest};
use techni_zlecenia_api::error::{AppError, ErrorKind};
use techni_zlecenia_api::server::chat::{
    ChatCommand, ChatResponse, Message, MessageInfo, MessageThread, ThreadInfo,
};

const CALLER: Caller = Caller { user_id: 10, connection_id: 77 };

fn summary(id: u128, other: u128) -> ThreadInfo {
    ThreadInfo {
        id,
        post_id: 1,
        post_title: "t".to_string(),
        other_user_id: other,
        other_user_name: "o".to_string(),
        last_message: None,
        last_message_at: None,
        created_at: 0,
        updated_at: 0,
    }
}

fn ask(step: CommandStep) -> (CommandFlow, StoreRequest) {
    match step {
        CommandStep::Ask { flow, request } => (flow, request),
        other => panic!("unexpected step {:?}", other),
    }
}

#[test]
fn get_messages_defaults_to_fifty_from_the_start() {
    let (flow, request) = ask(start(CALLER, ChatCommand::GetMessages { thread_id: 5, limit: None, offset: None }));
    assert_eq!(request, StoreRequest::ThreadMessages { thread_id: 5, user_id: 10, limit: 50, offset: 0 });
    assert_eq!(caller_of(&flow), CALLER);
    let (_, request) = ask(start(CALLER, ChatCommand::GetMessages { thread_id: 5, limit: Some(3), offset: Some(9) }));
    assert_eq!(request, StoreRequest::ThreadMessages { thread_id: 5, user_id: 10, limit: 3, offset: 9 });
}

#[test]
fn create_thread_refreshes_the_other_user() {
    let (flow, request) = ask(start(CALLER, ChatCommand::CreateThread { post_id: 1, other_user_id: 20 }));
    assert_eq!(request, StoreRequest::CreateThread { post_id: 1, user1: 10, user2: 20 });
    let thread = MessageThread { id: 3, post_id: 1, user_a: 10, user_b: 20, created_at: 0, updated_at: 0 };
    let (flow, request) = ask(resume(flow, StoreReply::Thread(thread)));
    assert_eq!(request, StoreRequest::UserThreads { user_id: 10 });
    let (flow, request) = ask(resume(flow, StoreReply::Threads(vec![summary(2, 30), summary(3, 20)])));
    assert_eq!(request, StoreRequest::UserThreads { user_id: 20 });
    match resume(flow, StoreReply::Threads(vec![summary(3, 10)])) {
        CommandStep::Finish { outgoing, failure: None } => {
            assert_eq!(outgoing.len(), 2);
            assert_eq!((outgoing[0].user_id, outgoing[0].only_connection), (20, None));
            assert_eq!(outgoing[0].event, ChatResponse::ThreadsList { threads: vec![summary(3, 10)] });
            assert_eq!((outgoing[1].user_id, outgoing[1].only_connection), (10, None));
            assert_eq!(outgoing[1].event, ChatResponse::ThreadCreated { thread: summary(3, 20) });
        }
        other => panic!("unexpected step {:?}", other),
    }
}

#[test]
fn create_thread_fails_when_the_thread_is_missing_from_the_list() {
    let thread = MessageThread { id: 3, post_id: 1, user_a: 10, user_b: 20, created_at: 0, updated_at: 0 };
    let flow = CommandFlow::ListingOwnThreads { caller: CALLER, other_user_id: 20, thread };
    match resume(flow, StoreReply::Threads(vec![summary(2, 30)])) {
        CommandStep::Finish { outgoing, failure: Some(AppError::InternalServerError(text)) } => {
            assert_eq!(text, "Thread not found after creation");
            assert_eq!(outgoing.len(), 1);
            assert_eq!((outgoing[0].user_id, outgoing[0].only_connection), (10, Some(77)));
            assert_eq!(outgoing[0].event, make_error_event(ErrorKind::Internal));
        }
        other => panic!("unexpected step {:?}", other),
    }
}

#[test]
fn send_message_goes_to_the_other_participant() {
    let (flow, request) = ask(start(CALLER, ChatCommand::SendMessage { thread_id: 5, content: "hi".to_string() }));
    assert_eq!(request, StoreRequest::SendMessage { thread_id: 5, sender_id: 10, content: "hi".to_string() });
    let message = Message { id: 9, thread_id: 5, sender_id: 10, content: "hi".to_string(), sent_at: 4 };
    let (flow, request) = ask(resume(flow, StoreReply::Message(message)));
    assert_eq!(request, StoreRequest::Username { user_id: 10 });
    let (flow, request) = ask(resume(flow, StoreReply::Username("ann".to_string())));
    assert_eq!(request, StoreRequest::ThreadById { thread_id: 5, user_id: 10 });
    let thread = MessageThread { id: 5, post_id: 1, user_a: 2, user_b: 10, created_at: 0, updated_at: 0 };
    let info = MessageInfo {
        id: 9,
        thread_id: 5,
        sender_id: 10,
        sender_name: "ann".to_string(),
        content: "hi".to_string(),
        sent_at: 4,
    };
    match resume(flow, StoreReply::MaybeThread(Some(thread))) {
        CommandStep::Finish { outgoing, failure: None } => {
            assert_eq!(outgoing.len(), 2);
            assert_eq!((outgoing[0].user_id, outgoing[0].only_connection), (2, None));
            assert_eq!(outgoing[0].event, ChatResponse::NewMessage { message: info.clone() });
            assert_eq!((outgoing[1].user_id, outgoing[1].only_connection), (10, None));
            assert_eq!(outgoing[1].event, ChatResponse::MessageSent { message: info.clone() });
        }
        other => panic!("unexpected step {:?}", other),
    }
    let flow = CommandFlow::FindingRecipient { caller: CALLER, message_info: info.clone() };
    match resume(flow, StoreReply::MaybeThread(None)) {
        CommandStep::Finish { outgoing, failure: None } => {
            assert_eq!(outgoing.len(), 1);
            assert_eq!(outgoing[0].event, ChatResponse::MessageSent { message: info });
        }
        other => panic!("unexpected step {:?}", other),
    }
}

#[test]
fn store_failures_end_the_command_with_an_error_event() {
    let (flow, _) = ask(start(CALLER, ChatCommand::GetThreads));
    match resume(flow, StoreReply::Failed(AppError::SqlxError("secret detail".to_string()))) {
        CommandStep::Finish { outgoing, failure: Some(AppError::SqlxError(text)) } => {
            assert_eq!(text, "secret detail");
            assert_eq!(outgoing.len(), 1);
            assert_eq!((outgoing[0].user_id, outgoing[0].only_connection), (10, Some(77)));
            assert_eq!(
                outgoing[0].event,
                ChatResponse::Error { message: "Internal error".to_string(), code: Some("internal".to_string()) }
            );
        }
        other => panic!("unexpected step {:?}", other),
    }
    let (flow, _) = ask(start(CALLER, ChatCommand::GetThreads));
    match resume(flow, StoreReply::Username("x".to_string())) {
        CommandStep::Finish { outgoing, failure: Some(AppError::InternalServerError(_)) } => {
            assert_eq!(outgoing.len(), 1);
        }
        other => panic!("unexpected step {:?}", other),
    }
    match fail(CALLER, AppError::AccessDenied) {
        CommandStep::Finish { outgoing, failure: Some(AppError::AccessDenied) } => {
            assert_eq!(outgoing[0].event, make_error_event(ErrorKind::AccessDenied));
        }
        other => panic!("unexpected step {:?}", other),
    }
}

#[test]
fn lists_are_answered_to_the_caller() {
    let (flow, request) = ask(start(CALLER, ChatCommand::GetThreads));
    assert_eq!(request, StoreRequest::UserThreads { user_id: 10 });
    match resume(flow, StoreReply::Threads(vec![summary(1, 2)])) {
        CommandStep::Finish { outgoing, failure: None } => {
            assert_eq!(outgoing.len(), 1);
            assert_eq!(outgoing[0].user_id, 10);
            assert_eq!(outgoing[0].event, ChatResponse::ThreadsList { threads: vec![summary(1, 2)] });
        }
        other => panic!("unexpected step {:?}", other),
    }
    let flow = CommandFlow::ListingMessages { caller: CALLER };
    match resume(flow, StoreReply::Messages(vec![])) {
        CommandStep::Finish { outgoing, failure: None } => {
            assert_eq!(outgoing[0].event, ChatResponse::MessagesList { messages: vec![] });
        }
        other => panic!("unexpected step {:?}", other),
    }
}

#[test]
fn find_summary_takes_the_first_match() {
    let mut second = summary(3, 21);
    second.post_title = "later".to_string();
    let list = vec![summary(2, 30), summary(3, 20), second];
    assert_eq!(find_summary(&list, 3), Some(summary(3, 20)));
    assert_eq!(find_summary(&list, 4), None);
    assert_eq!(find_summary(&vec![], 4), None);
}
