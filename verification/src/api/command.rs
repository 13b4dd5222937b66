//! Commands from a live connection: which questions each puts to the store,
//! in which order, and what is then sent to whom.

use vstd::prelude::*;
use vstd::string::StringExecFns;

use crate::api::chat::{attempted, targets, ConnectionManager, Delivery};
use crate::db::messages::{answers, StoreReply, StoreRequest, DEFAULT_MESSAGE_LIMIT};
use crate::db::store::{
    candidate_thread, has_message_id, thread_for, thread_messages, upserted_thread,
    upserted_threads, user_threads, username_of, ChatState, ChatStore,
};
use crate::error::{kind_code, kind_text, AppError, ErrorKind};
use crate::server::chat::{
    command_of, decode_command, message_views, thread_views, ChatCommand, ChatResponse,
    ChatResponseView, Message, MessageInfo, MessageInfoView, MessageThread, RawCommand, ThreadInfo,
};
use crate::server::clock::{now_micros, Timestamp};
use crate::server::ident::{fresh_id, Id};

verus! {

/// Who sent a command: the user and the connection it came over.
#[derive(Debug, Clone, Copy, PartialEq, Eq, Structural)]
pub struct Caller {
    pub user_id: Id,
    pub connection_id: Id,
}

/// An event to hand to a user: to every connection of the user, or to one
/// connection only.
#[derive(Debug)]
pub struct Outgoing {
    pub user_id: Id,
    pub only_connection: Option<Id>,
    pub event: ChatResponse,
}

/// What an outgoing event is, with the event by its view.
pub struct OutgoingView {
    pub user_id: Id,
    pub only_connection: Option<Id>,
    pub event: ChatResponseView,
}

impl View for Outgoing {
    type V = OutgoingView;

    open spec fn view(&self) -> OutgoingView {
        OutgoingView {
            user_id: self.user_id,
            only_connection: self.only_connection,
            event: self.event@,
        }
    }
}

/// A list of outgoing events, each by its view.
pub open spec fn outgoing_views(outgoing: Seq<Outgoing>) -> Seq<OutgoingView> {
    outgoing.map_values(|o: Outgoing| o@)
}

/// An event for every connection of `user_id`.
pub open spec fn to_user(user_id: Id, event: ChatResponseView) -> OutgoingView {
    OutgoingView { user_id, only_connection: None, event }
}

/// The event that tells a client of a failure: the class of the failure in
/// words that give nothing away, and the code of the class.
pub open spec fn error_event(kind: ErrorKind) -> ChatResponseView {
    ChatResponseView::Error { message: kind_text(kind), code: Some(kind_code(kind)) }
}

/// The error event for the connection that sent the failed command, and for
/// no other.
pub open spec fn failure_notice(caller: Caller, kind: ErrorKind) -> OutgoingView {
    OutgoingView {
        user_id: caller.user_id,
        only_connection: Some(caller.connection_id),
        event: error_event(kind),
    }
}

/// How far a command has come: what it waits for and what it has learned.
#[derive(Debug)]
pub enum CommandFlow {
    /// Waits for the created or existing thread.
    CreatingThread { caller: Caller, other_user_id: Id },
    /// Has the thread; waits for the caller's thread list.
    ListingOwnThreads { caller: Caller, other_user_id: Id, thread: MessageThread },
    /// Has the caller's summary; waits for the other user's thread list.
    ListingOtherThreads { caller: Caller, other_user_id: Id, thread_info: ThreadInfo },
    /// Waits for the stored message.
    SendingMessage { caller: Caller, thread_id: Id },
    /// Has the message; waits for the sender's display name.
    NamingSender { caller: Caller, thread_id: Id, message: Message },
    /// Has the message with its sender; waits for the thread, to find the
    /// other participant.
    FindingRecipient { caller: Caller, message_info: MessageInfo },
    /// Waits for the caller's thread list.
    ListingThreads { caller: Caller },
    /// Waits for a page of messages.
    ListingMessages { caller: Caller },
}

impl CommandFlow {
    /// Who sent the command.
    pub open spec fn caller(&self) -> Caller {
        match *self {
            CommandFlow::CreatingThread { caller, .. } => caller,
            CommandFlow::ListingOwnThreads { caller, .. } => caller,
            CommandFlow::ListingOtherThreads { caller, .. } => caller,
            CommandFlow::SendingMessage { caller, .. } => caller,
            CommandFlow::NamingSender { caller, .. } => caller,
            CommandFlow::FindingRecipient { caller, .. } => caller,
            CommandFlow::ListingThreads { caller } => caller,
            CommandFlow::ListingMessages { caller } => caller,
        }
    }
}

/// What to do next for a command.
#[derive(Debug)]
pub enum CommandStep {
    /// Put `request` to the store and come back with its answer.
    Ask { flow: CommandFlow, request: StoreRequest },
    /// The command is done: hand out `outgoing`, in order. Where it failed,
    /// `failure` holds why, for the server's log.
    Finish { outgoing: Vec<Outgoing>, failure: Option<AppError> },
}

/// The page size that a command asks for, or the default of 50.
pub open spec fn limit_or_default(limit: Option<i32>) -> i32 {
    match limit {
        Some(n) => n,
        None => DEFAULT_MESSAGE_LIMIT,
    }
}

/// The number of messages that a command skips, or none.
pub open spec fn offset_or_default(offset: Option<i32>) -> i32 {
    match offset {
        Some(n) => n,
        None => 0,
    }
}

/// The first question that a command puts to the store.
pub open spec fn first_request(caller: Caller, command: ChatCommand) -> StoreRequest {
    match command {
        ChatCommand::CreateThread { post_id, other_user_id } => StoreRequest::CreateThread {
            post_id,
            user1: caller.user_id,
            user2: other_user_id,
        },
        ChatCommand::SendMessage { thread_id, content } => StoreRequest::SendMessage {
            thread_id,
            sender_id: caller.user_id,
            content,
        },
        ChatCommand::GetThreads => StoreRequest::UserThreads { user_id: caller.user_id },
        ChatCommand::GetMessages { thread_id, limit, offset } => StoreRequest::ThreadMessages {
            thread_id,
            user_id: caller.user_id,
            limit: limit_or_default(limit),
            offset: offset_or_default(offset),
        },
    }
}

/// The state in which a command waits for its first answer.
pub open spec fn first_flow(caller: Caller, command: ChatCommand) -> CommandFlow {
    match command {
        ChatCommand::CreateThread { post_id, other_user_id } => CommandFlow::CreatingThread {
            caller,
            other_user_id,
        },
        ChatCommand::SendMessage { thread_id, content } => CommandFlow::SendingMessage {
            caller,
            thread_id,
        },
        ChatCommand::GetThreads => CommandFlow::ListingThreads { caller },
        ChatCommand::GetMessages { thread_id, limit, offset } => CommandFlow::ListingMessages {
            caller,
        },
    }
}

/// The first summary in `threads` with identifier `id`.
pub open spec fn summary_with_id(threads: Seq<ThreadInfo>, id: Id) -> Option<ThreadInfo>
    decreases threads.len(),
{
    if threads.len() == 0 {
        None
    } else if threads[0].id == id {
        Some(threads[0])
    } else {
        summary_with_id(threads.drop_first(), id)
    }
}

/// The participant of `thread` that a message of `sender` goes to: the
/// second participant where the sender is the first, else the first.
pub open spec fn recipient_of(thread: MessageThread, sender: Id) -> Id {
    if thread.user_a == sender {
        thread.user_b
    } else {
        thread.user_a
    }
}

/// A copy of the first summary in `threads` with identifier `id`.
pub fn find_summary(threads: &Vec<ThreadInfo>, id: Id) -> (found: Option<ThreadInfo>)
    ensures
        found == summary_with_id(threads@, id),
{
    let mut i: usize = 0;
    assert(threads@.skip(0) == threads@);
    while i < threads.len()
        invariant
            i <= threads.len(),
            summary_with_id(threads@, id) == summary_with_id(threads@.skip(i as int), id),
        decreases threads.len() - i,
    {
        assert(threads@.skip(i as int)[0] == threads@[i as int]);
        if threads[i].id == id {
            return Some(threads[i].clone());
        }
        assert(threads@.skip(i as int).drop_first() == threads@.skip(i + 1));
        i += 1;
    }
    assert(threads@.skip(threads.len() as int).len() == 0);
    None
}

/// What is said of an answer that does not fit the question.
pub open spec fn unexpected_reply() -> Seq<char> {
    "Unexpected answer from the store"@
}

/// Whether `step` ends a command in failure with `error`, telling only the
/// caller's own connection.
pub open spec fn fails_with(step: CommandStep, caller: Caller, error: AppError) -> bool {
    step matches CommandStep::Finish { outgoing, failure } && failure == Some(error)
        && outgoing_views(outgoing@) == seq![failure_notice(caller, error.spec_kind())]
}

/// Whether `step` ends a command in failure because the store's answer was
/// of the wrong kind.
pub open spec fn fails_out_of_step(step: CommandStep, caller: Caller) -> bool {
    step matches CommandStep::Finish { outgoing, failure } && failure matches Some(
        AppError::InternalServerError(text),
    ) && text@ == unexpected_reply() && outgoing_views(outgoing@) == seq![
        failure_notice(caller, ErrorKind::Internal),
    ]
}

/// Whether `step` ends a command in success: `aside` goes out first, if
/// there is one, then `answer` to every connection of the caller.
pub open spec fn succeeds_with(
    step: CommandStep,
    caller: Caller,
    aside: Option<OutgoingView>,
    answer: ChatResponseView,
) -> bool {
    step matches CommandStep::Finish { outgoing, failure } && failure is None && outgoing_views(
        outgoing@,
    ) == match aside {
        Some(first) => seq![first, to_user(caller.user_id, answer)],
        None => seq![to_user(caller.user_id, answer)],
    }
}

/// The event that tells a client of a failure of class `kind`.
pub fn make_error_event(kind: ErrorKind) -> (event: ChatResponse)
    ensures
        event@ == error_event(kind),
{
    ChatResponse::Error { message: kind.client_text(), code: Some(kind.code()) }
}

/// The end of a command that failed: the error event goes to the connection
/// that sent the command, and to no other.
pub fn fail(caller: Caller, error: AppError) -> (step: CommandStep)
    ensures
        fails_with(step, caller, error),
{
    let kind = error.kind();
    let mut outgoing: Vec<Outgoing> = Vec::new();
    outgoing.push(
        Outgoing {
            user_id: caller.user_id,
            only_connection: Some(caller.connection_id),
            event: make_error_event(kind),
        },
    );
    assert(outgoing_views(outgoing@) =~= seq![failure_notice(caller, error.spec_kind())]);
    CommandStep::Finish { outgoing, failure: Some(error) }
}

/// The end of a command that succeeded: first what goes to another user, if
/// anything, then the answer to every connection of the caller.
fn finish(caller: Caller, aside: Option<Outgoing>, answer: ChatResponse) -> (step: CommandStep)
    ensures
        succeeds_with(
            step,
            caller,
            match aside {
                Some(first) => Some(first@),
                None => None,
            },
            answer@,
        ),
{
    let mut outgoing: Vec<Outgoing> = Vec::new();
    match aside {
        Some(first) => {
            outgoing.push(first);
        },
        None => {},
    }
    outgoing.push(Outgoing { user_id: caller.user_id, only_connection: None, event: answer });
    assert(outgoing_views(outgoing@) =~= match aside {
        Some(first) => seq![first@, to_user(caller.user_id, answer@)],
        None => seq![to_user(caller.user_id, answer@)],
    });
    CommandStep::Finish { outgoing, failure: None }
}

/// The failure of a command whose answer from the store is of the wrong
/// kind.
fn out_of_step(caller: Caller) -> (step: CommandStep)
    ensures
        fails_out_of_step(step, caller),
{
    fail(caller, AppError::InternalServerError(String::from_str("Unexpected answer from the store")))
}

/// Begins a command: the first question to the store, and the state that
/// waits for its answer.
pub fn start(caller: Caller, command: ChatCommand) -> (step: CommandStep)
    ensures
        step matches CommandStep::Ask { flow, request } && flow == first_flow(caller, command)
            && request == first_request(caller, command),
{
    match command {
        ChatCommand::CreateThread { post_id, other_user_id } => CommandStep::Ask {
            flow: CommandFlow::CreatingThread { caller, other_user_id },
            request: StoreRequest::CreateThread { post_id, user1: caller.user_id, user2: other_user_id },
        },
        ChatCommand::SendMessage { thread_id, content } => CommandStep::Ask {
            flow: CommandFlow::SendingMessage { caller, thread_id },
            request: StoreRequest::SendMessage { thread_id, sender_id: caller.user_id, content },
        },
        ChatCommand::GetThreads => CommandStep::Ask {
            flow: CommandFlow::ListingThreads { caller },
            request: StoreRequest::UserThreads { user_id: caller.user_id },
        },
        ChatCommand::GetMessages { thread_id, limit, offset } => {
            let limit: i32 = match limit {
                Some(n) => n,
                None => DEFAULT_MESSAGE_LIMIT,
            };
            let offset: i32 = match offset {
                Some(n) => n,
                None => 0,
            };
            CommandStep::Ask {
                flow: CommandFlow::ListingMessages { caller },
                request: StoreRequest::ThreadMessages {
                    thread_id,
                    user_id: caller.user_id,
                    limit,
                    offset,
                },
            }
        },
    }
}

/// Whether `step` ends a command because it could not be read: the caller's
/// own connection, and no other, is told that the command is invalid.
pub open spec fn fails_unread(step: CommandStep, caller: Caller) -> bool {
    &&& step matches CommandStep::Finish { outgoing, failure }
    &&& failure matches Some(error)
    &&& (error is JsonError || error is UuidError)
    &&& outgoing_views(outgoing@) == seq![failure_notice(caller, ErrorKind::ValidationError)]
}

/// What the first step of a command is, given what reading it from the wire
/// gave: a text that was no JSON object ends the command with the reader's
/// error; fields that spell no command end it as invalid; a command asks
/// the store its first question.
pub open spec fn first_step(caller: Caller, raw: Result<RawCommand, AppError>, step: CommandStep) -> bool {
    match raw {
        Err(error) => fails_with(step, caller, error),
        Ok(fields) => match command_of(fields) {
            None => fails_unread(step, caller),
            Some(command) => asks(
                step,
                first_flow(caller, command),
                first_request(caller, command),
            ),
        },
    }
}

/// Whether `step` asks the store `request` and waits in `flow`.
pub open spec fn asks(step: CommandStep, flow: CommandFlow, request: StoreRequest) -> bool {
    step == (CommandStep::Ask { flow, request })
}

/// What is said where a thread is missing from its creator's list.
pub open spec fn thread_vanished() -> Seq<char> {
    "Thread not found after creation"@
}

/// What follows from the store's answer in each state of a command.
pub open spec fn next_step(flow: CommandFlow, reply: StoreReply, step: CommandStep) -> bool {
    let caller = flow.caller();
    match reply {
        StoreReply::Failed(error) => fails_with(step, caller, error),
        _ => match flow {
            CommandFlow::CreatingThread { caller, other_user_id } => match reply {
                StoreReply::Thread(thread) => asks(
                    step,
                    CommandFlow::ListingOwnThreads { caller, other_user_id, thread },
                    StoreRequest::UserThreads { user_id: caller.user_id },
                ),
                _ => fails_out_of_step(step, caller),
            },
            CommandFlow::ListingOwnThreads { caller, other_user_id, thread } => match reply {
                StoreReply::Threads(threads) => match summary_with_id(threads@, thread.id) {
                    Some(thread_info) => asks(
                        step,
                        CommandFlow::ListingOtherThreads { caller, other_user_id, thread_info },
                        StoreRequest::UserThreads { user_id: other_user_id },
                    ),
                    None => step matches CommandStep::Finish { outgoing, failure }
                        && failure matches Some(AppError::InternalServerError(text)) && text@
                        == thread_vanished() && outgoing_views(outgoing@) == seq![
                        failure_notice(caller, ErrorKind::Internal),
                    ],
                },
                _ => fails_out_of_step(step, caller),
            },
            CommandFlow::ListingOtherThreads { caller, other_user_id, thread_info } => match reply {
                StoreReply::Threads(threads) => succeeds_with(
                    step,
                    caller,
                    Some(
                        to_user(
                            other_user_id,
                            ChatResponseView::ThreadsList { threads: thread_views(threads@) },
                        ),
                    ),
                    ChatResponseView::ThreadCreated { thread: thread_info@ },
                ),
                _ => fails_out_of_step(step, caller),
            },
            CommandFlow::SendingMessage { caller, thread_id } => match reply {
                StoreReply::Message(message) => asks(
                    step,
                    CommandFlow::NamingSender { caller, thread_id, message },
                    StoreRequest::Username { user_id: caller.user_id },
                ),
                _ => fails_out_of_step(step, caller),
            },
            CommandFlow::NamingSender { caller, thread_id, message } => match reply {
                StoreReply::Username(sender_name) => {
                    &&& step matches CommandStep::Ask { flow, request }
                    &&& request == (StoreRequest::ThreadById { thread_id, user_id: caller.user_id })
                    &&& flow matches CommandFlow::FindingRecipient { caller: c, message_info }
                    &&& c == caller
                    &&& message_info@ == (MessageInfoView {
                        id: message.id,
                        thread_id: message.thread_id,
                        sender_id: message.sender_id,
                        sender_name: sender_name@,
                        content: message.content@,
                        sent_at: message.sent_at,
                    })
                },
                _ => fails_out_of_step(step, caller),
            },
            CommandFlow::FindingRecipient { caller, message_info } => match reply {
                StoreReply::MaybeThread(found) => succeeds_with(
                    step,
                    caller,
                    match found {
                        Some(thread) => Some(
                            to_user(
                                recipient_of(thread, caller.user_id),
                                ChatResponseView::NewMessage { message: message_info@ },
                            ),
                        ),
                        None => None,
                    },
                    ChatResponseView::MessageSent { message: message_info@ },
                ),
                _ => fails_out_of_step(step, caller),
            },
            CommandFlow::ListingThreads { caller } => match reply {
                StoreReply::Threads(threads) => succeeds_with(
                    step,
                    caller,
                    None,
                    ChatResponseView::ThreadsList { threads: thread_views(threads@) },
                ),
                _ => fails_out_of_step(step, caller),
            },
            CommandFlow::ListingMessages { caller } => match reply {
                StoreReply::Messages(messages) => succeeds_with(
                    step,
                    caller,
                    None,
                    ChatResponseView::MessagesList { messages: message_views(messages@) },
                ),
                _ => fails_out_of_step(step, caller),
            },
        },
    }
}

/// Begins a command as it came from the wire. A command that cannot be read
/// ends at once: the connection that sent it is told so, no other
/// connection is told anything, and the store is asked nothing.
pub fn begin(caller: Caller, raw: Result<RawCommand, AppError>) -> (step: CommandStep)
    ensures
        first_step(caller, raw, step),
{
    match raw {
        Err(error) => fail(caller, error),
        Ok(fields) => match decode_command(fields) {
            Err(error) => fail(caller, error),
            Ok(command) => start(caller, command),
        },
    }
}

/// Goes on with a command once the store has answered: the next question,
/// or the end of the command with what is to be sent.
pub fn resume(flow: CommandFlow, reply: StoreReply) -> (step: CommandStep)
    ensures
        next_step(flow, reply, step),
{
    let reply = match reply {
        StoreReply::Failed(error) => {
            let caller = caller_of(&flow);
            return fail(caller, error);
        },
        other => other,
    };
    match flow {
        CommandFlow::CreatingThread { caller, other_user_id } => match reply {
            StoreReply::Thread(thread) => CommandStep::Ask {
                flow: CommandFlow::ListingOwnThreads { caller, other_user_id, thread },
                request: StoreRequest::UserThreads { user_id: caller.user_id },
            },
            _ => out_of_step(caller),
        },
        CommandFlow::ListingOwnThreads { caller, other_user_id, thread } => match reply {
            StoreReply::Threads(threads) => match find_summary(&threads, thread.id) {
                Some(thread_info) => CommandStep::Ask {
                    flow: CommandFlow::ListingOtherThreads { caller, other_user_id, thread_info },
                    request: StoreRequest::UserThreads { user_id: other_user_id },
                },
                None => fail(
                    caller,
                    AppError::InternalServerError(String::from_str("Thread not found after creation")),
                ),
            },
            _ => out_of_step(caller),
        },
        CommandFlow::ListingOtherThreads { caller, other_user_id, thread_info } => match reply {
            StoreReply::Threads(threads) => finish(
                caller,
                Some(
                    Outgoing {
                        user_id: other_user_id,
                        only_connection: None,
                        event: ChatResponse::ThreadsList { threads },
                    },
                ),
                ChatResponse::ThreadCreated { thread: thread_info },
            ),
            _ => out_of_step(caller),
        },
        CommandFlow::SendingMessage { caller, thread_id } => match reply {
            StoreReply::Message(message) => CommandStep::Ask {
                flow: CommandFlow::NamingSender { caller, thread_id, message },
                request: StoreRequest::Username { user_id: caller.user_id },
            },
            _ => out_of_step(caller),
        },
        CommandFlow::NamingSender { caller, thread_id, message } => match reply {
            StoreReply::Username(sender_name) => CommandStep::Ask {
                flow: CommandFlow::FindingRecipient {
                    caller,
                    message_info: MessageInfo::from_message(message, sender_name),
                },
                request: StoreRequest::ThreadById { thread_id, user_id: caller.user_id },
            },
            _ => out_of_step(caller),
        },
        CommandFlow::FindingRecipient { caller, message_info } => match reply {
            StoreReply::MaybeThread(found) => {
                let aside = match found {
                    Some(thread) => {
                        let other_user_id = if thread.user_a == caller.user_id {
                            thread.user_b
                        } else {
                            thread.user_a
                        };
                        Some(
                            Outgoing {
                                user_id: other_user_id,
                                only_connection: None,
                                event: ChatResponse::NewMessage { message: message_info.clone() },
                            },
                        )
                    },
                    None => None,
                };
                finish(caller, aside, ChatResponse::MessageSent { message: message_info })
            },
            _ => out_of_step(caller),
        },
        CommandFlow::ListingThreads { caller } => match reply {
            StoreReply::Threads(threads) => finish(caller, None, ChatResponse::ThreadsList { threads }),
            _ => out_of_step(caller),
        },
        CommandFlow::ListingMessages { caller } => match reply {
            StoreReply::Messages(messages) => finish(
                caller,
                None,
                ChatResponse::MessagesList { messages },
            ),
            _ => out_of_step(caller),
        },
    }
}

/// Hands out the events of a finished command through the registry, in
/// order, and reports the attempts made for each.
pub fn dispatch(manager: &ConnectionManager, outgoing: &Vec<Outgoing>) -> (reports: Vec<Vec<Delivery>>)
    ensures
        reports@.len() == outgoing@.len(),
        forall|i: int|
            0 <= i < outgoing@.len() ==> attempted((#[trigger] reports@[i])@) == targets(
                manager@,
                outgoing@[i].user_id,
                outgoing@[i].only_connection,
            ),
{
    let mut reports: Vec<Vec<Delivery>> = Vec::new();
    let mut i: usize = 0;
    while i < outgoing.len()
        invariant
            i <= outgoing.len(),
            reports@.len() == i,
            forall|k: int|
                0 <= k < i ==> attempted((#[trigger] reports@[k])@) == targets(
                    manager@,
                    outgoing@[k].user_id,
                    outgoing@[k].only_connection,
                ),
        decreases outgoing.len() - i,
    {
        let item = &outgoing[i];
        reports.push(manager.deliver_matching(item.user_id, item.only_connection, &item.event));
        i += 1;
    }
    reports
}

/// Who sent the command that `flow` belongs to.
pub fn caller_of(flow: &CommandFlow) -> (caller: Caller)
    ensures
        caller == flow.caller(),
{
    match flow {
        CommandFlow::CreatingThread { caller, .. } => *caller,
        CommandFlow::ListingOwnThreads { caller, .. } => *caller,
        CommandFlow::ListingOtherThreads { caller, .. } => *caller,
        CommandFlow::SendingMessage { caller, .. } => *caller,
        CommandFlow::NamingSender { caller, .. } => *caller,
        CommandFlow::FindingRecipient { caller, .. } => *caller,
        CommandFlow::ListingThreads { caller } => *caller,
        CommandFlow::ListingMessages { caller } => *caller,
    }
}

/// What a command has done once it is finished.
#[derive(Debug)]
pub struct CommandReport {
    /// The events that were handed out, in order.
    pub outgoing: Vec<Outgoing>,
    /// For each of them, the attempts that the registry made.
    pub deliveries: Vec<Vec<Delivery>>,
    /// Why the command failed, if it did.
    pub failure: Option<AppError>,
}

/// The message `message` with the name of its sender, by its view.
pub open spec fn named_message(message: Message, sender_name: String) -> MessageInfoView {
    MessageInfoView {
        id: message.id,
        thread_id: message.thread_id,
        sender_id: message.sender_id,
        sender_name: sender_name@,
        content: message.content@,
        sent_at: message.sent_at,
    }
}

/// What a command does to a store in state `before` and what it sends,
/// where a row that it creates gets the identifier `id` and the time `now`.
/// A command that fails tells the connection it came over and no other.
pub open spec fn command_effect(
    before: ChatState,
    caller: Caller,
    command: ChatCommand,
    id: Id,
    now: Timestamp,
    after: ChatState,
    outgoing: Seq<OutgoingView>,
    failure: Option<AppError>,
) -> bool {
    let user_id = caller.user_id;
    &&& after.users == before.users
    &&& after.posts == before.posts
    &&& match command {
        ChatCommand::GetThreads => {
            &&& after.threads == before.threads
            &&& after.messages == before.messages
            &&& failure is None
            &&& outgoing == seq![
                to_user(
                    user_id,
                    ChatResponseView::ThreadsList {
                        threads: thread_views(user_threads(before, user_id)),
                    },
                ),
            ]
        },
        ChatCommand::GetMessages { thread_id, limit, offset } => {
            &&& after.threads == before.threads
            &&& after.messages == before.messages
            &&& match thread_for(before.threads, thread_id, user_id) {
                None => failure matches Some(AppError::AccessDenied) && outgoing == seq![
                    failure_notice(caller, ErrorKind::AccessDenied),
                ],
                Some(_) => if limit_or_default(limit) < 0 || offset_or_default(offset) < 0 {
                    failure matches Some(AppError::SqlxError(_)) && outgoing == seq![
                        failure_notice(caller, ErrorKind::Internal),
                    ]
                } else {
                    failure is None && outgoing == seq![
                        to_user(
                            user_id,
                            ChatResponseView::MessagesList {
                                messages: message_views(
                                    thread_messages(
                                        before,
                                        thread_id,
                                        limit_or_default(limit) as int,
                                        offset_or_default(offset) as int,
                                    ),
                                ),
                            },
                        ),
                    ]
                },
            }
        },
        ChatCommand::SendMessage { thread_id, content } => {
            &&& after.threads == before.threads
            &&& match thread_for(before.threads, thread_id, user_id) {
                None => {
                    &&& after.messages == before.messages
                    &&& failure matches Some(AppError::AccessDenied)
                    &&& outgoing == seq![failure_notice(caller, ErrorKind::AccessDenied)]
                },
                Some(thread) => if has_message_id(before.messages, id) || username_of(
                    before.users,
                    user_id,
                ) is None {
                    &&& after.messages == before.messages
                    &&& failure matches Some(AppError::SqlxError(_))
                    &&& outgoing == seq![failure_notice(caller, ErrorKind::Internal)]
                } else {
                    let message = Message { id, thread_id, sender_id: user_id, content, sent_at: now };
                    &&& after.messages == before.messages.push(message)
                    &&& match username_of(before.users, user_id) {
                        None => false,
                        Some(name) => failure is None && outgoing == seq![
                            to_user(
                                recipient_of(thread, user_id),
                                ChatResponseView::NewMessage { message: named_message(message, name) },
                            ),
                            to_user(
                                user_id,
                                ChatResponseView::MessageSent { message: named_message(message, name) },
                            ),
                        ],
                    }
                },
            }
        },
        ChatCommand::CreateThread { post_id, other_user_id } => if other_user_id == user_id {
            &&& after.threads == before.threads
            &&& after.messages == before.messages
            &&& failure matches Some(AppError::BadRequest(_))
            &&& outgoing == seq![failure_notice(caller, ErrorKind::ValidationError)]
        } else {
            let candidate = candidate_thread(id, post_id, user_id, other_user_id, now);
            &&& after.threads == upserted_threads(before.threads, candidate)
            &&& after.messages == before.messages
            &&& match upserted_thread(before.threads, candidate) {
                None => failure matches Some(AppError::SqlxError(_)) && outgoing == seq![
                    failure_notice(caller, ErrorKind::Internal),
                ],
                Some(thread) => match summary_with_id(user_threads(after, user_id), thread.id) {
                    None => failure matches Some(AppError::InternalServerError(_)) && outgoing == seq![
                        failure_notice(caller, ErrorKind::Internal),
                    ],
                    Some(thread_info) => failure is None && outgoing == seq![
                        to_user(
                            other_user_id,
                            ChatResponseView::ThreadsList {
                                threads: thread_views(user_threads(after, other_user_id)),
                            },
                        ),
                        to_user(user_id, ChatResponseView::ThreadCreated { thread: thread_info@ }),
                    ],
                },
            }
        },
    }
}

/// Puts the question of `step` to the store and goes on with the answer. A
/// finished command stays as it is.
fn advance(db: &mut ChatStore, step: CommandStep, id: Id, now: Timestamp) -> (next: CommandStep)
    requires
        old(db)@.well_formed(),
    ensures
        final(db)@.well_formed(),
        match step {
            CommandStep::Finish { .. } => next == step && final(db)@ == old(db)@,
            CommandStep::Ask { flow, request } => exists|reply: StoreReply|
                #![trigger next_step(flow, reply, next)]
                answers(old(db)@, request, id, now, final(db)@, reply) && next_step(flow, reply, next),
        },
{
    match step {
        CommandStep::Ask { flow, request } => {
            let reply = db.answer_as(request, id, now);
            resume(flow, reply)
        },
        done => done,
    }
}

/// Carries a decoded command out against the store in memory and hands its
/// events out through the registry. A row that the command creates gets the
/// identifier `id` and the time `now`.
pub fn run_command_as(
    command: ChatCommand,
    db: &mut ChatStore,
    caller: Caller,
    connection_manager: &ConnectionManager,
    id: Id,
    now: Timestamp,
) -> (report: CommandReport)
    requires
        old(db)@.well_formed(),
    ensures
        final(db)@.well_formed(),
        command_effect(
            old(db)@,
            caller,
            command,
            id,
            now,
            final(db)@,
            outgoing_views(report.outgoing@),
            report.failure,
        ),
        report.deliveries@.len() == report.outgoing@.len(),
        forall|i: int|
            0 <= i < report.outgoing@.len() ==> attempted((#[trigger] report.deliveries@[i])@)
                == targets(
                connection_manager@,
                report.outgoing@[i].user_id,
                report.outgoing@[i].only_connection,
            ),
{
    let ghost before = db@;
    let first = start(caller, command);
    let second = advance(db, first, id, now);
    let ghost middle = db@;
    let third = advance(db, second, id, now);
    let ghost late = db@;
    let last = advance(db, third, id, now);
    proof {
        assert(middle.users == before.users && middle.posts == before.posts);
        assert(late.users == before.users && late.posts == before.posts);
    }
    match last {
        CommandStep::Finish { outgoing, failure } => {
            let deliveries = dispatch(connection_manager, &outgoing);
            CommandReport { outgoing, deliveries, failure }
        },
        CommandStep::Ask { .. } => {
            proof {
                assert(false);
            }
            CommandReport { outgoing: Vec::new(), deliveries: Vec::new(), failure: None }
        },
    }
}

/// Carries a decoded command out against the store in memory and hands its
/// events out through the registry, with a fresh identifier and the time of
/// the clock for a row that the command creates.
pub fn run_command(
    command: ChatCommand,
    db: &mut ChatStore,
    caller: Caller,
    connection_manager: &ConnectionManager,
) -> (report: CommandReport)
    requires
        old(db)@.well_formed(),
    ensures
        final(db)@.well_formed(),
        exists|id: Id, now: Timestamp| #[trigger]
            command_effect(
                old(db)@,
                caller,
                command,
                id,
                now,
                final(db)@,
                outgoing_views(report.outgoing@),
                report.failure,
            ),
        report.deliveries@.len() == report.outgoing@.len(),
        forall|i: int|
            0 <= i < report.outgoing@.len() ==> attempted((#[trigger] report.deliveries@[i])@)
                == targets(
                connection_manager@,
                report.outgoing@[i].user_id,
                report.outgoing@[i].only_connection,
            ),
{
    let id = fresh_id();
    let now = now_micros();
    run_command_as(command, db, caller, connection_manager, id, now)
}

/// What a command as it came from the wire does to a store in state
/// `before` and what it sends. A command that cannot be read changes
/// nothing and tells only the connection it came over; a command that can
/// be read does what `command_effect` says.
pub open spec fn wire_command_effect(
    before: ChatState,
    caller: Caller,
    raw: Result<RawCommand, AppError>,
    id: Id,
    now: Timestamp,
    after: ChatState,
    outgoing: Seq<OutgoingView>,
    failure: Option<AppError>,
) -> bool {
    match raw {
        Err(error) => {
            &&& after == before
            &&& failure == Some(error)
            &&& outgoing == seq![failure_notice(caller, error.spec_kind())]
        },
        Ok(fields) => match command_of(fields) {
            None => {
                &&& after == before
                &&& failure matches Some(error)
                &&& (error is JsonError || error is UuidError)
                &&& outgoing == seq![failure_notice(caller, ErrorKind::ValidationError)]
            },
            Some(command) => command_effect(
                before,
                caller,
                command,
                id,
                now,
                after,
                outgoing,
                failure,
            ),
        },
    }
}

/// Hands out the events of a command that ended before the store was asked.
fn report_unread(step: CommandStep, caller: Caller, connection_manager: &ConnectionManager) -> (report:
    CommandReport)
    requires
        step matches CommandStep::Finish { failure, .. } && failure is Some,
    ensures
        step matches CommandStep::Finish { outgoing, failure } && report.outgoing == outgoing
            && report.failure == failure,
        report.deliveries@.len() == report.outgoing@.len(),
        forall|i: int|
            0 <= i < report.outgoing@.len() ==> attempted((#[trigger] report.deliveries@[i])@)
                == targets(
                connection_manager@,
                report.outgoing@[i].user_id,
                report.outgoing@[i].only_connection,
            ),
{
    match step {
        CommandStep::Finish { outgoing, failure } => {
            let deliveries = dispatch(connection_manager, &outgoing);
            CommandReport { outgoing, deliveries, failure }
        },
        CommandStep::Ask { .. } => CommandReport {
            outgoing: Vec::new(),
            deliveries: Vec::new(),
            failure: None,
        },
    }
}

/// Carries a command out as it came from the wire, against the store in
/// memory, and hands its events out through the registry. A row that the
/// command creates gets the identifier `id` and the time `now`.
pub fn process_command_as(
    raw: Result<RawCommand, AppError>,
    db: &mut ChatStore,
    caller: Caller,
    connection_manager: &ConnectionManager,
    id: Id,
    now: Timestamp,
) -> (report: CommandReport)
    requires
        old(db)@.well_formed(),
    ensures
        final(db)@.well_formed(),
        wire_command_effect(
            old(db)@,
            caller,
            raw,
            id,
            now,
            final(db)@,
            outgoing_views(report.outgoing@),
            report.failure,
        ),
        report.deliveries@.len() == report.outgoing@.len(),
        forall|i: int|
            0 <= i < report.outgoing@.len() ==> attempted((#[trigger] report.deliveries@[i])@)
                == targets(
                connection_manager@,
                report.outgoing@[i].user_id,
                report.outgoing@[i].only_connection,
            ),
{
    match raw {
        Err(error) => report_unread(fail(caller, error), caller, connection_manager),
        Ok(fields) => match decode_command(fields) {
            Err(error) => report_unread(fail(caller, error), caller, connection_manager),
            Ok(command) => run_command_as(command, db, caller, connection_manager, id, now),
        },
    }
}

/// Carries a command out as it came from the wire, against the store in
/// memory, and hands its events out through the registry, with a fresh
/// identifier and the time of the clock for a row that the command creates.
/// A command that cannot be read leaves the store as it is and tells only
/// the connection it came over.
pub fn process_command(
    raw: Result<RawCommand, AppError>,
    db: &mut ChatStore,
    caller: Caller,
    connection_manager: &ConnectionManager,
) -> (report: CommandReport)
    requires
        old(db)@.well_formed(),
    ensures
        final(db)@.well_formed(),
        exists|id: Id, now: Timestamp| #[trigger]
            wire_command_effect(
                old(db)@,
                caller,
                raw,
                id,
                now,
                final(db)@,
                outgoing_views(report.outgoing@),
                report.failure,
            ),
        report.deliveries@.len() == report.outgoing@.len(),
        forall|i: int|
            0 <= i < report.outgoing@.len() ==> attempted((#[trigger] report.deliveries@[i])@)
                == targets(
                connection_manager@,
                report.outgoing@[i].user_id,
                report.outgoing@[i].only_connection,
            ),
{
    let id = fresh_id();
    let now = now_micros();
    process_command_as(raw, db, caller, connection_manager, id, now)
}

/// A message from a participant reaches the other participant: where the
/// sender takes part in the thread and is a known user, and the identifier
/// drawn for the message is free, the message is stored, a new-message
/// event with its text, sender and thread goes out for the other
/// participant, and the sender is told that it was sent.
pub proof fn sent_message_reaches_the_other_participant(
    before: ChatState,
    caller: Caller,
    thread_id: Id,
    content: String,
    id: Id,
    now: Timestamp,
    after: ChatState,
    outgoing: Seq<OutgoingView>,
    failure: Option<AppError>,
    thread: MessageThread,
    sender_name: String,
)
    requires
        command_effect(
            before,
            caller,
            ChatCommand::SendMessage { thread_id, content },
            id,
            now,
            after,
            outgoing,
            failure,
        ),
        thread.well_formed(),
        thread_for(before.threads, thread_id, caller.user_id) == Some(thread),
        username_of(before.users, caller.user_id) == Some(sender_name),
        !has_message_id(before.messages, id),
    ensures
        ({
            let message = Message { id, thread_id, sender_id: caller.user_id, content, sent_at: now };
            let other = recipient_of(thread, caller.user_id);
            &&& failure is None
            &&& after.messages == before.messages.push(message)
            &&& outgoing.len() == 2
            &&& outgoing[0] == to_user(
                other,
                ChatResponseView::NewMessage { message: named_message(message, sender_name) },
            )
            &&& named_message(message, sender_name).content == content@
            &&& named_message(message, sender_name).sender_id == caller.user_id
            &&& named_message(message, sender_name).thread_id == thread_id
            &&& other != caller.user_id
            &&& thread.spec_contains_user(other)
            &&& outgoing[1] == to_user(
                caller.user_id,
                ChatResponseView::MessageSent { message: named_message(message, sender_name) },
            )
        }),
{
}

/// Whatever identifier and time are drawn for it, a message from a
/// participant who is a known user either reaches the other participant, as
/// `sent_message_reaches_the_other_participant` says, or the store fails
/// because the drawn identifier is taken: then nothing is stored, and only
/// the sender's own connection is told of the failure.
pub proof fn a_participants_message_is_sent_or_the_store_fails(
    before: ChatState,
    caller: Caller,
    thread_id: Id,
    content: String,
    id: Id,
    now: Timestamp,
    after: ChatState,
    outgoing: Seq<OutgoingView>,
    failure: Option<AppError>,
    thread: MessageThread,
    sender_name: String,
)
    requires
        command_effect(
            before,
            caller,
            ChatCommand::SendMessage { thread_id, content },
            id,
            now,
            after,
            outgoing,
            failure,
        ),
        thread_for(before.threads, thread_id, caller.user_id) == Some(thread),
        username_of(before.users, caller.user_id) == Some(sender_name),
    ensures
        ({
            let message = Message { id, thread_id, sender_id: caller.user_id, content, sent_at: now };
            if has_message_id(before.messages, id) {
                &&& failure matches Some(AppError::SqlxError(_))
                &&& after.messages == before.messages
                &&& outgoing == seq![failure_notice(caller, ErrorKind::Internal)]
            } else {
                &&& failure is None
                &&& after.messages == before.messages.push(message)
                &&& outgoing == seq![
                    to_user(
                        recipient_of(thread, caller.user_id),
                        ChatResponseView::NewMessage { message: named_message(message, sender_name) },
                    ),
                    to_user(
                        caller.user_id,
                        ChatResponseView::MessageSent { message: named_message(message, sender_name) },
                    ),
                ]
            }
        }),
{
}

} // verus!
