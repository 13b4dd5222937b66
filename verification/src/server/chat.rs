//! Chat threads, messages, and the commands and events that travel over a
//! live connection.

use vstd::prelude::*;

use vstd::string::StringExecFns;

use crate::error::AppError;
use crate::server::clock::{now_micros, Timestamp};
use crate::server::ident::{fresh_id, id_parsed, is_random_id, parse_id, Id};
use crate::server::text::text_equals;

verus! {

/// The two participants in canonical order: the lower identifier first.
pub open spec fn canonical_pair_spec(user1: Id, user2: Id) -> (Id, Id) {
    if user1 < user2 {
        (user1, user2)
    } else {
        (user2, user1)
    }
}

/// Orders two participants so that a conversation has one key whoever
/// started it.
pub fn canonical_pair(user1: Id, user2: Id) -> (pair: (Id, Id))
    ensures
        pair == canonical_pair_spec(user1, user2),
        pair.0 <= pair.1,
        user1 != user2 ==> pair.0 < pair.1,
        pair == (user1, user2) || pair == (user2, user1),
{
    if user1 < user2 {
        (user1, user2)
    } else {
        (user2, user1)
    }
}

/// The canonical pair does not depend on who initiated: both orders of the
/// same two users give the same pair.
pub proof fn canonical_pair_symmetric(user1: Id, user2: Id)
    ensures
        canonical_pair_spec(user1, user2) == canonical_pair_spec(user2, user1),
{
}

/// What is said to a user who asks for a thread with themselves.
pub open spec fn same_user_text() -> Seq<char> {
    "A thread needs two different users"@
}

/// The two participants of a thread in canonical order, or a refusal where
/// they are one and the same user.
pub fn thread_pair(user1: Id, user2: Id) -> (pair: Result<(Id, Id), AppError>)
    ensures
        match pair {
            Ok(p) => user1 != user2 && p == canonical_pair_spec(user1, user2) && p.0 < p.1,
            Err(error) => {
                &&& user1 == user2
                &&& error matches AppError::BadRequest(text)
                &&& text@ == same_user_text()
            },
        },
{
    if user1 == user2 {
        Err(AppError::BadRequest(String::from_str("A thread needs two different users")))
    } else {
        Ok(canonical_pair(user1, user2))
    }
}

/// Two distinct participants are always stored lower first.
pub proof fn canonical_pair_ordered(user1: Id, user2: Id)
    requires
        user1 != user2,
    ensures
        canonical_pair_spec(user1, user2).0 < canonical_pair_spec(user1, user2).1,
        canonical_pair_spec(user2, user1).0 < canonical_pair_spec(user2, user1).1,
{
}

/// A conversation between two users about one post.
#[derive(Debug, Clone, Copy, PartialEq, Eq, Structural)]
pub struct MessageThread {
    pub id: Id,
    pub post_id: Id,
    pub user_a: Id,
    pub user_b: Id,
    pub created_at: Timestamp,
    pub updated_at: Timestamp,
}

impl MessageThread {
    /// The participants are two users, in canonical order.
    pub open spec fn well_formed(&self) -> bool {
        self.user_a < self.user_b
    }

    /// The key under which the thread is unique: post and ordered pair.
    pub open spec fn key(&self) -> (Id, Id, Id) {
        (self.post_id, self.user_a, self.user_b)
    }

    /// Whether `user_id` is one of the two participants.
    pub open spec fn spec_contains_user(&self, user_id: Id) -> bool {
        self.user_a == user_id || self.user_b == user_id
    }

    /// The participant that is not `user_id`, if `user_id` is one.
    pub open spec fn spec_other_user(&self, user_id: Id) -> Option<Id> {
        if self.user_a == user_id {
            Some(self.user_b)
        } else if self.user_b == user_id {
            Some(self.user_a)
        } else {
            None
        }
    }

    /// The thread with the given identity and creation time between
    /// `user1` and `user2`, whichever of them comes first.
    pub fn assemble(id: Id, post_id: Id, user1: Id, user2: Id, now: Timestamp) -> (thread: Self)
        requires
            user1 != user2,
        ensures
            thread.id == id,
            thread.post_id == post_id,
            (thread.user_a, thread.user_b) == canonical_pair_spec(user1, user2),
            thread.created_at == now,
            thread.updated_at == now,
            thread.well_formed(),
    {
        let (user_a, user_b) = canonical_pair(user1, user2);
        MessageThread { id, post_id, user_a, user_b, created_at: now, updated_at: now }
    }

    /// A new thread with a fresh random identifier, created now.
    pub fn new(post_id: Id, user1: Id, user2: Id) -> (thread: Self)
        requires
            user1 != user2,
        ensures
            is_random_id(thread.id),
            thread.post_id == post_id,
            (thread.user_a, thread.user_b) == canonical_pair_spec(user1, user2),
            thread.created_at == thread.updated_at,
            thread.well_formed(),
    {
        let now = now_micros();
        let id = fresh_id();
        Self::assemble(id, post_id, user1, user2, now)
    }

    /// Whether `user_id` is one of the two participants.
    pub fn contains_user(&self, user_id: &Id) -> (found: bool)
        ensures
            found == self.spec_contains_user(*user_id),
    {
        self.user_a == *user_id || self.user_b == *user_id
    }

    /// The participant that is not `user_id`, or `None` where `user_id` is
    /// no participant.
    pub fn get_other_user(&self, user_id: &Id) -> (other: Option<Id>)
        ensures
            other == self.spec_other_user(*user_id),
            other is Some <==> self.spec_contains_user(*user_id),
    {
        if self.user_a == *user_id {
            Some(self.user_b)
        } else if self.user_b == *user_id {
            Some(self.user_a)
        } else {
            None
        }
    }
}

/// A conversation's other participant is a participant too, and asking
/// again from their side gives the first user back.
pub proof fn other_user_involutive(thread: MessageThread, user_id: Id)
    requires
        thread.spec_contains_user(user_id),
        thread.well_formed(),
    ensures
        thread.spec_other_user(user_id) matches Some(other) && other != user_id
            && thread.spec_other_user(other) == Some(user_id),
{
}

/// What a message is, with its text as a sequence of characters.
pub struct MessageView {
    pub id: Id,
    pub thread_id: Id,
    pub sender_id: Id,
    pub content: Seq<char>,
    pub sent_at: Timestamp,
}

/// One message of a thread. Messages are never changed once made.
#[derive(Debug, PartialEq, Eq)]
pub struct Message {
    pub id: Id,
    pub thread_id: Id,
    pub sender_id: Id,
    pub content: String,
    pub sent_at: Timestamp,
}

impl View for Message {
    type V = MessageView;

    open spec fn view(&self) -> MessageView {
        MessageView {
            id: self.id,
            thread_id: self.thread_id,
            sender_id: self.sender_id,
            content: self.content@,
            sent_at: self.sent_at,
        }
    }
}

impl Clone for Message {
    fn clone(&self) -> (copy: Self)
        ensures
            copy == *self,
    {
        Message {
            id: self.id,
            thread_id: self.thread_id,
            sender_id: self.sender_id,
            content: self.content.clone(),
            sent_at: self.sent_at,
        }
    }
}

impl Message {
    /// The message with the given identity and send time.
    pub fn assemble(id: Id, thread_id: Id, sender_id: Id, content: String, now: Timestamp) -> (message: Self)
        ensures
            message == (Message { id, thread_id, sender_id, content, sent_at: now }),
            message@ == (MessageView { id, thread_id, sender_id, content: content@, sent_at: now }),
    {
        Message { id, thread_id, sender_id, content, sent_at: now }
    }

    /// A new message with a fresh random identifier, sent now.
    pub fn new(thread_id: Id, sender_id: Id, content: String) -> (message: Self)
        ensures
            is_random_id(message.id),
            message.thread_id == thread_id,
            message.sender_id == sender_id,
            message.content@ == content@,
    {
        let id = fresh_id();
        let now = now_micros();
        Self::assemble(id, thread_id, sender_id, content, now)
    }
}

/// What a thread summary is, with its texts as sequences of characters.
pub struct ThreadInfoView {
    pub id: Id,
    pub post_id: Id,
    pub post_title: Seq<char>,
    pub other_user_id: Id,
    pub other_user_name: Seq<char>,
    pub last_message: Option<Seq<char>>,
    pub last_message_at: Option<Timestamp>,
    pub created_at: Timestamp,
    pub updated_at: Timestamp,
}

/// A thread as one participant sees it: with the post's title, the other
/// participant and the latest message.
#[derive(Debug, PartialEq, Eq)]
pub struct ThreadInfo {
    pub id: Id,
    pub post_id: Id,
    pub post_title: String,
    pub other_user_id: Id,
    pub other_user_name: String,
    pub last_message: Option<String>,
    pub last_message_at: Option<Timestamp>,
    pub created_at: Timestamp,
    pub updated_at: Timestamp,
}

/// The text inside an optional string.
pub open spec fn opt_text(s: Option<String>) -> Option<Seq<char>> {
    match s {
        Some(t) => Some(t@),
        None => None,
    }
}

/// A copy of an optional string.
pub fn clone_opt_string(s: &Option<String>) -> (copy: Option<String>)
    ensures
        copy == *s,
{
    match s {
        Some(t) => Some(t.clone()),
        None => None,
    }
}

impl View for ThreadInfo {
    type V = ThreadInfoView;

    open spec fn view(&self) -> ThreadInfoView {
        ThreadInfoView {
            id: self.id,
            post_id: self.post_id,
            post_title: self.post_title@,
            other_user_id: self.other_user_id,
            other_user_name: self.other_user_name@,
            last_message: opt_text(self.last_message),
            last_message_at: self.last_message_at,
            created_at: self.created_at,
            updated_at: self.updated_at,
        }
    }
}

impl Clone for ThreadInfo {
    fn clone(&self) -> (copy: Self)
        ensures
            copy == *self,
    {
        ThreadInfo {
            id: self.id,
            post_id: self.post_id,
            post_title: self.post_title.clone(),
            other_user_id: self.other_user_id,
            other_user_name: self.other_user_name.clone(),
            last_message: clone_opt_string(&self.last_message),
            last_message_at: self.last_message_at,
            created_at: self.created_at,
            updated_at: self.updated_at,
        }
    }
}

/// What a message with its sender's name is.
pub struct MessageInfoView {
    pub id: Id,
    pub thread_id: Id,
    pub sender_id: Id,
    pub sender_name: Seq<char>,
    pub content: Seq<char>,
    pub sent_at: Timestamp,
}

/// A message together with its sender's display name.
#[derive(Debug, PartialEq, Eq)]
pub struct MessageInfo {
    pub id: Id,
    pub thread_id: Id,
    pub sender_id: Id,
    pub sender_name: String,
    pub content: String,
    pub sent_at: Timestamp,
}

impl View for MessageInfo {
    type V = MessageInfoView;

    open spec fn view(&self) -> MessageInfoView {
        MessageInfoView {
            id: self.id,
            thread_id: self.thread_id,
            sender_id: self.sender_id,
            sender_name: self.sender_name@,
            content: self.content@,
            sent_at: self.sent_at,
        }
    }
}

impl Clone for MessageInfo {
    fn clone(&self) -> (copy: Self)
        ensures
            copy == *self,
    {
        MessageInfo {
            id: self.id,
            thread_id: self.thread_id,
            sender_id: self.sender_id,
            sender_name: self.sender_name.clone(),
            content: self.content.clone(),
            sent_at: self.sent_at,
        }
    }
}

impl MessageInfo {
    /// The stored message with its sender's name beside it.
    pub fn from_message(message: Message, sender_name: String) -> (info: Self)
        ensures
            info == (MessageInfo {
                id: message.id,
                thread_id: message.thread_id,
                sender_id: message.sender_id,
                sender_name,
                content: message.content,
                sent_at: message.sent_at,
            }),
            info@ == (MessageInfoView {
                id: message.id,
                thread_id: message.thread_id,
                sender_id: message.sender_id,
                sender_name: sender_name@,
                content: message.content@,
                sent_at: message.sent_at,
            }),
    {
        MessageInfo {
            id: message.id,
            thread_id: message.thread_id,
            sender_id: message.sender_id,
            sender_name,
            content: message.content,
            sent_at: message.sent_at,
        }
    }
}

/// What a client asks for over its connection.
#[derive(Debug, PartialEq, Eq)]
pub enum ChatCommand {
    CreateThread { post_id: Id, other_user_id: Id },
    SendMessage { thread_id: Id, content: String },
    GetThreads,
    GetMessages { thread_id: Id, limit: Option<i32>, offset: Option<i32> },
}

/// A field of a command as it arrived on the wire.
#[derive(Debug, PartialEq, Eq)]
pub enum Field<T> {
    /// The field is not there.
    Absent,
    /// The field is there and has the right type.
    Present(T),
    /// The field is there and has the wrong type.
    Malformed,
}

/// A command as it arrived on the wire, field by field, before it is known
/// to make sense.
#[derive(Debug, PartialEq, Eq)]
pub struct RawCommand {
    pub cmd: Field<String>,
    pub post_id: Field<String>,
    pub other_user_id: Field<String>,
    pub thread_id: Field<String>,
    pub content: Field<String>,
    pub limit: Field<i32>,
    pub offset: Field<i32>,
}

/// The identifier in a field that must hold one.
pub open spec fn required_id(field: Field<String>) -> Option<Id> {
    match field {
        Field::Present(text) => id_parsed(text@),
        _ => None,
    }
}

/// The number in a field that may be left out: `None` outside where the
/// field is there and malformed.
pub open spec fn optional_number(field: Field<i32>) -> Option<Option<i32>> {
    match field {
        Field::Absent => Some(None),
        Field::Present(n) => Some(Some(n)),
        Field::Malformed => None,
    }
}

/// The command that the fields spell, if they spell one. The field `cmd`
/// names the kind; of the other fields only those of that kind count.
pub open spec fn command_of(raw: RawCommand) -> Option<ChatCommand> {
    match raw.cmd {
        Field::Present(tag) => if tag@ == "create_thread"@ {
            match (required_id(raw.post_id), required_id(raw.other_user_id)) {
                (Some(post_id), Some(other_user_id)) => Some(
                    ChatCommand::CreateThread { post_id, other_user_id },
                ),
                _ => None,
            }
        } else if tag@ == "send_message"@ {
            match (required_id(raw.thread_id), raw.content) {
                (Some(thread_id), Field::Present(content)) => Some(
                    ChatCommand::SendMessage { thread_id, content },
                ),
                _ => None,
            }
        } else if tag@ == "get_threads"@ {
            Some(ChatCommand::GetThreads)
        } else if tag@ == "get_messages"@ {
            match (
                required_id(raw.thread_id),
                optional_number(raw.limit),
                optional_number(raw.offset),
            ) {
                (Some(thread_id), Some(limit), Some(offset)) => Some(
                    ChatCommand::GetMessages { thread_id, limit, offset },
                ),
                _ => None,
            }
        } else {
            None
        },
        _ => None,
    }
}

/// The identifier in the field `name`, which must hold one.
fn read_id(field: Field<String>, name: &str) -> (id: Result<Id, AppError>)
    ensures
        match id {
            Ok(value) => required_id(field) == Some(value),
            Err(error) => required_id(field) is None && (error is JsonError || error is UuidError),
        },
{
    match field {
        Field::Present(text) => match parse_id(text.as_str()) {
            Ok(value) => Ok(value),
            Err(e) => Err(AppError::UuidError(e)),
        },
        Field::Absent => Err(AppError::JsonError(String::from_str("missing field ").concat(name))),
        Field::Malformed => Err(
            AppError::JsonError(String::from_str("invalid type for field ").concat(name)),
        ),
    }
}

/// The number in the field `name`, which may be left out.
fn read_number(field: Field<i32>, name: &str) -> (number: Result<Option<i32>, AppError>)
    ensures
        match number {
            Ok(value) => optional_number(field) == Some(value),
            Err(error) => optional_number(field) is None && error is JsonError,
        },
{
    match field {
        Field::Absent => Ok(None),
        Field::Present(n) => Ok(Some(n)),
        Field::Malformed => Err(
            AppError::JsonError(String::from_str("invalid type for field ").concat(name)),
        ),
    }
}

/// Reads a command from its fields. A command of an unknown kind, or one
/// that lacks a field of its kind or has it malformed, is refused as
/// invalid.
pub fn decode_command(raw: RawCommand) -> (outcome: Result<ChatCommand, AppError>)
    ensures
        match outcome {
            Ok(command) => command_of(raw) == Some(command),
            Err(error) => command_of(raw) is None && (error is JsonError || error is UuidError),
        },
{
    let tag = match raw.cmd {
        Field::Present(tag) => tag,
        Field::Absent => {
            return Err(AppError::JsonError(String::from_str("missing field cmd")));
        },
        Field::Malformed => {
            return Err(AppError::JsonError(String::from_str("invalid type for field cmd")));
        },
    };
    if text_equals(tag.as_str(), "create_thread") {
        let post_id = match read_id(raw.post_id, "post_id") {
            Ok(id) => id,
            Err(e) => {
                return Err(e);
            },
        };
        let other_user_id = match read_id(raw.other_user_id, "other_user_id") {
            Ok(id) => id,
            Err(e) => {
                return Err(e);
            },
        };
        Ok(ChatCommand::CreateThread { post_id, other_user_id })
    } else if text_equals(tag.as_str(), "send_message") {
        let thread_id = match read_id(raw.thread_id, "thread_id") {
            Ok(id) => id,
            Err(e) => {
                return Err(e);
            },
        };
        match raw.content {
            Field::Present(content) => Ok(ChatCommand::SendMessage { thread_id, content }),
            Field::Absent => Err(AppError::JsonError(String::from_str("missing field content"))),
            Field::Malformed => Err(
                AppError::JsonError(String::from_str("invalid type for field content")),
            ),
        }
    } else if text_equals(tag.as_str(), "get_threads") {
        Ok(ChatCommand::GetThreads)
    } else if text_equals(tag.as_str(), "get_messages") {
        let thread_id = match read_id(raw.thread_id, "thread_id") {
            Ok(id) => id,
            Err(e) => {
                return Err(e);
            },
        };
        let limit = match read_number(raw.limit, "limit") {
            Ok(n) => n,
            Err(e) => {
                return Err(e);
            },
        };
        let offset = match read_number(raw.offset, "offset") {
            Ok(n) => n,
            Err(e) => {
                return Err(e);
            },
        };
        Ok(ChatCommand::GetMessages { thread_id, limit, offset })
    } else {
        Err(AppError::JsonError(String::from_str("unknown variant of cmd")))
    }
}

/// What a client is told over its connection.
#[allow(inconsistent_fields)]
#[derive(Debug, PartialEq, Eq)]
pub enum ChatResponse {
    ThreadCreated { thread: ThreadInfo },
    MessageSent { message: MessageInfo },
    ThreadsList { threads: Vec<ThreadInfo> },
    MessagesList { messages: Vec<MessageInfo> },
    NewMessage { message: MessageInfo },
    Error { message: String, code: Option<String> },
}

impl ChatResponse {
    /// The word by which the wire names the kind of the event.
    pub fn event_name(&self) -> (name: String)
        ensures
            name@ == match *self {
                ChatResponse::ThreadCreated { .. } => "thread_created"@,
                ChatResponse::MessageSent { .. } => "message_sent"@,
                ChatResponse::ThreadsList { .. } => "threads_list"@,
                ChatResponse::MessagesList { .. } => "messages_list"@,
                ChatResponse::NewMessage { .. } => "new_message"@,
                ChatResponse::Error { .. } => "error"@,
            },
    {
        match self {
            ChatResponse::ThreadCreated { .. } => String::from_str("thread_created"),
            ChatResponse::MessageSent { .. } => String::from_str("message_sent"),
            ChatResponse::ThreadsList { .. } => String::from_str("threads_list"),
            ChatResponse::MessagesList { .. } => String::from_str("messages_list"),
            ChatResponse::NewMessage { .. } => String::from_str("new_message"),
            ChatResponse::Error { .. } => String::from_str("error"),
        }
    }
}

/// The summaries of a list, each by its view.
pub open spec fn thread_views(threads: Seq<ThreadInfo>) -> Seq<ThreadInfoView> {
    threads.map_values(|t: ThreadInfo| t@)
}

/// The messages of a list, each by its view.
pub open spec fn message_views(messages: Seq<MessageInfo>) -> Seq<MessageInfoView> {
    messages.map_values(|m: MessageInfo| m@)
}

/// What an event is, with lists and texts as sequences.
#[allow(inconsistent_fields)]
pub enum ChatResponseView {
    ThreadCreated { thread: ThreadInfoView },
    MessageSent { message: MessageInfoView },
    ThreadsList { threads: Seq<ThreadInfoView> },
    MessagesList { messages: Seq<MessageInfoView> },
    NewMessage { message: MessageInfoView },
    Error { message: Seq<char>, code: Option<Seq<char>> },
}

impl View for ChatResponse {
    type V = ChatResponseView;

    open spec fn view(&self) -> ChatResponseView {
        match *self {
            ChatResponse::ThreadCreated { thread } => ChatResponseView::ThreadCreated { thread: thread@ },
            ChatResponse::MessageSent { message } => ChatResponseView::MessageSent { message: message@ },
            ChatResponse::ThreadsList { threads } => ChatResponseView::ThreadsList {
                threads: thread_views(threads@),
            },
            ChatResponse::MessagesList { messages } => ChatResponseView::MessagesList {
                messages: message_views(messages@),
            },
            ChatResponse::NewMessage { message } => ChatResponseView::NewMessage { message: message@ },
            ChatResponse::Error { message, code } => ChatResponseView::Error {
                message: message@,
                code: opt_text(code),
            },
        }
    }
}

/// A copy of a list of thread summaries.
pub fn clone_threads(threads: &Vec<ThreadInfo>) -> (copy: Vec<ThreadInfo>)
    ensures
        copy@ == threads@,
{
    let mut copy: Vec<ThreadInfo> = Vec::new();
    let mut i: usize = 0;
    while i < threads.len()
        invariant
            i <= threads.len(),
            copy@ == threads@.take(i as int),
        decreases threads.len() - i,
    {
        copy.push(threads[i].clone());
        assert(threads@.take(i + 1) == threads@.take(i as int).push(threads@[i as int]));
        i += 1;
    }
    assert(threads@.take(threads.len() as int) == threads@);
    copy
}

/// A copy of a list of messages.
pub fn clone_messages(messages: &Vec<MessageInfo>) -> (copy: Vec<MessageInfo>)
    ensures
        copy@ == messages@,
{
    let mut copy: Vec<MessageInfo> = Vec::new();
    let mut i: usize = 0;
    while i < messages.len()
        invariant
            i <= messages.len(),
            copy@ == messages@.take(i as int),
        decreases messages.len() - i,
    {
        copy.push(messages[i].clone());
        assert(messages@.take(i + 1) == messages@.take(i as int).push(messages@[i as int]));
        i += 1;
    }
    assert(messages@.take(messages.len() as int) == messages@);
    copy
}

impl Clone for ChatResponse {
    fn clone(&self) -> (copy: Self)
        ensures
            copy@ == self@,
    {
        match self {
            ChatResponse::ThreadCreated { thread } => ChatResponse::ThreadCreated { thread: thread.clone() },
            ChatResponse::MessageSent { message } => ChatResponse::MessageSent { message: message.clone() },
            ChatResponse::ThreadsList { threads } => ChatResponse::ThreadsList {
                threads: clone_threads(threads),
            },
            ChatResponse::MessagesList { messages } => ChatResponse::MessagesList {
                messages: clone_messages(messages),
            },
            ChatResponse::NewMessage { message } => ChatResponse::NewMessage { message: message.clone() },
            ChatResponse::Error { message, code } => ChatResponse::Error {
                message: message.clone(),
                code: clone_opt_string(code),
            },
        }
    }
}

/// What the store publishes on a thread's channel when a message arrives.
#[derive(Debug, PartialEq, Eq)]
pub struct MessageNotification {
    pub message_id: Id,
    pub thread_id: Id,
    pub sender_id: Id,
    pub content: String,
    pub sent_at: Timestamp,
}

impl MessageNotification {
    /// What the store publishes for a stored message.
    pub fn from_message(message: &Message) -> (notification: Self)
        ensures
            notification == (MessageNotification {
                message_id: message.id,
                thread_id: message.thread_id,
                sender_id: message.sender_id,
                content: message.content,
                sent_at: message.sent_at,
            }),
    {
        MessageNotification {
            message_id: message.id,
            thread_id: message.thread_id,
            sender_id: message.sender_id,
            content: message.content.clone(),
            sent_at: message.sent_at,
        }
    }

    /// The event that tells a listener of the published message, with the
    /// sender's display name filled in.
    pub fn into_event(self, sender_name: String) -> (event: ChatResponse)
        ensures
            event@ == (ChatResponseView::NewMessage {
                message: MessageInfoView {
                    id: self.message_id,
                    thread_id: self.thread_id,
                    sender_id: self.sender_id,
                    sender_name: sender_name@,
                    content: self.content@,
                    sent_at: self.sent_at,
                },
            }),
    {
        ChatResponse::NewMessage {
            message: MessageInfo {
                id: self.message_id,
                thread_id: self.thread_id,
                sender_id: self.sender_id,
                sender_name,
                content: self.content,
                sent_at: self.sent_at,
            },
        }
    }
}

} // verus!
