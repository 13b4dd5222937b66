//! The bridge from the store's notifications to live connections: which
//! channels a connection listens on, and what a notification turns into.

use vstd::prelude::*;
use vstd::string::StringExecFns;

use crate::api::chat::{attempted, connections_of, ConnectionManager, Delivery};
use crate::api::command::{to_user, Outgoing};
use crate::db::messages::{StoreReply, StoreRequest};
use crate::db::store::{username_of, ChatStore, UserRow};
use crate::error::AppError;
use crate::server::chat::{ChatResponseView, MessageInfoView, MessageNotification};
use crate::server::ident::{id_parsed, id_text, id_to_string, parse_id, Id};
use crate::server::text::{after_prefix, strip_prefix};

verus! {

/// Milliseconds a listener waits when no notification is there.
pub const IDLE_BACKOFF_MILLIS: u64 = 100;

/// The name of the channel on which the store announces the messages of a
/// thread: `thread_` and the thread's identifier.
pub open spec fn channel_name_spec(thread_id: Id) -> Seq<char> {
    "thread_"@ + id_text(thread_id)
}

/// What a channel name stands for: `None` where it names no thread channel,
/// else the thread, or `None` inside where the identifier cannot be read.
pub open spec fn channel_topic(channel: Seq<char>) -> Option<Option<Id>> {
    match after_prefix(channel, "thread_"@) {
        None => None,
        Some(rest) => Some(id_parsed(rest)),
    }
}

/// The channel of a thread. Reading the name back gives the thread.
pub fn channel_name(thread_id: Id) -> (channel: String)
    ensures
        channel@ == channel_name_spec(thread_id),
        channel_topic(channel@) == Some(Some(thread_id)),
{
    let text = id_to_string(thread_id);
    let channel = String::from_str("thread_").concat(text.as_str());
    proof {
        let prefix = "thread_"@;
        assert(channel@.take(prefix.len() as int) == prefix);
        assert(channel@.skip(prefix.len() as int) == id_text(thread_id));
    }
    channel
}

/// The channels of a user's threads, in the order of the threads.
pub fn channel_names(thread_ids: &Vec<Id>) -> (channels: Vec<String>)
    ensures
        channels@.len() == thread_ids@.len(),
        forall|i: int|
            0 <= i < thread_ids@.len() ==> (#[trigger] channels@[i])@ == channel_name_spec(
                thread_ids@[i],
            ),
{
    let mut channels: Vec<String> = Vec::new();
    let mut i: usize = 0;
    while i < thread_ids.len()
        invariant
            i <= thread_ids.len(),
            channels@.len() == i,
            forall|k: int|
                0 <= k < i ==> (#[trigger] channels@[k])@ == channel_name_spec(thread_ids@[k]),
        decreases thread_ids.len() - i,
    {
        channels.push(channel_name(thread_ids[i]));
        i += 1;
    }
    channels
}

/// The channels to listen on, given the store's answer to the question for
/// the user's threads: none of them where the store failed.
pub fn subscriptions(reply: StoreReply) -> (plan: Result<Vec<String>, AppError>)
    ensures
        match reply {
            StoreReply::ThreadIds(ids) => plan matches Ok(channels) && channels@.len() == ids@.len()
                && forall|i: int|
                0 <= i < ids@.len() ==> (#[trigger] channels@[i])@ == channel_name_spec(ids@[i]),
            StoreReply::Failed(error) => plan == Err::<Vec<String>, AppError>(error),
            _ => plan matches Err(AppError::InternalServerError(_)),
        },
{
    match reply {
        StoreReply::ThreadIds(ids) => Ok(channel_names(&ids)),
        StoreReply::Failed(error) => Err(error),
        _ => Err(AppError::InternalServerError(String::from_str("Unexpected answer from the store"))),
    }
}

/// Reads a channel name: the thread it stands for, `None` where it is no
/// thread channel, or the parser's error where the identifier is unreadable.
pub fn parse_channel(channel: &str) -> (topic: Result<Option<Id>, AppError>)
    ensures
        match topic {
            Ok(None) => channel_topic(channel@) is None,
            Ok(Some(id)) => channel_topic(channel@) == Some(Some(id)),
            Err(error) => channel_topic(channel@) == Some(None::<Id>) && error is UuidError,
        },
{
    match strip_prefix(channel, "thread_") {
        None => Ok(None),
        Some(rest) => match parse_id(rest) {
            Ok(id) => Ok(Some(id)),
            Err(e) => Err(AppError::UuidError(e)),
        },
    }
}

/// What came of one attempt to receive a notification.
#[derive(Debug, Clone, Copy, PartialEq, Eq, Structural)]
pub enum ListenerEvent {
    /// A notification arrived.
    Notified,
    /// None was there.
    Idle,
    /// The connection to the source of notifications is lost.
    Lost,
}

/// What a listener does next.
#[derive(Debug, Clone, Copy, PartialEq, Eq, Structural)]
pub enum ListenerAction {
    /// Handle the notification, then receive again.
    Handle,
    /// Wait so many milliseconds, then receive again.
    Sleep { millis: u64 },
    /// End the loop, and with it the connection.
    Stop,
}

/// What a listener does after an attempt to receive: a missing notification
/// is no failure, a lost source ends the loop.
pub fn after_receive(event: ListenerEvent) -> (action: ListenerAction)
    ensures
        action == match event {
            ListenerEvent::Notified => ListenerAction::Handle,
            ListenerEvent::Idle => ListenerAction::Sleep { millis: IDLE_BACKOFF_MILLIS },
            ListenerEvent::Lost => ListenerAction::Stop,
        },
{
    match event {
        ListenerEvent::Notified => ListenerAction::Handle,
        ListenerEvent::Idle => ListenerAction::Sleep { millis: IDLE_BACKOFF_MILLIS },
        ListenerEvent::Lost => ListenerAction::Stop,
    }
}

/// A notification that waits for the name of its sender.
#[derive(Debug)]
pub struct NotificationFlow {
    pub user_id: Id,
    pub notification: MessageNotification,
}

/// What to do next for a notification.
#[derive(Debug)]
pub enum NotificationStep {
    /// The channel is no thread channel: let it pass.
    Ignore,
    /// The notification cannot be handled; the listener goes on.
    Fail { error: AppError },
    /// Ask the store for the sender's name and come back with the answer.
    Ask { flow: NotificationFlow, request: StoreRequest },
    /// Hand the event out.
    Deliver { outgoing: Outgoing },
}

/// Takes up a notification for the connection of `user_id`. The channel is
/// read first, then the payload; a readable notification asks for the
/// display name of its sender.
pub fn receive(user_id: Id, channel: &str, payload: Result<MessageNotification, AppError>) -> (step:
    NotificationStep)
    ensures
        match channel_topic(channel@) {
            None => step is Ignore,
            Some(None) => step matches NotificationStep::Fail { error } && error is UuidError,
            Some(Some(_)) => match payload {
                Err(e) => step == (NotificationStep::Fail { error: e }),
                Ok(notification) => step == (NotificationStep::Ask {
                    flow: NotificationFlow { user_id, notification },
                    request: StoreRequest::Username { user_id: notification.sender_id },
                }),
            },
        },
{
    match parse_channel(channel) {
        Ok(None) => NotificationStep::Ignore,
        Err(error) => NotificationStep::Fail { error },
        Ok(Some(_)) => match payload {
            Err(error) => NotificationStep::Fail { error },
            Ok(notification) => {
                let sender_id = notification.sender_id;
                NotificationStep::Ask {
                    flow: NotificationFlow { user_id, notification },
                    request: StoreRequest::Username { user_id: sender_id },
                }
            },
        },
    }
}

/// The event that a notification turns into once its sender has a name.
pub open spec fn notified_message(notification: MessageNotification, sender_name: Seq<char>) -> ChatResponseView {
    ChatResponseView::NewMessage {
        message: MessageInfoView {
            id: notification.message_id,
            thread_id: notification.thread_id,
            sender_id: notification.sender_id,
            sender_name,
            content: notification.content@,
            sent_at: notification.sent_at,
        },
    }
}

/// Goes on with a notification once the store has answered: the new-message
/// event for every connection of the listening user, or the failure.
pub fn resume(flow: NotificationFlow, reply: StoreReply) -> (step: NotificationStep)
    ensures
        match reply {
            StoreReply::Username(name) => step matches NotificationStep::Deliver { outgoing }
                && outgoing@ == to_user(flow.user_id, notified_message(flow.notification, name@)),
            StoreReply::Failed(error) => step == (NotificationStep::Fail { error }),
            _ => step matches NotificationStep::Fail { error } && error is InternalServerError,
        },
{
    match reply {
        StoreReply::Username(name) => NotificationStep::Deliver {
            outgoing: Outgoing {
                user_id: flow.user_id,
                only_connection: None,
                event: flow.notification.into_event(name),
            },
        },
        StoreReply::Failed(error) => NotificationStep::Fail { error },
        _ => NotificationStep::Fail {
            error: AppError::InternalServerError(String::from_str("Unexpected answer from the store")),
        },
    }
}

/// What became of a notification: the event that was handed out, if one
/// was, and the attempts that the registry made with it.
#[derive(Debug)]
pub struct NotificationReport {
    /// The event that was handed to the registry.
    pub outgoing: Option<Outgoing>,
    /// The attempts made with that event, one for each connection.
    pub deliveries: Vec<Delivery>,
}

/// Whether `outcome` is what handling a notification makes of it, for the
/// listener `user_id` with the connections `connections` and the users of
/// the store: a readable notification of a thread channel becomes the
/// new-message event with the stored name of its sender, which is handed to
/// every connection of the listener, oldest first.
pub open spec fn notification_effect(
    channel: Seq<char>,
    payload: Result<MessageNotification, AppError>,
    user_id: Id,
    connections: Seq<Id>,
    users: Seq<UserRow>,
    outcome: Result<NotificationReport, AppError>,
) -> bool {
    match channel_topic(channel) {
        None => outcome matches Ok(report) && report.outgoing is None && report.deliveries@.len()
            == 0,
        Some(None) => outcome matches Err(AppError::UuidError(_)),
        Some(Some(_)) => match payload {
            Err(e) => outcome == Err::<NotificationReport, AppError>(e),
            Ok(notification) => match username_of(users, notification.sender_id) {
                None => outcome matches Err(AppError::NotFound(_)),
                Some(name) => {
                    &&& outcome matches Ok(report)
                    &&& report.outgoing matches Some(outgoing)
                    &&& outgoing@ == to_user(user_id, notified_message(notification, name@))
                    &&& attempted(report.deliveries@) == connections
                },
            },
        },
    }
}

/// Handles a notification for the connection of `user_id` against the
/// store in memory: a readable notification of a thread channel goes, with
/// the name of its sender, to every connection of the user. The event that
/// is reported is the one that was handed to the registry.
pub fn handle_notification(
    channel: &str,
    payload: Result<MessageNotification, AppError>,
    user_id: Id,
    connection_manager: &ConnectionManager,
    db: &ChatStore,
) -> (outcome: Result<NotificationReport, AppError>)
    ensures
        notification_effect(
            channel@,
            payload,
            user_id,
            connections_of(connection_manager@, user_id),
            db@.users,
            outcome,
        ),
{
    let step = match receive(user_id, channel, payload) {
        NotificationStep::Ask { flow, request } => {
            let reply = match db.username(flow.notification.sender_id) {
                Some(name) => StoreReply::Username(name),
                None => StoreReply::Failed(AppError::NotFound(String::from_str("user"))),
            };
            resume(flow, reply)
        },
        other => other,
    };
    match step {
        NotificationStep::Deliver { outgoing } => {
            let deliveries = connection_manager.deliver(outgoing.user_id, &outgoing.event);
            Ok(NotificationReport { outgoing: Some(outgoing), deliveries })
        },
        NotificationStep::Fail { error } => Err(error),
        _ => Ok(NotificationReport { outgoing: None, deliveries: Vec::new() }),
    }
}

} // verus!
