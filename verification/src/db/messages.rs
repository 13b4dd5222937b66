//! Threads and messages in the store: the questions put to it, the answers
//! it gives, and each of its operations on the store in memory.

use vstd::prelude::*;
use vstd::string::StringExecFns;

use crate::db::order::{sort_newest_first, take_page};
use crate::db::store::{
    candidate_thread, created_thread_is_stored, creates_thread, has_message_id, involves, key_index, row_maker,
    same_but_messages, same_but_threads, stores_message, stores_thread, summarizer, thread_for,
    thread_ids_of, thread_messages, upserted_thread, upserted_threads, user_threads, username_of,
    ChatState, ChatStore,
};
use crate::error::AppError;
use crate::server::chat::{
    canonical_pair_spec, thread_pair, Message, MessageInfo, MessageThread, ThreadInfo,
};
use crate::server::clock::{now_micros, Timestamp};
use crate::server::ident::{fresh_id, Id};

verus! {

/// Messages on a page where the client names no number.
pub const DEFAULT_MESSAGE_LIMIT: i32 = 50;

/// A question to the store.
#[derive(Debug, PartialEq, Eq)]
pub enum StoreRequest {
    /// Create the thread about `post_id` between the two users, or touch
    /// and return the one that exists.
    CreateThread { post_id: Id, user1: Id, user2: Id },
    /// The threads of a user, most recently active first.
    UserThreads { user_id: Id },
    /// Append a message to a thread on behalf of `sender_id`.
    SendMessage { thread_id: Id, sender_id: Id, content: String },
    /// The display name of a user.
    Username { user_id: Id },
    /// A thread, if `user_id` takes part in it.
    ThreadById { thread_id: Id, user_id: Id },
    /// A page of a thread's messages, newest first.
    ThreadMessages { thread_id: Id, user_id: Id, limit: i32, offset: i32 },
    /// The identifiers of the threads of a user.
    UserThreadIds { user_id: Id },
}

/// An answer of the store.
#[derive(Debug)]
pub enum StoreReply {
    Thread(MessageThread),
    Threads(Vec<ThreadInfo>),
    Message(Message),
    Username(String),
    MaybeThread(Option<MessageThread>),
    Messages(Vec<MessageInfo>),
    ThreadIds(Vec<Id>),
    Failed(AppError),
}

/// A thread as the store's listing returns it: the other participant may
/// be unresolved.
#[derive(Debug, PartialEq, Eq)]
pub struct ThreadRow {
    pub id: Id,
    pub post_id: Id,
    pub post_title: String,
    pub other_user_id: Option<Id>,
    pub other_user_name: Option<String>,
    pub last_message: Option<String>,
    pub last_message_at: Option<Timestamp>,
    pub created_at: Timestamp,
    pub updated_at: Timestamp,
}

/// The summary that a row of the listing makes: none where the other
/// participant or their name is missing.
pub open spec fn resolved(row: ThreadRow) -> Option<ThreadInfo> {
    match (row.other_user_id, row.other_user_name) {
        (Some(other_user_id), Some(other_user_name)) => Some(
            ThreadInfo {
                id: row.id,
                post_id: row.post_id,
                post_title: row.post_title,
                other_user_id,
                other_user_name,
                last_message: row.last_message,
                last_message_at: row.last_message_at,
                created_at: row.created_at,
                updated_at: row.updated_at,
            },
        ),
        _ => None,
    }
}

/// The rule that turns each row of the listing into a summary.
pub open spec fn resolver() -> spec_fn(ThreadRow) -> Option<ThreadInfo> {
    |row: ThreadRow| resolved(row)
}

/// The summaries for the rows of a listing, in the order of the rows. A row
/// whose other participant cannot be told is left out.
pub fn thread_infos(rows: Vec<ThreadRow>) -> (infos: Vec<ThreadInfo>)
    ensures
        infos@ == rows@.filter_map(resolver()),
{
    let ghost all = rows@;
    let mut infos: Vec<ThreadInfo> = Vec::new();
    for row in it: rows
        invariant
            it.seq() == all,
            infos@ == all.take(it.index() as int).filter_map(resolver()),
    {
        proof {
            let upto = all.take(it.index() + 1);
            assert(upto.drop_last() == all.take(it.index() as int));
            assert(upto.last() == row);
        }
        match (row.other_user_id, row.other_user_name) {
            (Some(other_user_id), Some(other_user_name)) => {
                infos.push(
                    ThreadInfo {
                        id: row.id,
                        post_id: row.post_id,
                        post_title: row.post_title,
                        other_user_id,
                        other_user_name,
                        last_message: row.last_message,
                        last_message_at: row.last_message_at,
                        created_at: row.created_at,
                        updated_at: row.updated_at,
                    },
                );
            },
            _ => {},
        }
    }
    assert(all.take(all.len() as int) == all);
    infos
}

/// Whether a user may write to or read from a thread, given the store's
/// answer to the question whether the thread exists with the user in it:
/// only a plain yes lets them.
pub fn access_gate(thread_exists: Option<bool>) -> (gate: Result<(), AppError>)
    ensures
        match gate {
            Ok(_) => thread_exists == Some(true),
            Err(error) => thread_exists != Some(true) && error is AccessDenied,
        },
{
    match thread_exists {
        Some(true) => Ok(()),
        _ => Err(AppError::AccessDenied),
    }
}

/// Creates the thread about `post_id` between `user1` and `user2` with the
/// identifier `id` at time `now`, or touches and returns the thread that
/// the two already have about the post. A thread of a user with themselves
/// is refused.
pub fn create_thread_as(db: &mut ChatStore, post_id: Id, user1: Id, user2: Id, id: Id, now: Timestamp) -> (outcome:
    Result<MessageThread, AppError>)
    requires
        old(db)@.well_formed(),
    ensures
        creates_thread(
            old(db)@.threads,
            post_id,
            user1,
            user2,
            id,
            now,
            final(db)@.threads,
            outcome,
        ),
        same_but_threads(old(db)@, final(db)@),
        final(db)@.well_formed(),
{
    match thread_pair(user1, user2) {
        Err(error) => Err(error),
        Ok(_) => {
            let candidate = MessageThread::assemble(id, post_id, user1, user2, now);
            db.upsert_thread(candidate)
        },
    }
}

/// Creates the thread about `post_id` between `user1` and `user2`, under a
/// fresh identifier and the time of the clock, or touches and returns the
/// thread that the two already have about the post. A thread of a user with
/// themselves is refused and nothing is stored. The thread that comes back
/// is about the post and between the two users, lower identifier first, and
/// it is in the store; where the two had one already, no row is added.
pub fn create_thread(db: &mut ChatStore, post_id: Id, user1: Id, user2: Id) -> (outcome: Result<
    MessageThread,
    AppError,
>)
    requires
        old(db)@.well_formed(),
    ensures
        exists|id: Id, now: Timestamp| #[trigger]
            creates_thread(
                old(db)@.threads,
                post_id,
                user1,
                user2,
                id,
                now,
                final(db)@.threads,
                outcome,
            ),
        same_but_threads(old(db)@, final(db)@),
        final(db)@.well_formed(),
        user1 == user2 ==> outcome matches Err(AppError::BadRequest(_)),
        outcome matches Ok(thread) ==> final(db)@.threads.contains(thread) && thread.post_id
            == post_id && (thread.user_a, thread.user_b) == canonical_pair_spec(user1, user2)
            && thread.user_a < thread.user_b,
        outcome is Err ==> final(db)@.threads == old(db)@.threads,
        user1 != user2 && key_index(
            old(db)@.threads,
            (post_id, canonical_pair_spec(user1, user2).0, canonical_pair_spec(user1, user2).1),
        ) < old(db)@.threads.len() ==> outcome is Ok && final(db)@.threads.len() == old(
            db,
        )@.threads.len(),
{
    let now = now_micros();
    let id = fresh_id();
    proof {
        if user1 != user2 {
            created_thread_is_stored(db@.threads, post_id, user1, user2, id, now);
        }
    }
    let outcome = create_thread_as(db, post_id, user1, user2, id, now);
    assert(creates_thread(old(db)@.threads, post_id, user1, user2, id, now, db@.threads, outcome));
    outcome
}

/// The threads of a user with the post's title, the other participant and
/// the latest message, most recently active first.
pub fn get_user_threads(db: &ChatStore, user_id: Id) -> (outcome: Result<Vec<ThreadInfo>, AppError>)
    ensures
        outcome matches Ok(list) && list@ == user_threads(db@, user_id),
{
    let threads = db.threads();
    let mut found: Vec<ThreadInfo> = Vec::new();
    let ghost rule = summarizer(db@, user_id);
    let mut i: usize = 0;
    while i < threads.len()
        invariant
            i <= threads.len(),
            threads@ == db@.threads,
            rule == summarizer(db@, user_id),
            found@ == threads@.take(i as int).filter_map(rule),
        decreases threads.len() - i,
    {
        proof {
            let upto = threads@.take(i + 1);
            assert(upto.drop_last() == threads@.take(i as int));
            assert(upto.last() == threads@[i as int]);
        }
        match db.summarize(&threads[i], user_id) {
            Some(summary) => {
                found.push(summary);
            },
            None => {},
        }
        i += 1;
    }
    assert(threads@.take(threads.len() as int) == threads@);
    Ok(sort_newest_first(found))
}

/// The thread `thread_id`, if `user_id` takes part in it. A thread that
/// does not exist and one that the user is no part of look the same.
pub fn get_thread_by_id(db: &ChatStore, thread_id: Id, user_id: Id) -> (outcome: Result<
    Option<MessageThread>,
    AppError,
>)
    ensures
        outcome matches Ok(found) && found == thread_for(db@.threads, thread_id, user_id),
{
    Ok(db.find_thread(thread_id, user_id))
}

/// Appends a message with the identifier `id`, sent at `now`, to a thread on
/// behalf of `sender_id`. Only a participant may send: anyone else is
/// denied access. Beside these two answers there is a third, a failure of
/// the store: it is given where the identifier is taken, and where the
/// sender, though a participant, has no user row, as a store with foreign
/// keys would refuse such a row.
pub fn send_message_as(db: &mut ChatStore, thread_id: Id, sender_id: Id, content: String, id: Id, now: Timestamp) -> (outcome:
    Result<Message, AppError>)
    requires
        old(db)@.well_formed(),
    ensures
        stores_message(
            old(db)@.users,
            old(db)@.threads,
            old(db)@.messages,
            Message { id, thread_id, sender_id, content, sent_at: now },
            final(db)@.messages,
            outcome,
        ),
        same_but_messages(old(db)@, final(db)@),
        final(db)@.well_formed(),
{
    db.insert_message(Message::assemble(id, thread_id, sender_id, content, now))
}

/// Appends a message to a thread on behalf of `sender_id`, under a fresh
/// identifier and the time of the clock. Only a participant may send: for
/// anyone else the answer is that access is denied, and nothing is stored.
/// Beside the message and the denial there is a third answer, a failure of
/// the store: it is given where the identifier that was drawn is taken, and
/// where the sender, though a participant, has no user row.
pub fn send_message(db: &mut ChatStore, thread_id: Id, sender_id: Id, content: String) -> (outcome:
    Result<Message, AppError>)
    requires
        old(db)@.well_formed(),
    ensures
        exists|id: Id, now: Timestamp| #[trigger]
            stores_message(
                old(db)@.users,
                old(db)@.threads,
                old(db)@.messages,
                Message { id, thread_id, sender_id, content, sent_at: now },
                final(db)@.messages,
                outcome,
            ),
        same_but_messages(old(db)@, final(db)@),
        final(db)@.well_formed(),
        thread_for(old(db)@.threads, thread_id, sender_id) is None ==> outcome matches Err(
            AppError::AccessDenied,
        ),
        outcome matches Ok(message) ==> message.thread_id == thread_id && message.sender_id
            == sender_id && message.content == content && final(db)@.messages == old(
            db,
        )@.messages.push(message),
        outcome is Err ==> final(db)@.messages == old(db)@.messages,
{
    let id = fresh_id();
    let now = now_micros();
    let outcome = send_message_as(db, thread_id, sender_id, content, id, now);
    assert(stores_message(
        old(db)@.users,
        old(db)@.threads,
        old(db)@.messages,
        Message { id, thread_id, sender_id, content, sent_at: now },
        db@.messages,
        outcome,
    ));
    outcome
}

/// A page of a thread's messages with their senders' names, newest first.
/// Only a participant may read; a negative limit or offset is refused.
pub fn get_thread_messages(db: &ChatStore, thread_id: Id, user_id: Id, limit: i32, offset: i32) -> (outcome:
    Result<Vec<MessageInfo>, AppError>)
    ensures
        match thread_for(db@.threads, thread_id, user_id) {
            None => outcome matches Err(AppError::AccessDenied),
            Some(_) => if limit < 0 || offset < 0 {
                outcome matches Err(AppError::SqlxError(_))
            } else {
                outcome matches Ok(page) && page@ == thread_messages(
                    db@,
                    thread_id,
                    limit as int,
                    offset as int,
                )
            },
        },
{
    if db.find_thread(thread_id, user_id).is_none() {
        return Err(AppError::AccessDenied);
    }
    if limit < 0 || offset < 0 {
        return Err(AppError::SqlxError(String::from_str("LIMIT and OFFSET must not be negative")));
    }
    let messages = db.messages();
    let mut rows: Vec<MessageInfo> = Vec::new();
    let ghost rule = row_maker(db@, thread_id);
    let mut i: usize = 0;
    while i < messages.len()
        invariant
            i <= messages.len(),
            messages@ == db@.messages,
            rule == row_maker(db@, thread_id),
            rows@ == messages@.take(i as int).filter_map(rule),
        decreases messages.len() - i,
    {
        proof {
            let upto = messages@.take(i + 1);
            assert(upto.drop_last() == messages@.take(i as int));
            assert(upto.last() == messages@[i as int]);
        }
        if messages[i].thread_id == thread_id {
            match db.username(messages[i].sender_id) {
                Some(name) => {
                    rows.push(MessageInfo::from_message(messages[i].clone(), name));
                },
                None => {},
            }
        }
        i += 1;
    }
    assert(messages@.take(messages.len() as int) == messages@);
    let sorted = sort_newest_first(rows);
    Ok(take_page(sorted, limit as usize, offset as usize))
}

/// The identifiers of the threads that a user takes part in: the channels
/// that a connection of the user listens on.
pub fn get_user_thread_ids(db: &ChatStore, user_id: Id) -> (outcome: Result<Vec<Id>, AppError>)
    ensures
        outcome matches Ok(ids) && ids@ == thread_ids_of(db@.threads, user_id),
{
    let threads = db.threads();
    let mut ids: Vec<Id> = Vec::new();
    let ghost test = involves(user_id);
    let mut i: usize = 0;
    proof {
        reveal(Seq::filter);
        assert(threads@.take(0).filter(test).len() == 0);
    }
    while i < threads.len()
        invariant
            i <= threads.len(),
            threads@ == db@.threads,
            test == involves(user_id),
            ids@ == threads@.take(i as int).filter(test).map_values(
                |thread: MessageThread| thread.id,
            ),
        decreases threads.len() - i,
    {
        proof {
            let upto = threads@.take(i + 1);
            assert(upto == threads@.take(i as int).push(threads@[i as int]));
            threads@.take(i as int).lemma_filter_push(threads@[i as int], test);
        }
        if threads[i].contains_user(&user_id) {
            ids.push(threads[i].id);
        }
        i += 1;
    }
    assert(threads@.take(threads.len() as int) == threads@);
    Ok(ids)
}

/// Whether `reply` and `after` are what a store in state `before` makes of
/// `request`, where a row that the request creates gets the identifier `id`
/// and the time `now`.
pub open spec fn answers(
    before: ChatState,
    request: StoreRequest,
    id: Id,
    now: Timestamp,
    after: ChatState,
    reply: StoreReply,
) -> bool {
    &&& after.users == before.users
    &&& after.posts == before.posts
    &&& match request {
        StoreRequest::CreateThread { post_id, user1, user2 } => {
            let candidate = candidate_thread(id, post_id, user1, user2, now);
            &&& after.messages == before.messages
            &&& if user1 == user2 {
                reply matches StoreReply::Failed(AppError::BadRequest(_)) && after.threads
                    == before.threads
            } else {
                &&& after.threads == upserted_threads(before.threads, candidate)
                &&& match upserted_thread(before.threads, candidate) {
                    Some(thread) => reply == StoreReply::Thread(thread),
                    None => reply matches StoreReply::Failed(AppError::SqlxError(_)),
                }
            }
        },
        StoreRequest::UserThreads { user_id } => {
            &&& after.threads == before.threads
            &&& after.messages == before.messages
            &&& reply matches StoreReply::Threads(list)
            &&& list@ == user_threads(before, user_id)
        },
        StoreRequest::SendMessage { thread_id, sender_id, content } => {
            &&& after.threads == before.threads
            &&& match thread_for(before.threads, thread_id, sender_id) {
                None => reply matches StoreReply::Failed(AppError::AccessDenied) && after.messages
                    == before.messages,
                Some(_) => if has_message_id(before.messages, id) || username_of(
                    before.users,
                    sender_id,
                ) is None {
                    reply matches StoreReply::Failed(AppError::SqlxError(_)) && after.messages
                        == before.messages
                } else {
                    let message = Message { id, thread_id, sender_id, content, sent_at: now };
                    reply == StoreReply::Message(message) && after.messages == before.messages.push(
                        message,
                    )
                },
            }
        },
        StoreRequest::Username { user_id } => {
            &&& after.threads == before.threads
            &&& after.messages == before.messages
            &&& match username_of(before.users, user_id) {
                Some(name) => reply == StoreReply::Username(name),
                None => reply matches StoreReply::Failed(AppError::NotFound(_)),
            }
        },
        StoreRequest::ThreadById { thread_id, user_id } => {
            &&& after.threads == before.threads
            &&& after.messages == before.messages
            &&& reply == StoreReply::MaybeThread(thread_for(before.threads, thread_id, user_id))
        },
        StoreRequest::ThreadMessages { thread_id, user_id, limit, offset } => {
            &&& after.threads == before.threads
            &&& after.messages == before.messages
            &&& match thread_for(before.threads, thread_id, user_id) {
                None => reply matches StoreReply::Failed(AppError::AccessDenied),
                Some(_) => if limit < 0 || offset < 0 {
                    reply matches StoreReply::Failed(AppError::SqlxError(_))
                } else {
                    reply matches StoreReply::Messages(page) && page@ == thread_messages(
                        before,
                        thread_id,
                        limit as int,
                        offset as int,
                    )
                },
            }
        },
        StoreRequest::UserThreadIds { user_id } => {
            &&& after.threads == before.threads
            &&& after.messages == before.messages
            &&& reply matches StoreReply::ThreadIds(ids)
            &&& ids@ == thread_ids_of(before.threads, user_id)
        },
    }
}

impl ChatStore {
    /// Answers a question. A row that the question creates gets the
    /// identifier `id` and the time `now`.
    pub fn answer_as(&mut self, request: StoreRequest, id: Id, now: Timestamp) -> (reply: StoreReply)
        requires
            old(self)@.well_formed(),
        ensures
            final(self)@.well_formed(),
            answers(old(self)@, request, id, now, final(self)@, reply),
    {
        match request {
            StoreRequest::CreateThread { post_id, user1, user2 } => {
                match create_thread_as(self, post_id, user1, user2, id, now) {
                    Ok(thread) => StoreReply::Thread(thread),
                    Err(error) => StoreReply::Failed(error),
                }
            },
            StoreRequest::UserThreads { user_id } => match get_user_threads(self, user_id) {
                Ok(list) => StoreReply::Threads(list),
                Err(error) => StoreReply::Failed(error),
            },
            StoreRequest::SendMessage { thread_id, sender_id, content } => {
                match send_message_as(self, thread_id, sender_id, content, id, now) {
                    Ok(message) => StoreReply::Message(message),
                    Err(error) => StoreReply::Failed(error),
                }
            },
            StoreRequest::Username { user_id } => match self.username(user_id) {
                Some(name) => StoreReply::Username(name),
                None => StoreReply::Failed(AppError::NotFound(String::from_str("user"))),
            },
            StoreRequest::ThreadById { thread_id, user_id } => {
                match get_thread_by_id(self, thread_id, user_id) {
                    Ok(found) => StoreReply::MaybeThread(found),
                    Err(error) => StoreReply::Failed(error),
                }
            },
            StoreRequest::ThreadMessages { thread_id, user_id, limit, offset } => {
                match get_thread_messages(self, thread_id, user_id, limit, offset) {
                    Ok(page) => StoreReply::Messages(page),
                    Err(error) => StoreReply::Failed(error),
                }
            },
            StoreRequest::UserThreadIds { user_id } => match get_user_thread_ids(self, user_id) {
                Ok(ids) => StoreReply::ThreadIds(ids),
                Err(error) => StoreReply::Failed(error),
            },
        }
    }

    /// Answers a question, with a fresh identifier and the time of the clock
    /// for a row that the question creates.
    pub fn answer(&mut self, request: StoreRequest) -> (reply: StoreReply)
        requires
            old(self)@.well_formed(),
        ensures
            final(self)@.well_formed(),
            exists|id: Id, now: Timestamp| #[trigger]
                answers(old(self)@, request, id, now, final(self)@, reply),
    {
        let id = fresh_id();
        let now = now_micros();
        self.answer_as(request, id, now)
    }
}

} // verus!
