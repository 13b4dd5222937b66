//! A store of threads and messages that lives in memory: what it holds,
//! what each question to it means, and what holds of its answers.

use vstd::prelude::*;
use vstd::string::StringExecFns;

use crate::db::order::{
    is_newest_first, newest_first, newest_first_is_ordered, page_is_a_stretch, page_keeps_order,
    page_of, slot_for, slot_for_bounds, Stamped,
};
use crate::error::AppError;
use crate::server::chat::{canonical_pair_spec, Message, MessageInfo, MessageThread, ThreadInfo};
use crate::server::clock::Timestamp;
use crate::server::ident::Id;

verus! {

/// What the chat reads of a user.
#[derive(Debug, PartialEq, Eq)]
pub struct UserRow {
    pub id: Id,
    pub username: String,
}

/// What the chat reads of a post.
#[derive(Debug, PartialEq, Eq)]
pub struct PostRow {
    pub id: Id,
    pub title: String,
}

/// The tables that the chat reads and writes, as sequences of rows.
pub struct ChatState {
    pub users: Seq<UserRow>,
    pub posts: Seq<PostRow>,
    pub threads: Seq<MessageThread>,
    pub messages: Seq<Message>,
}

/// A store of threads and messages that lives in memory. It answers every
/// question as the durable store is meant to answer it.
#[derive(Debug)]
pub struct ChatStore {
    users: Vec<UserRow>,
    posts: Vec<PostRow>,
    threads: Vec<MessageThread>,
    messages: Vec<Message>,
}

impl View for ChatStore {
    type V = ChatState;

    closed spec fn view(&self) -> ChatState {
        ChatState {
            users: self.users@,
            posts: self.posts@,
            threads: self.threads@,
            messages: self.messages@,
        }
    }
}

/// No two threads share a key or an identifier, and each is between two
/// users, the one with the lower identifier first.
pub open spec fn threads_consistent(threads: Seq<MessageThread>) -> bool {
    &&& forall|i: int| 0 <= i < threads.len() ==> (#[trigger] threads[i]).well_formed()
    &&& forall|i: int, j: int|
        0 <= i < j < threads.len() ==> (#[trigger] threads[i]).key() != (#[trigger] threads[j]).key()
            && threads[i].id != threads[j].id
}

/// No two messages share an identifier.
pub open spec fn messages_consistent(messages: Seq<Message>) -> bool {
    forall|i: int, j: int|
        0 <= i < j < messages.len() ==> (#[trigger] messages[i]).id != (#[trigger] messages[j]).id
}

/// Every message was sent by a user that the store knows.
pub open spec fn senders_known(users: Seq<UserRow>, messages: Seq<Message>) -> bool {
    forall|i: int|
        0 <= i < messages.len() ==> username_of(users, (#[trigger] messages[i]).sender_id) is Some
}

impl ChatState {
    /// The unique keys hold, and every message has a known sender.
    pub open spec fn well_formed(&self) -> bool {
        &&& threads_consistent(self.threads)
        &&& messages_consistent(self.messages)
        &&& senders_known(self.users, self.messages)
    }
}

/// A user that the store knows stays known when another user is added.
pub proof fn known_user_stays_known(users: Seq<UserRow>, added: UserRow, id: Id)
    requires
        username_of(users, id) is Some,
    ensures
        username_of(users.push(added), id) == username_of(users, id),
    decreases users.len(),
{
    let longer = users.push(added);
    assert(longer[0] == users[0]);
    if users[0].id != id {
        assert(longer.drop_first() == users.drop_first().push(added));
        known_user_stays_known(users.drop_first(), added, id);
    }
}

/// The name of the first user `id` in `users`.
pub open spec fn username_of(users: Seq<UserRow>, id: Id) -> Option<String>
    decreases users.len(),
{
    if users.len() == 0 {
        None
    } else if users[0].id == id {
        Some(users[0].username)
    } else {
        username_of(users.drop_first(), id)
    }
}

/// The title of the first post `id` in `posts`.
pub open spec fn title_of(posts: Seq<PostRow>, id: Id) -> Option<String>
    decreases posts.len(),
{
    if posts.len() == 0 {
        None
    } else if posts[0].id == id {
        Some(posts[0].title)
    } else {
        title_of(posts.drop_first(), id)
    }
}

/// The latest message of a thread: the one sent last, and of those sent at
/// the same time the one stored last.
pub open spec fn latest_message(messages: Seq<Message>, thread_id: Id) -> Option<Message>
    decreases messages.len(),
{
    if messages.len() == 0 {
        None
    } else {
        let earlier = latest_message(messages.drop_last(), thread_id);
        let last = messages.last();
        if last.thread_id != thread_id {
            earlier
        } else {
            match earlier {
                Some(best) => if last.sent_at >= best.sent_at {
                    Some(last)
                } else {
                    Some(best)
                },
                None => Some(last),
            }
        }
    }
}

/// The place of the first thread with `key`, or the number of threads where
/// there is none.
pub open spec fn key_index(threads: Seq<MessageThread>, key: (Id, Id, Id)) -> int
    decreases threads.len(),
{
    if threads.len() == 0 {
        0
    } else if threads[0].key() == key {
        0
    } else {
        1 + key_index(threads.drop_first(), key)
    }
}

/// Whether a thread has the identifier `id`.
pub open spec fn has_thread_id(threads: Seq<MessageThread>, id: Id) -> bool {
    exists|i: int| 0 <= i < threads.len() && (#[trigger] threads[i]).id == id
}

/// Whether a message has the identifier `id`.
pub open spec fn has_message_id(messages: Seq<Message>, id: Id) -> bool {
    exists|i: int| 0 <= i < messages.len() && (#[trigger] messages[i]).id == id
}

/// The thread `existing`, touched at the time of `candidate`.
pub open spec fn touched(existing: MessageThread, candidate: MessageThread) -> MessageThread {
    MessageThread {
        id: existing.id,
        post_id: existing.post_id,
        user_a: existing.user_a,
        user_b: existing.user_b,
        created_at: existing.created_at,
        updated_at: candidate.updated_at,
    }
}

/// What happens to the threads when `candidate` is stored.
pub enum Upsert {
    /// The key is new and so is the identifier: the candidate is added.
    Inserted,
    /// A thread with the key exists at this place: it is touched.
    Touched { at: int },
    /// The key is new but the identifier is taken: nothing is stored.
    Refused,
}

/// Which of the three happens.
pub open spec fn upsert_case(threads: Seq<MessageThread>, candidate: MessageThread) -> Upsert {
    let at = key_index(threads, candidate.key());
    if at < threads.len() {
        Upsert::Touched { at }
    } else if has_thread_id(threads, candidate.id) {
        Upsert::Refused
    } else {
        Upsert::Inserted
    }
}

/// The threads after `candidate` is stored.
pub open spec fn upserted_threads(threads: Seq<MessageThread>, candidate: MessageThread) -> Seq<
    MessageThread,
> {
    match upsert_case(threads, candidate) {
        Upsert::Inserted => threads.push(candidate),
        Upsert::Touched { at } => threads.update(at, touched(threads[at], candidate)),
        Upsert::Refused => threads,
    }
}

/// The thread that storing `candidate` returns, if it returns one.
pub open spec fn upserted_thread(threads: Seq<MessageThread>, candidate: MessageThread) -> Option<
    MessageThread,
> {
    match upsert_case(threads, candidate) {
        Upsert::Inserted => Some(candidate),
        Upsert::Touched { at } => Some(touched(threads[at], candidate)),
        Upsert::Refused => None,
    }
}

/// Whether `after` and `outcome` are what storing `candidate` makes of the
/// threads `before`: the thread with its key is touched and returned, or
/// the candidate is added and returned, or it is refused because its
/// identifier is taken.
pub open spec fn stores_thread(
    before: Seq<MessageThread>,
    candidate: MessageThread,
    after: Seq<MessageThread>,
    outcome: Result<MessageThread, AppError>,
) -> bool {
    &&& after == upserted_threads(before, candidate)
    &&& match upserted_thread(before, candidate) {
        Some(thread) => outcome == Ok::<MessageThread, AppError>(thread),
        None => outcome matches Err(AppError::SqlxError(_)),
    }
}

/// Whether `after` and `outcome` are what creating a thread about `post_id`
/// between `user1` and `user2` makes of the threads `before`, where a new
/// row gets the identifier `id` and the time `now`. A thread of a user with
/// themselves is refused and nothing is stored.
pub open spec fn creates_thread(
    before: Seq<MessageThread>,
    post_id: Id,
    user1: Id,
    user2: Id,
    id: Id,
    now: Timestamp,
    after: Seq<MessageThread>,
    outcome: Result<MessageThread, AppError>,
) -> bool {
    if user1 == user2 {
        outcome matches Err(AppError::BadRequest(_)) && after == before
    } else {
        stores_thread(before, candidate_thread(id, post_id, user1, user2, now), after, outcome)
    }
}

/// Whether only the threads may differ between two states.
pub open spec fn same_but_threads(before: ChatState, after: ChatState) -> bool {
    after.users == before.users && after.posts == before.posts && after.messages == before.messages
}

/// Whether only the messages may differ between two states.
pub open spec fn same_but_messages(before: ChatState, after: ChatState) -> bool {
    after.users == before.users && after.posts == before.posts && after.threads == before.threads
}

/// The place that `key_index` gives lies within the threads or just behind
/// them; no thread before it has the key, and the thread at it has.
pub proof fn key_index_bounds(threads: Seq<MessageThread>, key: (Id, Id, Id))
    ensures
        0 <= key_index(threads, key) <= threads.len(),
        forall|i: int| 0 <= i < key_index(threads, key) ==> (#[trigger] threads[i]).key() != key,
        key_index(threads, key) < threads.len() ==> threads[key_index(threads, key)].key() == key,
    decreases threads.len(),
{
    if threads.len() > 0 && threads[0].key() != key {
        let rest = threads.drop_first();
        key_index_bounds(rest, key);
        assert forall|i: int| 0 <= i < key_index(threads, key) implies (#[trigger] threads[i]).key()
            != key by {
            if i > 0 {
                assert(threads[i] == rest[i - 1]);
            }
        }
        if key_index(threads, key) < threads.len() {
            assert(threads[key_index(threads, key)] == rest[key_index(rest, key)]);
        }
    }
}

/// Storing a thread keeps the keys and identifiers unique.
pub proof fn upsert_keeps_consistency(threads: Seq<MessageThread>, candidate: MessageThread)
    requires
        threads_consistent(threads),
        candidate.well_formed(),
    ensures
        threads_consistent(upserted_threads(threads, candidate)),
{
    let key = candidate.key();
    key_index_bounds(threads, key);
    let after = upserted_threads(threads, candidate);
    match upsert_case(threads, candidate) {
        Upsert::Inserted => {
            assert forall|i: int, j: int| 0 <= i < j < after.len() implies (#[trigger] after[i]).key()
                != (#[trigger] after[j]).key() && after[i].id != after[j].id by {
                if j == threads.len() {
                    assert(after[i] == threads[i]);
                    assert(threads[i].key() != key);
                    assert(threads[i].id != candidate.id);
                } else {
                    assert(after[i] == threads[i] && after[j] == threads[j]);
                }
            }
            assert forall|i: int| 0 <= i < after.len() implies (#[trigger] after[i]).well_formed() by {
                if i < threads.len() {
                    assert(after[i] == threads[i]);
                }
            }
        },
        Upsert::Touched { at } => {
            assert forall|i: int, j: int| 0 <= i < j < after.len() implies (#[trigger] after[i]).key()
                != (#[trigger] after[j]).key() && after[i].id != after[j].id by {
                assert(after[i].key() == threads[i].key() && after[i].id == threads[i].id);
                assert(after[j].key() == threads[j].key() && after[j].id == threads[j].id);
            }
            assert forall|i: int| 0 <= i < after.len() implies (#[trigger] after[i]).well_formed() by {
                assert(threads[i].well_formed());
            }
        },
        Upsert::Refused => {},
    }
}

/// The thread `id` between `user1` and `user2` about `post_id`, as it is
/// first stored at `now`.
pub open spec fn candidate_thread(id: Id, post_id: Id, user1: Id, user2: Id, now: Timestamp) -> MessageThread {
    MessageThread {
        id,
        post_id,
        user_a: canonical_pair_spec(user1, user2).0,
        user_b: canonical_pair_spec(user1, user2).1,
        created_at: now,
        updated_at: now,
    }
}

/// What holds of a thread that creation returns: it is about the post and
/// between the two users, lower identifier first, and it is in the store
/// afterwards. Where the two had a thread about the post already, creation
/// succeeds and adds no row.
pub proof fn created_thread_is_stored(
    before: Seq<MessageThread>,
    post_id: Id,
    user1: Id,
    user2: Id,
    id: Id,
    now: Timestamp,
)
    requires
        user1 != user2,
    ensures
        ({
            let candidate = candidate_thread(id, post_id, user1, user2, now);
            let after = upserted_threads(before, candidate);
            &&& upserted_thread(before, candidate) matches Some(thread) ==> {
                &&& after.contains(thread)
                &&& thread.post_id == post_id
                &&& (thread.user_a, thread.user_b) == canonical_pair_spec(user1, user2)
                &&& thread.user_a < thread.user_b
            }
            &&& upserted_thread(before, candidate) is None ==> after == before
            &&& key_index(before, candidate.key()) < before.len() ==> upserted_thread(
                before,
                candidate,
            ) is Some && after.len() == before.len()
        }),
{
    let candidate = candidate_thread(id, post_id, user1, user2, now);
    let after = upserted_threads(before, candidate);
    key_index_bounds(before, candidate.key());
    match upsert_case(before, candidate) {
        Upsert::Inserted => {
            assert(after[before.len() as int] == candidate);
        },
        Upsert::Touched { at } => {
            assert(after[at] == touched(before[at], candidate));
        },
        Upsert::Refused => {},
    }
}

/// Creating a thread twice, by either participant, gives the same thread and
/// stores no second row: once the first creation has succeeded, the second
/// returns a thread with the same identifier and leaves the number of rows
/// as it is.
pub proof fn thread_creation_is_idempotent(
    threads: Seq<MessageThread>,
    post_id: Id,
    user1: Id,
    user2: Id,
    first_id: Id,
    first_now: Timestamp,
    second_id: Id,
    second_now: Timestamp,
)
    requires
        threads_consistent(threads),
        user1 != user2,
    ensures
        ({
            let first = candidate_thread(first_id, post_id, user1, user2, first_now);
            let second = candidate_thread(second_id, post_id, user2, user1, second_now);
            let between = upserted_threads(threads, first);
            let after = upserted_threads(between, second);
            upserted_thread(threads, first) matches Some(created) ==> {
                &&& upserted_thread(between, second) matches Some(again)
                &&& again.id == created.id
                &&& (again.user_a, again.user_b) == (created.user_a, created.user_b)
                &&& again.created_at == created.created_at
                &&& after.len() == between.len()
            }
        }),
{
    let first = candidate_thread(first_id, post_id, user1, user2, first_now);
    let second = candidate_thread(second_id, post_id, user2, user1, second_now);
    let key = first.key();
    assert(second.key() == key);
    let between = upserted_threads(threads, first);
    key_index_bounds(threads, key);
    key_index_bounds(between, key);
    upsert_keeps_consistency(threads, first);
    if upserted_thread(threads, first) is Some {
        let created = upserted_thread(threads, first)->0;
        let at = match upsert_case(threads, first) {
            Upsert::Touched { at } => at,
            _ => threads.len() as int,
        };
        assert(between[at] == created);
        assert(between[at].key() == key);
        let found = key_index(between, key);
        assert(found < between.len()) by {
            if found >= between.len() {
                assert(between[at].key() != key);
            }
        }
        if found != at {
            if found < at {
                assert(between[found].key() != between[at].key());
            } else {
                assert(between[at].key() != between[found].key());
            }
        }
    }
}

impl ChatStore {
    /// A store with nothing in it.
    pub fn new() -> (store: Self)
        ensures
            store@.users.len() == 0,
            store@.posts.len() == 0,
            store@.threads.len() == 0,
            store@.messages.len() == 0,
            store@.well_formed(),
    {
        ChatStore { users: Vec::new(), posts: Vec::new(), threads: Vec::new(), messages: Vec::new() }
    }

    /// Adds a user.
    pub fn add_user(&mut self, id: Id, username: String)
        requires
            old(self)@.well_formed(),
        ensures
            final(self)@.users == old(self)@.users.push(UserRow { id, username }),
            final(self)@.posts == old(self)@.posts,
            final(self)@.threads == old(self)@.threads,
            final(self)@.messages == old(self)@.messages,
            final(self)@.well_formed(),
    {
        proof {
            let users = self.users@;
            let added = UserRow { id, username };
            assert forall|i: int| 0 <= i < self.messages@.len() implies username_of(
                users.push(added),
                (#[trigger] self.messages@[i]).sender_id,
            ) is Some by {
                known_user_stays_known(users, added, self.messages@[i].sender_id);
            }
        }
        self.users.push(UserRow { id, username });
    }

    /// Adds a post.
    pub fn add_post(&mut self, id: Id, title: String)
        requires
            old(self)@.well_formed(),
        ensures
            final(self)@.users == old(self)@.users,
            final(self)@.posts == old(self)@.posts.push(PostRow { id, title }),
            final(self)@.threads == old(self)@.threads,
            final(self)@.messages == old(self)@.messages,
            final(self)@.well_formed(),
    {
        self.posts.push(PostRow { id, title });
    }

    /// The threads, in the order they were stored.
    pub fn threads(&self) -> (threads: &Vec<MessageThread>)
        ensures
            threads@ == self@.threads,
    {
        &self.threads
    }

    /// The messages, in the order they were stored.
    pub fn messages(&self) -> (messages: &Vec<Message>)
        ensures
            messages@ == self@.messages,
    {
        &self.messages
    }

    /// Stores `candidate`: where a thread with its key exists, that thread is
    /// touched and returned; else the candidate is added, unless its
    /// identifier is taken.
    #[verifier::loop_isolation(false)]
    pub fn upsert_thread(&mut self, candidate: MessageThread) -> (outcome: Result<MessageThread, AppError>)
        requires
            old(self)@.well_formed(),
            candidate.well_formed(),
        ensures
            stores_thread(old(self)@.threads, candidate, final(self)@.threads, outcome),
            same_but_threads(old(self)@, final(self)@),
            final(self)@.well_formed(),
    {
        let ghost before = self.threads@;
        let key = (candidate.post_id, candidate.user_a, candidate.user_b);
        proof {
            upsert_keeps_consistency(before, candidate);
            assert(before.skip(0) == before);
        }
        let mut at: usize = 0;
        while at < self.threads.len() && !(self.threads[at].post_id == key.0 && self.threads[at].user_a
            == key.1 && self.threads[at].user_b == key.2)
            invariant
                at <= self.threads.len(),
                self.threads@ == before,
                key == candidate.key(),
                key_index(before, key) == at + key_index(before.skip(at as int), key),
            decreases self.threads.len() - at,
        {
            proof {
                let tail = before.skip(at as int);
                assert(tail[0] == before[at as int]);
                assert(tail.drop_first() == before.skip(at + 1));
            }
            at += 1;
        }
        proof {
            let tail = before.skip(at as int);
            if at < before.len() {
                assert(tail[0] == before[at as int]);
            }
        }
        if at < self.threads.len() {
            let existing = self.threads[at];
            let thread = MessageThread {
                id: existing.id,
                post_id: existing.post_id,
                user_a: existing.user_a,
                user_b: existing.user_b,
                created_at: existing.created_at,
                updated_at: candidate.updated_at,
            };
            self.threads.set(at, thread);
            return Ok(thread);
        }
        let mut i: usize = 0;
        while i < self.threads.len()
            invariant
                i <= self.threads.len(),
                self.threads@ == before,
                forall|k: int| 0 <= k < i ==> (#[trigger] before[k]).id != candidate.id,
            decreases self.threads.len() - i,
        {
            if self.threads[i].id == candidate.id {
                return Err(AppError::SqlxError(String::from_str("duplicate thread identifier")));
            }
            i += 1;
        }
        self.threads.push(candidate);
        Ok(candidate)
    }
}

/// The first thread `thread_id` that `user_id` takes part in.
pub open spec fn thread_for(threads: Seq<MessageThread>, thread_id: Id, user_id: Id) -> Option<
    MessageThread,
>
    decreases threads.len(),
{
    if threads.len() == 0 {
        None
    } else if threads[0].id == thread_id && threads[0].spec_contains_user(user_id) {
        Some(threads[0])
    } else {
        thread_for(threads.drop_first(), thread_id, user_id)
    }
}

/// `thread_for` finds a thread exactly where one with the identifier has the
/// user as participant, and what it finds is such a thread of the store.
pub proof fn thread_for_finds(threads: Seq<MessageThread>, thread_id: Id, user_id: Id)
    ensures
        thread_for(threads, thread_id, user_id) is Some <==> exists|i: int|
            0 <= i < threads.len() && (#[trigger] threads[i]).id == thread_id
                && threads[i].spec_contains_user(user_id),
        thread_for(threads, thread_id, user_id) matches Some(found) ==> threads.contains(found)
            && found.id == thread_id && found.spec_contains_user(user_id),
    decreases threads.len(),
{
    if threads.len() > 0 {
        let rest = threads.drop_first();
        thread_for_finds(rest, thread_id, user_id);
        if threads[0].id == thread_id && threads[0].spec_contains_user(user_id) {
            assert(threads.contains(threads[0]));
        } else {
            if thread_for(rest, thread_id, user_id) is Some {
                let k = choose|k: int|
                    0 <= k < rest.len() && (#[trigger] rest[k]).id == thread_id
                        && rest[k].spec_contains_user(user_id);
                assert(threads[k + 1] == rest[k]);
                let found = thread_for(rest, thread_id, user_id)->0;
                let at = choose|at: int| 0 <= at < rest.len() && rest[at] == found;
                assert(threads[at + 1] == found);
            }
            if exists|i: int|
                0 <= i < threads.len() && (#[trigger] threads[i]).id == thread_id
                    && threads[i].spec_contains_user(user_id) {
                let i = choose|i: int|
                    0 <= i < threads.len() && (#[trigger] threads[i]).id == thread_id
                        && threads[i].spec_contains_user(user_id);
                assert(rest[i - 1] == threads[i]);
            }
        }
    }
}

/// Whether `after` and `outcome` are what storing `message` makes of the
/// messages `before`, given the users and the threads: only a participant
/// of the thread may store, and only as a user that the store knows and
/// under an identifier that is free.
pub open spec fn stores_message(
    users: Seq<UserRow>,
    threads: Seq<MessageThread>,
    before: Seq<Message>,
    message: Message,
    after: Seq<Message>,
    outcome: Result<Message, AppError>,
) -> bool {
    match thread_for(threads, message.thread_id, message.sender_id) {
        None => outcome matches Err(AppError::AccessDenied) && after == before,
        Some(_) => if has_message_id(before, message.id) || username_of(
            users,
            message.sender_id,
        ) is None {
            outcome matches Err(AppError::SqlxError(_)) && after == before
        } else {
            outcome == Ok::<Message, AppError>(message) && after == before.push(message)
        },
    }
}

/// A user who is no participant of a thread of the store has no access to
/// it: no thread with that identifier has them as participant.
pub proof fn outsider_has_no_access(threads: Seq<MessageThread>, at: int, user_id: Id)
    requires
        threads_consistent(threads),
        0 <= at < threads.len(),
        !threads[at].spec_contains_user(user_id),
    ensures
        thread_for(threads, threads[at].id, user_id) is None,
{
    thread_for_finds(threads, threads[at].id, user_id);
    if thread_for(threads, threads[at].id, user_id) is Some {
        let i = choose|i: int|
            0 <= i < threads.len() && (#[trigger] threads[i]).id == threads[at].id
                && threads[i].spec_contains_user(user_id);
        if i < at {
            assert(threads[i].id != threads[at].id);
        } else if at < i {
            assert(threads[at].id != threads[i].id);
        }
    }
}

/// The text of a message, if there is one.
pub open spec fn content_of(message: Option<Message>) -> Option<String> {
    match message {
        Some(m) => Some(m.content),
        None => None,
    }
}

/// The time of a message, if there is one.
pub open spec fn sent_at_of(message: Option<Message>) -> Option<Timestamp> {
    match message {
        Some(m) => Some(m.sent_at),
        None => None,
    }
}

/// A thread as `user_id` sees it: nothing where the user is no participant,
/// or where the post or one of the participants is missing from the store.
pub open spec fn summary_of(state: ChatState, thread: MessageThread, user_id: Id) -> Option<ThreadInfo> {
    if !thread.spec_contains_user(user_id) {
        None
    } else {
        match (
            title_of(state.posts, thread.post_id),
            username_of(state.users, thread.user_a),
            username_of(state.users, thread.user_b),
        ) {
            (Some(title), Some(name_a), Some(name_b)) => Some(
                ThreadInfo {
                    id: thread.id,
                    post_id: thread.post_id,
                    post_title: title,
                    other_user_id: if thread.user_a == user_id {
                        thread.user_b
                    } else {
                        thread.user_a
                    },
                    other_user_name: if thread.user_a == user_id {
                        name_b
                    } else {
                        name_a
                    },
                    last_message: content_of(latest_message(state.messages, thread.id)),
                    last_message_at: sent_at_of(latest_message(state.messages, thread.id)),
                    created_at: thread.created_at,
                    updated_at: thread.updated_at,
                },
            ),
            _ => None,
        }
    }
}

/// The rule that turns each thread into what `user_id` sees of it.
pub open spec fn summarizer(state: ChatState, user_id: Id) -> spec_fn(MessageThread) -> Option<
    ThreadInfo,
> {
    |thread: MessageThread| summary_of(state, thread, user_id)
}

/// The threads of `user_id`, most recently active first.
pub open spec fn user_threads(state: ChatState, user_id: Id) -> Seq<ThreadInfo> {
    newest_first(state.threads.filter_map(summarizer(state, user_id)))
}

/// A message with the name of its sender: nothing where the message is of
/// another thread or its sender is missing from the store.
pub open spec fn row_of(state: ChatState, thread_id: Id, message: Message) -> Option<MessageInfo> {
    if message.thread_id != thread_id {
        None
    } else {
        match username_of(state.users, message.sender_id) {
            Some(name) => Some(
                MessageInfo {
                    id: message.id,
                    thread_id: message.thread_id,
                    sender_id: message.sender_id,
                    sender_name: name,
                    content: message.content,
                    sent_at: message.sent_at,
                },
            ),
            None => None,
        }
    }
}

/// The rule that turns each message of a thread into its row.
pub open spec fn row_maker(state: ChatState, thread_id: Id) -> spec_fn(Message) -> Option<MessageInfo> {
    |message: Message| row_of(state, thread_id, message)
}

/// All messages of a thread, newest first.
pub open spec fn thread_rows(state: ChatState, thread_id: Id) -> Seq<MessageInfo> {
    newest_first(state.messages.filter_map(row_maker(state, thread_id)))
}

/// The page of a thread's messages that skips the `offset` newest and holds
/// at most `limit`.
pub open spec fn thread_messages(state: ChatState, thread_id: Id, limit: int, offset: int) -> Seq<
    MessageInfo,
> {
    page_of(thread_rows(state, thread_id), limit, offset)
}

/// The test for the threads that `user_id` takes part in.
pub open spec fn involves(user_id: Id) -> spec_fn(MessageThread) -> bool {
    |thread: MessageThread| thread.spec_contains_user(user_id)
}

/// The identifiers of the threads that `user_id` takes part in, in the order
/// of the store.
pub open spec fn thread_ids_of(threads: Seq<MessageThread>, user_id: Id) -> Seq<Id> {
    threads.filter(involves(user_id)).map_values(|thread: MessageThread| thread.id)
}

/// The threads that a user is shown are ordered by their last activity,
/// most recent first.
pub proof fn user_threads_are_ordered(state: ChatState, user_id: Id)
    ensures
        is_newest_first(user_threads(state, user_id)),
        forall|i: int, j: int|
            0 <= i < j < user_threads(state, user_id).len() ==> (#[trigger] user_threads(
                state,
                user_id,
            )[i]).updated_at >= (#[trigger] user_threads(state, user_id)[j]).updated_at,
{
    let found = state.threads.filter_map(summarizer(state, user_id));
    newest_first_is_ordered(found);
    let list = user_threads(state, user_id);
    assert forall|i: int, j: int| 0 <= i < j < list.len() implies (#[trigger] list[i]).updated_at >= (
    #[trigger] list[j]).updated_at by {
        assert(list[i].stamp_spec() >= list[j].stamp_spec());
    }
}

/// The state with one more message stored.
pub open spec fn with_message(state: ChatState, message: Message) -> ChatState {
    ChatState {
        users: state.users,
        posts: state.posts,
        threads: state.threads,
        messages: state.messages.push(message),
    }
}

/// A message that is stored shows up in its thread: where its sender has a
/// name, the thread's rows afterwards are the rows before with the new row
/// put in its place, so the thread has one row more and the new row is
/// among them. A thread without messages then lists exactly that one.
pub proof fn stored_message_is_listed(state: ChatState, message: Message, sender_name: String)
    requires
        username_of(state.users, message.sender_id) == Some(sender_name),
    ensures
        ({
            let row = MessageInfo {
                id: message.id,
                thread_id: message.thread_id,
                sender_id: message.sender_id,
                sender_name,
                content: message.content,
                sent_at: message.sent_at,
            };
            let before = thread_rows(state, message.thread_id);
            let after = thread_rows(with_message(state, message), message.thread_id);
            &&& after.len() == before.len() + 1
            &&& after.contains(row)
            &&& before.len() == 0 ==> after == seq![row]
        }),
{
    let row = MessageInfo {
        id: message.id,
        thread_id: message.thread_id,
        sender_id: message.sender_id,
        sender_name,
        content: message.content,
        sent_at: message.sent_at,
    };
    let later = with_message(state, message);
    let rule = row_maker(state, message.thread_id);
    let later_rule = row_maker(later, message.thread_id);
    let rows = state.messages.filter_map(rule);
    assert(later.messages.drop_last() == state.messages);
    assert(later.messages.last() == message);
    assert(rule =~= later_rule);
    let later_rows = later.messages.filter_map(later_rule);
    assert(later_rows == rows.push(row));
    assert(later_rows.drop_last() == rows);
    assert(later_rows.last() == row);
    newest_first_is_ordered(rows);
    let before = newest_first(rows);
    let at = slot_for(before, row.stamp_spec());
    slot_for_bounds(before, row.stamp_spec());
    let after = before.insert(at, row);
    assert(after[at] == row);
    if before.len() == 0 {
        assert(after == seq![row]);
    }
}

/// The test for the messages of a thread.
pub open spec fn in_thread(thread_id: Id) -> spec_fn(Message) -> bool {
    |message: Message| message.thread_id == thread_id
}

/// How many messages of a thread are stored.
pub open spec fn message_count(messages: Seq<Message>, thread_id: Id) -> nat {
    messages.filter(in_thread(thread_id)).len()
}

/// Whether no two rows have the same identifier.
pub open spec fn ids_differ(rows: Seq<MessageInfo>) -> bool {
    forall|i: int, j: int| 0 <= i < j < rows.len() ==> (#[trigger] rows[i]).id != (#[trigger] rows[j]).id
}

/// Each row that the rule makes of some messages is the row of one of them.
proof fn rows_come_from_messages(state: ChatState, thread_id: Id, messages: Seq<Message>)
    ensures
        forall|row: MessageInfo| #[trigger]
            messages.filter_map(row_maker(state, thread_id)).contains(row) ==> exists|k: int|
                0 <= k < messages.len() && row_of(state, thread_id, #[trigger] messages[k]) == Some(
                    row,
                ),
{
    let rule = row_maker(state, thread_id);
    assert forall|row: MessageInfo| #[trigger]
        messages.filter_map(rule).contains(row) implies exists|k: int|
        0 <= k < messages.len() && row_of(state, thread_id, #[trigger] messages[k]) == Some(
            row,
        ) by {
        messages.lemma_filter_map_contains(rule, row);
        let m = choose|m: Message| #[trigger] messages.contains(m) && rule(m) == Some(row);
        let k = choose|k: int| 0 <= k < messages.len() && messages[k] == m;
        assert(row_of(state, thread_id, messages[k]) == Some(row));
    }
}

/// Where every sender is known, a thread has as many rows as messages.
proof fn rows_are_counted(state: ChatState, thread_id: Id, messages: Seq<Message>)
    requires
        senders_known(state.users, messages),
    ensures
        messages.filter_map(row_maker(state, thread_id)).len() == message_count(
            messages,
            thread_id,
        ),
    decreases messages.len(),
{
    let rule = row_maker(state, thread_id);
    let test = in_thread(thread_id);
    if messages.len() == 0 {
        reveal(Seq::filter);
    } else {
        let front = messages.drop_last();
        let last = messages.last();
        assert forall|i: int| 0 <= i < front.len() implies username_of(
            state.users,
            (#[trigger] front[i]).sender_id,
        ) is Some by {
            assert(front[i] == messages[i]);
        }
        rows_are_counted(state, thread_id, front);
        assert(messages == front.push(last));
        front.lemma_filter_push(last, test);
        assert(username_of(state.users, messages[messages.len() - 1].sender_id) is Some);
    }
}

/// Messages with different identifiers make rows with different
/// identifiers.
proof fn rows_have_their_own_ids(state: ChatState, thread_id: Id, messages: Seq<Message>)
    requires
        messages_consistent(messages),
    ensures
        ids_differ(messages.filter_map(row_maker(state, thread_id))),
    decreases messages.len(),
{
    let rule = row_maker(state, thread_id);
    if messages.len() > 0 {
        let front = messages.drop_last();
        let last = messages.last();
        assert forall|i: int, j: int| 0 <= i < j < front.len() implies (#[trigger] front[i]).id != (
        #[trigger] front[j]).id by {
            assert(front[i] == messages[i] && front[j] == messages[j]);
        }
        rows_have_their_own_ids(state, thread_id, front);
        rows_come_from_messages(state, thread_id, front);
        let earlier = front.filter_map(rule);
        let rows = messages.filter_map(rule);
        if rule(last) is Some {
            let row = rule(last)->0;
            assert(rows == earlier.push(row));
            assert forall|i: int, j: int| 0 <= i < j < rows.len() implies (#[trigger] rows[i]).id != (
            #[trigger] rows[j]).id by {
                if j == earlier.len() {
                    assert(rows[i] == earlier[i]);
                    assert(earlier.contains(earlier[i]));
                    let k = choose|k: int|
                        0 <= k < front.len() && row_of(state, thread_id, #[trigger] front[k])
                            == Some(earlier[i]);
                    assert(front[k] == messages[k]);
                    assert(messages[k].id != messages[messages.len() - 1].id);
                } else {
                    assert(rows[i] == earlier[i] && rows[j] == earlier[j]);
                }
            }
        } else {
            assert(rows == earlier);
        }
    }
}

/// Rows with different identifiers keep them apart when they are ordered.
proof fn ordering_keeps_ids_apart(rows: Seq<MessageInfo>)
    requires
        ids_differ(rows),
    ensures
        ids_differ(newest_first(rows)),
    decreases rows.len(),
{
    broadcast use vstd::seq_lib::to_multiset_contains;

    if rows.len() > 0 {
        let front = rows.drop_last();
        let last = rows.last();
        assert forall|i: int, j: int| 0 <= i < j < front.len() implies (#[trigger] front[i]).id != (
        #[trigger] front[j]).id by {
            assert(front[i] == rows[i] && front[j] == rows[j]);
        }
        ordering_keeps_ids_apart(front);
        newest_first_is_ordered(front);
        let sorted = newest_first(front);
        let at = slot_for(sorted, last.stamp_spec());
        slot_for_bounds(sorted, last.stamp_spec());
        let out = sorted.insert(at, last);
        assert forall|k: int| 0 <= k < sorted.len() implies (#[trigger] sorted[k]).id != last.id by {
            assert(sorted.contains(sorted[k]));
            assert(sorted.to_multiset().count(sorted[k]) > 0);
            assert(front.to_multiset().count(sorted[k]) > 0);
            assert(front.contains(sorted[k]));
            let m = choose|m: int| 0 <= m < front.len() && front[m] == sorted[k];
            assert(rows[m] == front[m]);
            assert(rows[m].id != rows[rows.len() - 1].id);
        }
        assert forall|i: int, j: int| 0 <= i < j < out.len() implies (#[trigger] out[i]).id != (
        #[trigger] out[j]).id by {
            if i == at {
                assert(out[j] == sorted[j - 1]);
            } else if j == at {
                assert(out[i] == sorted[i]);
            } else if i < at && j < at {
                assert(out[i] == sorted[i] && out[j] == sorted[j]);
            } else if i < at {
                assert(out[i] == sorted[i] && out[j] == sorted[j - 1]);
            } else {
                assert(out[i] == sorted[i - 1] && out[j] == sorted[j - 1]);
            }
        }
    }
}

/// A page of a thread's messages holds as many messages as the thread has
/// behind the first `offset`, and no more than `limit`; it is empty where
/// `offset` reaches the number of the thread's messages.
pub proof fn messages_page_has_its_length(state: ChatState, thread_id: Id, limit: int, offset: int)
    requires
        state.well_formed(),
        0 <= limit,
        0 <= offset,
    ensures
        ({
            let stored = message_count(state.messages, thread_id) as int;
            let left = if stored > offset {
                stored - offset
            } else {
                0
            };
            thread_messages(state, thread_id, limit, offset).len() == if limit < left {
                limit
            } else {
                left
            }
        }),
        thread_rows(state, thread_id).len() == message_count(state.messages, thread_id),
{
    rows_are_counted(state, thread_id, state.messages);
    newest_first_is_ordered(state.messages.filter_map(row_maker(state, thread_id)));
}

/// Every row of a page is a stored message of the thread, with that
/// message's identifier, sender, text and time and with the stored name of
/// the sender; and no two rows of a page have the same identifier.
pub proof fn messages_page_shows_stored_messages(
    state: ChatState,
    thread_id: Id,
    limit: int,
    offset: int,
)
    requires
        state.well_formed(),
        0 <= limit,
        0 <= offset,
    ensures
        forall|i: int|
            0 <= i < thread_messages(state, thread_id, limit, offset).len() ==> exists|k: int|
                0 <= k < state.messages.len() && row_of(
                    state,
                    thread_id,
                    #[trigger] state.messages[k],
                ) == Some(#[trigger] thread_messages(state, thread_id, limit, offset)[i]),
        forall|i: int|
            0 <= i < thread_messages(state, thread_id, limit, offset).len() ==> (
            #[trigger] thread_messages(state, thread_id, limit, offset)[i]).thread_id == thread_id,
        ids_differ(thread_messages(state, thread_id, limit, offset)),
{
    broadcast use vstd::seq_lib::to_multiset_contains;

    let rows = state.messages.filter_map(row_maker(state, thread_id));
    let sorted = thread_rows(state, thread_id);
    let page = thread_messages(state, thread_id, limit, offset);
    rows_come_from_messages(state, thread_id, state.messages);
    rows_have_their_own_ids(state, thread_id, state.messages);
    ordering_keeps_ids_apart(rows);
    newest_first_is_ordered(rows);
    page_is_a_stretch(sorted, limit, offset);
    assert forall|i: int| 0 <= i < page.len() implies exists|k: int|
        0 <= k < state.messages.len() && row_of(state, thread_id, #[trigger] state.messages[k])
            == Some(#[trigger] page[i]) by {
        assert(page[i] == sorted[offset + i]);
        assert(sorted.contains(sorted[offset + i]));
        assert(sorted.to_multiset().count(page[i]) > 0);
        assert(rows.to_multiset().count(page[i]) > 0);
        assert(rows.contains(page[i]));
    }
    assert forall|i: int| 0 <= i < page.len() implies (#[trigger] page[i]).thread_id
        == thread_id by {
        let k = choose|k: int|
            0 <= k < state.messages.len() && row_of(state, thread_id, #[trigger] state.messages[k])
                == Some(page[i]);
    }
    assert forall|i: int, j: int| 0 <= i < j < page.len() implies (#[trigger] page[i]).id != (
    #[trigger] page[j]).id by {
        assert(page[i] == sorted[offset + i]);
        assert(page[j] == sorted[offset + j]);
    }
}

/// A page of a thread's messages is ordered by send time, newest first; it
/// holds at most `limit` messages, and its message `i` is message
/// `offset + i` of the thread counted from the newest.
pub proof fn messages_page_is_ordered(state: ChatState, thread_id: Id, limit: int, offset: int)
    requires
        0 <= limit,
        0 <= offset,
    ensures
        is_newest_first(thread_messages(state, thread_id, limit, offset)),
        is_newest_first(thread_rows(state, thread_id)),
        thread_messages(state, thread_id, limit, offset).len() <= limit,
        forall|i: int|
            0 <= i < thread_messages(state, thread_id, limit, offset).len()
                ==> #[trigger] thread_messages(state, thread_id, limit, offset)[i] == thread_rows(
                state,
                thread_id,
            )[offset + i],
{
    let all = state.messages.filter_map(row_maker(state, thread_id));
    newest_first_is_ordered(all);
    page_keeps_order(thread_rows(state, thread_id), limit, offset);
    page_is_a_stretch(thread_rows(state, thread_id), limit, offset);
}

/// Where no two messages of the page were sent at the same time, the page is
/// strictly ordered: each message is newer than the next.
pub proof fn messages_page_is_strictly_ordered(state: ChatState, thread_id: Id, limit: int, offset: int)
    requires
        0 <= limit,
        0 <= offset,
        forall|i: int, j: int|
            0 <= i < j < thread_messages(state, thread_id, limit, offset).len() ==> (
            #[trigger] thread_messages(state, thread_id, limit, offset)[i]).sent_at != (
            #[trigger] thread_messages(state, thread_id, limit, offset)[j]).sent_at,
    ensures
        forall|i: int, j: int|
            0 <= i < j < thread_messages(state, thread_id, limit, offset).len() ==> (
            #[trigger] thread_messages(state, thread_id, limit, offset)[i]).sent_at > (
            #[trigger] thread_messages(state, thread_id, limit, offset)[j]).sent_at,
{
    messages_page_is_ordered(state, thread_id, limit, offset);
    let page = thread_messages(state, thread_id, limit, offset);
    assert forall|i: int, j: int| 0 <= i < j < page.len() implies (#[trigger] page[i]).sent_at > (
    #[trigger] page[j]).sent_at by {
        assert(page[i].stamp_spec() >= page[j].stamp_spec());
        assert(page[i].sent_at != page[j].sent_at);
    }
}

impl ChatStore {
    /// The name of a user.
    pub fn username(&self, user_id: Id) -> (name: Option<String>)
        ensures
            name == username_of(self@.users, user_id),
    {
        let mut i: usize = 0;
        proof {
            assert(self.users@.skip(0) == self.users@);
        }
        while i < self.users.len()
            invariant
                i <= self.users.len(),
                username_of(self.users@, user_id) == username_of(self.users@.skip(i as int), user_id),
            decreases self.users.len() - i,
        {
            proof {
                let tail = self.users@.skip(i as int);
                assert(tail[0] == self.users@[i as int]);
                assert(tail.drop_first() == self.users@.skip(i + 1));
            }
            if self.users[i].id == user_id {
                return Some(self.users[i].username.clone());
            }
            i += 1;
        }
        None
    }

    /// The title of a post.
    pub fn post_title(&self, post_id: Id) -> (title: Option<String>)
        ensures
            title == title_of(self@.posts, post_id),
    {
        let mut i: usize = 0;
        proof {
            assert(self.posts@.skip(0) == self.posts@);
        }
        while i < self.posts.len()
            invariant
                i <= self.posts.len(),
                title_of(self.posts@, post_id) == title_of(self.posts@.skip(i as int), post_id),
            decreases self.posts.len() - i,
        {
            proof {
                let tail = self.posts@.skip(i as int);
                assert(tail[0] == self.posts@[i as int]);
                assert(tail.drop_first() == self.posts@.skip(i + 1));
            }
            if self.posts[i].id == post_id {
                return Some(self.posts[i].title.clone());
            }
            i += 1;
        }
        None
    }

    /// The latest message of a thread.
    pub fn last_message(&self, thread_id: Id) -> (latest: Option<Message>)
        ensures
            latest == latest_message(self@.messages, thread_id),
    {
        let mut best: Option<Message> = None;
        let mut i: usize = 0;
        while i < self.messages.len()
            invariant
                i <= self.messages.len(),
                best == latest_message(self.messages@.take(i as int), thread_id),
            decreases self.messages.len() - i,
        {
            proof {
                let upto = self.messages@.take(i + 1);
                assert(upto.drop_last() == self.messages@.take(i as int));
                assert(upto.last() == self.messages@[i as int]);
            }
            if self.messages[i].thread_id == thread_id {
                let newer = match &best {
                    Some(b) => self.messages[i].sent_at >= b.sent_at,
                    None => true,
                };
                if newer {
                    best = Some(self.messages[i].clone());
                }
            }
            i += 1;
        }
        assert(self.messages@.take(self.messages.len() as int) == self.messages@);
        best
    }

    /// The thread `thread_id`, if `user_id` takes part in it.
    pub fn find_thread(&self, thread_id: Id, user_id: Id) -> (found: Option<MessageThread>)
        ensures
            found == thread_for(self@.threads, thread_id, user_id),
    {
        let mut i: usize = 0;
        proof {
            assert(self.threads@.skip(0) == self.threads@);
        }
        while i < self.threads.len()
            invariant
                i <= self.threads.len(),
                thread_for(self.threads@, thread_id, user_id) == thread_for(
                    self.threads@.skip(i as int),
                    thread_id,
                    user_id,
                ),
            decreases self.threads.len() - i,
        {
            proof {
                let tail = self.threads@.skip(i as int);
                assert(tail[0] == self.threads@[i as int]);
                assert(tail.drop_first() == self.threads@.skip(i + 1));
            }
            if self.threads[i].id == thread_id && self.threads[i].contains_user(&user_id) {
                return Some(self.threads[i]);
            }
            i += 1;
        }
        None
    }

    /// What `user_id` sees of `thread`.
    pub fn summarize(&self, thread: &MessageThread, user_id: Id) -> (summary: Option<ThreadInfo>)
        ensures
            summary == summary_of(self@, *thread, user_id),
    {
        if !thread.contains_user(&user_id) {
            return None;
        }
        let title = self.post_title(thread.post_id);
        let name_a = self.username(thread.user_a);
        let name_b = self.username(thread.user_b);
        match (title, name_a, name_b) {
            (Some(title), Some(name_a), Some(name_b)) => {
                let latest = self.last_message(thread.id);
                let (last_message, last_message_at) = match latest {
                    Some(m) => (Some(m.content), Some(m.sent_at)),
                    None => (None, None),
                };
                let first = thread.user_a == user_id;
                Some(
                    ThreadInfo {
                        id: thread.id,
                        post_id: thread.post_id,
                        post_title: title,
                        other_user_id: if first {
                            thread.user_b
                        } else {
                            thread.user_a
                        },
                        other_user_name: if first {
                            name_b
                        } else {
                            name_a
                        },
                        last_message,
                        last_message_at,
                        created_at: thread.created_at,
                        updated_at: thread.updated_at,
                    },
                )
            },
            _ => None,
        }
    }

    /// Stores `message` where its sender takes part in its thread and is a
    /// user that the store knows, and its identifier is free; and returns
    /// it. A sender who takes no part is denied access; a taken identifier
    /// and a sender without a user row are failures of the store.
    #[verifier::loop_isolation(false)]
    pub fn insert_message(&mut self, message: Message) -> (outcome: Result<Message, AppError>)
        requires
            old(self)@.well_formed(),
        ensures
            stores_message(
                old(self)@.users,
                old(self)@.threads,
                old(self)@.messages,
                message,
                final(self)@.messages,
                outcome,
            ),
            same_but_messages(old(self)@, final(self)@),
            final(self)@.well_formed(),
    {
        if self.find_thread(message.thread_id, message.sender_id).is_none() {
            return Err(AppError::AccessDenied);
        }
        if self.username(message.sender_id).is_none() {
            return Err(AppError::SqlxError(String::from_str("unknown sender")));
        }
        let ghost before = self.messages@;
        let mut i: usize = 0;
        while i < self.messages.len()
            invariant
                i <= self.messages.len(),
                self.messages@ == before,
                forall|k: int| 0 <= k < i ==> (#[trigger] before[k]).id != message.id,
            decreases self.messages.len() - i,
        {
            if self.messages[i].id == message.id {
                return Err(AppError::SqlxError(String::from_str("duplicate message identifier")));
            }
            i += 1;
        }
        let copy = message.clone();
        self.messages.push(message);
        proof {
            let after = self.messages@;
            assert forall|a: int, b: int| 0 <= a < b < after.len() implies (#[trigger] after[a]).id != (
            #[trigger] after[b]).id by {
                if b == before.len() {
                    assert(after[a] == before[a]);
                } else {
                    assert(after[a] == before[a] && after[b] == before[b]);
                }
            }
            assert forall|k: int| 0 <= k < after.len() implies username_of(
                self.users@,
                (#[trigger] after[k]).sender_id,
            ) is Some by {
                if k < before.len() {
                    assert(after[k] == before[k]);
                }
            }
        }
        Ok(copy)
    }
}

} // verus!
