//! Live connections: the registry of who is connected, and delivery of
//! events to every connection of a user.

use std::collections::HashMap;
use tokio::sync::mpsc::UnboundedSender;
use vstd::prelude::*;

use crate::api::auth::STATUS_UNAUTHORIZED;
use crate::server::auth::AccessToken;
use crate::server::chat::ChatResponse;
use crate::server::clock::now_seconds;
use crate::server::ident::{fresh_id, is_random_id, Id};

verus! {

/// `tokio::sync::mpsc::UnboundedSender`, carried as it is: nothing of its
/// inside is known here.
#[verifier::external_type_specification]
#[verifier::external_body]
#[verifier::reject_recursive_types(T)]
pub struct ExUnboundedSender<T>(UnboundedSender<T>);

/// One live session of a user: its identifier and the sending half of the
/// channel that feeds its socket.
pub struct UserConnection {
    pub connection_id: Id,
    pub sender: UnboundedSender<ChatResponse>,
}

/// `tokio::sync::mpsc::UnboundedSender::send`: hands `event` to the channel
/// without waiting. The answer is `false` where the receiving half is closed
/// or dropped; which of the two comes back is the channel's affair.
#[verifier::external_body]
fn push_event(sender: &UnboundedSender<ChatResponse>, event: ChatResponse) -> (accepted: bool) {
    sender.send(event).is_ok()
}

/// The identifiers of a user's connections, in the order they registered.
pub open spec fn connection_ids(connections: Seq<UserConnection>) -> Seq<Id> {
    connections.map_values(|c: UserConnection| c.connection_id)
}

/// The test that keeps every connection but `connection_id`.
pub open spec fn other_than(connection_id: Id) -> spec_fn(Id) -> bool {
    |c: Id| c != connection_id
}

/// The test that keeps `connection_id` and nothing else.
pub open spec fn only_this(connection_id: Id) -> spec_fn(Id) -> bool {
    |c: Id| c == connection_id
}

/// The connections a user has in `registry`: none where the user has no entry.
pub open spec fn connections_of(registry: Map<Id, Seq<Id>>, user_id: Id) -> Seq<Id> {
    if registry.contains_key(user_id) {
        registry[user_id]
    } else {
        Seq::empty()
    }
}

/// The connections that an event for `user_id` goes to: all of the user's,
/// or the one named in `only_connection` where the user has it.
pub open spec fn targets(registry: Map<Id, Seq<Id>>, user_id: Id, only_connection: Option<Id>) -> Seq<
    Id,
> {
    match only_connection {
        None => connections_of(registry, user_id),
        Some(connection_id) => connections_of(registry, user_id).filter(only_this(connection_id)),
    }
}

/// The registry after one more connection of `user_id`.
pub open spec fn registered(registry: Map<Id, Seq<Id>>, user_id: Id, connection_id: Id) -> Map<
    Id,
    Seq<Id>,
> {
    registry.insert(user_id, connections_of(registry, user_id).push(connection_id))
}

/// The registry after `connection_id` of `user_id` is gone: the user's other
/// connections stay in order, and a user left without any has no entry.
pub open spec fn unregistered(registry: Map<Id, Seq<Id>>, user_id: Id, connection_id: Id) -> Map<
    Id,
    Seq<Id>,
> {
    if !registry.contains_key(user_id) {
        registry
    } else {
        let rest = registry[user_id].filter(other_than(connection_id));
        if rest.len() == 0 {
            registry.remove(user_id)
        } else {
            registry.insert(user_id, rest)
        }
    }
}

/// The test that keeps every session but the one of `connection_id`.
pub open spec fn not_session(connection_id: Id) -> spec_fn(UserConnection) -> bool {
    |c: UserConnection| c.connection_id != connection_id
}

/// The sessions a user has in `sessions`, each with its channel: none where
/// the user has no entry.
pub open spec fn sessions_of(sessions: Map<Id, Seq<UserConnection>>, user_id: Id) -> Seq<
    UserConnection,
> {
    if sessions.contains_key(user_id) {
        sessions[user_id]
    } else {
        Seq::empty()
    }
}

/// The sessions after `connection` of `user_id` is added: it stands last,
/// with the channel it came with.
pub open spec fn with_session(
    sessions: Map<Id, Seq<UserConnection>>,
    user_id: Id,
    connection: UserConnection,
) -> Map<Id, Seq<UserConnection>> {
    sessions.insert(user_id, sessions_of(sessions, user_id).push(connection))
}

/// The sessions after the one of `connection_id` is gone: each session that
/// stays keeps its place among the others and its own channel.
pub open spec fn without_session(
    sessions: Map<Id, Seq<UserConnection>>,
    user_id: Id,
    connection_id: Id,
) -> Map<Id, Seq<UserConnection>> {
    if !sessions.contains_key(user_id) {
        sessions
    } else {
        let rest = sessions[user_id].filter(not_session(connection_id));
        if rest.len() == 0 {
            sessions.remove(user_id)
        } else {
            sessions.insert(user_id, rest)
        }
    }
}

/// The identifiers of every user's sessions.
pub open spec fn session_ids(sessions: Map<Id, Seq<UserConnection>>) -> Map<Id, Seq<Id>> {
    Map::new(|u: Id| sessions.contains_key(u), |u: Id| connection_ids(sessions[u]))
}

/// A session that stays when another of the same user goes is found among
/// the user's sessions afterwards as it was, identifier and channel; and
/// the sessions of every other user are untouched.
pub proof fn kept_sessions_keep_their_channels(
    sessions: Map<Id, Seq<UserConnection>>,
    user_id: Id,
    connection_id: Id,
)
    ensures
        forall|c: UserConnection|
            c.connection_id != connection_id && sessions_of(sessions, user_id).contains(c)
                ==> #[trigger] sessions_of(
                without_session(sessions, user_id, connection_id),
                user_id,
            ).contains(c),
        forall|c: UserConnection| #[trigger]
            sessions_of(without_session(sessions, user_id, connection_id), user_id).contains(c)
                ==> sessions_of(sessions, user_id).contains(c) && c.connection_id != connection_id,
        forall|u: Id|
            u != user_id ==> #[trigger] sessions_of(
                without_session(sessions, user_id, connection_id),
                u,
            ) == sessions_of(sessions, u),
{
    let before = sessions_of(sessions, user_id);
    let test = not_session(connection_id);
    let rest = before.filter(test);
    if !sessions.contains_key(user_id) {
        reveal(Seq::filter);
    }
    assert(sessions_of(without_session(sessions, user_id, connection_id), user_id) == rest) by {
        reveal(Seq::filter);
    }
    assert forall|c: UserConnection|
        c.connection_id != connection_id && before.contains(c) implies #[trigger] rest.contains(
        c,
    ) by {
        let i = choose|i: int| 0 <= i < before.len() && before[i] == c;
        before.lemma_filter_contains(test, i);
    }
    assert forall|c: UserConnection| #[trigger] rest.contains(c) implies before.contains(c)
        && c.connection_id != connection_id by {
        before.lemma_filter_contains_rev(test, c);
        let i = choose|i: int| 0 <= i < rest.len() && rest[i] == c;
        before.lemma_filter_pred(test, i);
    }
}

/// No user is kept with an empty list of connections.
pub open spec fn pruned(registry: Map<Id, Seq<Id>>) -> bool {
    forall|u: Id| #[trigger] registry.contains_key(u) ==> registry[u].len() > 0
}

/// A user's connections without `connection_id`: the filter keeps exactly
/// the others, and changes nothing where `connection_id` is not among them.
pub proof fn filter_keeps_others(connections: Seq<Id>, connection_id: Id)
    ensures
        !connections.filter(other_than(connection_id)).contains(connection_id),
        forall|c: Id|
            c != connection_id && connections.contains(c) ==> #[trigger] connections.filter(
                other_than(connection_id),
            ).contains(c),
        !connections.contains(connection_id) ==> connections.filter(other_than(connection_id))
            == connections,
    decreases connections.len(),
{
    let pred = other_than(connection_id);
    let rest = connections.filter(pred);
    if rest.contains(connection_id) {
        let i = choose|i: int| 0 <= i < rest.len() && rest[i] == connection_id;
        connections.lemma_filter_pred(pred, i);
    }
    assert forall|c: Id| c != connection_id && connections.contains(c) implies #[trigger]
        rest.contains(c) by {
        let i = choose|i: int| 0 <= i < connections.len() && connections[i] == c;
        connections.lemma_filter_contains(pred, i);
    }
    if !connections.contains(connection_id) && connections.len() > 0 {
        let front = connections.drop_last();
        let last = connections.last();
        assert(connections == front.push(last));
        assert(connections[connections.len() - 1] == last);
        assert forall|k: int| 0 <= k < front.len() implies front[k] != connection_id by {
            assert(connections[k] == front[k]);
        }
        filter_keeps_others(front, connection_id);
        front.lemma_filter_push(last, pred);
    }
    if connections.len() == 0 {
        reveal(Seq::filter);
    }
}

/// After two connections of one user register, both are among the
/// connections that a delivery to that user goes to, after the older ones.
pub proof fn two_registrations_both_served(registry: Map<Id, Seq<Id>>, user_id: Id, first: Id, second: Id)
    ensures
        connections_of(registered(registered(registry, user_id, first), user_id, second), user_id)
            == connections_of(registry, user_id).push(first).push(second),
        connections_of(
            registered(registered(registry, user_id, first), user_id, second),
            user_id,
        ).contains(first),
        connections_of(
            registered(registered(registry, user_id, first), user_id, second),
            user_id,
        ).contains(second),
{
    let both = connections_of(registry, user_id).push(first).push(second);
    assert(both[both.len() - 2] == first);
    assert(both[both.len() - 1] == second);
}

/// Unregistering one connection leaves every other connection of the user
/// where it was, and every other user untouched.
pub proof fn unregister_leaves_others(registry: Map<Id, Seq<Id>>, user_id: Id, connection_id: Id)
    ensures
        connections_of(unregistered(registry, user_id, connection_id), user_id) == connections_of(
            registry,
            user_id,
        ).filter(other_than(connection_id)),
        forall|c: Id|
            c != connection_id && connections_of(registry, user_id).contains(c)
                ==> #[trigger] connections_of(
                unregistered(registry, user_id, connection_id),
                user_id,
            ).contains(c),
        forall|u: Id|
            u != user_id ==> #[trigger] connections_of(
                unregistered(registry, user_id, connection_id),
                u,
            ) == connections_of(registry, u),
{
    let before = connections_of(registry, user_id);
    let rest = before.filter(other_than(connection_id));
    filter_keeps_others(before, connection_id);
    assert(connections_of(unregistered(registry, user_id, connection_id), user_id) == rest) by {
        reveal(Seq::filter);
    }
    assert forall|c: Id| c != connection_id && before.contains(c) implies #[trigger] rest.contains(
        c,
    ) by {}
}

/// Registering never touches another user, and keeps the registry free of
/// empty entries.
pub proof fn register_leaves_others(registry: Map<Id, Seq<Id>>, user_id: Id, connection_id: Id)
    ensures
        forall|u: Id|
            u != user_id ==> #[trigger] connections_of(registered(registry, user_id, connection_id), u)
                == connections_of(registry, u),
        pruned(registry) ==> pruned(registered(registry, user_id, connection_id)),
{
}

/// A user whose only connections are `connection_id` has no entry once it
/// is unregistered; in every case the registry stays free of empty entries.
pub proof fn last_connection_prunes_user(registry: Map<Id, Seq<Id>>, user_id: Id, connection_id: Id)
    ensures
        (forall|c: Id| connections_of(registry, user_id).contains(c) ==> c == connection_id)
            ==> !unregistered(registry, user_id, connection_id).contains_key(user_id),
        pruned(registry) ==> pruned(unregistered(registry, user_id, connection_id)),
{
    let connections = connections_of(registry, user_id);
    let rest = connections.filter(other_than(connection_id));
    filter_keeps_others(connections, connection_id);
    if forall|c: Id| connections.contains(c) ==> c == connection_id {
        if rest.len() > 0 {
            let c = rest[0];
            assert(rest.contains(c));
            connections.lemma_filter_contains_rev(other_than(connection_id), c);
            assert(false);
        }
    }
}

/// The number of connected users follows the sessions: a user's first
/// connection raises it by one and a further connection leaves it as it is;
/// the end of a user's last connection lowers it by one, and the end of
/// any other leaves it as it is.
pub proof fn user_count_follows_the_sessions(registry: Map<Id, Seq<Id>>, user_id: Id, connection_id: Id)
    requires
        registry.dom().finite(),
    ensures
        registered(registry, user_id, connection_id).dom().finite(),
        unregistered(registry, user_id, connection_id).dom().finite(),
        registered(registry, user_id, connection_id).dom().len() == if registry.contains_key(
            user_id,
        ) {
            registry.dom().len()
        } else {
            registry.dom().len() + 1
        },
        unregistered(registry, user_id, connection_id).dom().len() == if registry.contains_key(
            user_id,
        ) && !unregistered(registry, user_id, connection_id).contains_key(user_id) {
            (registry.dom().len() - 1) as nat
        } else {
            registry.dom().len()
        },
        registry.contains_key(user_id) && (forall|c: Id|
            connections_of(registry, user_id).contains(c) ==> c == connection_id) ==> unregistered(
            registry,
            user_id,
            connection_id,
        ).dom().len() == registry.dom().len() - 1,
{
    let more = registered(registry, user_id, connection_id);
    let fewer = unregistered(registry, user_id, connection_id);
    assert(more.dom() =~= registry.dom().insert(user_id));
    if registry.contains_key(user_id) {
        let rest = registry[user_id].filter(other_than(connection_id));
        if rest.len() == 0 {
            assert(fewer.dom() =~= registry.dom().remove(user_id));
        } else {
            assert(fewer.dom() =~= registry.dom());
        }
    } else {
        assert(fewer.dom() =~= registry.dom());
    }
    last_connection_prunes_user(registry, user_id, connection_id);
}

/// A session that comes and goes leaves no trace: registering a connection
/// that the user does not have yet and unregistering it again gives the
/// registry back as it was.
pub proof fn churn_leaves_no_trace(registry: Map<Id, Seq<Id>>, user_id: Id, connection_id: Id)
    requires
        pruned(registry),
        !connections_of(registry, user_id).contains(connection_id),
    ensures
        unregistered(registered(registry, user_id, connection_id), user_id, connection_id)
            == registry,
{
    let before = connections_of(registry, user_id);
    let pred = other_than(connection_id);
    filter_keeps_others(before, connection_id);
    before.lemma_filter_push(connection_id, pred);
    assert(before.push(connection_id).filter(pred) == before);
    let after = unregistered(registered(registry, user_id, connection_id), user_id, connection_id);
    assert(after =~= registry);
}

/// Who is connected: for each user with at least one live session, that
/// user's connections.
pub struct ConnectionManager {
    connections: HashMap<Id, Vec<UserConnection>>,
}

/// What became of one attempt to hand an event to a connection.
#[derive(Debug, Clone, Copy, PartialEq, Eq, Structural)]
pub struct Delivery {
    pub connection_id: Id,
    pub accepted: bool,
}

/// The connections that a list of attempts went to, in order.
pub open spec fn attempted(deliveries: Seq<Delivery>) -> Seq<Id> {
    deliveries.map_values(|d: Delivery| d.connection_id)
}

impl ConnectionManager {
    /// The registry in full: for each connected user that user's sessions,
    /// oldest first, each with its identifier and its channel.
    pub closed spec fn sessions(&self) -> Map<Id, Seq<UserConnection>> {
        Map::new(|u: Id| self.connections@.contains_key(u), |u: Id| self.connections@[u]@)
    }

    /// The registry as a map from each connected user to the identifiers of
    /// that user's sessions, oldest first.
    pub open spec fn view(&self) -> Map<Id, Seq<Id>> {
        session_ids(self.sessions())
    }

    /// The registry holds finitely many users and keeps none of them
    /// without a connection.
    pub open spec fn well_formed(&self) -> bool {
        pruned(self@) && self@.dom().finite()
    }

    /// An empty registry.
    pub fn new() -> (manager: Self)
        ensures
            manager.sessions() == Map::<Id, Seq<UserConnection>>::empty(),
            manager@ == Map::<Id, Seq<Id>>::empty(),
            manager.well_formed(),
    {
        let manager = ConnectionManager { connections: HashMap::new() };
        assert(manager.sessions() =~= Map::<Id, Seq<UserConnection>>::empty());
        assert(manager@ =~= Map::<Id, Seq<Id>>::empty());
        assert(manager@.dom() =~= manager.connections@.dom());
        manager
    }

    /// Adds a connection of `user_id`, with the channel it comes with, after
    /// the ones the user already has.
    pub fn register(&mut self, user_id: Id, connection: UserConnection)
        requires
            old(self).well_formed(),
        ensures
            final(self).sessions() == with_session(old(self).sessions(), user_id, connection),
            final(self)@ == registered(old(self)@, user_id, connection.connection_id),
            final(self).well_formed(),
    {
        let ghost before = self@;
        let ghost sessions_before = self.sessions();
        let mut list = match self.connections.remove(&user_id) {
            Some(list) => list,
            None => Vec::new(),
        };
        assert(connection_ids(list@) == connections_of(before, user_id));
        let ghost shorter = list@;
        list.push(connection);
        assert(connection_ids(list@) == connection_ids(shorter).push(connection.connection_id));
        self.connections.insert(user_id, list);
        assert(self.sessions() =~= with_session(sessions_before, user_id, connection));
        assert(self@ =~= registered(before, user_id, connection.connection_id));
        assert(self@.dom() =~= self.connections@.dom());
    }

    /// Removes the connection `connection_id` of `user_id`. Every other
    /// connection stays as it is, with its own channel. A user left without
    /// connections loses its entry.
    pub fn unregister(&mut self, user_id: Id, connection_id: Id)
        requires
            old(self).well_formed(),
        ensures
            final(self).sessions() == without_session(old(self).sessions(), user_id, connection_id),
            final(self)@ == unregistered(old(self)@, user_id, connection_id),
            final(self).well_formed(),
    {
        let ghost before = self@;
        let ghost sessions_before = self.sessions();
        match self.connections.remove(&user_id) {
            None => {
                assert(self.sessions() =~= sessions_before);
                assert(self@ =~= before);
                assert(self@.dom() =~= self.connections@.dom());
            },
            Some(list) => {
                let ghost all = list@;
                let mut kept: Vec<UserConnection> = Vec::new();
                for connection in it: list
                    invariant
                        it.seq() == all,
                        kept@ == all.take(it.index() as int).filter(not_session(connection_id)),
                        connection_ids(kept@) == connection_ids(all.take(it.index() as int)).filter(
                            other_than(connection_id),
                        ),
                {
                    proof {
                        let i = it.index() as int;
                        assert(all.take(i + 1) == all.take(i).push(all[i]));
                        all.take(i).lemma_filter_push(all[i], not_session(connection_id));
                        assert(connection_ids(all.take(i + 1)) == connection_ids(all.take(i)).push(
                            all[i].connection_id,
                        ));
                        connection_ids(all.take(i)).lemma_filter_push(
                            all[i].connection_id,
                            other_than(connection_id),
                        );
                    }
                    if connection.connection_id != connection_id {
                        kept.push(connection);
                    }
                }
                assert(all.take(all.len() as int) == all);
                if kept.len() > 0 {
                    self.connections.insert(user_id, kept);
                }
                assert(self.sessions() =~= without_session(
                    sessions_before,
                    user_id,
                    connection_id,
                ));
                assert(self@ =~= unregistered(before, user_id, connection_id));
                assert(self@.dom() =~= self.connections@.dom());
            },
        }
    }

    /// Hands a copy of `event` to every connection of `user_id`, oldest
    /// first, and reports each attempt. A connection whose channel refuses
    /// the event does not stop the others.
    pub fn deliver(&self, user_id: Id, event: &ChatResponse) -> (deliveries: Vec<Delivery>)
        ensures
            attempted(deliveries@) == connections_of(self@, user_id),
    {
        self.deliver_matching(user_id, None, event)
    }

    /// Hands a copy of `event` to the connection `connection_id` of
    /// `user_id` and to no other, and reports the attempt. Nothing is done
    /// where the user has no such connection.
    pub fn deliver_to_connection(&self, user_id: Id, connection_id: Id, event: &ChatResponse) -> (deliveries:
        Vec<Delivery>)
        ensures
            attempted(deliveries@) == targets(self@, user_id, Some(connection_id)),
            forall|i: int| 0 <= i < deliveries@.len() ==> deliveries@[i].connection_id == connection_id,
    {
        let deliveries = self.deliver_matching(user_id, Some(connection_id), event);
        proof {
            assert forall|i: int| 0 <= i < deliveries@.len() implies deliveries@[i].connection_id
                == connection_id by {
                connections_of(self@, user_id).lemma_filter_pred(only_this(connection_id), i);
                assert(attempted(deliveries@)[i] == deliveries@[i].connection_id);
            }
        }
        deliveries
    }

    /// Hands a copy of `event` to the connections of `user_id` that
    /// `only_connection` lets through, oldest first, and reports each attempt.
    pub fn deliver_matching(&self, user_id: Id, only_connection: Option<Id>, event: &ChatResponse) -> (deliveries:
        Vec<Delivery>)
        ensures
            attempted(deliveries@) == targets(self@, user_id, only_connection),
    {
        let mut deliveries: Vec<Delivery> = Vec::new();
        match self.connections.get(&user_id) {
            None => {
                proof {
                    reveal(Seq::filter);
                }
                assert(attempted(deliveries@) == targets(self@, user_id, only_connection));
            },
            Some(list) => {
                let ghost ids = connection_ids(list@);
                let mut i: usize = 0;
                proof {
                    reveal(Seq::filter);
                    assert(ids.take(0) == Seq::<Id>::empty());
                }
                while i < list.len()
                    invariant
                        i <= list.len(),
                        ids == connection_ids(list@),
                        attempted(deliveries@) == match only_connection {
                            None => ids.take(i as int),
                            Some(c) => ids.take(i as int).filter(only_this(c)),
                        },
                    decreases list.len() - i,
                {
                    let wanted = match only_connection {
                        None => true,
                        Some(c) => list[i].connection_id == c,
                    };
                    proof {
                        assert(ids.take(i + 1) == ids.take(i as int).push(ids[i as int]));
                        assert(ids[i as int] == list@[i as int].connection_id);
                        if let Some(c) = only_connection {
                            ids.take(i as int).lemma_filter_push(ids[i as int], only_this(c));
                        }
                    }
                    if wanted {
                        let accepted = push_event(&list[i].sender, event.clone());
                        let ghost earlier = deliveries@;
                        deliveries.push(Delivery { connection_id: list[i].connection_id, accepted });
                        assert(attempted(deliveries@) == attempted(earlier).push(
                            list@[i as int].connection_id,
                        ));
                    }
                    i += 1;
                }
                assert(ids.take(list.len() as int) == ids);
            },
        }
        deliveries
    }

    /// Whether `user_id` has any live connection.
    pub fn is_connected(&self, user_id: Id) -> (connected: bool)
        ensures
            connected == self@.contains_key(user_id),
    {
        self.connections.contains_key(&user_id)
    }

    /// How many live connections `user_id` has.
    pub fn connection_count(&self, user_id: Id) -> (count: usize)
        ensures
            count == connections_of(self@, user_id).len(),
    {
        match self.connections.get(&user_id) {
            None => 0,
            Some(list) => list.len(),
        }
    }

    /// How many users have at least one live connection.
    pub fn user_count(&self) -> (count: usize)
        ensures
            count == self@.dom().len(),
    {
        assert(self@.dom() =~= self.connections@.dom());
        self.connections.len()
    }
}

/// Whether a socket may be opened at second `now` for the token that came
/// with the request: the token where it decoded and has not expired, else
/// the status of the refusal.
pub open spec fn admit_socket_spec(decoded: Option<AccessToken>, now: u64) -> Result<AccessToken, u16> {
    match decoded {
        Some(token) => if token.valid_at(now) {
            Ok(token)
        } else {
            Err(STATUS_UNAUTHORIZED)
        },
        None => Err(STATUS_UNAUTHORIZED),
    }
}

/// Decides at second `now` whether a socket may be opened for the token
/// that came with the request.
pub fn admit_socket_at(decoded: Option<AccessToken>, now: u64) -> (admission: Result<AccessToken, u16>)
    ensures
        admission == admit_socket_spec(decoded, now),
{
    match decoded {
        Some(token) => if token.is_valid_at(now) {
            Ok(token)
        } else {
            Err(STATUS_UNAUTHORIZED)
        },
        None => Err(STATUS_UNAUTHORIZED),
    }
}

/// Whether a socket may be opened now for the token that came with the
/// request. Without a token that decodes there is none, whatever the time.
pub fn admit_socket(decoded: Option<AccessToken>) -> (admission: Result<AccessToken, u16>)
    ensures
        exists|now: u64| admission == #[trigger] admit_socket_spec(decoded, now),
        decoded is None ==> admission == Err::<AccessToken, u16>(STATUS_UNAUTHORIZED),
{
    let now = now_seconds();
    let admission = admit_socket_at(decoded, now);
    assert(admission == admit_socket_spec(decoded, now));
    admission
}

/// Registers a new connection of `user_id` under a fresh identifier and
/// returns the identifier.
pub fn open_connection(manager: &mut ConnectionManager, user_id: Id, sender: UnboundedSender<ChatResponse>) -> (connection_id:
    Id)
    requires
        old(manager).well_formed(),
    ensures
        is_random_id(connection_id),
        final(manager).sessions() == with_session(
            old(manager).sessions(),
            user_id,
            UserConnection { connection_id, sender },
        ),
        final(manager)@ == registered(old(manager)@, user_id, connection_id),
        final(manager).well_formed(),
{
    let connection_id = fresh_id();
    manager.register(user_id, UserConnection { connection_id, sender });
    connection_id
}

/// Forgets a connection when its session ends.
pub fn close_connection(manager: &mut ConnectionManager, user_id: Id, connection_id: Id)
    requires
        old(manager).well_formed(),
    ensures
        final(manager).sessions() == without_session(
            old(manager).sessions(),
            user_id,
            connection_id,
        ),
        final(manager)@ == unregistered(old(manager)@, user_id, connection_id),
        final(manager).well_formed(),
{
    manager.unregister(user_id, connection_id);
}

/// A registry with nobody connected.
pub fn create_connection_manager() -> (manager: ConnectionManager)
    ensures
        manager@ == Map::<Id, Seq<Id>>::empty(),
        manager.well_formed(),
{
    ConnectionManager::new()
}

} // verus!
