//! The in-memory registry of websocket connections of one instance: which
//! user each connection belongs to, and which channels and threads each one
//! listens to. It decides who an event is delivered to; the caller sends.
use vstd::prelude::*;
use std::collections::{HashMap, HashSet};
use std::time::Instant;
use crate::index::{
    add_member, index_insert, index_remove, index_remove_reporting, index_view, members_of,
    remove_member,
};
use crate::platform::{instant_now, new_uuid_v4};

verus! {

broadcast use vstd::std_specs::hash::group_hash_axioms;

/// What the hub knows of one connection.
pub struct ConnectionView {
    pub user_id: u128,
    pub channels: Set<u128>,
    pub threads: Set<u128>,
}

/// The abstract state of the hub.
pub struct HubView {
    pub connections: Map<u128, ConnectionView>,
    pub user_connections: Map<u128, Set<u128>>,
    pub channel_subscribers: Map<u128, Set<u128>>,
    pub thread_subscribers: Map<u128, Set<u128>>,
}

impl HubView {
    /// The hub with no connection.
    pub open spec fn empty() -> HubView {
        HubView {
            connections: Map::empty(),
            user_connections: Map::empty(),
            channel_subscribers: Map::empty(),
            thread_subscribers: Map::empty(),
        }
    }

    /// The indexes cover the connections: each registered connection is in
    /// its user's set and in the set of every channel and thread it is
    /// subscribed to, and no set is empty. The sets may also hold ids that are
    /// not registered (or not subscribed any more): subscribing an unknown id
    /// records it, and registering a taken id replaces the connection while
    /// its old entries stay.
    pub open spec fn wf(self) -> bool {
        &&& forall|c: u128| #[trigger]
            self.connections.contains_key(c) ==> self.user_connections.contains_key(
                self.connections[c].user_id,
            ) && self.user_connections[self.connections[c].user_id].contains(c)
        &&& forall|u: u128| #[trigger]
            self.user_connections.contains_key(u) ==> !self.user_connections[u].is_empty()
        &&& forall|c: u128, ch: u128|
            self.connections.contains_key(c) && #[trigger] self.connections[c].channels.contains(
                ch,
            ) ==> self.channel_subscribers.contains_key(ch) && self.channel_subscribers[ch].contains(
                c,
            )
        &&& forall|ch: u128| #[trigger]
            self.channel_subscribers.contains_key(ch) ==> !self.channel_subscribers[ch].is_empty()
        &&& forall|c: u128, t: u128|
            self.connections.contains_key(c) && #[trigger] self.connections[c].threads.contains(t)
                ==> self.thread_subscribers.contains_key(t) && self.thread_subscribers[t].contains(c)
        &&& forall|t: u128| #[trigger]
            self.thread_subscribers.contains_key(t) ==> !self.thread_subscribers[t].is_empty()
    }

    /// A hub without stale entries: besides `wf`, each user's set holds only
    /// that user's registered connections, and each channel's (thread's) set
    /// only the registered connections subscribed to it. Every hub built by
    /// registering fresh ids and subscribing registered connections is so.
    pub open spec fn consistent(self) -> bool {
        &&& self.wf()
        &&& forall|u: u128, c: u128|
            self.user_connections.contains_key(u) && #[trigger] self.user_connections[u].contains(
                c,
            ) ==> self.connections.contains_key(c) && self.connections[c].user_id == u
        &&& forall|ch: u128, c: u128|
            self.channel_subscribers.contains_key(ch) && #[trigger] self.channel_subscribers[ch].contains(
                c,
            ) ==> self.connections.contains_key(c) && self.connections[c].channels.contains(ch)
        &&& forall|t: u128, c: u128|
            self.thread_subscribers.contains_key(t) && #[trigger] self.thread_subscribers[t].contains(
                c,
            ) ==> self.connections.contains_key(c) && self.connections[c].threads.contains(t)
    }

    /// Registering connection `c` of user `u`; a connection already
    /// registered under `c` is replaced.
    pub open spec fn register(self, u: u128, c: u128) -> HubView {
        HubView {
            connections: self.connections.insert(
                c,
                ConnectionView { user_id: u, channels: Set::empty(), threads: Set::empty() },
            ),
            user_connections: add_member(self.user_connections, u, c),
            ..self
        }
    }

    /// Once `c` is added, it is the only connection in the set of user `u`.
    pub open spec fn is_first_connection(self, u: u128, c: u128) -> bool {
        add_member(self.user_connections, u, c)[u] == Set::<u128>::empty().insert(c)
    }

    /// Unregistering connection `c`: it leaves its user's set and the sets
    /// of the channels and threads it is subscribed to.
    pub open spec fn unregister(self, c: u128) -> HubView {
        if self.connections.contains_key(c) {
            HubView {
                connections: self.connections.remove(c),
                user_connections: remove_member(
                    self.user_connections,
                    self.connections[c].user_id,
                    c,
                ),
                channel_subscribers: partially_without(
                    self.channel_subscribers,
                    c,
                    self.connections[c].channels,
                ),
                thread_subscribers: partially_without(
                    self.thread_subscribers,
                    c,
                    self.connections[c].threads,
                ),
            }
        } else {
            self
        }
    }

    /// Connection `c` is the last one of its user.
    pub open spec fn is_last_connection(self, c: u128) -> bool {
        self.user_connections[self.connections[c].user_id].remove(c).is_empty()
    }

    /// Subscribing connection `c` to channel `ch`: `c` joins the channel's
    /// set, and a registered connection records the channel.
    pub open spec fn subscribe_channel(self, c: u128, ch: u128) -> HubView {
        HubView {
            connections: if self.connections.contains_key(c) {
                self.connections.insert(
                    c,
                    ConnectionView {
                        channels: self.connections[c].channels.insert(ch),
                        ..self.connections[c]
                    },
                )
            } else {
                self.connections
            },
            channel_subscribers: add_member(self.channel_subscribers, ch, c),
            ..self
        }
    }

    /// Unsubscribing connection `c` from channel `ch`.
    pub open spec fn unsubscribe_channel(self, c: u128, ch: u128) -> HubView {
        HubView {
            connections: if self.connections.contains_key(c) {
                self.connections.insert(
                    c,
                    ConnectionView {
                        channels: self.connections[c].channels.remove(ch),
                        ..self.connections[c]
                    },
                )
            } else {
                self.connections
            },
            channel_subscribers: remove_member(self.channel_subscribers, ch, c),
            ..self
        }
    }

    /// Subscribing connection `c` to thread `t`: `c` joins the thread's set,
    /// and a registered connection records the thread.
    pub open spec fn subscribe_thread(self, c: u128, t: u128) -> HubView {
        HubView {
            connections: if self.connections.contains_key(c) {
                self.connections.insert(
                    c,
                    ConnectionView {
                        threads: self.connections[c].threads.insert(t),
                        ..self.connections[c]
                    },
                )
            } else {
                self.connections
            },
            thread_subscribers: add_member(self.thread_subscribers, t, c),
            ..self
        }
    }

    /// Unsubscribing connection `c` from thread `t`.
    pub open spec fn unsubscribe_thread(self, c: u128, t: u128) -> HubView {
        HubView {
            connections: if self.connections.contains_key(c) {
                self.connections.insert(
                    c,
                    ConnectionView {
                        threads: self.connections[c].threads.remove(t),
                        ..self.connections[c]
                    },
                )
            } else {
                self.connections
            },
            thread_subscribers: remove_member(self.thread_subscribers, t, c),
            ..self
        }
    }

    /// The registered connections that an event of `index[key]` goes to.
    pub open spec fn registered_in(self, index: Map<u128, Set<u128>>, key: u128) -> Set<u128> {
        if index.contains_key(key) {
            index[key].filter(|c: u128| self.connections.contains_key(c))
        } else {
            Set::empty()
        }
    }

    /// The connections that an event of channel `ch` is delivered to.
    pub open spec fn channel_recipients(self, ch: u128) -> Set<u128> {
        self.registered_in(self.channel_subscribers, ch)
    }

    /// The connections that an event of thread `t` is delivered to.
    pub open spec fn thread_recipients(self, t: u128) -> Set<u128> {
        self.registered_in(self.thread_subscribers, t)
    }

    /// The connections that an event for user `u` is delivered to.
    pub open spec fn user_recipients(self, u: u128) -> Set<u128> {
        self.registered_in(self.user_connections, u)
    }
}

/// The outcome of registering a connection.
pub struct RegisterResult {
    pub connection_id: u128,
    /// The user had no other connection (the user comes online).
    pub first_connection: bool,
}

/// The outcome of unregistering a connection.
pub struct UnregisterResult {
    pub user_id: u128,
    /// The connection was the user's last (the user goes offline).
    pub became_offline: bool,
}

struct ConnectionState<S> {
    user_id: u128,
    sender: S,
    subscribed_channels: HashSet<u128>,
    subscribed_threads: HashSet<u128>,
    last_heartbeat: Instant,
    /// How many heartbeats the connection has recorded since it was
    /// registered; each one refreshes `last_heartbeat`.
    heartbeats: Ghost<nat>,
}

impl<S> ConnectionState<S> {
    closed spec fn view_conn(self) -> ConnectionView {
        ConnectionView {
            user_id: self.user_id,
            channels: self.subscribed_channels@,
            threads: self.subscribed_threads@,
        }
    }
}

/// In-memory websocket hub for the subscribers of this instance; `S` is the
/// outbound sender of a connection.
pub struct GatewayHub<S> {
    connections: HashMap<u128, ConnectionState<S>>,
    user_connections: HashMap<u128, HashSet<u128>>,
    channel_subscribers: HashMap<u128, HashSet<u128>>,
    thread_subscribers: HashMap<u128, HashSet<u128>>,
}

impl<S> View for GatewayHub<S> {
    type V = HubView;

    closed spec fn view(&self) -> HubView {
        HubView {
            connections: self.connections@.map_values(|cs: ConnectionState<S>| cs.view_conn()),
            user_connections: index_view(self.user_connections@),
            channel_subscribers: index_view(self.channel_subscribers@),
            thread_subscribers: index_view(self.thread_subscribers@),
        }
    }
}

impl<S> GatewayHub<S> {
    /// How many heartbeats connection `connection_id` has recorded since it
    /// was registered.
    pub closed spec fn heartbeat_count(&self, connection_id: u128) -> nat {
        self.connections@[connection_id].heartbeats@
    }

    /// The outbound sender registered with connection `connection_id`.
    pub closed spec fn sender(&self, connection_id: u128) -> S {
        self.connections@[connection_id].sender
    }

    /// Every connection registered in `old` other than `except` keeps its
    /// sender in `new`.
    pub open spec fn keeps_senders(old: &Self, new: &Self, except: Option<u128>) -> bool {
        forall|c: u128|
            old@.connections.contains_key(c) && except != Some(c) ==> #[trigger] new.sender(c) == old.sender(c)
    }

    /// Creates an empty hub.
    pub fn new() -> (h: Self)
        ensures
            h@ == HubView::empty(),
            h@.wf(),
    {
        let h = GatewayHub {
            connections: HashMap::new(),
            user_connections: HashMap::new(),
            channel_subscribers: HashMap::new(),
            thread_subscribers: HashMap::new(),
        };
        proof {
            assert(h@.connections =~= Map::empty());
            assert(h@.user_connections =~= Map::empty());
            assert(h@.channel_subscribers =~= Map::empty());
            assert(h@.thread_subscribers =~= Map::empty());
        }
        h
    }

    /// Registers connection `connection_id` of `user_id`. A connection
    /// already registered under that id is replaced; its old index entries
    /// stay.
    pub fn register_connection(&mut self, user_id: u128, connection_id: u128, sender: S) -> (r:
        RegisterResult)
        requires
            old(self)@.wf(),
        ensures
            final(self)@.wf(),
            r.connection_id == connection_id,
            r.first_connection == old(self)@.is_first_connection(user_id, connection_id),
            final(self)@ == old(self)@.register(user_id, connection_id),
            final(self).heartbeat_count(connection_id) == 0,
            final(self).sender(connection_id) == sender,
            Self::keeps_senders(old(self), final(self), Some(connection_id)),
    {
        let first_connection = self.only_member(user_id, connection_id);
        let state = ConnectionState {
            user_id,
            sender,
            subscribed_channels: HashSet::new(),
            subscribed_threads: HashSet::new(),
            last_heartbeat: instant_now(),
            heartbeats: Ghost(0),
        };
        self.connections.insert(connection_id, state);
        index_insert(&mut self.user_connections, user_id, connection_id);
        proof {
            let old_v = old(self)@;
            assert(self@.connections =~= old_v.register(user_id, connection_id).connections);
            assert(self@ == old_v.register(user_id, connection_id));
            lemma_register_wf(old_v, user_id, connection_id);
        }
        RegisterResult { connection_id, first_connection }
    }

    /// Whether `c` would be the only connection of user `u` once added.
    fn only_member(&self, u: u128, c: u128) -> (b: bool)
        ensures
            b == self@.is_first_connection(u, c),
    {
        let members = members_of(&self.user_connections, u);
        let mut only = true;
        let mut i: usize = 0;
        while i < members.len()
            invariant
                i <= members.len(),
                only == (forall|j: int| 0 <= j < i ==> members@[j] == c),
            decreases members.len() - i,
        {
            if members[i] != c {
                only = false;
            }
            i = i + 1;
        }
        proof {
            let m = self@.user_connections;
            let target = Set::<u128>::empty().insert(c);
            if m.contains_key(u) {
                let set = m[u];
                assert(members@.to_set() == set);
                if only {
                    assert forall|x: u128| #[trigger] set.contains(x) implies x == c by {
                        assert(members@.to_set().contains(x));
                        let j = choose|j: int| 0 <= j < members@.len() && members@[j] == x;
                    }
                    assert(set.insert(c) =~= target);
                } else {
                    let j = choose|j: int| 0 <= j < members@.len() && members@[j] != c;
                    assert(members@.to_set().contains(members@[j]));
                    assert(set.insert(c).contains(members@[j]));
                    assert(!target.contains(members@[j]));
                }
            } else {
                assert(Set::<u128>::empty().insert(c) =~= target);
            }
        }
        only
    }

    /// Registers a connection of `user_id` under a fresh random id; should
    /// the id be taken, that connection is replaced.
    pub fn register(&mut self, user_id: u128, sender: S) -> (r: RegisterResult)
        requires
            old(self)@.wf(),
        ensures
            final(self)@.wf(),
            r.first_connection == old(self)@.is_first_connection(user_id, r.connection_id),
            final(self)@ == old(self)@.register(user_id, r.connection_id),
            final(self).sender(r.connection_id) == sender,
            Self::keeps_senders(old(self), final(self), Some(r.connection_id)),
    {
        let connection_id = new_uuid_v4();
        self.register_connection(user_id, connection_id, sender)
    }

    /// Unregisters connection `connection_id`, taking it out of its user's
    /// set and of the sets of the channels and threads it is subscribed to;
    /// `None` for an unknown connection.
    pub fn unregister(&mut self, connection_id: u128) -> (r: Option<UnregisterResult>)
        requires
            old(self)@.wf(),
        ensures
            final(self)@.wf(),
            final(self)@ == old(self)@.unregister(connection_id),
            Self::keeps_senders(old(self), final(self), Some(connection_id)),
            !old(self)@.connections.contains_key(connection_id) ==> r is None,
            old(self)@.connections.contains_key(connection_id) ==> (r matches Some(res) && {
                &&& res.user_id == old(self)@.connections[connection_id].user_id
                &&& res.became_offline == old(self)@.is_last_connection(connection_id)
            }),
    {
        let ghost old_v = self@;
        let conn = match self.connections.remove(&connection_id) {
            Some(conn) => conn,
            None => {
                proof {
                    assert(self.connections@ =~= old(self).connections@);
                }
                return None;
            },
        };
        proof {
            assert(old_v.connections[connection_id] == conn.view_conn());
        }
        self.detach_channels(&conn.subscribed_channels, connection_id);
        self.detach_threads(&conn.subscribed_threads, connection_id);
        let user_id = conn.user_id;
        let became_offline = index_remove_reporting(&mut self.user_connections, user_id, connection_id);
        proof {
            assert(self@.connections =~= old_v.connections.remove(connection_id));
            lemma_unregister_wf(old_v, connection_id);
        }
        Some(UnregisterResult { user_id, became_offline })
    }

    /// Subscribes connection to channel-scoped events.
    ///
    /// # Parameters
    /// - `connection_id`: Registered connection id.
    /// - `channel_id`: Channel id to subscribe.
    pub fn subscribe_channel(&mut self, connection_id: u128, channel_id: u128)
        requires
            old(self)@.wf(),
        ensures
            final(self)@.wf(),
            final(self)@ == old(self)@.subscribe_channel(connection_id, channel_id),
            Self::keeps_senders(old(self), final(self), None),
    {
        match self.connections.remove(&connection_id) {
            Some(mut conn) => {
                conn.subscribed_channels.insert(channel_id);
                self.connections.insert(connection_id, conn);
            },
            None => {},
        }
        index_insert(&mut self.channel_subscribers, channel_id, connection_id);
        proof {
            let o = old(self)@;
            assert(self@.connections =~= o.subscribe_channel(connection_id, channel_id).connections);
            lemma_subscribe_channel_wf(o, connection_id, channel_id);
        }
    }

    /// Unsubscribes connection from channel-scoped events.
    ///
    /// # Parameters
    /// - `connection_id`: Registered connection id.
    /// - `channel_id`: Channel id to unsubscribe.
    pub fn unsubscribe_channel(&mut self, connection_id: u128, channel_id: u128)
        requires
            old(self)@.wf(),
        ensures
            final(self)@.wf(),
            final(self)@ == old(self)@.unsubscribe_channel(connection_id, channel_id),
            Self::keeps_senders(old(self), final(self), None),
    {
        match self.connections.remove(&connection_id) {
            Some(mut conn) => {
                conn.subscribed_channels.remove(&channel_id);
                self.connections.insert(connection_id, conn);
            },
            None => {},
        }
        index_remove(&mut self.channel_subscribers, channel_id, connection_id);
        proof {
            let o = old(self)@;
            assert(self@.connections =~= o.unsubscribe_channel(
                connection_id,
                channel_id,
            ).connections);
            lemma_unsubscribe_channel_wf(o, connection_id, channel_id);
        }
    }

    /// Subscribes connection to thread-scoped events.
    ///
    /// # Parameters
    /// - `connection_id`: Registered connection id.
    /// - `thread_id`: Thread id to subscribe.
    pub fn subscribe_thread(&mut self, connection_id: u128, thread_id: u128)
        requires
            old(self)@.wf(),
        ensures
            final(self)@.wf(),
            final(self)@ == old(self)@.subscribe_thread(connection_id, thread_id),
            Self::keeps_senders(old(self), final(self), None),
    {
        match self.connections.remove(&connection_id) {
            Some(mut conn) => {
                conn.subscribed_threads.insert(thread_id);
                self.connections.insert(connection_id, conn);
            },
            None => {},
        }
        index_insert(&mut self.thread_subscribers, thread_id, connection_id);
        proof {
            let o = old(self)@;
            assert(self@.connections =~= o.subscribe_thread(connection_id, thread_id).connections);
            lemma_subscribe_thread_wf(o, connection_id, thread_id);
        }
    }

    /// Unsubscribes connection from thread-scoped events.
    ///
    /// # Parameters
    /// - `connection_id`: Registered connection id.
    /// - `thread_id`: Thread id to unsubscribe.
    pub fn unsubscribe_thread(&mut self, connection_id: u128, thread_id: u128)
        requires
            old(self)@.wf(),
        ensures
            final(self)@.wf(),
            final(self)@ == old(self)@.unsubscribe_thread(connection_id, thread_id),
            Self::keeps_senders(old(self), final(self), None),
    {
        match self.connections.remove(&connection_id) {
            Some(mut conn) => {
                conn.subscribed_threads.remove(&thread_id);
                self.connections.insert(connection_id, conn);
            },
            None => {},
        }
        index_remove(&mut self.thread_subscribers, thread_id, connection_id);
        proof {
            let o = old(self)@;
            assert(self@.connections =~= o.unsubscribe_thread(
                connection_id,
                thread_id,
            ).connections);
            lemma_unsubscribe_thread_wf(o, connection_id, thread_id);
        }
    }

    /// Updates heartbeat timestamp for connection.
    ///
    /// # Parameters
    /// - `connection_id`: Registered connection id.
    pub fn touch_heartbeat(&mut self, connection_id: u128)
        requires
            old(self)@.wf(),
        ensures
            final(self)@ == old(self)@,
            Self::keeps_senders(old(self), final(self), None),
            old(self)@.connections.contains_key(connection_id) ==> final(self).heartbeat_count(connection_id)
                == old(self).heartbeat_count(connection_id) + 1,
            forall|c: u128| c != connection_id ==> #[trigger] final(self).heartbeat_count(c) == old(self).heartbeat_count(c),
            !old(self)@.connections.contains_key(connection_id) ==> final(self).heartbeat_count(connection_id)
                == old(self).heartbeat_count(connection_id),
    {
        match self.connections.remove(&connection_id) {
            Some(mut conn) => {
                conn.last_heartbeat = instant_now();
                conn.heartbeats = Ghost(conn.heartbeats@ + 1);
                self.connections.insert(connection_id, conn);
                proof {
                    assert(self@.connections =~= old(self)@.connections);
                }
            },
            None => {
                proof {
                    assert(self.connections@ =~= old(self).connections@);
                }
            },
        }
    }

    fn registered_only(&self, ids: Vec<u128>) -> (r: Vec<u128>)
        requires
            ids@.no_duplicates(),
        ensures
            r@.no_duplicates(),
            r@.to_set() == ids@.to_set().filter(|c: u128| self@.connections.contains_key(c)),
    {
        let mut out: Vec<u128> = Vec::new();
        let n = ids.len();
        let mut i: usize = 0;
        while i < n
            invariant
                n == ids@.len(),
                i <= n,
                ids@.no_duplicates(),
                out@.no_duplicates(),
                out@.to_set() == ids@.take(i as int).to_set().filter(
                    |c: u128| self@.connections.contains_key(c),
                ),
            decreases n - i,
        {
            let c = ids[i];
            proof {
                assert(ids@.take(i + 1) =~= ids@.take(i as int).push(c));
                ids@.take(i as int).lemma_push_to_set_commute(c);
                assert(!out@.contains(c)) by {
                    if out@.contains(c) {
                        assert(out@.to_set().contains(c));
                        let k = choose|k: int| 0 <= k < i && ids@.take(i as int)[k] == c;
                        assert(ids@[k] == ids@[i as int]);
                    }
                }
            }
            let ghost old_out = out@;
            let ghost prev = ids@.take(i as int).to_set();
            if self.connections.contains_key(&c) {
                out.push(c);
                proof {
                    old_out.lemma_push_to_set_commute(c);
                    assert(out@.to_set() =~= prev.insert(c).filter(
                        |x: u128| self@.connections.contains_key(x),
                    ));
                }
            } else {
                proof {
                    assert(out@.to_set() =~= prev.insert(c).filter(
                        |x: u128| self@.connections.contains_key(x),
                    ));
                }
            }
            i = i + 1;
        }
        proof {
            assert(ids@.take(n as int) =~= ids@);
        }
        out
    }

    /// The connections that an event of channel `channel_id` is delivered to.
    ///
    /// # Parameters
    /// - `channel_id`: Channel id used for subscription lookup.
    pub fn broadcast_to_channel(&self, channel_id: u128) -> (r: Vec<u128>)
        ensures
            r@.no_duplicates(),
            r@.to_set() == self@.channel_recipients(channel_id),
    {
        let members = members_of(&self.channel_subscribers, channel_id);
        let r = self.registered_only(members);
        proof {
            assert(r@.to_set() =~= self@.channel_recipients(channel_id));
        }
        r
    }

    /// The connections that an event of thread `thread_id` is delivered to.
    ///
    /// # Parameters
    /// - `thread_id`: Thread id used for subscription lookup.
    pub fn broadcast_to_thread(&self, thread_id: u128) -> (r: Vec<u128>)
        ensures
            r@.no_duplicates(),
            r@.to_set() == self@.thread_recipients(thread_id),
    {
        let members = members_of(&self.thread_subscribers, thread_id);
        let r = self.registered_only(members);
        proof {
            assert(r@.to_set() =~= self@.thread_recipients(thread_id));
        }
        r
    }

    /// The connections that an event for user `user_id` is delivered to.
    ///
    /// # Parameters
    /// - `user_id`: Target user id.
    pub fn broadcast_to_user(&self, user_id: u128) -> (r: Vec<u128>)
        ensures
            r@.no_duplicates(),
            r@.to_set() == self@.user_recipients(user_id),
    {
        let members = members_of(&self.user_connections, user_id);
        let r = self.registered_only(members);
        proof {
            assert(r@.to_set() =~= self@.user_recipients(user_id));
        }
        r
    }

    /// Every connection of this instance, each once.
    pub fn broadcast_global(&self) -> (r: Vec<u128>)
        ensures
            r@.no_duplicates(),
            r@.to_set() == self@.connections.dom(),
    {
        let mut out: Vec<u128> = Vec::new();
        for c in it: self.connections.keys()
            invariant
                it.seq().unref().to_set() == self.connections@.dom(),
                it.seq().unref().no_duplicates(),
                out@ == it.seq().unref().take(it.index() as int),
            ensures
                out@ == it.seq().unref(),
        {
            out.push(*c);
            proof {
                assert(out@ =~= it.seq().unref().take(it.index() + 1));
            }
        }
        proof {
            assert(self@.connections.dom() =~= self.connections@.dom());
        }
        out
    }

    /// The sender of a registered connection, which an event for it goes to.
    ///
    /// # Parameters
    /// - `connection_id`: Target connection id.
    pub fn send_to_connection(&self, connection_id: u128) -> (r: Option<&S>)
        ensures
            r is Some == self@.connections.contains_key(connection_id),
            r matches Some(sender) ==> *sender == self.sender(connection_id),
    {
        match self.connections.get(&connection_id) {
            Some(conn) => Some(&conn.sender),
            None => None,
        }
    }

    /// The number of registered connections.
    pub fn connection_count(&self) -> (n: usize)
        ensures
            n == self@.connections.len(),
    {
        proof {
            assert(self@.connections.dom() =~= self.connections@.dom());
        }
        self.connections.len()
    }

    /// Drops every connection and subscription.
    pub fn shutdown_all(&mut self)
        ensures
            final(self)@ == HubView::empty(),
            final(self)@.wf(),
    {
        self.connections.clear();
        self.user_connections.clear();
        self.channel_subscribers.clear();
        self.thread_subscribers.clear();
        proof {
            assert(self@.connections =~= Map::empty());
            assert(self@.user_connections =~= Map::empty());
            assert(self@.channel_subscribers =~= Map::empty());
            assert(self@.thread_subscribers =~= Map::empty());
        }
    }

    fn detach_channels(&mut self, channels: &HashSet<u128>, c: u128)
        ensures
            final(self).connections@ == old(self).connections@,
            final(self).user_connections@ == old(self).user_connections@,
            final(self).thread_subscribers@ == old(self).thread_subscribers@,
            index_view(final(self).channel_subscribers@) == partially_without(
                index_view(old(self).channel_subscribers@),
                c,
                channels@,
            ),
    {
        let ghost orig = index_view(self.channel_subscribers@);
        let ghost mut done_seq: Seq<u128> = Seq::empty();
        for ch in it: channels.iter()
            invariant
                it.seq().unref().to_set() == channels@,
                it.seq().unref().no_duplicates(),
                self.connections@ == old(self).connections@,
                self.user_connections@ == old(self).user_connections@,
                self.thread_subscribers@ == old(self).thread_subscribers@,
                orig == index_view(old(self).channel_subscribers@),
                done_seq == it.seq().unref().take(it.index() as int),
                index_view(self.channel_subscribers@) == partially_without(orig, c, done_seq.to_set()),
            ensures
                index_view(self.channel_subscribers@) == partially_without(orig, c, done_seq.to_set()),
                done_seq == it.seq().unref(),
        {
            let ghost done = it.seq().unref().take(it.index() as int);
            let ghost key = *ch;
            index_remove(&mut self.channel_subscribers, *ch, c);
            proof {
                let s = it.seq().unref();
                assert(s.take(it.index() + 1) =~= done.push(key));
                assert(!done.contains(key)) by {
                    if done.contains(key) {
                        let k = choose|k: int| 0 <= k < done.len() && done[k] == key;
                        assert(s[k] == s[it.index() as int]);
                    }
                }
                done.lemma_push_to_set_commute(key);
                lemma_partially_without_step(orig, c, done.to_set(), key);
                done_seq = done_seq.push(key);
            }
        }
        proof {
            assert(done_seq.to_set() == channels@);
        }
    }

    fn detach_threads(&mut self, threads: &HashSet<u128>, c: u128)
        ensures
            final(self).connections@ == old(self).connections@,
            final(self).user_connections@ == old(self).user_connections@,
            final(self).channel_subscribers@ == old(self).channel_subscribers@,
            index_view(final(self).thread_subscribers@) == partially_without(
                index_view(old(self).thread_subscribers@),
                c,
                threads@,
            ),
    {
        let ghost orig = index_view(self.thread_subscribers@);
        let ghost mut done_seq: Seq<u128> = Seq::empty();
        for t in it: threads.iter()
            invariant
                it.seq().unref().to_set() == threads@,
                it.seq().unref().no_duplicates(),
                self.connections@ == old(self).connections@,
                self.user_connections@ == old(self).user_connections@,
                self.channel_subscribers@ == old(self).channel_subscribers@,
                orig == index_view(old(self).thread_subscribers@),
                done_seq == it.seq().unref().take(it.index() as int),
                index_view(self.thread_subscribers@) == partially_without(orig, c, done_seq.to_set()),
            ensures
                index_view(self.thread_subscribers@) == partially_without(orig, c, done_seq.to_set()),
                done_seq == it.seq().unref(),
        {
            let ghost done = it.seq().unref().take(it.index() as int);
            let ghost key = *t;
            index_remove(&mut self.thread_subscribers, *t, c);
            proof {
                let s = it.seq().unref();
                assert(s.take(it.index() + 1) =~= done.push(key));
                assert(!done.contains(key)) by {
                    if done.contains(key) {
                        let k = choose|k: int| 0 <= k < done.len() && done[k] == key;
                        assert(s[k] == s[it.index() as int]);
                    }
                }
                done.lemma_push_to_set_commute(key);
                lemma_partially_without_step(orig, c, done.to_set(), key);
                done_seq = done_seq.push(key);
            }
        }
        proof {
            assert(done_seq.to_set() == threads@);
        }
    }
}

/// `m` with `member` removed from the sets of the keys in `done`, dropping
/// the sets that become empty.
pub open spec fn partially_without(m: Map<u128, Set<u128>>, member: u128, done: Set<u128>) -> Map<
    u128,
    Set<u128>,
> {
    Map::new(
        |k: u128| m.contains_key(k) && !(done.contains(k) && m[k].remove(member).is_empty()),
        |k: u128|
            if done.contains(k) {
                m[k].remove(member)
            } else {
                m[k]
            },
    )
}

proof fn lemma_partially_without_step(m: Map<u128, Set<u128>>, c: u128, done: Set<u128>, key: u128)
    requires
        !done.contains(key),
    ensures
        remove_member(partially_without(m, c, done), key, c) == partially_without(
            m,
            c,
            done.insert(key),
        ),
{
    assert(remove_member(partially_without(m, c, done), key, c) =~= partially_without(
        m,
        c,
        done.insert(key),
    ));
}

proof fn lemma_register_wf(h: HubView, u: u128, c: u128)
    requires
        h.wf(),
    ensures
        h.register(u, c).wf(),
{
    let r = h.register(u, c);
    assert forall|c2: u128| #[trigger]
        r.connections.contains_key(c2) implies r.user_connections.contains_key(
        r.connections[c2].user_id,
    ) && r.user_connections[r.connections[c2].user_id].contains(c2) by {
        if c2 != c {
            assert(h.connections.contains_key(c2));
        }
    }
    assert forall|u2: u128| #[trigger]
        r.user_connections.contains_key(u2) implies !r.user_connections[u2].is_empty() by {
        if u2 == u {
            assert(r.user_connections[u2].contains(c));
        } else {
            assert(h.user_connections.contains_key(u2));
        }
    }
    assert forall|c2: u128, ch: u128|
        r.connections.contains_key(c2) && #[trigger] r.connections[c2].channels.contains(ch)
            implies r.channel_subscribers.contains_key(ch) && r.channel_subscribers[ch].contains(c2) by {
        assert(h.connections[c2].channels.contains(ch));
    }
    assert forall|c2: u128, t: u128|
        r.connections.contains_key(c2) && #[trigger] r.connections[c2].threads.contains(t)
            implies r.thread_subscribers.contains_key(t) && r.thread_subscribers[t].contains(c2) by {
        assert(h.connections[c2].threads.contains(t));
    }
}

proof fn lemma_unregister_wf(h: HubView, c: u128)
    requires
        h.wf(),
    ensures
        h.unregister(c).wf(),
{
    if h.connections.contains_key(c) {
        let r = h.unregister(c);
        let u = h.connections[c].user_id;
        assert forall|c2: u128| #[trigger]
            r.connections.contains_key(c2) implies r.user_connections.contains_key(
            r.connections[c2].user_id,
        ) && r.user_connections[r.connections[c2].user_id].contains(c2) by {
            let u2 = h.connections[c2].user_id;
            assert(h.connections.contains_key(c2));
            assert(h.user_connections[u2].contains(c2));
            if u2 == u {
                assert(h.user_connections[u].remove(c).contains(c2));
            }
        }
        assert forall|u2: u128| #[trigger]
            r.user_connections.contains_key(u2) implies !r.user_connections[u2].is_empty() by {
            assert(h.user_connections.contains_key(u2));
        }
        assert forall|c2: u128, ch: u128|
            r.connections.contains_key(c2) && #[trigger] r.connections[c2].channels.contains(
                ch,
            ) implies r.channel_subscribers.contains_key(ch) && r.channel_subscribers[ch].contains(
            c2,
        ) by {
            assert(h.connections[c2].channels.contains(ch));
            assert(h.channel_subscribers[ch].contains(c2));
            assert(h.channel_subscribers[ch].remove(c).contains(c2));
        }
        assert forall|ch: u128| #[trigger]
            r.channel_subscribers.contains_key(ch) implies !r.channel_subscribers[ch].is_empty() by {
            assert(h.channel_subscribers.contains_key(ch));
        }
        assert forall|c2: u128, t: u128|
            r.connections.contains_key(c2) && #[trigger] r.connections[c2].threads.contains(
                t,
            ) implies r.thread_subscribers.contains_key(t) && r.thread_subscribers[t].contains(
            c2,
        ) by {
            assert(h.connections[c2].threads.contains(t));
            assert(h.thread_subscribers[t].contains(c2));
            assert(h.thread_subscribers[t].remove(c).contains(c2));
        }
        assert forall|t: u128| #[trigger]
            r.thread_subscribers.contains_key(t) implies !r.thread_subscribers[t].is_empty() by {
            assert(h.thread_subscribers.contains_key(t));
        }
    }
}

proof fn lemma_subscribe_channel_wf(h: HubView, c: u128, ch: u128)
    requires
        h.wf(),
    ensures
        h.subscribe_channel(c, ch).wf(),
{
    let r = h.subscribe_channel(c, ch);
    assert forall|c2: u128| #[trigger]
        r.connections.contains_key(c2) implies r.user_connections.contains_key(
        r.connections[c2].user_id,
    ) && r.user_connections[r.connections[c2].user_id].contains(c2) by {
        assert(h.connections.contains_key(c2));
    }
    assert forall|c2: u128, ch2: u128|
        r.connections.contains_key(c2) && #[trigger] r.connections[c2].channels.contains(ch2)
            implies r.channel_subscribers.contains_key(ch2) && r.channel_subscribers[ch2].contains(c2) by {
        if c2 != c || ch2 != ch {
            assert(h.connections[c2].channels.contains(ch2));
        }
    }
    assert forall|ch2: u128| #[trigger]
        r.channel_subscribers.contains_key(ch2) implies !r.channel_subscribers[ch2].is_empty() by {
        if ch2 == ch {
            assert(r.channel_subscribers[ch2].contains(c));
        } else {
            assert(h.channel_subscribers.contains_key(ch2));
        }
    }
    assert forall|c2: u128, t: u128|
        r.connections.contains_key(c2) && #[trigger] r.connections[c2].threads.contains(t)
            implies r.thread_subscribers.contains_key(t) && r.thread_subscribers[t].contains(c2) by {
        assert(h.connections[c2].threads.contains(t));
    }
}

proof fn lemma_unsubscribe_channel_wf(h: HubView, c: u128, ch: u128)
    requires
        h.wf(),
    ensures
        h.unsubscribe_channel(c, ch).wf(),
{
    let r = h.unsubscribe_channel(c, ch);
    assert forall|c2: u128| #[trigger]
        r.connections.contains_key(c2) implies r.user_connections.contains_key(
        r.connections[c2].user_id,
    ) && r.user_connections[r.connections[c2].user_id].contains(c2) by {
        assert(h.connections.contains_key(c2));
    }
    assert forall|c2: u128, ch2: u128|
        r.connections.contains_key(c2) && #[trigger] r.connections[c2].channels.contains(ch2)
            implies r.channel_subscribers.contains_key(ch2) && r.channel_subscribers[ch2].contains(c2) by {
        assert(h.connections[c2].channels.contains(ch2));
        assert(h.channel_subscribers[ch2].contains(c2));
        if ch2 == ch {
            assert(h.channel_subscribers[ch].remove(c).contains(c2));
        }
    }
    assert forall|ch2: u128| #[trigger]
        r.channel_subscribers.contains_key(ch2) implies !r.channel_subscribers[ch2].is_empty() by {
        assert(h.channel_subscribers.contains_key(ch2));
    }
    assert forall|c2: u128, t: u128|
        r.connections.contains_key(c2) && #[trigger] r.connections[c2].threads.contains(t)
            implies r.thread_subscribers.contains_key(t) && r.thread_subscribers[t].contains(c2) by {
        assert(h.connections[c2].threads.contains(t));
    }
}

proof fn lemma_subscribe_thread_wf(h: HubView, c: u128, t: u128)
    requires
        h.wf(),
    ensures
        h.subscribe_thread(c, t).wf(),
{
    let r = h.subscribe_thread(c, t);
    assert forall|c2: u128| #[trigger]
        r.connections.contains_key(c2) implies r.user_connections.contains_key(
        r.connections[c2].user_id,
    ) && r.user_connections[r.connections[c2].user_id].contains(c2) by {
        assert(h.connections.contains_key(c2));
    }
    assert forall|c2: u128, t2: u128|
        r.connections.contains_key(c2) && #[trigger] r.connections[c2].threads.contains(t2)
            implies r.thread_subscribers.contains_key(t2) && r.thread_subscribers[t2].contains(c2) by {
        if c2 != c || t2 != t {
            assert(h.connections[c2].threads.contains(t2));
        }
    }
    assert forall|t2: u128| #[trigger]
        r.thread_subscribers.contains_key(t2) implies !r.thread_subscribers[t2].is_empty() by {
        if t2 == t {
            assert(r.thread_subscribers[t2].contains(c));
        } else {
            assert(h.thread_subscribers.contains_key(t2));
        }
    }
    assert forall|c2: u128, ch: u128|
        r.connections.contains_key(c2) && #[trigger] r.connections[c2].channels.contains(ch)
            implies r.channel_subscribers.contains_key(ch) && r.channel_subscribers[ch].contains(c2) by {
        assert(h.connections[c2].channels.contains(ch));
    }
}

proof fn lemma_unsubscribe_thread_wf(h: HubView, c: u128, t: u128)
    requires
        h.wf(),
    ensures
        h.unsubscribe_thread(c, t).wf(),
{
    let r = h.unsubscribe_thread(c, t);
    assert forall|c2: u128| #[trigger]
        r.connections.contains_key(c2) implies r.user_connections.contains_key(
        r.connections[c2].user_id,
    ) && r.user_connections[r.connections[c2].user_id].contains(c2) by {
        assert(h.connections.contains_key(c2));
    }
    assert forall|c2: u128, t2: u128|
        r.connections.contains_key(c2) && #[trigger] r.connections[c2].threads.contains(t2)
            implies r.thread_subscribers.contains_key(t2) && r.thread_subscribers[t2].contains(c2) by {
        assert(h.connections[c2].threads.contains(t2));
        assert(h.thread_subscribers[t2].contains(c2));
        if t2 == t {
            assert(h.thread_subscribers[t].remove(c).contains(c2));
        }
    }
    assert forall|t2: u128| #[trigger]
        r.thread_subscribers.contains_key(t2) implies !r.thread_subscribers[t2].is_empty() by {
        assert(h.thread_subscribers.contains_key(t2));
    }
    assert forall|c2: u128, ch: u128|
        r.connections.contains_key(c2) && #[trigger] r.connections[c2].channels.contains(ch)
            implies r.channel_subscribers.contains_key(ch) && r.channel_subscribers[ch].contains(c2) by {
        assert(h.connections[c2].channels.contains(ch));
    }
}

/// Unregistering a connection right after registering it gives the hub back
/// as it was, and the connection is reported as the user's last exactly when
/// it was reported as the user's first.
pub proof fn lemma_register_then_unregister(h: HubView, u: u128, c: u128)
    requires
        h.consistent(),
        !h.connections.contains_key(c),
    ensures
        h.register(u, c).unregister(c) == h,
        h.register(u, c).is_last_connection(c) == h.is_first_connection(u, c),
{
    let r = h.register(u, c);
    let back = r.unregister(c);
    let target = Set::<u128>::empty().insert(c);
    assert(back.connections =~= h.connections);
    let added = r.user_connections[u];
    if h.user_connections.contains_key(u) {
        assert(!h.user_connections[u].contains(c));
        assert(h.user_connections[u].insert(c).remove(c) =~= h.user_connections[u]);
        assert(back.user_connections =~= h.user_connections);
    } else {
        assert(Set::<u128>::empty().insert(c).remove(c) =~= Set::<u128>::empty());
        assert(back.user_connections =~= h.user_connections);
    }
    if added.remove(c).is_empty() {
        assert(added =~= target) by {
            assert forall|x: u128| added.contains(x) implies x == c by {
                if x != c {
                    assert(added.remove(c).contains(x));
                }
            }
        }
    } else {
        let x = choose|x: u128| added.remove(c).contains(x);
        assert(!(added.remove(c) =~= Set::<u128>::empty()) ==> exists|y: u128| added.remove(c).contains(y));
        assert(added != target) by {
            if added == target {
                assert(added.remove(c) =~= Set::<u128>::empty());
            }
        }
    }
    assert(back.channel_subscribers =~= h.channel_subscribers);
    assert(back.thread_subscribers =~= h.thread_subscribers);
}

/// Unsubscribing a connection from a channel right after subscribing it gives
/// the hub back as it was.
pub proof fn lemma_subscribe_then_unsubscribe_channel(h: HubView, c: u128, ch: u128)
    requires
        h.consistent(),
        h.connections.contains_key(c),
        !h.connections[c].channels.contains(ch),
    ensures
        h.subscribe_channel(c, ch).unsubscribe_channel(c, ch) == h,
{
    let back = h.subscribe_channel(c, ch).unsubscribe_channel(c, ch);
    assert(h.connections[c].channels.insert(ch).remove(ch) =~= h.connections[c].channels);
    assert(back.connections =~= h.connections);
    if h.channel_subscribers.contains_key(ch) {
        assert(!h.channel_subscribers[ch].contains(c));
        assert(h.channel_subscribers[ch].insert(c).remove(c) =~= h.channel_subscribers[ch]);
    } else {
        assert(Set::<u128>::empty().insert(c).remove(c) =~= Set::<u128>::empty());
    }
    assert(back.channel_subscribers =~= h.channel_subscribers);
}

/// Unsubscribing a connection from a thread right after subscribing it gives
/// the hub back as it was.
pub proof fn lemma_subscribe_then_unsubscribe_thread(h: HubView, c: u128, t: u128)
    requires
        h.consistent(),
        h.connections.contains_key(c),
        !h.connections[c].threads.contains(t),
    ensures
        h.subscribe_thread(c, t).unsubscribe_thread(c, t) == h,
{
    let back = h.subscribe_thread(c, t).unsubscribe_thread(c, t);
    assert(h.connections[c].threads.insert(t).remove(t) =~= h.connections[c].threads);
    assert(back.connections =~= h.connections);
    if h.thread_subscribers.contains_key(t) {
        assert(!h.thread_subscribers[t].contains(c));
        assert(h.thread_subscribers[t].insert(c).remove(c) =~= h.thread_subscribers[t]);
    } else {
        assert(Set::<u128>::empty().insert(c).remove(c) =~= Set::<u128>::empty());
    }
    assert(back.thread_subscribers =~= h.thread_subscribers);
}

/// A channel event reaches exactly the registered connections that
/// subscribed to the channel; a thread event, those subscribed to the thread;
/// an event for a user, that user's connections.
pub proof fn lemma_recipients_are_subscribers(h: HubView, ch: u128, t: u128, u: u128)
    requires
        h.consistent(),
    ensures
        h.channel_recipients(ch) == Set::new(
            |c: u128| h.connections.contains_key(c) && h.connections[c].channels.contains(ch),
        ),
        h.thread_recipients(t) == Set::new(
            |c: u128| h.connections.contains_key(c) && h.connections[c].threads.contains(t),
        ),
        h.user_recipients(u) == Set::new(
            |c: u128| h.connections.contains_key(c) && h.connections[c].user_id == u,
        ),
{
    assert(h.channel_recipients(ch) =~= Set::new(
        |c: u128| h.connections.contains_key(c) && h.connections[c].channels.contains(ch),
    ));
    assert(h.thread_recipients(t) =~= Set::new(
        |c: u128| h.connections.contains_key(c) && h.connections[c].threads.contains(t),
    ));
    assert forall|c: u128| #[trigger] h.user_recipients(u).contains(c) == (h.connections.contains_key(c) && h.connections[c].user_id == u) by {
        if h.connections.contains_key(c) && h.connections[c].user_id == u {
            assert(h.user_connections[u].contains(c));
        }
    }
    assert(h.user_recipients(u) =~= Set::new(
        |c: u128| h.connections.contains_key(c) && h.connections[c].user_id == u,
    ));
}

/// A connection is the last of its user (who then goes offline) exactly
/// when no other registered connection belongs to that user.
pub proof fn lemma_last_connection_iff_no_other(h: HubView, c: u128)
    requires
        h.consistent(),
        h.connections.contains_key(c),
    ensures
        h.is_last_connection(c) == !(exists|c2: u128|
            c2 != c && #[trigger] h.connections.contains_key(c2) && h.connections[c2].user_id
                == h.connections[c].user_id),
{
    let u = h.connections[c].user_id;
    let s = h.user_connections[u];
    if exists|c2: u128|
        c2 != c && #[trigger] h.connections.contains_key(c2) && h.connections[c2].user_id == u {
        let c2 = choose|c2: u128|
            c2 != c && #[trigger] h.connections.contains_key(c2) && h.connections[c2].user_id == u;
        assert(s.remove(c).contains(c2));
    } else {
        assert forall|x: u128| !#[trigger] s.remove(c).contains(x) by {
            if s.remove(c).contains(x) {
                assert(h.connections.contains_key(x));
            }
        }
        assert(s.remove(c) =~= Set::<u128>::empty());
    }
}

/// A new connection is its user's first (who then comes online) exactly
/// when no registered connection belongs to that user.
pub proof fn lemma_first_connection_iff_none(h: HubView, u: u128, c: u128)
    requires
        h.consistent(),
        !h.connections.contains_key(c),
    ensures
        h.is_first_connection(u, c) == !(exists|c2: u128|
            #[trigger] h.connections.contains_key(c2) && h.connections[c2].user_id == u),
{
    let target = Set::<u128>::empty().insert(c);
    if !h.user_connections.contains_key(u) {
        assert(Set::<u128>::empty().insert(c) =~= target);
        assert forall|c2: u128| !(#[trigger] h.connections.contains_key(c2) && h.connections[c2].user_id == u) by {
            if h.connections.contains_key(c2) && h.connections[c2].user_id == u {
                assert(h.user_connections.contains_key(u));
            }
        }
    } else {
        let s = h.user_connections[u];
        assert(!s.contains(c));
        assert(exists|x: u128| s.contains(x)) by {
            if !(exists|x: u128| s.contains(x)) {
                assert(s =~= Set::<u128>::empty());
            }
        }
        let x = choose|x: u128| s.contains(x);
        assert(s.insert(c).contains(x) && !target.contains(x));
        assert(h.connections.contains_key(x));
    }
}

/// Once unregistered, a connection receives no event of any channel, thread
/// or user.
pub proof fn lemma_unregistered_receives_nothing(h: HubView, c: u128, ch: u128, t: u128, u: u128)
    requires
        h.wf(),
    ensures
        !h.unregister(c).channel_recipients(ch).contains(c),
        !h.unregister(c).thread_recipients(t).contains(c),
        !h.unregister(c).user_recipients(u).contains(c),
        !h.unregister(c).connections.contains_key(c),
{
}

} // verus!
