//! The subscriber registry: which live connections exist, what each one has
//! subscribed to, and — for a given event kind — exactly which connections a
//! broadcast must reach and under which correlation id.
//!
//! The registry is a single shared resource; callers guard it with one
//! exclusion discipline and release it before performing per-connection
//! delivery. The delivery itself happens outside the library: `notify_clients`
//! only selects the targets, so a slow or failed send can never affect the
//! registry nor another subscriber.

use vstd::prelude::*;
use crate::errors::RpcError;

verus! {

/// An opaque, comparable token identifying one live persistent connection.
#[derive(PartialEq, Eq, Structural, Clone, Copy, Hash, Debug)]
pub struct ConnectionId(pub u64);

/// An opaque, comparable token identifying one kind of domain event.
#[derive(PartialEq, Eq, Structural, Clone, Copy, Hash, Debug)]
pub struct EventKind(pub u64);

/// One subscription: an event kind together with the correlation id the
/// client supplied when it subscribed (echoed on every matching
/// notification).
#[derive(Clone, Copy)]
pub struct SubEntry {
    pub kind: EventKind,
    pub id: Option<u64>,
}

/// One registered connection with its subscription set.
pub struct ClientEntry {
    pub conn: ConnectionId,
    pub subs: Vec<SubEntry>,
}

/// One broadcast target: a connection that subscribed to the event being
/// broadcast, and the correlation id captured at subscription time.
#[derive(Clone, Copy, Debug)]
pub struct Delivery {
    pub conn: ConnectionId,
    pub id: Option<u64>,
}

/// The subscription set of one client, as a map from event kind to the
/// captured correlation id.
pub open spec fn subs_view(s: Seq<SubEntry>) -> Map<EventKind, Option<u64>>
    decreases s.len(),
{
    if s.len() == 0 {
        Map::empty()
    } else {
        subs_view(s.drop_last()).insert(s.last().kind, s.last().id)
    }
}

/// The whole registry, as a map from connection to its subscription set.
pub open spec fn reg_view(s: Seq<ClientEntry>) -> Map<ConnectionId, Map<EventKind, Option<u64>>>
    decreases s.len(),
{
    if s.len() == 0 {
        Map::empty()
    } else {
        reg_view(s.drop_last()).insert(s.last().conn, subs_view(s.last().subs@))
    }
}

pub open spec fn subs_distinct(s: Seq<SubEntry>) -> bool {
    forall|i: int, j: int| 0 <= i < j < s.len() ==> s[i].kind != s[j].kind
}

pub open spec fn clients_distinct(s: Seq<ClientEntry>) -> bool {
    forall|i: int, j: int| 0 <= i < j < s.len() ==> s[i].conn != s[j].conn
}

proof fn lemma_subs_contains(s: Seq<SubEntry>, k: EventKind)
    ensures
        subs_view(s).contains_key(k) <==> exists|i: int| 0 <= i < s.len() && s[i].kind == k,
    decreases s.len(),
{
    if s.len() > 0 {
        lemma_subs_contains(s.drop_last(), k);
        if subs_view(s).contains_key(k) {
            if s.last().kind == k {
                assert(s[s.len() - 1].kind == k);
            } else {
                let i = choose|i: int| 0 <= i < s.drop_last().len() && s.drop_last()[i].kind == k;
                assert(s[i].kind == k);
            }
        }
        if exists|i: int| 0 <= i < s.len() && s[i].kind == k {
            let i = choose|i: int| 0 <= i < s.len() && s[i].kind == k;
            if i < s.len() - 1 {
                assert(s.drop_last()[i].kind == k);
            }
        }
    }
}

proof fn lemma_subs_index(s: Seq<SubEntry>, i: int)
    requires
        subs_distinct(s),
        0 <= i < s.len(),
    ensures
        subs_view(s).contains_key(s[i].kind),
        subs_view(s)[s[i].kind] == s[i].id,
    decreases s.len(),
{
    if i < s.len() - 1 {
        assert(subs_distinct(s.drop_last())) by {
            assert forall|a: int, b: int| 0 <= a < b < s.drop_last().len() implies s.drop_last()[a].kind != s.drop_last()[b].kind by {
                assert(s[a].kind != s[b].kind);
            }
        }
        assert(s.drop_last()[i] == s[i]);
        lemma_subs_index(s.drop_last(), i);
        assert(s[i].kind != s.last().kind);
    }
}

proof fn lemma_subs_push(s: Seq<SubEntry>, e: SubEntry)
    ensures
        subs_view(s.push(e)) == subs_view(s).insert(e.kind, e.id),
{
    assert(s.push(e).drop_last() =~= s);
    assert(s.push(e).last() == e);
}

proof fn lemma_subs_distinct_remove(s: Seq<SubEntry>, i: int)
    requires
        subs_distinct(s),
        0 <= i < s.len(),
    ensures
        subs_distinct(s.remove(i)),
        forall|j: int| 0 <= j < s.remove(i).len() ==> s.remove(i)[j].kind != s[i].kind,
{
    s.remove_ensures(i);
    assert forall|a: int, b: int| 0 <= a < b < s.remove(i).len() implies s.remove(i)[a].kind != s.remove(i)[b].kind by {
        let ra = if a < i { a } else { a + 1 };
        let rb = if b < i { b } else { b + 1 };
        assert(s.remove(i)[a] == s[ra]);
        assert(s.remove(i)[b] == s[rb]);
        assert(s[ra].kind != s[rb].kind);
    }
    assert forall|j: int| 0 <= j < s.remove(i).len() implies s.remove(i)[j].kind != s[i].kind by {
        let rj = if j < i { j } else { j + 1 };
        assert(s.remove(i)[j] == s[rj]);
    }
}

proof fn lemma_subs_remove(s: Seq<SubEntry>, i: int)
    requires
        subs_distinct(s),
        0 <= i < s.len(),
    ensures
        subs_view(s.remove(i)) == subs_view(s).remove(s[i].kind),
    decreases s.len(),
{
    let k = s[i].kind;
    if i == s.len() - 1 {
        assert(s.remove(i) =~= s.drop_last());
        lemma_subs_contains(s.drop_last(), k);
        assert forall|j: int| 0 <= j < s.drop_last().len() implies s.drop_last()[j].kind != k by {
            assert(s[j].kind != s[i].kind);
        }
        assert(!subs_view(s.drop_last()).contains_key(k));
        assert(subs_view(s.drop_last()) =~= subs_view(s).remove(k));
    } else {
        assert(subs_distinct(s.drop_last())) by {
            assert forall|a: int, b: int| 0 <= a < b < s.drop_last().len() implies s.drop_last()[a].kind != s.drop_last()[b].kind by {
                assert(s[a].kind != s[b].kind);
            }
        }
        assert(s.drop_last()[i] == s[i]);
        lemma_subs_remove(s.drop_last(), i);
        assert(s.remove(i).drop_last() =~= s.drop_last().remove(i));
        assert(s.remove(i).last() == s.last());
        assert(s.last().kind != k);
        assert(subs_view(s.remove(i)) == subs_view(s.drop_last().remove(i)).insert(s.last().kind, s.last().id));
        assert(subs_view(s.drop_last()).remove(k).insert(s.last().kind, s.last().id)
            =~= subs_view(s.drop_last()).insert(s.last().kind, s.last().id).remove(k));
    }
}

proof fn lemma_clients_contains(s: Seq<ClientEntry>, c: ConnectionId)
    ensures
        reg_view(s).contains_key(c) <==> exists|i: int| 0 <= i < s.len() && s[i].conn == c,
    decreases s.len(),
{
    if s.len() > 0 {
        lemma_clients_contains(s.drop_last(), c);
        if reg_view(s).contains_key(c) {
            if s.last().conn == c {
                assert(s[s.len() - 1].conn == c);
            } else {
                let i = choose|i: int| 0 <= i < s.drop_last().len() && s.drop_last()[i].conn == c;
                assert(s[i].conn == c);
            }
        }
        if exists|i: int| 0 <= i < s.len() && s[i].conn == c {
            let i = choose|i: int| 0 <= i < s.len() && s[i].conn == c;
            if i < s.len() - 1 {
                assert(s.drop_last()[i].conn == c);
            }
        }
    }
}

proof fn lemma_clients_index(s: Seq<ClientEntry>, i: int)
    requires
        clients_distinct(s),
        0 <= i < s.len(),
    ensures
        reg_view(s).contains_key(s[i].conn),
        reg_view(s)[s[i].conn] == subs_view(s[i].subs@),
    decreases s.len(),
{
    if i < s.len() - 1 {
        assert(clients_distinct(s.drop_last())) by {
            assert forall|a: int, b: int| 0 <= a < b < s.drop_last().len() implies s.drop_last()[a].conn != s.drop_last()[b].conn by {
                assert(s[a].conn != s[b].conn);
            }
        }
        assert(s.drop_last()[i] == s[i]);
        lemma_clients_index(s.drop_last(), i);
        assert(s[i].conn != s.last().conn);
    }
}

proof fn lemma_clients_push(s: Seq<ClientEntry>, e: ClientEntry)
    ensures
        reg_view(s.push(e)) == reg_view(s).insert(e.conn, subs_view(e.subs@)),
{
    assert(s.push(e).drop_last() =~= s);
    assert(s.push(e).last() == e);
}

proof fn lemma_clients_distinct_remove(s: Seq<ClientEntry>, i: int)
    requires
        clients_distinct(s),
        0 <= i < s.len(),
    ensures
        clients_distinct(s.remove(i)),
        forall|j: int| 0 <= j < s.remove(i).len() ==> s.remove(i)[j].conn != s[i].conn,
{
    s.remove_ensures(i);
    assert forall|a: int, b: int| 0 <= a < b < s.remove(i).len() implies s.remove(i)[a].conn != s.remove(i)[b].conn by {
        let ra = if a < i { a } else { a + 1 };
        let rb = if b < i { b } else { b + 1 };
        assert(s.remove(i)[a] == s[ra]);
        assert(s.remove(i)[b] == s[rb]);
        assert(s[ra].conn != s[rb].conn);
    }
    assert forall|j: int| 0 <= j < s.remove(i).len() implies s.remove(i)[j].conn != s[i].conn by {
        let rj = if j < i { j } else { j + 1 };
        assert(s.remove(i)[j] == s[rj]);
    }
}

proof fn lemma_clients_remove(s: Seq<ClientEntry>, i: int)
    requires
        clients_distinct(s),
        0 <= i < s.len(),
    ensures
        reg_view(s.remove(i)) == reg_view(s).remove(s[i].conn),
    decreases s.len(),
{
    let c = s[i].conn;
    if i == s.len() - 1 {
        assert(s.remove(i) =~= s.drop_last());
        lemma_clients_contains(s.drop_last(), c);
        assert forall|j: int| 0 <= j < s.drop_last().len() implies s.drop_last()[j].conn != c by {
            assert(s[j].conn != s[i].conn);
        }
        assert(!reg_view(s.drop_last()).contains_key(c));
        assert(reg_view(s.drop_last()) =~= reg_view(s).remove(c));
    } else {
        assert(clients_distinct(s.drop_last())) by {
            assert forall|a: int, b: int| 0 <= a < b < s.drop_last().len() implies s.drop_last()[a].conn != s.drop_last()[b].conn by {
                assert(s[a].conn != s[b].conn);
            }
        }
        assert(s.drop_last()[i] == s[i]);
        lemma_clients_remove(s.drop_last(), i);
        assert(s.remove(i).drop_last() =~= s.drop_last().remove(i));
        assert(s.remove(i).last() == s.last());
        assert(s.last().conn != c);
        assert(reg_view(s.remove(i)) == reg_view(s.drop_last().remove(i)).insert(s.last().conn, subs_view(s.last().subs@)));
        assert(reg_view(s.drop_last()).remove(c).insert(s.last().conn, subs_view(s.last().subs@))
            =~= reg_view(s.drop_last()).insert(s.last().conn, subs_view(s.last().subs@)).remove(c));
    }
}

fn find_sub(subs: &Vec<SubEntry>, kind: EventKind) -> (r: Option<usize>)
    ensures
        r matches Some(i) ==> 0 <= i < subs@.len() && subs@[i as int].kind == kind,
        r is None ==> forall|j: int| 0 <= j < subs@.len() ==> subs@[j].kind != kind,
{
    let mut i: usize = 0;
    while i < subs.len()
        invariant
            i <= subs@.len(),
            forall|j: int| 0 <= j < i ==> subs@[j].kind != kind,
        decreases subs@.len() - i,
    {
        if subs[i].kind == kind {
            return Some(i);
        }
        i = i + 1;
    }
    None
}

fn find_client(clients: &Vec<ClientEntry>, conn: ConnectionId) -> (r: Option<usize>)
    ensures
        r matches Some(i) ==> 0 <= i < clients@.len() && clients@[i as int].conn == conn,
        r is None ==> forall|j: int| 0 <= j < clients@.len() ==> clients@[j].conn != conn,
{
    let mut i: usize = 0;
    while i < clients.len()
        invariant
            i <= clients@.len(),
            forall|j: int| 0 <= j < i ==> clients@[j].conn != conn,
        decreases clients@.len() - i,
    {
        if clients[i].conn == conn {
            return Some(i);
        }
        i = i + 1;
    }
    None
}

/// The mutation-safe registry of connected subscribers. Its abstract value
/// (`self@`) is the map from each registered connection to its subscription
/// set; a connection absent from the map receives no notifications.
pub struct ClientRegistry {
    clients: Vec<ClientEntry>,
}

impl View for ClientRegistry {
    type V = Map<ConnectionId, Map<EventKind, Option<u64>>>;

    closed spec fn view(&self) -> Map<ConnectionId, Map<EventKind, Option<u64>>> {
        reg_view(self.clients@)
    }
}

impl ClientRegistry {
    /// The structural invariant: one entry per connection, one entry per
    /// event kind within a connection. Every operation preserves it, so no
    /// interleaving of operations can duplicate or lose an entry.
    pub closed spec fn wf(&self) -> bool {
        &&& clients_distinct(self.clients@)
        &&& forall|i: int| 0 <= i < self.clients@.len() ==> subs_distinct(#[trigger] self.clients@[i].subs@)
    }

    pub fn new() -> (r: Self)
        ensures
            r.wf(),
            r@ == Map::<ConnectionId, Map<EventKind, Option<u64>>>::empty(),
    {
        ClientRegistry { clients: Vec::new() }
    }

    /// Registers a connection with an empty subscription set. Not
    /// idempotent by accident but by contract: registering an already
    /// registered connection resets its subscription set to empty.
    pub fn add_client(&mut self, conn: ConnectionId)
        requires
            old(self).wf(),
        ensures
            final(self).wf(),
            final(self)@ == old(self)@.insert(conn, Map::<EventKind, Option<u64>>::empty()),
    {
        let ghost s0 = self.clients@;
        if let Some(i) = find_client(&self.clients, conn) {
            proof {
                lemma_clients_remove(s0, i as int);
                lemma_clients_distinct_remove(s0, i as int);
            }
            let _ = self.clients.remove(i);
        }
        let ghost s1 = self.clients@;
        let entry = ClientEntry { conn, subs: Vec::new() };
        proof {
            lemma_clients_push(s1, entry);
        }
        self.clients.push(entry);
        proof {
            assert(self.clients@.last().subs@ =~= Seq::<SubEntry>::empty());
            assert(subs_view(self.clients@.last().subs@) =~= Map::<EventKind, Option<u64>>::empty());
            assert(final(self)@ =~= old(self)@.insert(conn, Map::<EventKind, Option<u64>>::empty()));
            assert forall|a: int, b: int| 0 <= a < b < self.clients@.len() implies self.clients@[a].conn != self.clients@[b].conn by {
                if b < self.clients@.len() - 1 {
                    assert(s1[a].conn != s1[b].conn);
                } else {
                    assert(s1[a].conn != conn);
                }
            }
        }
    }

    /// Removes a connection and all its subscriptions in one step. Removing
    /// an absent connection is a no-op; the returned flag says whether the
    /// connection was present.
    pub fn remove_client(&mut self, conn: ConnectionId) -> (deleted: bool)
        requires
            old(self).wf(),
        ensures
            final(self).wf(),
            deleted == old(self)@.contains_key(conn),
            final(self)@ == old(self)@.remove(conn),
    {
        let ghost s0 = self.clients@;
        proof {
            lemma_clients_contains(s0, conn);
        }
        match find_client(&self.clients, conn) {
            Some(i) => {
                proof {
                    lemma_clients_remove(s0, i as int);
                    lemma_clients_distinct_remove(s0, i as int);
                }
                let _ = self.clients.remove(i);
                true
            },
            None => {
                proof {
                    assert(!reg_view(s0).contains_key(conn));
                    assert(reg_view(s0) =~= reg_view(s0).remove(conn));
                }
                false
            },
        }
    }

    /// Inserts or overwrites the (event kind, correlation id) entry of a
    /// registered connection; a connection must register before it can
    /// subscribe.
    pub fn subscribe_client_to(&mut self, conn: ConnectionId, kind: EventKind, id: Option<u64>) -> (r: Result<(), RpcError>)
        requires
            old(self).wf(),
        ensures
            final(self).wf(),
            r is Ok <==> old(self)@.contains_key(conn),
            r is Ok ==> final(self)@ == old(self)@.insert(conn, old(self)@[conn].insert(kind, id)),
            r matches Err(e) ==> e is ClientNotRegistered && *final(self) == *old(self),
    {
        let ghost s0 = self.clients@;
        proof {
            lemma_clients_contains(s0, conn);
        }
        match find_client(&self.clients, conn) {
            Some(i) => {
                proof {
                    lemma_clients_index(s0, i as int);
                }
                let mut entry = self.clients.remove(i);
                let ghost subs0 = entry.subs@;
                if let Some(j) = find_sub(&entry.subs, kind) {
                    proof {
                        lemma_subs_remove(subs0, j as int);
                        lemma_subs_distinct_remove(subs0, j as int);
                    }
                    let _ = entry.subs.remove(j);
                }
                let ghost subs1 = entry.subs@;
                proof {
                    lemma_subs_push(subs1, SubEntry { kind, id });
                    assert(subs_view(subs1.push(SubEntry { kind, id })) =~= subs_view(subs0).insert(kind, id));
                    assert forall|a: int, b: int| 0 <= a < b < subs1.push(SubEntry { kind, id }).len() implies subs1.push(SubEntry { kind, id })[a].kind != subs1.push(SubEntry { kind, id })[b].kind by {
                        if b < subs1.len() {
                            assert(subs1[a].kind != subs1[b].kind);
                        } else {
                            assert(subs1[a].kind != kind);
                        }
                    }
                }
                entry.subs.push(SubEntry { kind, id });
                let ghost s1 = self.clients@;
                proof {
                    lemma_clients_remove(s0, i as int);
                    lemma_clients_distinct_remove(s0, i as int);
                    lemma_clients_push(s1, entry);
                    assert(reg_view(s1).insert(conn, subs_view(entry.subs@))
                        =~= reg_view(s0).insert(conn, subs_view(s0[i as int].subs@).insert(kind, id)));
                    assert forall|a: int, b: int| 0 <= a < b < s1.push(entry).len() implies s1.push(entry)[a].conn != s1.push(entry)[b].conn by {
                        if b < s1.len() {
                            assert(s1[a].conn != s1[b].conn);
                        } else {
                            assert(s1[a].conn != conn);
                        }
                    }
                }
                self.clients.push(entry);
                Ok(())
            },
            None => Err(RpcError::ClientNotRegistered),
        }
    }

    /// Removes the entry for one event kind from a registered connection's
    /// subscription set; the kind being absent is not an error.
    pub fn unsubscribe_client_from(&mut self, conn: ConnectionId, kind: EventKind) -> (r: Result<(), RpcError>)
        requires
            old(self).wf(),
        ensures
            final(self).wf(),
            r is Ok <==> old(self)@.contains_key(conn),
            r is Ok ==> final(self)@ == old(self)@.insert(conn, old(self)@[conn].remove(kind)),
            r matches Err(e) ==> e is ClientNotRegistered && *final(self) == *old(self),
    {
        let ghost s0 = self.clients@;
        proof {
            lemma_clients_contains(s0, conn);
        }
        match find_client(&self.clients, conn) {
            Some(i) => {
                proof {
                    lemma_clients_index(s0, i as int);
                }
                let mut entry = self.clients.remove(i);
                let ghost subs0 = entry.subs@;
                match find_sub(&entry.subs, kind) {
                    Some(j) => {
                        proof {
                            lemma_subs_remove(subs0, j as int);
                            lemma_subs_distinct_remove(subs0, j as int);
                        }
                        let _ = entry.subs.remove(j);
                    },
                    None => {
                        proof {
                            lemma_subs_contains(subs0, kind);
                            assert(!subs_view(subs0).contains_key(kind));
                            assert(subs_view(subs0) =~= subs_view(subs0).remove(kind));
                        }
                    },
                }
                let ghost s1 = self.clients@;
                proof {
                    lemma_clients_remove(s0, i as int);
                    lemma_clients_distinct_remove(s0, i as int);
                    lemma_clients_push(s1, entry);
                    assert(reg_view(s1).insert(conn, subs_view(entry.subs@))
                        =~= reg_view(s0).insert(conn, subs_view(s0[i as int].subs@).remove(kind)));
                    assert forall|a: int, b: int| 0 <= a < b < s1.push(entry).len() implies s1.push(entry)[a].conn != s1.push(entry)[b].conn by {
                        if b < s1.len() {
                            assert(s1[a].conn != s1[b].conn);
                        } else {
                            assert(s1[a].conn != conn);
                        }
                    }
                }
                self.clients.push(entry);
                Ok(())
            },
            None => Err(RpcError::ClientNotRegistered),
        }
    }

    /// Selects the broadcast targets for one event kind: exactly the
    /// registered connections whose subscription set contains the kind, each
    /// once, paired with the correlation id captured when it subscribed.
    /// The registry itself is untouched; delivery happens outside, one
    /// independent send per returned target.
    pub fn notify_clients(&self, kind: EventKind) -> (r: Vec<Delivery>)
        requires
            self.wf(),
        ensures
            forall|k: int| 0 <= k < r@.len() ==> {
                let d = #[trigger] r@[k];
                &&& self@.contains_key(d.conn)
                &&& self@[d.conn].contains_key(kind)
                &&& d.id == self@[d.conn][kind]
            },
            forall|c: ConnectionId| #[trigger] self@.contains_key(c) && self@[c].contains_key(kind)
                ==> exists|k: int| 0 <= k < r@.len() && r@[k].conn == c,
            forall|k1: int, k2: int| 0 <= k1 < k2 < r@.len() ==> r@[k1].conn != r@[k2].conn,
    {
        let mut r: Vec<Delivery> = Vec::new();
        let mut i: usize = 0;
        while i < self.clients.len()
            invariant
                self.wf(),
                i <= self.clients@.len(),
                forall|k: int| 0 <= k < r@.len() ==> {
                    let d = #[trigger] r@[k];
                    &&& self@.contains_key(d.conn)
                    &&& self@[d.conn].contains_key(kind)
                    &&& d.id == self@[d.conn][kind]
                },
                forall|j: int| 0 <= j < i && subs_view(#[trigger] self.clients@[j].subs@).contains_key(kind)
                    ==> exists|k: int| 0 <= k < r@.len() && r@[k].conn == self.clients@[j].conn,
                forall|k: int| 0 <= k < r@.len() ==> exists|j: int| 0 <= j < i && #[trigger] r@[k].conn == self.clients@[j].conn,
                forall|k1: int, k2: int| 0 <= k1 < k2 < r@.len() ==> r@[k1].conn != r@[k2].conn,
            decreases self.clients@.len() - i,
        {
            let entry = &self.clients[i];
            proof {
                lemma_clients_index(self.clients@, i as int);
            }
            let ghost r_before = r@;
            match find_sub(&entry.subs, kind) {
                Some(j) => {
                    proof {
                        lemma_subs_index(entry.subs@, j as int);
                        // a second delivery for the same connection is impossible:
                        // every recorded target comes from an earlier, distinct entry
                        assert forall|k: int| 0 <= k < r@.len() implies r@[k].conn != entry.conn by {
                            let jj = choose|jj: int| 0 <= jj < i && r@[k].conn == self.clients@[jj].conn;
                            assert(self.clients@[jj].conn != self.clients@[i as int].conn);
                        }
                    }
                    r.push(Delivery { conn: entry.conn, id: entry.subs[j].id });
                    proof {
                        assert forall|jj: int| 0 <= jj <= i && subs_view(#[trigger] self.clients@[jj].subs@).contains_key(kind)
                            implies exists|k: int| 0 <= k < r@.len() && r@[k].conn == self.clients@[jj].conn by {
                            if jj < i {
                                let k = choose|k: int| 0 <= k < r_before.len() && r_before[k].conn == self.clients@[jj].conn;
                                assert(r@[k].conn == self.clients@[jj].conn);
                            } else {
                                assert(r@[r@.len() - 1].conn == self.clients@[i as int].conn);
                            }
                        }
                    }
                },
                None => {
                    proof {
                        lemma_subs_contains(entry.subs@, kind);
                        assert(!subs_view(self.clients@[i as int].subs@).contains_key(kind));
                    }
                },
            }
            i = i + 1;
        }
        proof {
            assert forall|c: ConnectionId| #[trigger] self@.contains_key(c) && self@[c].contains_key(kind)
                implies exists|k: int| 0 <= k < r@.len() && r@[k].conn == c by {
                lemma_clients_contains(self.clients@, c);
                let j = choose|j: int| 0 <= j < self.clients@.len() && self.clients@[j].conn == c;
                lemma_clients_index(self.clients@, j);
                assert(subs_view(self.clients@[j].subs@).contains_key(kind));
            }
        }
        r
    }
}

/// After registering a connection and subscribing it to one event kind
/// under one correlation id, the registry maps that connection to exactly
/// that subscription: the kind carries the captured id, and no other kind is
/// subscribed — so a broadcast of the kind selects the connection once,
/// under that id, and a broadcast of any other kind passes it by.
pub proof fn lemma_fresh_subscription_is_exact(
    m: Map<ConnectionId, Map<EventKind, Option<u64>>>,
    conn: ConnectionId,
    kind: EventKind,
    id: Option<u64>,
)
    ensures
        ({
            let m1 = m.insert(conn, Map::<EventKind, Option<u64>>::empty());
            let m2 = m1.insert(conn, m1[conn].insert(kind, id));
            &&& m2.contains_key(conn)
            &&& m2[conn].contains_key(kind)
            &&& m2[conn][kind] == id
            &&& forall|other: EventKind| other != kind ==> !(#[trigger] m2[conn].contains_key(other))
        }),
{
}

/// Registering one connection and deregistering a different one commute:
/// operations on disjoint connections cannot disturb each other, whatever
/// their interleaving.
pub proof fn lemma_register_deregister_commute(
    m: Map<ConnectionId, Map<EventKind, Option<u64>>>,
    c1: ConnectionId,
    c2: ConnectionId,
)
    requires
        c1 != c2,
    ensures
        m.insert(c1, Map::<EventKind, Option<u64>>::empty()).remove(c2)
            == m.remove(c2).insert(c1, Map::<EventKind, Option<u64>>::empty()),
{
    assert(m.insert(c1, Map::<EventKind, Option<u64>>::empty()).remove(c2)
        =~= m.remove(c2).insert(c1, Map::<EventKind, Option<u64>>::empty()));
}

/// Subscriptions of two different connections commute: whichever order an
/// interleaving applies them in, the registry ends in the same state.
pub proof fn lemma_disjoint_subscriptions_commute(
    m: Map<ConnectionId, Map<EventKind, Option<u64>>>,
    c1: ConnectionId,
    k1: EventKind,
    id1: Option<u64>,
    c2: ConnectionId,
    k2: EventKind,
    id2: Option<u64>,
)
    requires
        c1 != c2,
        m.contains_key(c1),
        m.contains_key(c2),
    ensures
        m.insert(c1, m[c1].insert(k1, id1)).insert(c2, m[c2].insert(k2, id2))
            == m.insert(c2, m[c2].insert(k2, id2)).insert(c1, m[c1].insert(k1, id1)),
{
    assert(m.insert(c1, m[c1].insert(k1, id1)).insert(c2, m[c2].insert(k2, id2))
        =~= m.insert(c2, m[c2].insert(k2, id2)).insert(c1, m[c1].insert(k1, id1)));
}

/// A deregistered connection is subscribed to nothing: after removal it is
/// outside the registry's map, so no broadcast of any event kind can select
/// it.
pub proof fn lemma_deregistered_receives_nothing(
    m: Map<ConnectionId, Map<EventKind, Option<u64>>>,
    conn: ConnectionId,
)
    ensures
        !m.remove(conn).contains_key(conn),
{
}

} // verus!
