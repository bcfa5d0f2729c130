//! The remote peers of a session, and the cursor each of them is followed by.
use vstd::prelude::*;

use std::collections::HashMap;

use crate::text::chars_of;

verus! {

/// A peer in a session: its ID and its handle.
#[derive(Debug, Clone)]
pub struct Peer {
    pub id: u64,
    pub handle: String,
}

impl Peer {
    /// A copy of the peer.
    pub fn duplicate(&self) -> (r: Peer)
        ensures
            r == *self,
    {
        Peer { id: self.id, handle: self.handle.clone() }
    }
}

/// Whether `m` is the smallest ID among the cursors owned by `owner`, where
/// each cursor is given as its owner and its ID.
pub open spec fn is_main_cursor(cursors: Seq<(u64, u64)>, owner: u64, m: u64) -> bool {
    &&& exists|i: int| 0 <= i < cursors.len() && cursors[i] == (owner, m)
    &&& forall|i: int| 0 <= i < cursors.len() && #[trigger] cursors[i].0 == owner ==> m <= cursors[i].1
}

/// Whether `owner` owns none of the cursors.
pub open spec fn owns_no_cursor(cursors: Seq<(u64, u64)>, owner: u64) -> bool {
    forall|i: int| 0 <= i < cursors.len() ==> #[trigger] cursors[i].0 != owner
}

/// The "main" cursor of a peer: the oldest of its cursors, which is the one
/// with the smallest ID (a peer's cursor IDs grow with their creation time).
pub fn main_cursor_id(cursors: &Vec<(u64, u64)>, owner: u64) -> (r: Option<u64>)
    ensures
        match r {
            Some(m) => is_main_cursor(cursors@, owner, m),
            None => owns_no_cursor(cursors@, owner),
        },
{
    let mut best: Option<u64> = None;
    let mut i: usize = 0;
    while i < cursors.len()
        invariant
            i <= cursors@.len(),
            match best {
                Some(m) => is_main_cursor(cursors@.take(i as int), owner, m),
                None => owns_no_cursor(cursors@.take(i as int), owner),
            },
        decreases cursors@.len() - i,
    {
        let (o, id) = cursors[i];
        let ghost prev = cursors@.take(i as int);
        let ghost next = cursors@.take(i as int + 1);
        proof { assert(next == prev.push((o, id))); }
        if o == owner {
            match best {
                Some(m) => {
                    if id < m {
                        best = Some(id);
                        proof { assert(next[i as int] == (owner, id)); }
                    } else {
                        proof {
                            let k = choose|k: int| 0 <= k < prev.len() && prev[k] == (owner, m);
                            assert(next[k] == (owner, m));
                        }
                    }
                },
                None => {
                    best = Some(id);
                    proof { assert(next[i as int] == (owner, id)); }
                },
            }
        } else {
            proof {
                if let Some(m) = best {
                    let k = choose|k: int| 0 <= k < prev.len() && prev[k] == (owner, m);
                    assert(next[k] == (owner, m));
                }
            }
        }
        i += 1;
    }
    proof { assert(cursors@.take(cursors@.len() as int) == cursors@); }
    best
}

/// A remote peer, with the ID of its main cursor in the project if it has
/// any cursor there.
#[derive(Debug, Clone)]
pub struct RemotePeer {
    pub peer: Peer,
    pub main_cursor_id: Option<u64>,
}

impl RemotePeer {
    /// The remote peer `peer`, whose main cursor is found among `cursors`
    /// (each given as its owner and its ID).
    pub fn new(peer: Peer, cursors: &Vec<(u64, u64)>) -> (r: RemotePeer)
        ensures
            r.peer == peer,
            match r.main_cursor_id {
                Some(m) => is_main_cursor(cursors@, peer.id, m),
                None => owns_no_cursor(cursors@, peer.id),
            },
    {
        let main = main_cursor_id(cursors, peer.id);
        RemotePeer { peer, main_cursor_id: main }
    }

    /// A copy of the remote peer.
    pub fn duplicate(&self) -> (r: RemotePeer)
        ensures
            r == *self,
    {
        RemotePeer { peer: self.peer.duplicate(), main_cursor_id: self.main_cursor_id }
    }
}

/// The peers of `peers` by their IDs, as collecting them into a map gives
/// them: a later peer with the same ID as an earlier one replaces it.
pub open spec fn peers_by_id(peers: Seq<Peer>) -> Map<u64, Peer>
    decreases peers.len(),
{
    if peers.len() == 0 {
        Map::empty()
    } else {
        peers_by_id(peers.drop_last()).insert(peers.last().id, peers.last())
    }
}

/// Whether `r` is the remote peer made of `peer` in a project whose cursors
/// are `cursors`.
pub open spec fn follows(r: RemotePeer, peer: Peer, cursors: Seq<(u64, u64)>) -> bool {
    &&& r.peer == peer
    &&& match r.main_cursor_id {
        Some(m) => is_main_cursor(cursors, peer.id, m),
        None => owns_no_cursor(cursors, peer.id),
    }
}

/// Whether `h` starts with `prefix` and is the handle of one of `peers`.
pub open spec fn is_prefixed_handle(peers: Map<u64, RemotePeer>, h: Seq<char>, prefix: Seq<char>) -> bool {
    &&& prefix.is_prefix_of(h)
    &&& exists|id: u64| #[trigger] peers.contains_key(id) && peers[id].peer.handle@ == h
}

/// Whether `p` is one of the remote peers `peers`.
pub open spec fn is_peer_of(peers: Map<u64, RemotePeer>, p: Peer) -> bool {
    exists|id: u64| #[trigger] peers.contains_key(id) && peers[id].peer == p
}

/// The remote peers currently in a session, by their IDs.
#[derive(Debug)]
pub struct RemotePeers {
    inner: HashMap<u64, RemotePeer>,
}

impl View for RemotePeers {
    type V = Map<u64, RemotePeer>;

    closed spec fn view(&self) -> Map<u64, RemotePeer> {
        self.inner@
    }
}

impl RemotePeers {
    /// Each peer is stored under its own ID.
    pub open spec fn wf(&self) -> bool {
        forall|id: u64| #[trigger] self@.contains_key(id) ==> self@[id].peer.id == id
    }

    /// The remote peers `peers`, each with its main cursor among `cursors`
    /// (each cursor given as its owner and its ID).
    pub fn new(peers: Vec<Peer>, cursors: &Vec<(u64, u64)>) -> (r: RemotePeers)
        ensures
            r.wf(),
            r@.dom() == peers_by_id(peers@).dom(),
            forall|id: u64| #[trigger] r@.contains_key(id) ==> follows(r@[id], peers_by_id(peers@)[id], cursors@),
    {
        broadcast use vstd::std_specs::hash::group_hash_axioms;
        let mut inner: HashMap<u64, RemotePeer> = HashMap::new();
        let mut i: usize = 0;
        while i < peers.len()
            invariant
                i <= peers@.len(),
                inner@.dom() == peers_by_id(peers@.take(i as int)).dom(),
                forall|id: u64| #[trigger] inner@.contains_key(id) ==> follows(inner@[id], peers_by_id(peers@.take(i as int))[id], cursors@),
                forall|id: u64| #[trigger] inner@.contains_key(id) ==> peers_by_id(peers@.take(i as int))[id].id == id,
            decreases peers@.len() - i,
        {
            let p = peers[i].duplicate();
            proof {
                assert(peers@.take(i as int + 1).drop_last() == peers@.take(i as int));
            }
            let id = p.id;
            let rp = RemotePeer::new(p, cursors);
            inner.insert(id, rp);
            i += 1;
        }
        proof { assert(peers@.take(peers@.len() as int) == peers@); }
        RemotePeers { inner }
    }

    /// The remote peer with the given ID, if any.
    pub fn get(&self, peer_id: u64) -> (r: Option<&RemotePeer>)
        ensures
            match r {
                Some(p) => self@.contains_key(peer_id) && *p == self@[peer_id],
                None => !self@.contains_key(peer_id),
            },
    {
        broadcast use vstd::std_specs::hash::group_hash_axioms;
        self.inner.get(&peer_id)
    }

    /// Adds a peer that just joined; no peer with its ID may be in the
    /// session already.
    pub fn insert(&mut self, peer: Peer, cursors: &Vec<(u64, u64)>)
        requires
            old(self).wf(),
            !old(self)@.contains_key(peer.id),
        ensures
            final(self).wf(),
            final(self)@.dom() == old(self)@.dom().insert(peer.id),
            forall|id: u64| #[trigger] old(self)@.contains_key(id) ==> final(self)@[id] == old(self)@[id],
            follows(final(self)@[peer.id], peer, cursors@),
    {
        broadcast use vstd::std_specs::hash::group_hash_axioms;
        let id = peer.id;
        let rp = RemotePeer::new(peer, cursors);
        self.inner.insert(id, rp);
    }

    /// Removes a peer that left and returns it; it must be in the session.
    pub fn remove(&mut self, peer_id: u64) -> (r: RemotePeer)
        requires
            old(self).wf(),
            old(self)@.contains_key(peer_id),
        ensures
            final(self).wf(),
            r == old(self)@[peer_id],
            final(self)@ == old(self)@.remove(peer_id),
    {
        broadcast use vstd::std_specs::hash::group_hash_axioms;
        match self.inner.remove(&peer_id) {
            Some(r) => r,
            None => {
                proof { assert(false); }
                RemotePeer { peer: Peer { id: peer_id, handle: String::new() }, main_cursor_id: None }
            },
        }
    }

    /// The IDs of the remote peers, each once, in no given order.
    pub fn ids(&self) -> (r: Vec<u64>)
        ensures
            r@.to_set() == self@.dom(),
            r@.no_duplicates(),
    {
        broadcast use vstd::std_specs::hash::group_hash_axioms;
        let ghost keys = vstd::std_specs::iter::IteratorSpec::remaining(
            &vstd::std_specs::hash::spec_keys_iter(&self.inner),
        ).unref();
        let mut ids: Vec<u64> = Vec::new();
        for k in it: self.inner.keys()
            invariant
                ids@ == it.seq().unref().take(it.index()),
        {
            ids.push(*k);
            proof {
                assert(it.seq().unref().take(it.index() + 1) == it.seq().unref().take(it.index()).push(*k));
            }
        }
        proof {
            assert(keys.to_set() == self@.dom());
            assert(keys.no_duplicates());
        }
        assert(ids@ == keys);
        ids
    }

    /// The handles of the remote peers that start with `prefix`, each peer's
    /// once, in no given order.
    pub fn handles_with_prefix(&self, prefix: &str) -> (r: Vec<String>)
        ensures
            forall|j: int| 0 <= j < r@.len() ==> is_prefixed_handle(self@, #[trigger] r@[j]@, prefix@),
            forall|id: u64| #[trigger] self@.contains_key(id) && prefix@.is_prefix_of(self@[id].peer.handle@)
                ==> exists|j: int| 0 <= j < r@.len() && r@[j]@ == self@[id].peer.handle@,
    {
        broadcast use vstd::std_specs::hash::group_hash_axioms;
        let ids = self.ids();
        let p = chars_of(prefix);
        let mut out: Vec<String> = Vec::new();
        let mut i: usize = 0;
        while i < ids.len()
            invariant
                ids@.to_set() == self@.dom(),
                p@ == prefix@,
                i <= ids@.len(),
                forall|j: int| 0 <= j < out@.len() ==> is_prefixed_handle(self@, #[trigger] out@[j]@, prefix@),
                forall|k: int| 0 <= k < i && #[trigger] prefix@.is_prefix_of(self@[ids@[k]].peer.handle@)
                    ==> exists|j: int| 0 <= j < out@.len() && out@[j]@ == self@[ids@[k]].peer.handle@,
            decreases ids@.len() - i,
        {
            let id = ids[i];
            proof { assert(ids@.to_set().contains(id)); }
            let rp = self.inner.get(&id).unwrap();
            let h = chars_of(rp.peer.handle.as_str());
            if crate::text::has_prefix(&h, &p) {
                let ghost before = out@;
                out.push(rp.peer.handle.clone());
                proof {
                    assert(out@[before.len() as int]@ == self@[id].peer.handle@);
                    assert forall|j: int| 0 <= j < out@.len() implies is_prefixed_handle(self@, #[trigger] out@[j]@, prefix@) by {
                        if j < before.len() {
                            assert(out@[j] == before[j]);
                        } else {
                            assert(self@.contains_key(id));
                        }
                    }
                    assert forall|k: int| 0 <= k < i + 1 && #[trigger] prefix@.is_prefix_of(self@[ids@[k]].peer.handle@)
                        implies exists|j: int| 0 <= j < out@.len() && out@[j]@ == self@[ids@[k]].peer.handle@ by {
                        if k < i {
                            let j = choose|j: int| 0 <= j < before.len() && before[j]@ == self@[ids@[k]].peer.handle@;
                            assert(out@[j] == before[j]);
                        } else {
                            assert(out@[before.len() as int]@ == self@[ids@[k]].peer.handle@);
                        }
                    }
                }
            }
            i += 1;
        }
        proof {
            assert forall|id: u64| #[trigger] self@.contains_key(id) && prefix@.is_prefix_of(self@[id].peer.handle@)
                implies exists|j: int| 0 <= j < out@.len() && out@[j]@ == self@[id].peer.handle@ by {
                assert(ids@.to_set().contains(id));
                assert(ids@.contains(id));
                let k = choose|k: int| 0 <= k < ids@.len() && ids@[k] == id;
                assert(prefix@.is_prefix_of(self@[ids@[k]].peer.handle@));
            }
        }
        out
    }

    /// Every peer of the session: the remote peers, in no given order, then
    /// the local peer.
    pub fn with_local(&self, local: &Peer) -> (r: Vec<Peer>)
        ensures
            r@.len() == self@.len() + 1,
            r@.last() == *local,
            forall|j: int| 0 <= j < r@.len() - 1 ==> is_peer_of(self@, #[trigger] r@[j]),
            forall|id: u64| #[trigger] self@.contains_key(id) ==> exists|j: int| 0 <= j < r@.len() - 1
                && r@[j] == self@[id].peer,
    {
        broadcast use vstd::std_specs::hash::group_hash_axioms;
        let ids = self.ids();
        proof {
            ids@.unique_seq_to_set();
            assert(self@.dom().len() == self@.len());
        }
        let mut out: Vec<Peer> = Vec::new();
        let mut i: usize = 0;
        while i < ids.len()
            invariant
                ids@.to_set() == self@.dom(),
                i <= ids@.len(),
                out@.len() == i,
                forall|j: int| 0 <= j < i ==> #[trigger] out@[j] == self@[ids@[j]].peer,
            decreases ids@.len() - i,
        {
            let id = ids[i];
            proof { assert(ids@.to_set().contains(id)); }
            let rp = self.inner.get(&id).unwrap();
            out.push(rp.peer.duplicate());
            i += 1;
        }
        let ghost remote = out@;
        out.push(local.duplicate());
        proof {
            assert forall|j: int| 0 <= j < out@.len() - 1 implies is_peer_of(self@, #[trigger] out@[j]) by {
                assert(out@[j] == remote[j]);
                assert(ids@.to_set().contains(ids@[j]));
            }
            assert forall|id: u64| #[trigger] self@.contains_key(id) implies exists|j: int| 0 <= j < out@.len() - 1
                && out@[j] == self@[id].peer by {
                assert(ids@.to_set().contains(id));
                assert(ids@.contains(id));
                let k = choose|k: int| 0 <= k < ids@.len() && ids@[k] == id;
                assert(out@[k] == remote[k]);
            }
        }
        out
    }

    /// The number of remote peers.
    pub fn len(&self) -> (r: usize)
        ensures
            r == self@.len(),
    {
        broadcast use vstd::std_specs::hash::group_hash_axioms;
        self.inner.len()
    }

    /// A remote peer with the given handle, if any.
    pub fn find_by_handle(&self, handle: &str) -> (r: Option<&RemotePeer>)
        ensures
            match r {
                Some(p) => p.peer.handle@ == handle@ && self@.values().contains(*p),
                None => forall|id: u64| #[trigger] self@.contains_key(id) ==> self@[id].peer.handle@ != handle@,
            },
    {
        broadcast use vstd::std_specs::hash::group_hash_axioms;
        let target = chars_of(handle);
        proof {
            let vals = vstd::std_specs::iter::IteratorSpec::remaining(&vstd::std_specs::hash::spec_values_iter(&self.inner)).unref();
            assert forall|id: u64| #[trigger] self@.contains_key(id) implies exists|j: int| 0 <= j < vals.len() && vals[j] == self@[id] by {
                assert(self@.values().contains(self@[id]));
                assert(vals.to_set().contains(self@[id]));
                assert(vals.contains(self@[id]));
            }
        }
        for p in it: self.inner.values()
            invariant
                target@ == handle@,
                it.seq().unref().to_set() == self@.values(),
                forall|id: u64| #[trigger] self@.contains_key(id) ==> self@[id].peer.handle@ != handle@
                    || exists|j: int| it.index() <= j < it.seq().len() && it.seq().unref()[j] == self@[id],
        {
            let h = chars_of(p.peer.handle.as_str());
            if crate::paths::chars_eq(&h, &target) {
                proof {
                    assert(it.seq().unref()[it.index()] == *p);
                    assert(it.seq().unref().to_set().contains(*p));
                }
                return Some(p);
            }
        }
        None
    }
}


/// A peer that joined and then left is handed back as it was added, and the
/// session's peers are then as they were before it joined: `before` and
/// `joined` are the peers before and after [`RemotePeers::insert`] of `peer`,
/// as its contract gives them.
pub proof fn lemma_join_then_leave(
    before: Map<u64, RemotePeer>,
    joined: Map<u64, RemotePeer>,
    peer: Peer,
    cursors: Seq<(u64, u64)>,
)
    requires
        !before.contains_key(peer.id),
        joined.dom() == before.dom().insert(peer.id),
        forall|id: u64| #[trigger] before.contains_key(id) ==> joined[id] == before[id],
        follows(joined[peer.id], peer, cursors),
    ensures
        joined.contains_key(peer.id),
        joined[peer.id].peer == peer,
        joined.remove(peer.id) == before,
{
    assert(joined.remove(peer.id) =~= before);
}

}
