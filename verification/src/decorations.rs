//! The tooltips and highlighted selections drawn for remote peers' cursors
//! and selections, by the IDs of those cursors and selections.
use std::collections::HashMap;
use vstd::prelude::*;

use crate::id_maps::IdMaps;
use crate::peers::RemotePeers;

verus! {

/// What removing the decorations of `ids`, one after the other, takes out of
/// `m`: the decorations removed, in the order of `ids`, and what is left.
pub open spec fn removal<T>(m: Map<u64, T>, ids: Seq<u64>) -> (Seq<T>, Map<u64, T>)
    decreases ids.len(),
{
    if ids.len() == 0 {
        (Seq::empty(), m)
    } else {
        let (taken, rest) = removal(m, ids.drop_last());
        let id = ids.last();
        if rest.contains_key(id) {
            (taken.push(rest[id]), rest.remove(id))
        } else {
            (taken, rest)
        }
    }
}

/// The decorations drawn for remote cursors or selections, by their IDs.
#[derive(Debug)]
pub struct Decorations<T> {
    inner: HashMap<u64, T>,
}

impl<T> View for Decorations<T> {
    type V = Map<u64, T>;

    closed spec fn view(&self) -> Map<u64, T> {
        self.inner@
    }
}

impl<T> Decorations<T> {
    /// No decoration.
    pub fn new() -> (r: Decorations<T>)
        ensures
            r@ == Map::<u64, T>::empty(),
    {
        Decorations { inner: HashMap::new() }
    }

    /// Keeps the decoration drawn for the cursor or selection `id`.
    pub fn insert(&mut self, id: u64, decoration: T)
        ensures
            final(self)@ == old(self)@.insert(id, decoration),
    {
        broadcast use vstd::std_specs::hash::group_hash_axioms;
        self.inner.insert(id, decoration);
    }

    /// Takes out the decoration of `id`, if there is one.
    pub fn remove(&mut self, id: u64) -> (r: Option<T>)
        ensures
            final(self)@ == old(self)@.remove(id),
            match r {
                Some(d) => old(self)@.contains_key(id) && d == old(self)@[id],
                None => !old(self)@.contains_key(id),
            },
    {
        broadcast use vstd::std_specs::hash::group_hash_axioms;
        self.inner.remove(&id)
    }

    /// Whether there is a decoration for `id`.
    pub fn contains(&self, id: u64) -> (r: bool)
        ensures
            r == self@.contains_key(id),
    {
        broadcast use vstd::std_specs::hash::group_hash_axioms;
        self.inner.contains_key(&id)
    }

    /// The number of decorations.
    pub fn len(&self) -> (r: usize)
        ensures
            r == self@.len(),
    {
        broadcast use vstd::std_specs::hash::group_hash_axioms;
        self.inner.len()
    }

    /// Takes out the decorations of `ids` (those of the cursors or
    /// selections of a peer that left), in the order of `ids`.
    pub fn remove_all(&mut self, ids: &Vec<u64>) -> (r: Vec<T>)
        ensures
            (r@, final(self)@) == removal(old(self)@, ids@),
    {
        broadcast use vstd::std_specs::hash::group_hash_axioms;
        let ghost start = self@;
        let mut out: Vec<T> = Vec::new();
        let mut i: usize = 0;
        while i < ids.len()
            invariant
                i <= ids@.len(),
                (out@, self@) == removal(start, ids@.take(i as int)),
            decreases ids@.len() - i,
        {
            proof {
                assert(ids@.take(i as int + 1).drop_last() == ids@.take(i as int));
                assert(ids@.take(i as int + 1).last() == ids@[i as int]);
            }
            match self.inner.remove(&ids[i]) {
                Some(d) => out.push(d),
                None => {
                    proof {
                        let ghost m = removal(start, ids@.take(i as int)).1;
                        assert(m.remove(ids@[i as int]) =~= m);
                    }
                },
            }
            i += 1;
        }
        proof {
            assert(ids@.take(ids@.len() as int) == ids@);
        }
        out
    }
}

/// Removing the decorations of some IDs leaves none of them, and leaves the
/// others as they were.
pub proof fn lemma_removal_clears<T>(m: Map<u64, T>, ids: Seq<u64>)
    ensures
        forall|id: u64| ids.contains(id) ==> !(#[trigger] removal(m, ids).1.contains_key(id)),
        forall|id: u64| !ids.contains(id) && m.contains_key(id) ==> #[trigger] removal(m, ids).1.contains_key(id)
            && removal(m, ids).1[id] == m[id],
        forall|id: u64| !m.contains_key(id) ==> !(#[trigger] removal(m, ids).1.contains_key(id)),
    decreases ids.len(),
{
    if ids.len() > 0 {
        let prev = ids.drop_last();
        lemma_removal_clears(m, prev);
        let rest = removal(m, prev).1;
        let last = ids.last();
        assert(removal(m, ids).1 == (if rest.contains_key(last) { rest.remove(last) } else { rest }));
        assert forall|id: u64| ids.contains(id) implies !(#[trigger] removal(m, ids).1.contains_key(id)) by {
            if id != last {
                let k = choose|k: int| 0 <= k < ids.len() && ids[k] == id;
                assert(k < ids.len() - 1);
                assert(prev[k] == id);
                assert(prev.contains(id));
                assert(!rest.contains_key(id));
            }
        }
        assert forall|id: u64| !ids.contains(id) && m.contains_key(id) implies #[trigger] removal(m, ids).1.contains_key(id)
            && removal(m, ids).1[id] == m[id] by {
            assert(ids[ids.len() - 1] == last);
            assert(id != last);
            if prev.contains(id) {
                let k = choose|k: int| 0 <= k < prev.len() && prev[k] == id;
                assert(ids[k] == id);
            }
            assert(rest.contains_key(id));
        }
        assert forall|id: u64| !m.contains_key(id) implies !(#[trigger] removal(m, ids).1.contains_key(id)) by {
            assert(!rest.contains_key(id));
        }
    }
}

/// The buffer in which to draw the decoration of a cursor or selection of
/// `owner` in the project file `file_id`: the file's open buffer, when the
/// owner is a remote peer of the session and the file is open.
pub fn decoration_buffer(peers: &RemotePeers, owner: u64, maps: &IdMaps, file_id: u64) -> (r: Option<u64>)
    ensures
        r == (if peers@.contains_key(owner) && maps@.file2buffer.contains_key(file_id) {
            Some(maps@.file2buffer[file_id])
        } else {
            None
        }),
{
    match peers.get(owner) {
        Some(_) => maps.buffer_of_file(file_id),
        None => None,
    }
}

}
