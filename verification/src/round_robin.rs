//! Polling a list of event streams fairly: each round starts at a random
//! position, goes round the list once, and drops the streams that ended.
use vstd::prelude::*;

verus! {

/// What `fastrand::Rng::usize(0..n)` gives on a generator whose state is
/// `seed`, on a target whose pointers have `pointer_bits` bits: the number
/// it draws, then the generator's new state.
pub uninterp spec fn usize_draw(seed: u64, n: usize, pointer_bits: u32) -> (usize, u64);

/// Draws a `usize` in `0..n` with `fastrand::Rng::usize` from a generator
/// seeded with `seed` (`Rng::with_seed`), and reads back the generator's
/// state (`Rng::get_seed`). The source panics on an empty range and draws
/// within the range otherwise. Its arithmetic depends on the target's
/// pointer width, so the pair is named by `usize_draw` of the seed, the
/// bound and that width.
#[verifier::external_body]
fn rng_usize_below(seed: u64, n: usize) -> (r: (usize, u64))
    requires
        n > 0,
    ensures
        r == usize_draw(seed, n, usize::BITS),
        r.0 < n,
{
    let mut rng = fastrand::Rng::with_seed(seed);
    let i = rng.usize(0..n);
    (i, rng.get_seed())
}

/// What polling one stream of the list gave.
#[derive(Debug, Clone, Copy, PartialEq, Eq, Structural)]
pub enum PollOutcome {
    /// The stream yielded an item.
    Item,
    /// The stream has ended; it leaves the list.
    Ended,
    /// The stream has nothing yet.
    Pending,
}

/// What to do next in a round.
#[derive(Debug, Clone, Copy, PartialEq, Eq, Structural)]
pub enum RoundStep {
    /// Hand the item just polled to the caller; the round is over.
    Yield,
    /// Remove the stream at the given position (it ended), moving the
    /// streams after it one place down so that their order is kept, then
    /// poll the stream at the round's current position.
    RemoveThenPoll(usize),
    /// Poll the stream at the given position.
    Poll(usize),
    /// Remove the stream at the given position if it is given (it ended),
    /// keeping the order of the others; every stream was polled once and
    /// the round is over.
    EndOfRound(Option<usize>),
}

/// The streams `0..n`, by the positions they had when a round started.
pub open spec fn all_streams(n: nat) -> Set<nat> {
    Set::new(|i: nat| i < n)
}

/// One round over a list of streams. The streams are known by the position
/// each had in the list when the round started; the list keeps its order as
/// streams leave it.
pub struct PollRound {
    initial_len: usize,
    len: usize,
    idx: usize,
    num_checked: usize,
    num_loop_after: usize,
    streams: Ghost<Seq<nat>>,
    polled: Ghost<Set<nat>>,
}

impl PollRound {
    /// The number of streams when the round started.
    pub closed spec fn initial_len(&self) -> nat {
        self.initial_len as nat
    }

    /// The number of streams now in the list.
    pub closed spec fn len(&self) -> nat {
        self.len as nat
    }

    /// The position of the next stream to poll.
    pub closed spec fn index(&self) -> nat {
        self.idx as nat
    }

    /// The number of streams polled so far in the round.
    pub closed spec fn checked(&self) -> nat {
        self.num_checked as nat
    }

    /// The number of streams polled before the round goes back to the
    /// start of the list: those from the starting position to the end.
    pub closed spec fn loop_after(&self) -> nat {
        self.num_loop_after as nat
    }

    /// The streams now in the list, in order, each known by its position
    /// when the round started.
    pub closed spec fn streams(&self) -> Seq<nat> {
        self.streams@
    }

    /// The streams polled so far in the round.
    pub closed spec fn polled(&self) -> Set<nat> {
        self.polled@
    }

    /// The position at which the round started.
    closed spec fn start_pos(&self) -> int {
        self.initial_len - self.num_loop_after
    }

    /// How many streams the round polls before the stream that started at
    /// position `i`.
    closed spec fn offset(&self, i: nat) -> int {
        if i >= self.start_pos() { i - self.start_pos() } else { i + self.num_loop_after }
    }

    /// The stream the round polls after `c` streams.
    closed spec fn nth_polled(&self, c: int) -> int {
        if c < self.num_loop_after { self.start_pos() + c } else { c - self.num_loop_after }
    }

    /// The round is under way: the list keeps the order the streams had, the
    /// streams polled are those the round reached, every other stream is
    /// still in the list, and the next position holds the next of them.
    pub closed spec fn wf(&self) -> bool {
        &&& 0 < self.num_loop_after <= self.initial_len
        &&& self.num_checked < self.initial_len
        &&& self.streams@.len() == self.len
        &&& self.len <= self.initial_len
        &&& forall|a: int, b: int| 0 <= a < b < self.streams@.len() ==> self.streams@[a] < self.streams@[b]
        &&& forall|j: int| 0 <= j < self.streams@.len() ==> self.streams@[j] < self.initial_len
        &&& forall|i: nat| self.polled@.contains(i) <==> (i < self.initial_len && self.offset(i) < self.num_checked)
        &&& forall|i: nat| i < self.initial_len && self.offset(i) >= self.num_checked ==> self.streams@.contains(i)
        &&& self.idx < self.len
        &&& self.streams@[self.idx as int] == self.nth_polled(self.num_checked as int)
    }

    /// Starts a round over a list of `len` streams, at a position drawn from
    /// the generator in state `*seed`, which moves on. An empty list has no
    /// round.
    pub fn start(len: usize, seed: &mut u64) -> (r: Option<PollRound>)
        ensures
            match r {
                None => len == 0 && *final(seed) == *old(seed),
                Some(round) => len > 0 && round.wf() && round.initial_len() == len && round.len() == len
                    && round.checked() == 0 && round.index() < len
                    && (round.index() as usize, *final(seed)) == usize_draw(*old(seed), len, usize::BITS)
                    && round.loop_after() == len - round.index()
                    && round.streams() == Seq::new(len as nat, |i: int| i as nat)
                    && round.polled() == Set::<nat>::empty(),
            },
    {
        if len == 0 {
            return None;
        }
        let (idx, next) = rng_usize_below(*seed, len);
        *seed = next;
        Some(PollRound::starting_at(len, idx))
    }

    /// A round over a list of `len` streams that starts at position `idx`.
    pub fn starting_at(len: usize, idx: usize) -> (r: PollRound)
        requires
            idx < len,
        ensures
            r.wf(),
            r.initial_len() == len,
            r.len() == len,
            r.checked() == 0,
            r.index() == idx,
            r.loop_after() == len - idx,
            r.streams() == Seq::new(len as nat, |i: int| i as nat),
            r.polled() == Set::<nat>::empty(),
    {
        let r = PollRound {
            initial_len: len,
            len,
            idx,
            num_checked: 0,
            num_loop_after: len - idx,
            streams: Ghost(Seq::new(len as nat, |i: int| i as nat)),
            polled: Ghost(Set::empty()),
        };
        proof {
            assert forall|i: nat| i < len && r.offset(i) >= 0 implies r.streams@.contains(i) by {
                assert(r.streams@[i as int] == i);
            }
        }
        r
    }

    /// The position of the next stream to poll; it is in the list.
    pub fn current(&self) -> (r: usize)
        requires
            self.wf(),
        ensures
            r == self.index(),
            r < self.len(),
    {
        self.idx
    }

    /// Moves the round on after the stream at the current position was
    /// polled with the given outcome. The stream polled had not been polled
    /// in the round; after a pending stream the round moves to the next
    /// position, after an ended one (which leaves the list) it stays, and
    /// once the streams up to the end of the list were polled it goes back
    /// to the start. After as many polls as the list first had streams,
    /// every one of them was polled, once each.
    pub fn advance(&mut self, outcome: PollOutcome) -> (r: RoundStep)
        requires
            old(self).wf(),
        ensures
            !old(self).polled().contains(old(self).streams()[old(self).index() as int]),
            outcome == PollOutcome::Item ==> r == RoundStep::Yield && *final(self) == *old(self),
            outcome != PollOutcome::Item ==> final(self).polled()
                == old(self).polled().insert(old(self).streams()[old(self).index() as int]),
            outcome == PollOutcome::Ended ==> final(self).len() == old(self).len() - 1
                && final(self).streams() == old(self).streams().remove(old(self).index() as int),
            outcome == PollOutcome::Pending ==> final(self).len() == old(self).len()
                && final(self).streams() == old(self).streams(),
            final(self).initial_len() == old(self).initial_len(),
            final(self).loop_after() == old(self).loop_after(),
            final(self).checked() == (if outcome == PollOutcome::Item { old(self).checked() } else { old(self).checked() + 1 }),
            match r {
                RoundStep::Yield => outcome == PollOutcome::Item,
                RoundStep::RemoveThenPoll(i) => outcome == PollOutcome::Ended && i == old(self).index()
                    && final(self).wf(),
                RoundStep::Poll(_) => outcome == PollOutcome::Pending && final(self).wf(),
                RoundStep::EndOfRound(removed) => outcome != PollOutcome::Item
                    && final(self).checked() == final(self).initial_len()
                    && final(self).polled() == all_streams(final(self).initial_len())
                    && removed == (if outcome == PollOutcome::Ended { Some(old(self).index() as usize) } else { None }),
            },
            (r is RemoveThenPoll || r is Poll) ==> final(self).index() == (
                if final(self).checked() == final(self).loop_after() { 0 }
                else if outcome == PollOutcome::Pending { old(self).index() + 1 }
                else { old(self).index() }),
            r matches RoundStep::Poll(i) ==> i == final(self).index(),
            (r is Poll || r is RemoveThenPoll) ==> final(self).checked() < final(self).initial_len(),
            (r is EndOfRound) <==> (outcome != PollOutcome::Item && final(self).checked() == final(self).initial_len()),
    {
        let ghost old_self = *self;
        let ghost id = self.streams@[self.idx as int];
        let removed: Option<usize> = match outcome {
            PollOutcome::Item => return RoundStep::Yield,
            PollOutcome::Ended => {
                let at = self.idx;
                self.len = self.len - 1;
                self.streams = Ghost(self.streams@.remove(at as int));
                Some(at)
            },
            PollOutcome::Pending => {
                self.idx = self.idx + 1;
                None
            },
        };
        self.num_checked = self.num_checked + 1;
        self.polled = Ghost(self.polled@.insert(id));
        proof {
            lemma_offset_of_nth(old_self, old_self.num_checked as int);
            assert forall|i: nat| self.polled@.contains(i) <==> (i < self.initial_len && self.offset(i) < self.num_checked) by {
                if i < self.initial_len && self.offset(i) == old_self.num_checked {
                    lemma_offset_injective(old_self, i, id);
                }
            }
        }
        if self.num_checked == self.initial_len {
            proof {
                assert(self.polled@ =~= all_streams(self.initial_len as nat)) by {
                    assert forall|i: nat| i < self.initial_len implies self.offset(i) < self.num_checked by {}
                }
            }
            return RoundStep::EndOfRound(removed);
        }
        if self.num_checked == self.num_loop_after {
            self.idx = 0;
        }
        proof {
            lemma_next_in_place(old_self, *self, outcome == PollOutcome::Ended);
        }
        match removed {
            Some(at) => RoundStep::RemoveThenPoll(at),
            None => RoundStep::Poll(self.idx),
        }
    }
}

/// The stream polled after `c` streams is the one with that offset.
proof fn lemma_offset_of_nth(r: PollRound, c: int)
    requires
        0 < r.num_loop_after <= r.initial_len,
        0 <= c < r.initial_len,
    ensures
        0 <= r.nth_polled(c) < r.initial_len,
        r.offset(r.nth_polled(c) as nat) == c,
{
}

/// Two streams with the same offset are the same.
proof fn lemma_offset_injective(r: PollRound, i: nat, j: nat)
    requires
        0 < r.num_loop_after <= r.initial_len,
        i < r.initial_len,
        j < r.initial_len,
        r.offset(i) == r.offset(j),
    ensures
        i == j,
{
}

/// After a stream was polled, and taken out of the list if it ended, the
/// round's new position holds the next stream to poll, and the other
/// properties of a round under way still hold.
proof fn lemma_next_in_place(o: PollRound, n: PollRound, ended: bool)
    requires
        o.wf(),
        n.initial_len == o.initial_len,
        n.num_loop_after == o.num_loop_after,
        n.num_checked == o.num_checked + 1,
        n.num_checked < n.initial_len,
        ended ==> n.len == o.len - 1 && n.streams@ == o.streams@.remove(o.idx as int),
        !ended ==> n.len == o.len && n.streams@ == o.streams@,
        n.idx == (if n.num_checked == n.num_loop_after { 0 } else if ended { o.idx as int } else { o.idx + 1 }),
        forall|i: nat| n.polled@.contains(i) <==> (i < n.initial_len && n.offset(i) < n.num_checked),
    ensures
        n.wf(),
{
    let id = o.streams@[o.idx as int];
    lemma_offset_of_nth(o, o.num_checked as int);
    lemma_offset_of_nth(n, n.num_checked as int);
    let next = n.nth_polled(n.num_checked as int);
    // The list stays in order, within range.
    assert forall|a: int, b: int| 0 <= a < b < n.streams@.len() implies n.streams@[a] < n.streams@[b] by {
        if ended {
            if a >= o.idx { assert(n.streams@[a] == o.streams@[a + 1]); } else { assert(n.streams@[a] == o.streams@[a]); }
            if b >= o.idx { assert(n.streams@[b] == o.streams@[b + 1]); } else { assert(n.streams@[b] == o.streams@[b]); }
        }
    }
    assert forall|j: int| 0 <= j < n.streams@.len() implies n.streams@[j] < n.initial_len by {
        if ended {
            if j >= o.idx { assert(n.streams@[j] == o.streams@[j + 1]); } else { assert(n.streams@[j] == o.streams@[j]); }
        }
    }
    // The streams not yet polled are still in the list.
    assert forall|i: nat| i < n.initial_len && n.offset(i) >= n.num_checked implies n.streams@.contains(i) by {
        assert(o.streams@.contains(i));
        let p = choose|p: int| 0 <= p < o.streams@.len() && o.streams@[p] == i;
        if ended {
            if p == o.idx {
                lemma_offset_injective(o, i, id as nat);
            } else if p < o.idx {
                assert(n.streams@[p] == i);
            } else {
                assert(n.streams@[p - 1] == i);
            }
        } else {
            assert(n.streams@[p] == i);
        }
    }
    // The next stream to poll sits at the new position.
    assert(n.streams@.contains(next as nat));
    let q = choose|q: int| 0 <= q < n.streams@.len() && n.streams@[q] == next;
    if n.num_checked == n.num_loop_after {
        assert(next == 0);
        if q > 0 {
            assert(n.streams@[0] < n.streams@[q]);
        }
    } else {
        assert(next == id + 1);
        // Every stream before the old position came before `id`.
        if ended {
            if q < o.idx {
                assert(n.streams@[q] == o.streams@[q]);
                assert(o.streams@[q] < o.streams@[o.idx as int]);
            } else if q > o.idx {
                assert(n.streams@[q] == o.streams@[q + 1]);
                assert(n.streams@[o.idx as int] == o.streams@[o.idx + 1]);
                assert(o.streams@[o.idx as int] < o.streams@[o.idx + 1]);
                assert(o.streams@[o.idx + 1] < o.streams@[q + 1]);
            }
        } else {
            if q <= o.idx {
                assert(o.streams@[q] <= o.streams@[o.idx as int]);
            } else if q > o.idx + 1 {
                assert(o.streams@[o.idx as int] < o.streams@[o.idx + 1]);
                assert(o.streams@[o.idx + 1] < o.streams@[q]);
            }
        }
    }
}

/// Whether a round over an event stream list that ended with `len` streams
/// left reports that the list has ended: only when no stream is left.
pub fn list_round_ended(len: usize) -> (r: bool)
    ensures
        r == (len == 0),
{
    len == 0
}

/// Whether a round that found no item ends the polled stream, with `len`
/// streams left: a list polled as one event stream ends only once no
/// stream is left (`pending_while_non_empty`); a list polled as a sequence
/// ends after any such round.
pub fn round_ends_stream(pending_while_non_empty: bool, len: usize) -> (r: bool)
    ensures
        r == (!pending_while_non_empty || len == 0),
{
    !pending_while_non_empty || list_round_ended(len)
}

}
