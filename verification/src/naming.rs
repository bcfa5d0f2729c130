//! New names for two nodes whose names clash in the same directory.
//!
//! When two peers concurrently create a node with the same name, each node is
//! first renamed after its creator's handle ("lib.rs-alice" and
//! "lib.rs-bob"). If that still clashes, or the clash comes from a move, the
//! nodes get random suffixes drawn from two generators whose seeds are derived
//! from the nodes' creators, so that peers on machines of the same pointer
//! width try the same new names.
use vstd::prelude::*;

use crate::text::{chars_of, push_chars, push_str, string_of};

verus! {

/// What `fastrand::Rng::u64(..)` gives on a generator whose state is `seed`:
/// the number it draws, then the generator's new state. One step of the
/// wyrand generator: the state moves on by a constant (wrapping), and the
/// number is the exclusive or of the two halves of the 128-bit product of
/// the new state and the new state xor a second constant.
pub open spec fn rng_u64_step(seed: u64) -> (u64, u64) {
    let s = ((seed + 0x2d35_8dcc_aa6c_78a5int) % 0x1_0000_0000_0000_0000int) as u64;
    let t: int = (s as int) * ((s ^ 0x8bb8_4b93_962e_acc9u64) as int);
    ((((t % 0x1_0000_0000_0000_0000int) as u64) ^ ((t / 0x1_0000_0000_0000_0000int) as u64)), s)
}

/// What `fastrand::Rng::alphanumeric` gives on a generator whose state is
/// `seed`, on a target whose pointers have `pointer_bits` bits: the
/// character it draws, then the generator's new state.
pub uninterp spec fn alnum_draw(seed: u64, pointer_bits: u32) -> (char, u64);

/// Whether `c` is an ASCII letter or digit.
pub open spec fn is_ascii_alphanumeric(c: char) -> bool {
    ('a' <= c && c <= 'z') || ('A' <= c && c <= 'Z') || ('0' <= c && c <= '9')
}

/// Whether `c` is an ASCII lowercase letter or digit.
pub open spec fn is_lower_alphanumeric(c: char) -> bool {
    ('a' <= c && c <= 'z') || ('0' <= c && c <= '9')
}

/// Draws a `u64` from a `fastrand::Rng` seeded with `seed`
/// (`Rng::with_seed`, then `Rng::u64(..)`), and reads back the generator's
/// state (`Rng::get_seed`). A full-range `u64` is one step of the generator,
/// the same on every target; the pair is what `rng_u64_step` says.
#[verifier::external_body]
fn rng_u64(seed: u64) -> (r: (u64, u64))
    ensures
        r == rng_u64_step(seed),
{
    let mut rng = fastrand::Rng::with_seed(seed);
    let n = rng.u64(..);
    (n, rng.get_seed())
}

/// Draws a character with `fastrand::Rng::alphanumeric` from a generator
/// seeded with `seed`, and reads back the generator's state. The source picks
/// it from `A-Z`, `a-z` and `0-9`. Which one it picks, and the state the
/// generator is left in, go through `Rng::usize`, whose arithmetic depends on
/// the target's pointer width: the pair is named by `alnum_draw` of the seed
/// and that width.
#[verifier::external_body]
fn rng_alphanumeric(seed: u64) -> (r: (char, u64))
    ensures
        r == alnum_draw(seed, usize::BITS),
        is_ascii_alphanumeric(r.0),
{
    let mut rng = fastrand::Rng::with_seed(seed);
    let c = rng.alphanumeric();
    (c, rng.get_seed())
}

/// The ASCII lowercase form of `c`.
pub open spec fn ascii_lower(c: char) -> char {
    if 'A' <= c && c <= 'Z' {
        ((c as u32) + 32) as char
    } else {
        c
    }
}

/// The ASCII lowercase form of `c` (`char::to_ascii_lowercase`).
pub fn to_ascii_lower(c: char) -> (r: char)
    ensures
        r == ascii_lower(c),
{
    if 'A' <= c && c <= 'Z' {
        let b: u8 = c as u8;
        assert(b + 32 < 256);
        ((b + 32) as u8) as char
    } else {
        c
    }
}

/// The two seeds of the generators that draw the suffixes of the
/// conflicting and of the existing node: their creators' IDs when they
/// differ, else two numbers drawn from a generator seeded with the creator.
pub open spec fn suffix_seeds(conflicting_creator: u64, existing_creator: u64) -> (u64, u64) {
    if conflicting_creator != existing_creator {
        (conflicting_creator, existing_creator)
    } else {
        let (a, s) = rng_u64_step(existing_creator);
        (a, rng_u64_step(s).0)
    }
}

/// The first `n` characters a suffix generator in state `seed` draws on a
/// target with `pointer_bits`-bit pointers, lowercased, and its state
/// afterwards.
pub open spec fn suffix_draw(seed: u64, pointer_bits: u32, n: nat) -> (Seq<char>, u64)
    decreases n,
{
    if n == 0 {
        (Seq::empty(), seed)
    } else {
        let (prev, s) = suffix_draw(seed, pointer_bits, (n - 1) as nat);
        let (c, s2) = alnum_draw(s, pointer_bits);
        (prev.push(ascii_lower(c)), s2)
    }
}

/// The state of a suffix generator that started in state `seed`, after `k`
/// suffixes were drawn.
pub open spec fn seed_after(seed: u64, pointer_bits: u32, k: nat) -> u64
    decreases k,
{
    if k == 0 {
        seed
    } else {
        suffix_draw(seed_after(seed, pointer_bits, (k - 1) as nat), pointer_bits, SUFFIX_LEN as nat).1
    }
}

/// The names tried in round `k` (from 0) of the random renaming of the
/// conflicting node, first named `conflicting_name`, and the existing node,
/// first named `existing_name`, whose suffix generators started in the
/// states `seeds`.
pub open spec fn round_names(
    conflicting_name: Seq<char>,
    existing_name: Seq<char>,
    seeds: (u64, u64),
    pointer_bits: u32,
    k: nat,
) -> (Seq<char>, Seq<char>) {
    (
        suffixed(conflicting_name, suffix_draw(seed_after(seeds.0, pointer_bits, k), pointer_bits, SUFFIX_LEN as nat).0),
        suffixed(existing_name, suffix_draw(seed_after(seeds.1, pointer_bits, k), pointer_bits, SUFFIX_LEN as nat).0),
    )
}

/// Peers converge on the same names: two peers settling a clash between
/// nodes of the same names, created by the same peers, on machines of the
/// same pointer width, try the same pair of names in every round.
pub proof fn lemma_peers_try_same_names(
    conflicting_name: Seq<char>,
    existing_name: Seq<char>,
    conflicting_creator: u64,
    existing_creator: u64,
    other_conflicting_name: Seq<char>,
    other_existing_name: Seq<char>,
    other_conflicting_creator: u64,
    other_existing_creator: u64,
    pointer_bits: u32,
    k: nat,
)
    requires
        conflicting_name == other_conflicting_name,
        existing_name == other_existing_name,
        conflicting_creator == other_conflicting_creator,
        existing_creator == other_existing_creator,
    ensures
        round_names(conflicting_name, existing_name, suffix_seeds(conflicting_creator, existing_creator), pointer_bits, k)
            == round_names(other_conflicting_name, other_existing_name,
                suffix_seeds(other_conflicting_creator, other_existing_creator), pointer_bits, k),
{
}

/// The number of characters of a random suffix.
pub const SUFFIX_LEN: usize = 6;

/// `name`, a hyphen, and `suffix`.
pub open spec fn suffixed(name: Seq<char>, suffix: Seq<char>) -> Seq<char> {
    name + seq!['-'] + suffix
}

/// `name` followed by a hyphen and `suffix` (`"{name}-{suffix}"`).
pub fn suffixed_name(name: &str, suffix: &str) -> (r: String)
    ensures
        r@ == suffixed(name@, suffix@),
{
    let mut cs = chars_of(name);
    cs.push('-');
    push_str(&mut cs, suffix);
    string_of(cs.as_slice())
}

/// The seeds of the two suffix generators of a clash between a node created
/// by `conflicting_creator` and one created by `existing_creator`.
pub fn seeds_for(conflicting_creator: u64, existing_creator: u64) -> (r: (u64, u64))
    ensures
        r == suffix_seeds(conflicting_creator, existing_creator),
{
    if conflicting_creator != existing_creator {
        (conflicting_creator, existing_creator)
    } else {
        let (a, s) = rng_u64(existing_creator);
        let (b, _) = rng_u64(s);
        (a, b)
    }
}

/// Draws a random suffix of `SUFFIX_LEN` lowercase letters and digits from
/// the generator in state `*seed`, which moves on. Each character is one
/// `fastrand::Rng::alphanumeric` draw, lowercased.
pub fn random_suffix(seed: &mut u64) -> (r: Vec<char>)
    ensures
        (r@, *final(seed)) == suffix_draw(*old(seed), usize::BITS, SUFFIX_LEN as nat),
        r@.len() == SUFFIX_LEN,
        forall|i: int| 0 <= i < r@.len() ==> is_lower_alphanumeric(#[trigger] r@[i]),
{
    let ghost start = *seed;
    let mut out: Vec<char> = Vec::new();
    let mut i: usize = 0;
    while i < SUFFIX_LEN
        invariant
            i <= SUFFIX_LEN,
            (out@, *seed) == suffix_draw(start, usize::BITS, i as nat),
            out@.len() == i,
            forall|j: int| 0 <= j < out@.len() ==> is_lower_alphanumeric(#[trigger] out@[j]),
        decreases SUFFIX_LEN - i,
    {
        let (c, next) = rng_alphanumeric(*seed);
        let lc = to_ascii_lower(c);
        out.push(lc);
        *seed = next;
        proof {
            assert(out@[i as int] == lc);
        }
        i += 1;
    }
    out
}

/// What caused two nodes of the same directory to have the same name.
#[derive(Debug, Clone, Copy, PartialEq, Eq)]
pub enum ConflictSource {
    /// Two peers created a node with the same name.
    Creation,
    /// A node was moved or renamed onto the name of another.
    Movement,
}

/// The names first tried for a clash: after a concurrent creation, when the
/// creators of both nodes are known peers, each node's name followed by its
/// creator's handle; otherwise none, and the random suffixes are drawn at
/// once.
pub open spec fn creator_renames(
    source: ConflictSource,
    conflicting_name: Seq<char>,
    existing_name: Seq<char>,
    conflicting_creator_handle: Option<Seq<char>>,
    existing_creator_handle: Option<Seq<char>>,
) -> Option<(Seq<char>, Seq<char>)> {
    match (source, conflicting_creator_handle, existing_creator_handle) {
        (ConflictSource::Creation, Some(c), Some(e)) => Some((suffixed(conflicting_name, c), suffixed(existing_name, e))),
        _ => None,
    }
}

/// The names first tried for a clash between the conflicting node, named
/// `conflicting_name`, and the existing node, named `existing_name`, given
/// the handles of their creators among the peers of the session.
pub fn renames_after_creators(
    source: ConflictSource,
    conflicting_name: &str,
    existing_name: &str,
    conflicting_creator_handle: Option<&str>,
    existing_creator_handle: Option<&str>,
) -> (r: Option<(String, String)>)
    ensures
        match r {
            Some((c, e)) => creator_renames(source, conflicting_name@, existing_name@,
                match conflicting_creator_handle { Some(h) => Some(h@), None => None },
                match existing_creator_handle { Some(h) => Some(h@), None => None }) == Some((c@, e@)),
            None => creator_renames(source, conflicting_name@, existing_name@,
                match conflicting_creator_handle { Some(h) => Some(h@), None => None },
                match existing_creator_handle { Some(h) => Some(h@), None => None }) is None,
        },
{
    match (source, conflicting_creator_handle, existing_creator_handle) {
        (ConflictSource::Creation, Some(c), Some(e)) => Some((suffixed_name(conflicting_name, c), suffixed_name(existing_name, e))),
        _ => None,
    }
}

/// Whether `r` is `name`, a hyphen, and `SUFFIX_LEN` lowercase ASCII letters
/// or digits.
pub open spec fn has_random_suffix(r: Seq<char>, name: Seq<char>) -> bool {
    &&& r.len() == name.len() + 1 + SUFFIX_LEN
    &&& r.take(name.len() + 1int) == name.push('-')
    &&& forall|i: int| name.len() + 1 <= i < r.len() ==> is_lower_alphanumeric(#[trigger] r[i])
}

/// The two new names tried, round after round, for a clash that renaming
/// after the creators did not settle (or that came from a move).
pub struct RandomRenamer {
    conflicting_name: String,
    existing_name: String,
    conflicting_seed: u64,
    existing_seed: u64,
    start_seeds: Ghost<(u64, u64)>,
    rounds: Ghost<nat>,
}

impl RandomRenamer {
    /// The name the conflicting node had when the renaming started.
    pub closed spec fn conflicting_name(&self) -> Seq<char> {
        self.conflicting_name@
    }

    /// The name the existing node had when the renaming started.
    pub closed spec fn existing_name(&self) -> Seq<char> {
        self.existing_name@
    }

    /// The state of the generator of the conflicting node's suffixes.
    pub closed spec fn conflicting_seed(&self) -> u64 {
        self.conflicting_seed
    }

    /// The state of the generator of the existing node's suffixes.
    pub closed spec fn existing_seed(&self) -> u64 {
        self.existing_seed
    }

    /// The states the two generators started in.
    pub closed spec fn start_seeds(&self) -> (u64, u64) {
        self.start_seeds@
    }

    /// The number of pairs of names drawn so far.
    pub closed spec fn rounds(&self) -> nat {
        self.rounds@
    }

    /// Each generator has drawn one suffix per round since it started.
    pub closed spec fn wf(&self) -> bool {
        &&& self.conflicting_seed == seed_after(self.start_seeds@.0, usize::BITS, self.rounds@)
        &&& self.existing_seed == seed_after(self.start_seeds@.1, usize::BITS, self.rounds@)
    }

    /// Starts renaming the conflicting node, now named `conflicting_name`
    /// and created by `conflicting_creator`, and the existing node, now named
    /// `existing_name` and created by `existing_creator`.
    pub fn new(
        conflicting_name: &str,
        existing_name: &str,
        conflicting_creator: u64,
        existing_creator: u64,
    ) -> (r: RandomRenamer)
        ensures
            r.conflicting_name() == conflicting_name@,
            r.existing_name() == existing_name@,
            (r.conflicting_seed(), r.existing_seed()) == suffix_seeds(conflicting_creator, existing_creator),
            r.start_seeds() == suffix_seeds(conflicting_creator, existing_creator),
            r.rounds() == 0,
            r.wf(),
    {
        let (c, e) = seeds_for(conflicting_creator, existing_creator);
        RandomRenamer {
            conflicting_name: String::from_str(conflicting_name),
            existing_name: String::from_str(existing_name),
            conflicting_seed: c,
            existing_seed: e,
            start_seeds: Ghost((c, e)),
            rounds: Ghost(0),
        }
    }

    /// The next pair of new names to try: the conflicting node's, then the
    /// existing node's, each its starting name with the next suffix its
    /// own generator draws; both generators move on.
    pub fn next_names(&mut self) -> (r: (String, String))
        requires
            old(self).wf(),
        ensures
            final(self).wf(),
            final(self).conflicting_name() == old(self).conflicting_name(),
            final(self).existing_name() == old(self).existing_name(),
            final(self).start_seeds() == old(self).start_seeds(),
            final(self).rounds() == old(self).rounds() + 1,
            final(self).conflicting_seed() == suffix_draw(old(self).conflicting_seed(), usize::BITS, SUFFIX_LEN as nat).1,
            final(self).existing_seed() == suffix_draw(old(self).existing_seed(), usize::BITS, SUFFIX_LEN as nat).1,
            r.0@ == suffixed(old(self).conflicting_name(), suffix_draw(old(self).conflicting_seed(), usize::BITS, SUFFIX_LEN as nat).0),
            r.1@ == suffixed(old(self).existing_name(), suffix_draw(old(self).existing_seed(), usize::BITS, SUFFIX_LEN as nat).0),
            (r.0@, r.1@) == round_names(old(self).conflicting_name(), old(self).existing_name(),
                old(self).start_seeds(), usize::BITS, old(self).rounds()),
            has_random_suffix(r.0@, old(self).conflicting_name()),
            has_random_suffix(r.1@, old(self).existing_name()),
    {
        let mut cseed = self.conflicting_seed;
        let csuffix = random_suffix(&mut cseed);
        let mut eseed = self.existing_seed;
        let esuffix = random_suffix(&mut eseed);
        self.conflicting_seed = cseed;
        self.existing_seed = eseed;
        self.rounds = Ghost(self.rounds@ + 1);
        let mut c = chars_of(self.conflicting_name.as_str());
        c.push('-');
        push_chars(&mut c, &csuffix);
        let mut e = chars_of(self.existing_name.as_str());
        e.push('-');
        push_chars(&mut e, &esuffix);
        proof {
            let cn = self.conflicting_name@;
            let en = self.existing_name@;
            assert(c@.take(cn.len() + 1int) == cn.push('-'));
            assert(e@.take(en.len() + 1int) == en.push('-'));
            assert forall|i: int| cn.len() + 1 <= i < c@.len() implies is_lower_alphanumeric(#[trigger] c@[i]) by {
                assert(c@[i] == csuffix@[i - cn.len() - 1]);
            }
            assert forall|i: int| en.len() + 1 <= i < e@.len() implies is_lower_alphanumeric(#[trigger] e@[i]) by {
                assert(e@[i] == esuffix@[i - en.len() - 1]);
            }
        }
        (string_of(c.as_slice()), string_of(e.as_slice()))
    }
}


/// What to do next to settle a name clash.
#[derive(Debug)]
pub enum ClashStep {
    /// Rename the conflicting node to the first name and the existing node
    /// to the second, then report whether that settled the clash.
    Try(String, String),
    /// Read the current names of the conflicting and of the existing node
    /// back from the project, and hand them over.
    ReadNames,
}

/// A name clash being settled: first by renaming the nodes after their
/// creators, where that applies, then by random suffixes, round after round.
pub struct NameClash {
    conflicting_creator: u64,
    existing_creator: u64,
    renamer: Option<RandomRenamer>,
}

impl NameClash {
    /// The creators of the conflicting and of the existing node.
    pub closed spec fn creators(&self) -> (u64, u64) {
        (self.conflicting_creator, self.existing_creator)
    }

    /// Whether the random suffixes are being tried.
    pub closed spec fn is_random(&self) -> bool {
        self.renamer is Some
    }

    /// The names the random suffixes are appended to, once they are tried.
    pub closed spec fn base_names(&self) -> (Seq<char>, Seq<char>) {
        match self.renamer {
            Some(r) => (r.conflicting_name(), r.existing_name()),
            None => (Seq::empty(), Seq::empty()),
        }
    }

    /// The number of pairs of random names tried so far.
    pub closed spec fn rounds(&self) -> nat {
        match self.renamer {
            Some(r) => r.rounds(),
            None => 0,
        }
    }

    /// The suffix generators, once started, were seeded from the creators
    /// and have drawn one suffix per round.
    pub closed spec fn wf(&self) -> bool {
        match self.renamer {
            Some(r) => r.wf() && r.start_seeds() == suffix_seeds(self.conflicting_creator, self.existing_creator),
            None => true,
        }
    }

    /// Starts settling a clash of the given source between the conflicting
    /// node, named `conflicting_name` and created by `conflicting_creator`,
    /// and the existing node, named `existing_name` and created by
    /// `existing_creator`, given the handles of the creators that are peers
    /// of the session. The names after the creators are tried first where
    /// they apply; otherwise the current names are read back at once.
    pub fn start(
        source: ConflictSource,
        conflicting_name: &str,
        existing_name: &str,
        conflicting_creator_handle: Option<&str>,
        existing_creator_handle: Option<&str>,
        conflicting_creator: u64,
        existing_creator: u64,
    ) -> (r: (NameClash, ClashStep))
        ensures
            r.0.creators() == (conflicting_creator, existing_creator),
            !r.0.is_random(),
            r.0.wf(),
            match creator_renames(source, conflicting_name@, existing_name@,
                match conflicting_creator_handle { Some(h) => Some(h@), None => None },
                match existing_creator_handle { Some(h) => Some(h@), None => None }) {
                Some((c, e)) => r.1 matches ClashStep::Try(tc, te) && tc@ == c && te@ == e,
                None => r.1 is ReadNames,
            },
    {
        let clash = NameClash { conflicting_creator, existing_creator, renamer: None };
        let step = match renames_after_creators(
            source,
            conflicting_name,
            existing_name,
            conflicting_creator_handle,
            existing_creator_handle,
        ) {
            Some((c, e)) => ClashStep::Try(c, e),
            None => ClashStep::ReadNames,
        };
        (clash, step)
    }

    /// Moves on once the names tried last were applied: `None` when they
    /// settled the clash; else, after the names of the creators, a request
    /// for the current names; else the next names with random suffixes.
    pub fn after_try(&mut self, resolved: bool) -> (r: Option<ClashStep>)
        requires
            old(self).wf(),
        ensures
            final(self).wf(),
            final(self).rounds() == (if !resolved && old(self).is_random() { old(self).rounds() + 1 } else { old(self).rounds() }),
            final(self).creators() == old(self).creators(),
            final(self).is_random() == old(self).is_random(),
            final(self).base_names() == old(self).base_names(),
            resolved ==> r is None,
            !resolved && !old(self).is_random() ==> r matches Some(ClashStep::ReadNames),
            !resolved && old(self).is_random() ==> (r matches Some(ClashStep::Try(c, e))
                && has_random_suffix(c@, old(self).base_names().0)
                && has_random_suffix(e@, old(self).base_names().1)
                && (c@, e@) == round_names(old(self).base_names().0, old(self).base_names().1,
                    suffix_seeds(old(self).creators().0, old(self).creators().1), usize::BITS, old(self).rounds())),
    {
        if resolved {
            return None;
        }
        match &mut self.renamer {
            None => Some(ClashStep::ReadNames),
            Some(renamer) => {
                let (c, e) = renamer.next_names();
                Some(ClashStep::Try(c, e))
            },
        }
    }

    /// Starts the random suffixes, appended to the current names of the
    /// conflicting and the existing node, from generators seeded as
    /// `suffix_seeds` says; gives the first names to try.
    pub fn with_names(&mut self, conflicting_name: &str, existing_name: &str) -> (r: ClashStep)
        ensures
            final(self).wf(),
            final(self).rounds() == 1,
            final(self).creators() == old(self).creators(),
            final(self).is_random(),
            final(self).base_names() == (conflicting_name@, existing_name@),
            r matches ClashStep::Try(c, e)
                && has_random_suffix(c@, conflicting_name@)
                && has_random_suffix(e@, existing_name@)
                && (c@, e@) == round_names(conflicting_name@, existing_name@,
                    suffix_seeds(old(self).creators().0, old(self).creators().1), usize::BITS, 0),
    {
        let mut renamer = RandomRenamer::new(
            conflicting_name,
            existing_name,
            self.conflicting_creator,
            self.existing_creator,
        );
        let (c, e) = renamer.next_names();
        self.renamer = Some(renamer);
        ClashStep::Try(c, e)
    }
}

}
