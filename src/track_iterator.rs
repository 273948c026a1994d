//! An endless playlist cursor: every cycle plays each track once, in an order
//! shuffled anew for the cycle.
use vstd::prelude::*;

use crate::random::{shuffle_indices, shuffled_order};
use crate::track::Track;

verus! {

/// Number of distinct rounds that a `u64` round counter takes.
pub open spec fn round_modulus() -> nat {
    0x1_0000_0000_0000_0000
}

/// The round number under which cycle `cycle` is shuffled.
pub open spec fn round_of(cycle: nat) -> u64 {
    (cycle % round_modulus()) as u64
}

/// The indices `0, 1, ..., n - 1` in order.
pub open spec fn identity_order(n: nat) -> Seq<usize> {
    Seq::new(n, |i: int| i as usize)
}

/// `s` holds each of the indices `0, ..., n - 1` exactly once.
pub open spec fn is_permutation(s: Seq<usize>, n: nat) -> bool {
    s.to_multiset() == identity_order(n).to_multiset()
}

/// The order in which cycle `cycle` of a station with `n` tracks plays them.
pub open spec fn cycle_order(seed: u64, n: nat, cycle: nat) -> Seq<usize> {
    shuffled_order(seed, round_of(cycle), identity_order(n))
}

/// Index of the track played at position `k` of the endless sequence.
pub open spec fn stream_index(seed: u64, n: nat, k: nat) -> usize {
    cycle_order(seed, n, k / n)[(k % n) as int]
}

/// The indices of the tracks that cycle `cycle` plays, read off the endless
/// sequence.
pub open spec fn cycle_of_stream(seed: u64, n: nat, cycle: nat) -> Seq<usize> {
    Seq::new(n, |i: int| stream_index(seed, n, cycle * n + i as nat))
}

proof fn lemma_permutation_len(s: Seq<usize>, n: nat)
    requires
        is_permutation(s, n),
    ensures
        s.len() == n,
{
    broadcast use vstd::seq_lib::group_to_multiset_ensures;

    assert(identity_order(n).to_multiset().len() == n);
}

proof fn lemma_permutation_bounds(s: Seq<usize>, n: nat, i: int)
    requires
        is_permutation(s, n),
        0 <= i < s.len(),
    ensures
        s.len() == n,
        s[i] < n,
{
    broadcast use vstd::seq_lib::group_to_multiset_ensures;

    lemma_permutation_len(s, n);
    assert(s.contains(s[i]));
    assert(s.to_multiset().count(s[i]) > 0);
    assert(identity_order(n).to_multiset().count(s[i]) > 0);
    assert(identity_order(n).contains(s[i]));
    let j = choose|j: int| 0 <= j < n && identity_order(n)[j] == s[i];
}

proof fn lemma_position(c: nat, n: nat, p: nat)
    requires
        n > 0,
        p < n,
    ensures
        (c * n + p) / n == c,
        (c * n + p) % n == p,
{
    vstd::arithmetic::div_mod::lemma_fundamental_div_mod_converse(
        (c * n + p) as int,
        n as int,
        c as int,
        p as int,
    );
}

/// Endless cursor over a station's tracks.
pub struct TrackIterator {
    tracks: Vec<Track>,
    seed: u64,
    round: u64,
    order: Vec<usize>,
    pos: usize,
    cycle: Ghost<nat>,
}

/// `go_next` was asked to move past the last track of the current cycle.
#[derive(PartialEq, Eq, Structural, Clone, Copy, Debug)]
pub struct CycleEnded;

impl TrackIterator {
    /// The tracks, in the order of the station's list.
    pub closed spec fn tracks(&self) -> Seq<Track> {
        self.tracks@
    }

    /// The seed that decides every cycle's order.
    pub closed spec fn seed(&self) -> u64 {
        self.seed
    }

    /// Position of the current track in the endless sequence.
    pub closed spec fn position(&self) -> nat {
        self.cycle@ * self.tracks@.len() + self.pos as nat
    }

    /// Index of the track at position `k` of this iterator's sequence.
    pub open spec fn index_at(&self, k: nat) -> usize {
        stream_index(self.seed(), self.tracks().len(), k)
    }

    /// Index of the current track.
    pub open spec fn current_index(&self) -> usize {
        self.index_at(self.position())
    }

    pub closed spec fn wf(&self) -> bool {
        let n = self.tracks@.len();
        &&& n > 0
        &&& self.pos < n
        &&& self.round == round_of(self.cycle@)
        &&& self.order@ == cycle_order(self.seed, n, self.cycle@)
        &&& forall|c: nat| c <= self.cycle@ ==> is_permutation(#[trigger] cycle_order(self.seed, n, c), n)
    }

    proof fn lemma_current(&self)
        requires
            self.wf(),
        ensures
            self.position() / self.tracks@.len() == self.cycle@,
            self.position() % self.tracks@.len() == self.pos,
            self.current_index() == self.order@[self.pos as int],
            self.order@.len() == self.tracks@.len(),
            self.current_index() < self.tracks@.len(),
            self.pos < self.tracks@.len(),
    {
        assert(is_permutation(cycle_order(self.seed, self.tracks@.len(), self.cycle@), self.tracks@.len()));
        lemma_permutation_len(self.order@, self.tracks@.len());
        lemma_position(self.cycle@, self.tracks@.len(), self.pos as nat);
        lemma_permutation_bounds(self.order@, self.tracks@.len(), self.pos as int);
    }

    fn shuffle_cycle(seed: u64, round: u64, n: usize) -> (r: Vec<usize>)
        ensures
            r@ == shuffled_order(seed, round, identity_order(n as nat)),
            is_permutation(r@, n as nat),
    {
        let mut items: Vec<usize> = Vec::new();
        let mut i: usize = 0;
        while i < n
            invariant
                i <= n,
                items@ == identity_order(i as nat),
            decreases n - i,
        {
            items.push(i);
            i = i + 1;
            assert(items@ =~= identity_order(i as nat));
        }
        shuffle_indices(seed, round, items)
    }

    /// A cursor over `all_tracks` whose cycles are shuffled under `seed`; the
    /// first cycle is drawn at once and its first track is current.
    pub fn new(all_tracks: Vec<Track>, seed: u64) -> (r: TrackIterator)
        requires
            all_tracks@.len() > 0,
        ensures
            r.wf(),
            r.tracks() == all_tracks@,
            r.seed() == seed,
            r.position() == 0,
    {
        let order = Self::shuffle_cycle(seed, 0, all_tracks.len());
        let r = TrackIterator {
            tracks: all_tracks,
            seed,
            round: 0,
            order,
            pos: 0,
            cycle: Ghost(0),
        };
        assert forall|c: nat| c <= 0 implies is_permutation(
            #[trigger] cycle_order(seed, r.tracks@.len(), c),
            r.tracks@.len(),
        ) by {
            assert(round_of(c) == 0);
        }
        r
    }

    /// The current track.
    pub fn get_current(&self) -> (r: &Track)
        requires
            self.wf(),
        ensures
            *r == self.tracks()[self.current_index() as int],
    {
        proof {
            self.lemma_current();
        }
        &self.tracks[self.order[self.pos]]
    }

    /// Whether the current cycle has a track after the current one.
    pub fn has_more(&self) -> (r: bool)
        requires
            self.wf(),
        ensures
            r == (self.position() % self.tracks().len() + 1 < self.tracks().len()),
    {
        proof {
            self.lemma_current();
        }
        let n = self.tracks.len();
        self.pos + 1 < n
    }

    /// Moves to the next track of the current cycle; at the cycle's last
    /// track nothing changes and `CycleEnded` is returned.
    pub fn go_next(&mut self) -> (r: Result<(), CycleEnded>)
        requires
            old(self).wf(),
        ensures
            final(self).wf(),
            final(self).tracks() == old(self).tracks(),
            final(self).seed() == old(self).seed(),
            r is Ok <==> old(self).position() % old(self).tracks().len() + 1 < old(self).tracks().len(),
            r is Ok ==> final(self).position() == old(self).position() + 1,
            r is Err ==> final(self).position() == old(self).position(),
    {
        proof {
            self.lemma_current();
        }
        let n = self.tracks.len();
        if self.pos + 1 < n {
            self.pos = self.pos + 1;
            Ok(())
        } else {
            Err(CycleEnded)
        }
    }

    /// Returns the current track and moves past it; after the last track of
    /// a cycle the next cycle is shuffled and its first track becomes current.
    pub fn next(&mut self) -> (r: Track)
        requires
            old(self).wf(),
        ensures
            final(self).wf(),
            final(self).tracks() == old(self).tracks(),
            final(self).seed() == old(self).seed(),
            final(self).position() == old(self).position() + 1,
            r@ == old(self).tracks()[old(self).current_index() as int]@,
    {
        proof {
            self.lemma_current();
        }
        let t = self.tracks[self.order[self.pos]].clone();
        let n = self.tracks.len();
        if self.pos + 1 < n {
            self.pos = self.pos + 1;
        } else {
            let ghost c = self.cycle@;
            let next_round = self.round.wrapping_add(1);
            assert(next_round == round_of(c + 1)) by {
                assert((c + 1) % round_modulus() == if c % round_modulus() + 1 == round_modulus() {
                    0
                } else {
                    c % round_modulus() + 1
                }) by {
                    vstd::arithmetic::div_mod::lemma_add_mod_noop(c as int, 1, round_modulus() as int);
                    vstd::arithmetic::div_mod::lemma_small_mod(1, round_modulus());
                }
            }
            let order = Self::shuffle_cycle(self.seed, next_round, n);
            self.round = next_round;
            self.order = order;
            self.pos = 0;
            self.cycle = Ghost(c + 1);
            assert((c + 1) * (n as nat) == c * (n as nat) + n as nat) by (nonlinear_arith);
            assert forall|k: nat| k <= c + 1 implies is_permutation(
                #[trigger] cycle_order(self.seed, n as nat, k),
                n as nat,
            ) by {
                if k <= c {
                    assert(is_permutation(cycle_order(old(self).seed, n as nat, k), n as nat));
                }
            }
        }
        t
    }

    /// The index of the track at any position that the cursor has reached,
    /// or that lies in the cycle it stands in, is within the track list.
    pub proof fn lemma_index_in_range(&self, k: nat)
        requires
            self.wf(),
            k / self.tracks().len() <= self.position() / self.tracks().len(),
        ensures
            self.tracks().len() > 0,
            self.index_at(k) < self.tracks().len(),
    {
        let n = self.tracks@.len();
        self.lemma_current();
        let c = k / n;
        assert(is_permutation(cycle_order(self.seed, n, c), n));
        lemma_permutation_len(cycle_order(self.seed, n, c), n);
        vstd::arithmetic::div_mod::lemma_mod_pos_bound(k as int, n as int);
        lemma_permutation_bounds(cycle_order(self.seed, n, c), n, (k % n) as int);
    }

    /// Every cycle that this cursor has reached plays each track exactly once:
    /// the indices of its `n` positions are a permutation of `0..n`.
    pub proof fn lemma_cycles_are_permutations(&self, cycle: nat)
        requires
            self.wf(),
            cycle <= self.position() / self.tracks().len(),
        ensures
            is_permutation(cycle_of_stream(self.seed(), self.tracks().len(), cycle), self.tracks().len()),
    {
        let n = self.tracks@.len();
        self.lemma_current();
        assert(is_permutation(cycle_order(self.seed, n, cycle), n));
        lemma_permutation_len(cycle_order(self.seed, n, cycle), n);
        assert forall|i: int| 0 <= i < n implies #[trigger] cycle_of_stream(self.seed, n, cycle)[i]
            == cycle_order(self.seed, n, cycle)[i] by {
            lemma_position(cycle, n, i as nat);
        }
        assert(cycle_of_stream(self.seed, n, cycle) =~= cycle_order(self.seed, n, cycle));
    }

    /// Two cursors over the same tracks with the same seed, standing at the
    /// same position, play the same tracks from there on, forever.
    pub proof fn lemma_same_seed_same_sequence(a: &TrackIterator, b: &TrackIterator)
        requires
            a.wf(),
            b.wf(),
            a.tracks() == b.tracks(),
            a.seed() == b.seed(),
            a.position() == b.position(),
        ensures
            forall|k: nat| #[trigger] a.tracks()[a.index_at(k) as int] == b.tracks()[b.index_at(k) as int],
    {
    }
}

} // verus!
