//! Seeded pseudo-random choices, drawn with the `frand` generator.
//!
//! Every draw starts a generator from the station's seed mixed with a round
//! number, so that what is drawn is a function of those plain values alone.
use vstd::prelude::*;

verus! {

/// The order in which `frand` shuffles `items` under a generator seeded with
/// `seed` and mixed with `round`.
pub uninterp spec fn shuffled_order(seed: u64, round: u64, items: Seq<usize>) -> Seq<usize>;

/// The number below `bound` that `frand` draws under a generator seeded with
/// `seed` and mixed with `round`.
pub uninterp spec fn drawn_below(seed: u64, round: u64, bound: u64) -> u64;

/// Relies on frand's `Rand::with_seed` and `Rand::mix`, which compute the
/// generator's state from the two numbers alone, and on
/// `Shufflable::shuffled`, a Fisher-Yates shuffle that only swaps items.
#[verifier::external_body]
pub(crate) fn shuffle_indices(seed: u64, round: u64, items: Vec<usize>) -> (r: Vec<usize>)
    ensures
        r@ == shuffled_order(seed, round, items@),
        r@.to_multiset() == items@.to_multiset(),
{
    let mut rng = frand::Rand::with_seed(seed);
    rng.mix(round);
    frand::Shufflable::shuffled(items, &mut rng)
}

/// Relies on frand's `Rand::with_seed` and `Rand::mix`, as above, and on
/// `Rand::gen_range`, which for `0..bound` returns a random number modulo
/// `bound` (and divides by zero on an empty range).
#[verifier::external_body]
pub(crate) fn draw_below(seed: u64, round: u64, bound: u64) -> (r: u64)
    requires
        bound > 0,
    ensures
        r < bound,
        r == drawn_below(seed, round, bound),
{
    let mut rng = frand::Rand::with_seed(seed);
    rng.mix(round);
    rng.gen_range(0..bound)
}

} // verus!
