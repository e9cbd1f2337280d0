//! The random draws of the game, made with `rand`.

use vstd::prelude::*;
use rand::rngs::StdRng;
use rand::Rng;
use rand::SeedableRng;

verus! {

#[verifier::external_type_specification]
#[verifier::external_body]
pub struct ExStdRng(StdRng);

/// Calls `rand::SeedableRng::from_entropy` for `StdRng`: a generator seeded from the
/// operating system. Nothing is claimed of its state. The call panics where the system
/// gives no entropy, which no clause here can rule out.
#[verifier::external_body]
pub(crate) fn rng_from_entropy() -> StdRng {
    StdRng::from_entropy()
}

/// Calls `rand::seq::index::sample(rng, length, amount)` and `IndexVec::into_vec`: as rand's
/// documentation says, exactly `amount` distinct indices, each below `length`. Which ones, and
/// in what order, is left to chance and not claimed. The call panics when `amount > length`,
/// which `requires` rules out.
#[verifier::external_body]
pub(crate) fn sample_distinct(rng: &mut StdRng, length: usize, amount: usize) -> (picks: Vec<usize>)
    requires
        amount <= length,
    ensures
        picks@.len() == amount,
        forall|k: int| 0 <= k < picks@.len() ==> #[trigger] picks@[k] < length,
        forall|k: int, l: int| 0 <= k < l < picks@.len() ==> #[trigger] picks@[k] != #[trigger] picks@[l],
{
    rand::seq::index::sample(rng, length, amount).into_vec()
}

/// Calls `rand::Rng::gen_range(0..bound)`: a number below `bound`; which one is left to
/// chance. The call panics on an empty range, which `requires` rules out.
#[verifier::external_body]
pub(crate) fn below(rng: &mut StdRng, bound: usize) -> (r: usize)
    requires
        bound > 0,
    ensures
        r < bound,
{
    rng.gen_range(0..bound)
}

} // verus!
