//! A capability trait for forking: both generator kinds expose the same
//! call shape for producing a scoped, independent child generator.

use vstd::prelude::*;
use rand::rngs::StdRng;
use crate::backend::{next_u64_of, rng_state, seeded_state};
use crate::entity::EntityRng;
use crate::global::GlobalRng;
use crate::model::fork_child_seed;

verus! {

/// Forking with a uniform call shape: draw one raw `u64` from the
/// generator's live state and seed a brand-new, independent child from it.
/// Useful for a scoped generator that must not disturb its source beyond
/// that single draw.
pub trait RngFork {
    /// Create a forked generator for isolated random operations.
    fn fork(&mut self) -> StdRng;
}

impl RngFork for GlobalRng {
    fn fork(&mut self) -> (child: StdRng)
        ensures
            final(self)@.seed == old(self)@.seed,
            final(self)@.state == next_u64_of(old(self)@.state).0,
            rng_state(child) == seeded_state(fork_child_seed(old(self)@.state)),
    {
        GlobalRng::fork(self)
    }
}

impl RngFork for EntityRng {
    fn fork(&mut self) -> (child: StdRng)
        ensures
            final(self)@.seed == old(self)@.seed,
            final(self)@.state == next_u64_of(old(self)@.state).0,
            rng_state(child) == seeded_state(fork_child_seed(old(self)@.state)),
    {
        let child_seed: u64 = self.random_value();
        crate::backend::rng_from_seed(child_seed)
    }
}

} // verus!
