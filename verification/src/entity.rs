//! Per-entity generators: each entity owns an isolated stream of randomness,
//! derived from the global generator or keyed to a stable identity.

use vstd::prelude::*;
use core::ops::Range;
use rand::rngs::StdRng;
use crate::backend::{
    entropy_u64, next_bool_of, next_u64_of, range_u32_of, range_usize_of, rng_from_seed,
    rng_next_bool, rng_next_u64, rng_range_u32, rng_range_usize, rng_shuffle, rng_state,
    seeded_state, shuffle_of,
};
use crate::global::GlobalRng;
use crate::mix::hash_combine;
use crate::mix::mix64;
use crate::model::RngModel;

verus! {

/// A per-entity random number generator.
///
/// Once constructed it is fully independent of its source: it holds its own
/// retained seed and its own stream state, and draws from it never disturb
/// any other generator. Its view is the same [`RngModel`] the global
/// generator has.
pub struct EntityRng {
    rng: StdRng,
    seed: u64,
}

impl View for EntityRng {
    type V = RngModel;

    closed spec fn view(&self) -> RngModel {
        RngModel { seed: self.seed, state: rng_state(self.rng) }
    }
}

impl EntityRng {
    /// Create an entity generator with a seed drawn from the entropy source.
    pub fn random() -> (g: EntityRng)
        ensures
            g@.is_fresh(),
    {
        let seed = entropy_u64();
        EntityRng { rng: rng_from_seed(seed), seed }
    }

    /// Create an entity generator from an explicit seed, deterministically.
    pub fn seeded(seed: u64) -> (g: EntityRng)
        ensures
            g@.seed == seed,
            g@.is_fresh(),
    {
        EntityRng { rng: rng_from_seed(seed), seed }
    }

    /// Derive an entity generator from the global generator: draw one raw
    /// `u64` from the global sequence and mix it with the global retained
    /// seed to form this generator's seed. Consumes exactly one draw from
    /// the global generator and leaves its seed unchanged.
    pub fn from_global(global: &mut GlobalRng) -> (g: EntityRng)
        ensures
            final(global)@.seed == old(global)@.seed,
            final(global)@.state == next_u64_of(old(global)@.state).0,
            g@.seed == mix64(old(global)@.seed, next_u64_of(old(global)@.state).1),
            g@.is_fresh(),
    {
        let discriminator = global.random_value();
        let seed = hash_combine(global.seed(), discriminator);
        EntityRng { rng: rng_from_seed(seed), seed }
    }

    /// Derive an entity generator from a source seed and a stable entity
    /// identity, with no generator state involved: the same two arguments
    /// always reproduce the same generator. Intended for save and load,
    /// where entity streams must be rebuilt from identities alone.
    pub fn from_global_and_id(global_seed: u64, entity_index: u32) -> (g: EntityRng)
        ensures
            g@.seed == mix64(global_seed, entity_index as u64),
            g@.is_fresh(),
    {
        let seed = hash_combine(global_seed, entity_index as u64);
        EntityRng { rng: rng_from_seed(seed), seed }
    }

    /// The seed this generator was initialized with. Draws never change it.
    pub fn seed(&self) -> (s: u64)
        ensures
            s == self@.seed,
    {
        self.seed
    }

    /// Return the stream to the state the retained seed produces, discarding
    /// all draw history. The seed is unchanged.
    pub fn reset(&mut self)
        ensures
            final(self)@.seed == old(self)@.seed,
            final(self)@.is_fresh(),
    {
        self.rng = rng_from_seed(self.seed);
    }

    /// Draw a value uniformly from a non-empty half-open range.
    pub fn range(&mut self, range: Range<u32>) -> (v: u32)
        requires
            range.start < range.end,
        ensures
            final(self)@.seed == old(self)@.seed,
            final(self)@.state == range_u32_of(old(self)@.state, range.start, range.end).0,
            v == range_u32_of(old(self)@.state, range.start, range.end).1,
            range.start <= v < range.end,
    {
        rng_range_u32(&mut self.rng, range.start, range.end)
    }

    /// Draw a boolean with even odds.
    pub fn bool(&mut self) -> (v: bool)
        ensures
            final(self)@.seed == old(self)@.seed,
            final(self)@.state == next_bool_of(old(self)@.state).0,
            v == next_bool_of(old(self)@.state).1,
    {
        rng_next_bool(&mut self.rng)
    }

    /// Select a uniformly chosen element of a slice, or nothing when the
    /// slice is empty. The empty case draws nothing: the generator is left
    /// exactly as it was.
    pub fn pick<'a, T>(&mut self, slice: &'a [T]) -> (r: Option<&'a T>)
        ensures
            final(self)@.seed == old(self)@.seed,
            slice@.len() == 0 ==> r is None && final(self)@ == old(self)@,
            slice@.len() > 0 ==> {
                let drawn = range_usize_of(old(self)@.state, 0, slice@.len() as usize);
                &&& final(self)@.state == drawn.0
                &&& drawn.1 < slice@.len()
                &&& r matches Some(item) && *item == slice@[drawn.1 as int]
            },
    {
        if slice.len() == 0 {
            None
        } else {
            let idx = rng_range_usize(&mut self.rng, 0, slice.len());
            Some(&slice[idx])
        }
    }

    /// Permute the items in place, uniformly; the items themselves are
    /// kept, and which permutation results is a function of the stream
    /// state and the length alone, so equal-state generators shuffle equal
    /// slices alike.
    pub fn shuffle<T>(&mut self, items: &mut Vec<T>)
        ensures
            final(self)@.seed == old(self)@.seed,
            final(self)@.state == shuffle_of(old(self)@.state, old(items)@.len()).0,
            final(items)@.to_multiset() == old(items)@.to_multiset(),
            final(items)@.len() == old(items)@.len(),
            final(items)@ == Seq::new(
                old(items)@.len(),
                |i: int| old(items)@[shuffle_of(old(self)@.state, old(items)@.len()).1[i]],
            ),
    {
        rng_shuffle(&mut self.rng, items)
    }

    /// Draw one raw `u64`; the value a fork would use as its child's seed.
    pub fn random_value(&mut self) -> (v: u64)
        ensures
            final(self)@.seed == old(self)@.seed,
            final(self)@.state == next_u64_of(old(self)@.state).0,
            v == next_u64_of(old(self)@.state).1,
    {
        rng_next_u64(&mut self.rng)
    }

    /// Direct access to the underlying generator state, for one-off
    /// operations the surface above does not cover.
    pub fn inner(&mut self) -> (r: &mut StdRng)
        ensures
            rng_state(*r) == old(self)@.state,
            final(self)@.seed == old(self)@.seed,
            final(self)@.state == rng_state(*final(r)),
    {
        &mut self.rng
    }
}

impl Default for EntityRng {
    /// A generator with a seed drawn from the entropy source, as
    /// [`EntityRng::random`] builds it.
    fn default() -> (g: Self)
        ensures
            g@.is_fresh(),
    {
        EntityRng::random()
    }
}

} // verus!
