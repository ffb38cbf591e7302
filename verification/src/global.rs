//! The global generator: the single process-wide source of randomness.

use vstd::prelude::*;
use core::ops::Range;
use rand::rngs::StdRng;
use crate::backend::{
    entropy_u64, next_bool_of, next_i32_of, next_i64_of, next_u32_of, next_u64_of,
    range_u32_of, range_usize_of, rng_from_seed, rng_next_bool, rng_next_i32, rng_next_i64,
    rng_next_u32, rng_next_u64, rng_range_u32, rng_range_usize, rng_shuffle, rng_state,
    seeded_state, shuffle_of,
};
use crate::model::{fork_child_seed, stream_child_seed, RngModel};

verus! {

/// The global random number generator.
///
/// It retains the seed that initialized it, so the whole session can be
/// replayed: `seed` reads it back at any time, `reset` returns the stream to
/// the state that seed produces, and derived generators obtain their own
/// seeds from it. Its view is the [`RngModel`] every contract speaks of.
pub struct GlobalRng {
    rng: StdRng,
    seed: u64,
}

impl View for GlobalRng {
    type V = RngModel;

    closed spec fn view(&self) -> RngModel {
        RngModel { seed: self.seed, state: rng_state(self.rng) }
    }
}

impl GlobalRng {
    /// Create a global generator with a seed drawn from the entropy source.
    ///
    /// The drawn seed is retained: the generator starts fresh at the state
    /// that seed produces, so the run can still be replayed once the seed is
    /// read back.
    pub fn random() -> (g: GlobalRng)
        ensures
            g@.is_fresh(),
    {
        let seed = entropy_u64();
        GlobalRng { rng: rng_from_seed(seed), seed }
    }

    /// Create a global generator from an explicit seed, deterministically.
    pub fn seeded(seed: u64) -> (g: GlobalRng)
        ensures
            g@.seed == seed,
            g@.is_fresh(),
    {
        GlobalRng { rng: rng_from_seed(seed), seed }
    }

    /// The seed this generator was initialized with. Draws never change it,
    /// and it is available even when the generator was constructed with
    /// [`GlobalRng::random`].
    pub fn seed(&self) -> (s: u64)
        ensures
            s == self@.seed,
    {
        self.seed
    }

    /// Return the stream to the state the retained seed produces, discarding
    /// all draw history. The seed is unchanged.
    pub fn reset(&mut self)
        ensures
            final(self)@.seed == old(self)@.seed,
            final(self)@.is_fresh(),
    {
        self.rng = rng_from_seed(self.seed);
    }

    /// Replace the retained seed and the stream state together.
    pub fn reseed(&mut self, seed: u64)
        ensures
            final(self)@.seed == seed,
            final(self)@.is_fresh(),
    {
        self.seed = seed;
        self.rng = rng_from_seed(seed);
    }

    /// Fork: draw one raw `u64` and seed a brand-new, independent generator
    /// from it directly. The child and this generator evolve independently
    /// thereafter; this generator's own sequence advances by exactly that
    /// one draw.
    pub fn fork(&mut self) -> (child: StdRng)
        ensures
            final(self)@.seed == old(self)@.seed,
            final(self)@.state == next_u64_of(old(self)@.state).0,
            rng_state(child) == seeded_state(fork_child_seed(old(self)@.state)),
    {
        let child_seed: u64 = rng_next_u64(&mut self.rng);
        rng_from_seed(child_seed)
    }

    /// Fork a named stream: draw one raw `u64`, combine it with the stream
    /// identifier by a wrapping addition, and seed a new generator from the
    /// result. At the same point of this generator's sequence, the same
    /// identifier always yields the same child stream.
    pub fn fork_stream(&mut self, stream: u32) -> (child: StdRng)
        ensures
            final(self)@.seed == old(self)@.seed,
            final(self)@.state == next_u64_of(old(self)@.state).0,
            rng_state(child) == seeded_state(stream_child_seed(old(self)@.state, stream)),
    {
        let base: u64 = rng_next_u64(&mut self.rng);
        let combined: u64 = base.wrapping_add(stream as u64);
        rng_from_seed(combined)
    }

    /// Draw a value uniformly from a non-empty half-open range.
    pub fn range(&mut self, range: Range<u32>) -> (v: u32)
        requires
            range.start < range.end,
        ensures
            final(self)@.seed == old(self)@.seed,
            final(self)@.state == range_u32_of(old(self)@.state, range.start, range.end).0,
            v == range_u32_of(old(self)@.state, range.start, range.end).1,
            range.start <= v < range.end,
    {
        rng_range_u32(&mut self.rng, range.start, range.end)
    }

    /// Draw a boolean with even odds.
    pub fn bool(&mut self) -> (v: bool)
        ensures
            final(self)@.seed == old(self)@.seed,
            final(self)@.state == next_bool_of(old(self)@.state).0,
            v == next_bool_of(old(self)@.state).1,
    {
        rng_next_bool(&mut self.rng)
    }

    /// Select a uniformly chosen element of a slice, or nothing when the
    /// slice is empty. The empty case draws nothing: the generator is left
    /// exactly as it was.
    pub fn pick<'a, T>(&mut self, slice: &'a [T]) -> (r: Option<&'a T>)
        ensures
            final(self)@.seed == old(self)@.seed,
            slice@.len() == 0 ==> r is None && final(self)@ == old(self)@,
            slice@.len() > 0 ==> {
                let drawn = range_usize_of(old(self)@.state, 0, slice@.len() as usize);
                &&& final(self)@.state == drawn.0
                &&& drawn.1 < slice@.len()
                &&& r matches Some(item) && *item == slice@[drawn.1 as int]
            },
    {
        if slice.len() == 0 {
            None
        } else {
            let idx = rng_range_usize(&mut self.rng, 0, slice.len());
            Some(&slice[idx])
        }
    }

    /// Select a uniformly chosen position of a slice, or nothing when the
    /// slice is empty. The empty case draws nothing: the generator is left
    /// exactly as it was.
    pub fn choose_index<T>(&mut self, slice: &[T]) -> (r: Option<usize>)
        ensures
            final(self)@.seed == old(self)@.seed,
            slice@.len() == 0 ==> r is None && final(self)@ == old(self)@,
            slice@.len() > 0 ==> {
                let drawn = range_usize_of(old(self)@.state, 0, slice@.len() as usize);
                &&& final(self)@.state == drawn.0
                &&& r == Some(drawn.1)
                &&& drawn.1 < slice@.len()
            },
    {
        if slice.len() == 0 {
            None
        } else {
            Some(rng_range_usize(&mut self.rng, 0, slice.len()))
        }
    }

    /// Permute the items in place, uniformly; the items themselves are
    /// kept, and which permutation results is a function of the stream
    /// state and the length alone, so equal-state generators shuffle equal
    /// slices alike.
    pub fn shuffle<T>(&mut self, items: &mut Vec<T>)
        ensures
            final(self)@.seed == old(self)@.seed,
            final(self)@.state == shuffle_of(old(self)@.state, old(items)@.len()).0,
            final(items)@.to_multiset() == old(items)@.to_multiset(),
            final(items)@.len() == old(items)@.len(),
            final(items)@ == Seq::new(
                old(items)@.len(),
                |i: int| old(items)@[shuffle_of(old(self)@.state, old(items)@.len()).1[i]],
            ),
    {
        rng_shuffle(&mut self.rng, items)
    }

    /// Draw one raw `u64`; the value a fork would use as its child's seed.
    pub fn random_value(&mut self) -> (v: u64)
        ensures
            final(self)@.seed == old(self)@.seed,
            final(self)@.state == next_u64_of(old(self)@.state).0,
            v == next_u64_of(old(self)@.state).1,
    {
        rng_next_u64(&mut self.rng)
    }

    /// Draw a raw `u32` across its full width.
    pub fn u32(&mut self) -> (v: u32)
        ensures
            final(self)@.seed == old(self)@.seed,
            final(self)@.state == next_u32_of(old(self)@.state).0,
            v == next_u32_of(old(self)@.state).1,
    {
        rng_next_u32(&mut self.rng)
    }

    /// Draw a raw `u64` across its full width.
    pub fn u64(&mut self) -> (v: u64)
        ensures
            final(self)@.seed == old(self)@.seed,
            final(self)@.state == next_u64_of(old(self)@.state).0,
            v == next_u64_of(old(self)@.state).1,
    {
        rng_next_u64(&mut self.rng)
    }

    /// Draw a raw `i32` across its full width.
    pub fn i32(&mut self) -> (v: i32)
        ensures
            final(self)@.seed == old(self)@.seed,
            final(self)@.state == next_i32_of(old(self)@.state).0,
            v == next_i32_of(old(self)@.state).1,
    {
        rng_next_i32(&mut self.rng)
    }

    /// Draw a raw `i64` across its full width.
    pub fn i64(&mut self) -> (v: i64)
        ensures
            final(self)@.seed == old(self)@.seed,
            final(self)@.state == next_i64_of(old(self)@.state).0,
            v == next_i64_of(old(self)@.state).1,
    {
        rng_next_i64(&mut self.rng)
    }

    /// Direct access to the underlying generator state, for one-off
    /// operations the surface above does not cover. After the borrow ends
    /// the stream stands at whatever state those operations left; the
    /// retained seed is unchanged.
    pub fn inner(&mut self) -> (r: &mut StdRng)
        ensures
            rng_state(*r) == old(self)@.state,
            final(self)@.seed == old(self)@.seed,
            final(self)@.state == rng_state(*final(r)),
    {
        &mut self.rng
    }

    /// Alias for [`GlobalRng::inner`].
    pub fn rng(&mut self) -> (r: &mut StdRng)
        ensures
            rng_state(*r) == old(self)@.state,
            final(self)@.seed == old(self)@.seed,
            final(self)@.state == rng_state(*final(r)),
    {
        &mut self.rng
    }
}

impl Default for GlobalRng {
    /// A generator with a seed drawn from the entropy source, as
    /// [`GlobalRng::random`] builds it.
    fn default() -> (g: Self)
        ensures
            g@.is_fresh(),
    {
        GlobalRng::random()
    }
}

} // verus!
