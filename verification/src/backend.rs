//! The trusted boundary around the underlying pseudo-random generator.
//!
//! The generator algorithm itself (ChaCha with twelve rounds behind
//! `rand::rngs::StdRng`, pinned by the lock file) is a collaborator, not
//! reimplemented here. Its state is opaque; this module gives that state an
//! abstract name, `rng_state`, and names each draw as a pure function from
//! the current abstract state to the next state and the drawn value. The
//! pinned generator is deterministic and portable, so those names are
//! well defined.

use vstd::prelude::*;
use rand::Rng;
use rand::SeedableRng;
use rand::rngs::StdRng;
use rand::seq::SliceRandom;

verus! {

#[verifier::external_type_specification]
#[verifier::external_body]
pub struct ExStdRng(StdRng);

/// The abstract state of an underlying generator value.
pub uninterp spec fn rng_state(r: StdRng) -> int;

/// The abstract state that seeding with a given 64-bit value produces.
pub uninterp spec fn seeded_state(seed: u64) -> int;

/// The next abstract state and drawn value of a raw `u64` draw.
pub uninterp spec fn next_u64_of(s: int) -> (int, u64);

/// The next abstract state and drawn value of a raw `u32` draw.
pub uninterp spec fn next_u32_of(s: int) -> (int, u32);

/// The next abstract state and drawn value of a raw `i32` draw.
pub uninterp spec fn next_i32_of(s: int) -> (int, i32);

/// The next abstract state and drawn value of a raw `i64` draw.
pub uninterp spec fn next_i64_of(s: int) -> (int, i64);

/// The next abstract state and drawn value of an even-odds boolean draw.
pub uninterp spec fn next_bool_of(s: int) -> (int, bool);

/// The next abstract state and drawn value of a bounded `u32` draw.
pub uninterp spec fn range_u32_of(s: int, lo: u32, hi: u32) -> (int, u32);

/// The next abstract state and drawn value of a bounded `usize` draw.
pub uninterp spec fn range_usize_of(s: int, lo: usize, hi: usize) -> (int, usize);

/// The successor state and the permutation of an in-place shuffle of a
/// slice of the given length: position `i` of the shuffled slice holds the
/// item that stood at the permutation's `i`-th entry. The swaps a shuffle
/// makes are decided by its draws alone, so the permutation is a function
/// of the state and the length, never of the items.
pub uninterp spec fn shuffle_of(s: int, len: nat) -> (int, Seq<int>);

/// Relies on `SeedableRng::seed_from_u64` for `StdRng`: the state it builds
/// is a pure function of the seed (a fixed key expansion with explicit byte
/// order), so equal seeds give equal generators on every machine.
#[verifier::external_body]
pub(crate) fn rng_from_seed(seed: u64) -> (r: StdRng)
    ensures
        rng_state(r) == seeded_state(seed),
{
    StdRng::seed_from_u64(seed)
}

/// Relies on `rand::random`, which draws from the thread-local entropy
/// source; nothing is promised of the value.
#[verifier::external_body]
pub(crate) fn entropy_u64() -> u64 {
    rand::random()
}

/// Relies on `Rng::random::<u64>`: the value and the successor state are
/// pure functions of the generator's state.
#[verifier::external_body]
pub(crate) fn rng_next_u64(r: &mut StdRng) -> (v: u64)
    ensures
        rng_state(*final(r)) == next_u64_of(rng_state(*old(r))).0,
        v == next_u64_of(rng_state(*old(r))).1,
{
    r.random::<u64>()
}

/// Relies on `Rng::random::<u32>`: the value and the successor state are
/// pure functions of the generator's state.
#[verifier::external_body]
pub(crate) fn rng_next_u32(r: &mut StdRng) -> (v: u32)
    ensures
        rng_state(*final(r)) == next_u32_of(rng_state(*old(r))).0,
        v == next_u32_of(rng_state(*old(r))).1,
{
    r.random::<u32>()
}

/// Relies on `Rng::random::<i32>`: the value and the successor state are
/// pure functions of the generator's state.
#[verifier::external_body]
pub(crate) fn rng_next_i32(r: &mut StdRng) -> (v: i32)
    ensures
        rng_state(*final(r)) == next_i32_of(rng_state(*old(r))).0,
        v == next_i32_of(rng_state(*old(r))).1,
{
    r.random::<i32>()
}

/// Relies on `Rng::random::<i64>`: the value and the successor state are
/// pure functions of the generator's state.
#[verifier::external_body]
pub(crate) fn rng_next_i64(r: &mut StdRng) -> (v: i64)
    ensures
        rng_state(*final(r)) == next_i64_of(rng_state(*old(r))).0,
        v == next_i64_of(rng_state(*old(r))).1,
{
    r.random::<i64>()
}

/// Relies on `Rng::random::<bool>`: the value and the successor state are
/// pure functions of the generator's state.
#[verifier::external_body]
pub(crate) fn rng_next_bool(r: &mut StdRng) -> (v: bool)
    ensures
        rng_state(*final(r)) == next_bool_of(rng_state(*old(r))).0,
        v == next_bool_of(rng_state(*old(r))).1,
{
    r.random::<bool>()
}

/// Relies on `Rng::random_range` over `lo..hi` for `u32`: it panics only on
/// an empty range, returns a value inside the bounds, and the value and the
/// successor state are pure functions of the state and the bounds.
#[verifier::external_body]
pub(crate) fn rng_range_u32(r: &mut StdRng, lo: u32, hi: u32) -> (v: u32)
    requires
        lo < hi,
    ensures
        rng_state(*final(r)) == range_u32_of(rng_state(*old(r)), lo, hi).0,
        v == range_u32_of(rng_state(*old(r)), lo, hi).1,
        lo <= v < hi,
{
    r.random_range(lo..hi)
}

/// Relies on `Rng::random_range` over `lo..hi` for `usize`: it panics only
/// on an empty range, returns a value inside the bounds, and the value and
/// the successor state are pure functions of the state and the bounds (the
/// sampler is written to behave alike on 32-bit and 64-bit machines).
#[verifier::external_body]
pub(crate) fn rng_range_usize(r: &mut StdRng, lo: usize, hi: usize) -> (v: usize)
    requires
        lo < hi,
    ensures
        rng_state(*final(r)) == range_usize_of(rng_state(*old(r)), lo, hi).0,
        v == range_usize_of(rng_state(*old(r)), lo, hi).1,
        lo <= v < hi,
{
    r.random_range(lo..hi)
}

/// Relies on `SliceRandom::shuffle`: a uniformly chosen in-place permutation
/// (so the items themselves are kept), rearranging the slice by swaps whose
/// positions are decided by the draws alone, which in turn depend only on
/// the length of the slice.
#[verifier::external_body]
pub(crate) fn rng_shuffle<T>(r: &mut StdRng, items: &mut Vec<T>)
    ensures
        final(items)@.to_multiset() == old(items)@.to_multiset(),
        final(items)@.len() == old(items)@.len(),
        rng_state(*final(r)) == shuffle_of(rng_state(*old(r)), old(items)@.len()).0,
        shuffle_of(rng_state(*old(r)), old(items)@.len()).1.len() == old(items)@.len(),
        forall|i: int|
            0 <= i < old(items)@.len() ==> 0 <= #[trigger] shuffle_of(
                rng_state(*old(r)),
                old(items)@.len(),
            ).1[i] < old(items)@.len(),
        final(items)@ == Seq::new(
            old(items)@.len(),
            |i: int| old(items)@[shuffle_of(rng_state(*old(r)), old(items)@.len()).1[i]],
        ),
{
    items.shuffle(r)
}

} // verus!
