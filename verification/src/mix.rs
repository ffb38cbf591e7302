//! The seed-mixing function: combines a base seed and a discriminator into
//! one well-distributed 64-bit seed. Every derivation in this crate (entity
//! seeds from a global seed, identity-keyed seeds) goes through it.

use vstd::prelude::*;

verus! {

/// The fixed odd multiplier of the mixing step, chosen for its bit-avalanche
/// behaviour. The mix is not a cryptographic hash.
pub const MIX_MULTIPLIER: u64 = 0x517c_c1b7_2722_0a95;

/// What `hash_combine` returns: XOR the inputs, multiply by the fixed odd
/// constant modulo 2^64, then fold the upper half back down with XOR.
pub open spec fn mix64(a: u64, b: u64) -> u64 {
    let m = vstd::wrapping::u64_specs::wrapping_mul(a ^ b, MIX_MULTIPLIER);
    m ^ (m >> 32)
}

/// Combine two 64-bit values into one deterministic, well-distributed seed.
///
/// Pure and total: equal inputs always give equal outputs. Not commutative,
/// and not meant for security.
pub fn hash_combine(a: u64, b: u64) -> (r: u64)
    ensures
        r == mix64(a, b),
{
    let x: u64 = a ^ b;
    let m: u64 = x.wrapping_mul(MIX_MULTIPLIER);
    m ^ (m >> 32)
}

} // verus!
