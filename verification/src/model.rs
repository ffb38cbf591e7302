//! The mathematical model that the generator contracts speak of: a retained
//! seed together with the abstract state of the underlying generator, and a
//! small algebra of draw operations over that state.

use vstd::prelude::*;
use crate::backend::{
    next_bool_of, next_i32_of, next_i64_of, next_u32_of, next_u64_of, range_u32_of,
    range_usize_of, seeded_state, shuffle_of,
};

verus! {

/// What a generator is, mathematically: the 64-bit seed it retains and the
/// abstract state of the stream it currently stands at.
pub ghost struct RngModel {
    /// The retained seed: the value that reproduces the generator's initial
    /// state. Draws never change it.
    pub seed: u64,
    /// The abstract state of the underlying stream, which every draw
    /// advances.
    pub state: int,
}

impl RngModel {
    /// A generator freshly seeded: its state is exactly the one its retained
    /// seed produces.
    pub open spec fn is_fresh(self) -> bool {
        self.state == seeded_state(self.seed)
    }
}

/// The seed a fork hands its child: the raw `u64` drawn from the parent's
/// state, used directly.
pub open spec fn fork_child_seed(s: int) -> u64 {
    next_u64_of(s).1
}

/// The seed a named-stream fork hands its child: the raw `u64` drawn from
/// the parent's state, combined with the stream identifier by a wrapping
/// addition.
pub open spec fn stream_child_seed(s: int, stream: u32) -> u64 {
    vstd::wrapping::u64_specs::wrapping_add(next_u64_of(s).1, stream as u64)
}

/// One draw operation, as an abstract event: which primitive was invoked and
/// with which bounds.
pub ghost enum DrawOp {
    /// A raw `u32` draw.
    RawU32,
    /// A raw `u64` draw.
    RawU64,
    /// A raw `i32` draw.
    RawI32,
    /// A raw `i64` draw.
    RawI64,
    /// An even-odds boolean draw.
    Coin,
    /// A bounded `u32` draw over `lo..hi`.
    Bounded { lo: u32, hi: u32 },
    /// A selection from a slice of the given length: the bounded position
    /// draw behind element and index selection.
    Select { len: usize },
    /// An in-place shuffle of a slice of the given length.
    Shuffle { len: nat },
}

/// The successor state and the observed values of one draw operation from a
/// given abstract state: one value for a draw (a boolean widened to zero or
/// one), the whole permutation for a shuffle, and nothing for a selection
/// from an empty slice, which touches no state.
pub open spec fn op_step(s: int, op: DrawOp) -> (int, Seq<int>) {
    match op {
        DrawOp::RawU32 => (next_u32_of(s).0, seq![next_u32_of(s).1 as int]),
        DrawOp::RawU64 => (next_u64_of(s).0, seq![next_u64_of(s).1 as int]),
        DrawOp::RawI32 => (next_i32_of(s).0, seq![next_i32_of(s).1 as int]),
        DrawOp::RawI64 => (next_i64_of(s).0, seq![next_i64_of(s).1 as int]),
        DrawOp::Coin => (next_bool_of(s).0, seq![if next_bool_of(s).1 { 1int } else { 0int }]),
        DrawOp::Bounded { lo, hi } => (
            range_u32_of(s, lo, hi).0,
            seq![range_u32_of(s, lo, hi).1 as int],
        ),
        DrawOp::Select { len } => if len == 0 {
            (s, Seq::empty())
        } else {
            (range_usize_of(s, 0, len).0, seq![range_usize_of(s, 0, len).1 as int])
        },
        DrawOp::Shuffle { len } => (shuffle_of(s, len).0, shuffle_of(s, len).1),
    }
}

/// The state a draw sequence leaves behind, starting from a given abstract
/// state.
pub open spec fn run_state(s: int, ops: Seq<DrawOp>) -> int
    decreases ops.len(),
{
    if ops.len() == 0 {
        s
    } else {
        run_state(op_step(s, ops[0]).0, ops.subrange(1, ops.len() as int))
    }
}

/// The values a draw sequence produces, in order, starting from a given
/// abstract state.
pub open spec fn run_outputs(s: int, ops: Seq<DrawOp>) -> Seq<int>
    decreases ops.len(),
{
    if ops.len() == 0 {
        Seq::empty()
    } else {
        op_step(s, ops[0]).1 + run_outputs(op_step(s, ops[0]).0, ops.subrange(1, ops.len() as int))
    }
}

} // verus!
