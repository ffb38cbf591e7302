//! The laws of the derivation algebra, stated once, in one place, over the
//! model that every generator contract speaks of. Each follows from the
//! contracts of the construction and sampling operations; writing them down
//! makes the guarantees of the crate explicit.

use vstd::prelude::*;
use crate::backend::{next_u64_of, range_u32_of, seeded_state};
use crate::mix::mix64;
use crate::model::{run_outputs, run_state, stream_child_seed, DrawOp, RngModel};

verus! {

/// Determinism: two generators constructed from equal seeds stand at equal
/// states, and any common sequence of draw operations produces bit-identical
/// output sequences from them.
pub proof fn lemma_seeded_determinism(a: RngModel, b: RngModel, ops: Seq<DrawOp>)
    requires
        a.seed == b.seed,
        a.is_fresh(),
        b.is_fresh(),
    ensures
        a.state == b.state,
        run_outputs(a.state, ops) == run_outputs(b.state, ops),
        run_state(a.state, ops) == run_state(b.state, ops),
{
}

/// Reset replay: a generator that has returned to the state its retained
/// seed produces yields, for any sequence of draw operations, exactly the
/// outputs a fresh generator with that seed yields.
pub proof fn lemma_reset_replays(drawn: RngModel, reset: RngModel, ops: Seq<DrawOp>)
    requires
        reset.seed == drawn.seed,
        reset.is_fresh(),
    ensures
        run_outputs(reset.state, ops) == run_outputs(seeded_state(drawn.seed), ops),
{
}

/// Fork independence: forking advances the parent exactly as one raw `u64`
/// draw does, and nothing else — the child is a separate value, so its
/// later draws cannot reach the parent's state at all. A parent that draws
/// one bounded value, forks, and draws again therefore sees the same second
/// value as a fresh generator with the same seed that draws one bounded
/// value, one raw `u64`, and then the next bounded value.
pub proof fn lemma_fork_independence(seed: u64, lo: u32, hi: u32)
    requires
        lo < hi,
    ensures
        ({
            let after_first = range_u32_of(seeded_state(seed), lo, hi).0;
            let after_fork = next_u64_of(after_first).0;
            let replay_first = range_u32_of(seeded_state(seed), lo, hi).0;
            let replay_skip = next_u64_of(replay_first).0;
            range_u32_of(after_fork, lo, hi).1 == range_u32_of(replay_skip, lo, hi).1
        }),
{
}

/// Stream determinism: at equal points of the parent sequence, equal stream
/// identifiers derive equal child seeds, so the two child streams agree on
/// every draw.
pub proof fn lemma_stream_determinism(a: RngModel, b: RngModel, stream: u32, ops: Seq<DrawOp>)
    requires
        a.state == b.state,
    ensures
        stream_child_seed(a.state, stream) == stream_child_seed(b.state, stream),
        run_outputs(
            seeded_state(stream_child_seed(a.state, stream)),
            ops,
        ) == run_outputs(seeded_state(stream_child_seed(b.state, stream)), ops),
{
}

/// Identity-derived reproducibility: deriving from equal source seeds and
/// equal identities gives equal derived seeds, hence generators whose full
/// draw sequences are equal.
pub proof fn lemma_identity_reproducible(
    seed_a: u64,
    id_a: u32,
    seed_b: u64,
    id_b: u32,
    ops: Seq<DrawOp>,
)
    requires
        seed_a == seed_b,
        id_a == id_b,
    ensures
        mix64(seed_a, id_a as u64) == mix64(seed_b, id_b as u64),
        run_outputs(
            seeded_state(mix64(seed_a, id_a as u64)),
            ops,
        ) == run_outputs(seeded_state(mix64(seed_b, id_b as u64)), ops),
{
}

} // verus!
