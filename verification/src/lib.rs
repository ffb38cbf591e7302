//! Deterministic, reproducible pseudo-random number generation built around
//! one global generator and independent per-entity generators.
//!
//! A generator retains the 64-bit seed that initialized it, so any sequence
//! of draws can be replayed: `reset` returns the generator to the state the
//! seed produces, and derived generators obtain their own seeds from a parent
//! seed and a discriminator through a fixed mixing function.

mod backend;
mod entity;
mod fork;
mod global;
mod laws;
mod mix;
mod model;
mod plugin;
pub mod prelude;

pub use backend::next_bool_of;
pub use backend::next_i32_of;
pub use backend::next_i64_of;
pub use backend::next_u32_of;
pub use backend::next_u64_of;
pub use backend::range_u32_of;
pub use backend::range_usize_of;
pub use backend::rng_state;
pub use backend::seeded_state;
pub use backend::shuffle_of;
pub use entity::EntityRng;
pub use fork::RngFork;
pub use global::GlobalRng;
pub use laws::lemma_fork_independence;
pub use laws::lemma_identity_reproducible;
pub use laws::lemma_reset_replays;
pub use laws::lemma_seeded_determinism;
pub use laws::lemma_stream_determinism;
pub use mix::hash_combine;
pub use mix::mix64;
pub use model::fork_child_seed;
pub use model::op_step;
pub use model::run_outputs;
pub use model::run_state;
pub use model::stream_child_seed;
pub use model::DrawOp;
pub use model::RngModel;
pub use plugin::RngPlugin;
