//! Configuration for installing the global generator at startup: an
//! optional seed, set builder-style, from which the global generator is
//! built once per session.

use vstd::prelude::*;
use crate::global::GlobalRng;

verus! {

/// Startup configuration for the global generator: either a fixed seed for
/// a reproducible session, or none, for a seed drawn from the entropy
/// source. Host wiring builds the generator once with
/// [`RngPlugin::build_global`] and installs it as shared state.
pub struct RngPlugin {
    seed: Option<u64>,
}

impl RngPlugin {
    /// The configured seed: a fixed value, or none for a random one.
    pub closed spec fn spec_seed(&self) -> Option<u64> {
        self.seed
    }

    /// Configuration with a random seed.
    pub fn new() -> (p: Self)
        ensures
            p.spec_seed() is None,
    {
        RngPlugin { seed: None }
    }

    /// Configuration with a random seed, different each run.
    pub fn random() -> (p: Self)
        ensures
            p.spec_seed() is None,
    {
        RngPlugin { seed: None }
    }

    /// Configuration with a fixed seed, reproducible across runs.
    pub fn seeded(seed: u64) -> (p: Self)
        ensures
            p.spec_seed() == Some(seed),
    {
        RngPlugin { seed: Some(seed) }
    }

    /// Set the seed, builder-style.
    pub fn with_seed(self, seed: u64) -> (p: Self)
        ensures
            p.spec_seed() == Some(seed),
    {
        RngPlugin { seed: Some(seed) }
    }

    /// Build the global generator this configuration describes: seeded
    /// deterministically when a seed is set, from the entropy source when
    /// none is. Either way the generator starts fresh and retains its seed.
    pub fn build_global(&self) -> (g: GlobalRng)
        ensures
            g@.is_fresh(),
            self.spec_seed() matches Some(seed) ==> g@.seed == seed,
    {
        match self.seed {
            Some(seed) => GlobalRng::seeded(seed),
            None => GlobalRng::random(),
        }
    }
}

impl Default for RngPlugin {
    /// Configuration with a random seed, as [`RngPlugin::random`] builds it.
    fn default() -> (p: Self)
        ensures
            p.spec_seed() is None,
    {
        RngPlugin::random()
    }
}

} // verus!
