//! Convenient imports for callers of this crate.

pub use crate::entity::EntityRng;
pub use crate::fork::RngFork;
pub use crate::global::GlobalRng;
pub use crate::plugin::RngPlugin;
