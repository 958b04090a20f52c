//! A shareable container whose value is set at most once.
//!
//! The container starts empty. Any number of writers may race to populate it:
//! exactly one `set` succeeds, every loser gets its own payload handed back,
//! and the stored value never changes again. Readers either poll for the value
//! without suspending (`try_get`) or wait until it is present (`get`).
//!
//! The single-assignment slot and the broadcast wakeup are atomic operations
//! of outside primitives, so every concurrent history of the cell linearizes
//! to a sequence of the transitions modelled in [`model`]; the write-once and
//! visibility laws are stated and proved there, over every such sequence.

pub mod model;
mod sync_specs;
pub mod watch;

pub use watch::GetStep;
pub use watch::OnceWatch;
