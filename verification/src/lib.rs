//! Mutable global variables with verified access protocols.
//!
//! A cell starts empty, is initialized exactly once, and thereafter hands out
//! exclusive access to its payload. Two variants are provided: [`Global`], a
//! thread-safe cell guarded by a lock, and [`LocalCell`], a thread-confined
//! cell that needs no locking. Both follow the protocol of [`OneShotLatch`],
//! a one-time commit mechanism with no reset, whose laws are stated and
//! proved in [`laws`].

pub mod errors;
pub mod global;
pub mod latch;
pub mod laws;
pub mod local;

pub use errors::CellError;
pub use global::Global;
pub use global::GlobalGuard;
pub use latch::OneShotLatch;
pub use local::LocalCell;

