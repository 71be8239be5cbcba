//! Infinite, immutable, structurally shared lazy streams.
//!
//! The crate is built from two primitives and one structure:
//!
//! * [`cell::LazyCell`]: a memoized slot owned by a single owner.  It holds a
//!   deferred computation until the value is first demanded, then caches the
//!   value forever.
//! * [`sync_cell::SyncLazyCell`]: the same memoized slot, safe to force from
//!   any number of threads at once; exactly one forcer runs the computation.
//! * [`stream::Stream`]: an infinite singly linked sequence whose nodes are
//!   produced on demand and shared between all owners of a suffix.

use vstd::prelude::*;

pub mod cell;
pub mod stream;
pub mod sync_cell;

pub use cell::LazyCell;
pub use stream::{Stream, StreamIter, StreamView};
pub use sync_cell::SyncLazyCell;

verus! {

/// A duplication that is worth the name: every value that `clone` can return
/// compares equal to the value it was cloned from.  `Clone` implementations
/// are free-form Rust, so laws that speak about the elements of a stream of
/// `T` take this as a hypothesis.
pub open spec fn clone_faithful<T: Clone>() -> bool {
    forall|a: T, b: T| #[trigger] cloned::<T>(a, b) ==> b == a
}

} // verus!
