//! The synchronized memoized cell.

use crate::clone_faithful;
use vstd::prelude::*;
use vstd::rwlock::{RwLock, RwLockPredicate};

verus! {

/// The two logical states of the cell, kept behind the lock: either the
/// not-yet-run computation or the value it produced.  (The transient
/// "someone is computing" state of the algorithm is the lock being held for
/// writing.)
#[verifier::reject_recursive_types(T)]
#[verifier::reject_recursive_types(F)]
enum SyncState<T, F> {
    Pending(F),
    Ready(T),
}

/// The lock invariant of a [`SyncLazyCell`]: a pending cell stores exactly
/// the computation the cell was created with, and that computation may be
/// called; a ready cell stores a value that the computation could have
/// returned.
#[verifier::reject_recursive_types(F)]
struct SyncCellPred<F> {
    f: F,
}

impl<T, F: FnOnce() -> T> RwLockPredicate<SyncState<T, F>> for SyncCellPred<F> {
    closed spec fn inv(self, v: SyncState<T, F>) -> bool {
        match v {
            SyncState::Pending(g) => g == self.f && call_requires(g, ()),
            SyncState::Ready(t) => call_ensures(self.f, (), t),
        }
    }
}

/// A memoized slot for one deferred computation, shared between threads.
///
/// Like [`crate::cell::LazyCell`], the cell starts out *pending*, runs its
/// computation the first time it is forced, and is *ready* — caching that
/// one result forever — afterwards.  Unlike the exclusive-owner cell it may
/// be forced through a shared reference, concurrently from any number of
/// threads: a reader-writer lock arbitrates the race, the one forcer that
/// takes the write lock on a pending cell runs the computation, and every
/// other forcer waits on the lock until the value is ready.  The computation
/// is consumed by that single transition, so contention can never make it
/// run twice.
///
/// If the computation never returns, the cell stays locked and every forcer
/// waits forever; the computation is assumed total.
#[verifier::reject_recursive_types(T)]
#[verifier::reject_recursive_types(F)]
pub struct SyncLazyCell<T, F: FnOnce() -> T> {
    lock: RwLock<SyncState<T, F>, SyncCellPred<F>>,
}

impl<T: Clone, F: FnOnce() -> T> SyncLazyCell<T, F> {
    /// The computation the cell was created with.
    pub closed spec fn func(self) -> F {
        self.lock.pred().f
    }

    /// What a forcer learns about the value it got back: some value `t` that
    /// the cell's computation could return was cached, and `r` is a clone of
    /// it.
    pub open spec fn force_post(self, r: T) -> bool {
        exists|t: T| #[trigger] call_ensures(self.func(), (), t) && cloned::<T>(t, r)
    }

    /// A cell that will run `f` when first forced.  `f` is assumed total,
    /// so it must be callable outright.
    pub fn new(f: F) -> (c: Self)
        requires
            call_requires(f, ()),
        ensures
            c.func() == f,
    {
        let ghost pred = SyncCellPred { f };
        SyncLazyCell { lock: RwLock::new(SyncState::Pending(f), Ghost(pred)) }
    }

    /// Demand the cell's value; any number of threads may do so at once.
    ///
    /// The fast path takes only a read lock: a ready cell hands back a clone
    /// of the cached value.  Otherwise the forcer takes the write lock; the
    /// one that finds the cell still pending runs the computation and caches
    /// the result, everyone else finds the cache filled meanwhile and reads
    /// it.
    pub fn force(&self) -> (r: T)
        ensures
            self.force_post(r),
    {
        let read = self.lock.acquire_read();
        match read.borrow() {
            SyncState::Ready(t) => {
                let r = t.clone();
                proof {
                    assert(call_ensures(self.func(), (), *t) && cloned::<T>(*t, r));
                }
                read.release_read();
                return r;
            },
            SyncState::Pending(_) => {
                read.release_read();
            },
        }
        let (state, handle) = self.lock.acquire_write();
        match state {
            SyncState::Ready(t) => {
                let r = t.clone();
                let ghost w = t;
                handle.release_write(SyncState::Ready(t));
                proof {
                    assert(call_ensures(self.func(), (), w) && cloned::<T>(w, r));
                }
                r
            },
            SyncState::Pending(f) => {
                let v = f();
                let r = v.clone();
                let ghost w = v;
                handle.release_write(SyncState::Ready(v));
                proof {
                    assert(call_ensures(self.func(), (), w) && cloned::<T>(w, r));
                }
                r
            },
        }
    }

    /// Concurrent forcers agree: when the cell's computation can only return
    /// one value `t` and cloning `T` is faithful, every forcer — however
    /// many race on the cell, in whatever order — comes back with exactly
    /// `t`.
    pub proof fn lemma_forcers_agree(self, t: T, r1: T, r2: T)
        requires
            clone_faithful::<T>(),
            forall|u: T| #[trigger] call_ensures(self.func(), (), u) ==> u == t,
            self.force_post(r1),
            self.force_post(r2),
        ensures
            r1 == t,
            r2 == t,
    {
    }
}

} // verus!
