//! The exclusive-owner memoized cell.

use vstd::prelude::*;

verus! {

/// A memoized slot for one deferred computation.
///
/// The cell is always in one of two states: *pending*, holding the
/// not-yet-run computation, or *ready*, holding the value the computation
/// produced.  Forcing a pending cell runs the computation, caches its result
/// and moves the cell to the ready state; once ready, the cell never changes
/// again and every further force hands the cached value back.  The
/// computation is consumed by the one transition, so it can never run twice.
///
/// This variant is meant for a single owner: forcing needs exclusive (`&mut`)
/// access.  [`crate::sync_cell::SyncLazyCell`] is the variant that may be
/// forced from several threads at once.
pub struct LazyCell<T, F> {
    func: Option<F>,
    cache: Option<T>,
}

impl<T, F: FnOnce() -> T> LazyCell<T, F> {
    /// Exactly one of the deferred computation and the cached value is
    /// present.
    pub closed spec fn wf(self) -> bool {
        self.func is Some <==> self.cache is None
    }

    /// The cell still holds an unevaluated computation.
    pub closed spec fn is_pending(self) -> bool {
        self.cache is None
    }

    /// The cell holds a cached value.
    pub closed spec fn is_ready(self) -> bool {
        self.cache is Some
    }

    /// The cached value of a ready cell.
    pub closed spec fn value(self) -> T
        recommends
            self.is_ready(),
    {
        self.cache->Some_0
    }

    /// The stored computation of a pending cell.
    pub closed spec fn pending_func(self) -> F
        recommends
            self.is_pending(),
    {
        self.func->Some_0
    }

    /// How one call of [`LazyCell::force`] relates the cell before the call,
    /// the cell after it, and the value handed back.
    pub open spec fn force_transition(pre: Self, post: Self, r: T) -> bool {
        &&& post.wf()
        &&& post.is_ready()
        &&& !post.is_pending()
        &&& r == post.value()
        &&& pre.is_ready() ==> post == pre
        &&& pre.is_pending() ==> call_ensures(pre.pending_func(), (), post.value())
    }

    /// A cell that will run `f` when first forced.
    pub fn new(f: F) -> (c: Self)
        ensures
            c.wf(),
            c.is_pending(),
            !c.is_ready(),
            c.pending_func() == f,
    {
        LazyCell { func: Some(f), cache: None }
    }

    /// A cell that is ready from the start, caching `v`; forcing it never
    /// runs anything.
    pub fn evaluated(v: T) -> (c: Self)
        ensures
            c.wf(),
            c.is_ready(),
            !c.is_pending(),
            c.value() == v,
    {
        LazyCell { func: None, cache: Some(v) }
    }

    /// Demand the cell's value.
    ///
    /// If the cell is pending, the stored computation runs, its result is
    /// cached and returned; the computation itself is gone afterwards.  If
    /// the cell is ready, nothing runs and the cached value is returned
    /// unchanged: the contract pins the cell after the call to be exactly the
    /// cell before it.
    pub fn force(&mut self) -> (r: &T)
        requires
            old(self).wf(),
            old(self).is_pending() ==> call_requires(old(self).pending_func(), ()),
        ensures
            Self::force_transition(*old(self), *final(self), *r),
    {
        if self.cache.is_none() {
            let f = self.func.take().unwrap();
            let v = f();
            self.cache = Some(v);
        }
        self.cache.as_ref().unwrap()
    }

    /// Whether the cell has been forced yet.  Observing this does not force
    /// the cell.
    pub fn forced(&self) -> (b: bool)
        ensures
            b == self.is_ready(),
    {
        self.cache.is_some()
    }

    /// Single evaluation: forcing a cell twice runs its computation at most
    /// once.  The first force leaves a ready cell, and the contract of
    /// [`LazyCell::force`] says a ready cell passes through a force
    /// untouched, handing back the cached value — so the second force
    /// changes nothing and returns the very value the first one returned.
    pub proof fn lemma_single_evaluation(pre: Self, mid: Self, post: Self, r1: T, r2: T)
        requires
            Self::force_transition(pre, mid, r1),
            Self::force_transition(mid, post, r2),
        ensures
            post == mid,
            r2 == r1,
    {
    }
}

} // verus!
