//! The infinite lazy stream.

use crate::clone_faithful;
use std::sync::Arc;
use vstd::prelude::*;
use vstd::rwlock::{RwLock, RwLockPredicate};

verus! {

/// The (spec-level) state of one stream node: the realized element at the
/// front, the saved input from which the rest of the stream will be grown,
/// and the generator function.  The element is always a clone of the saved
/// input — the two exist side by side only because producing the next node
/// consumes an input value while the element stays readable forever.
pub struct StreamView<T, F> {
    /// The element at the front of the stream.
    pub head: T,
    /// The input the next element will be computed from; a clone-partner of
    /// `head`.
    pub seed: T,
    /// The generator: each element is this function, applied to a clone of
    /// the previous element's seed.
    pub func: F,
}

/// How a node and the node after it relate: the later node was built by
/// applying `func` to a clone `c` of `seed`, keeping the result `y` as the
/// new seed and a clone of it as the new element, and carrying `func` along
/// unchanged.
pub open spec fn successor_of<T: Clone, F: Fn(T) -> T>(
    seed: T,
    func: F,
    post: StreamView<T, F>,
) -> bool {
    &&& post.func == func
    &&& exists|c: T, y: T|
        {
            &&& #[trigger] cloned::<T>(seed, c)
            &&& #[trigger] call_ensures(func, (c,), y)
            &&& post.seed == y
            &&& cloned::<T>(y, post.head)
        }
}

/// [`successor_of`], phrased between two node states.
pub open spec fn succ<T: Clone, F: Fn(T) -> T>(
    pre: StreamView<T, F>,
    post: StreamView<T, F>,
) -> bool {
    successor_of(pre.seed, pre.func, post)
}

/// The lock invariant of a node's `next` slot: while unforced it holds
/// nothing; once forced it holds a successor of the node, as judged by the
/// `seed` and `func` the slot was created for.
#[verifier::reject_recursive_types(T)]
#[verifier::reject_recursive_types(F)]
struct NextPred<T, F> {
    seed: T,
    func: F,
}

impl<T: Clone, F: Fn(T) -> T> RwLockPredicate<Option<Stream<T, F>>> for NextPred<T, F> {
    closed spec fn inv(self, v: Option<Stream<T, F>>) -> bool {
        match v {
            Some(s) => successor_of(self.seed, self.func, s@),
            None => true,
        }
    }
}

/// One node of the chain; reached only through a [`Stream`] handle.
///
/// `head` is the realized element: nodes are only ever built by the
/// generators, which always know the current element, so it is stored
/// eagerly.  What *is* deferred is the whole next node: `next` starts out
/// empty, and `seed` and `func` are the captured state of the pending
/// computation that fills it — they, not the slot, remember how to go on.
#[verifier::reject_recursive_types(T)]
#[verifier::reject_recursive_types(F)]
struct Node<T: Clone, F: Fn(T) -> T> {
    head: T,
    seed: T,
    func: F,
    next: RwLock<Option<Stream<T, F>>, NextPred<T, F>>,
}

/// An infinite, immutable, shareable lazy stream.
///
/// A value of this type is a shared handle to one node of the chain; cloning
/// the handle, or taking [`Stream::tail`], shares the suffix rather than
/// copying it, and a node is reclaimed when its last handle is dropped.  The
/// chain grows node by node, on demand: each node's successor is computed at
/// most once — by the synchronized slot inside the node — however many
/// handles demand it, from however many threads.
///
/// A stream is built by [`Stream::from_fn`] or [`Stream::from_fn_copy`] and
/// never from parts, so every node's future is fixed by its seed and its
/// generator function alone; forcing decides *when* a node materializes,
/// never *what* it will be.
#[verifier::reject_recursive_types(T)]
#[verifier::reject_recursive_types(F)]
pub struct Stream<T: Clone, F: Fn(T) -> T> {
    node: Arc<Node<T, F>>,
}

impl<T: Clone, F: Fn(T) -> T> View for Stream<T, F> {
    type V = StreamView<T, F>;

    closed spec fn view(&self) -> StreamView<T, F> {
        StreamView { head: self.node.head, seed: self.node.seed, func: self.node.func }
    }
}

impl<T: Clone, F: Fn(T) -> T> Stream<T, F> {
    /// The node's lock invariant speaks of the node's own seed and function,
    /// the element is a clone of the seed, and the generator function is
    /// total.
    #[verifier::type_invariant]
    spec fn wf(self) -> bool {
        &&& self.node.next.pred() == (NextPred { seed: self.node.seed, func: self.node.func })
        &&& cloned::<T>(self.node.seed, self.node.head)
        &&& forall|x: T| call_requires(self.node.func, (x,))
    }

    /// Get, and force evaluation of, the value at the front of the stream.
    ///
    /// The node never changes, so every call hands back the same value:
    /// both are pinned to `self@.head`.
    pub fn head(&self) -> (r: &T)
        ensures
            *r == self@.head,
    {
        &self.node.head
    }
}

impl<T: Clone, F: Fn(T) -> T + Copy> Stream<T, F> {
    /// Build the node that follows this one: apply the generator to a clone
    /// of the seed and grow a fresh unforced node from the result.
    fn advance(&self) -> (s: Stream<T, F>)
        ensures
            successor_of(self@.seed, self@.func, s@),
    {
        proof {
            use_type_invariant(self);
        }
        let c = self.node.seed.clone();
        let f = self.node.func;
        let ghost cw = c;
        let y = f(c);
        let s = Stream::fresh(y, f);
        proof {
            assert(cloned::<T>(self@.seed, cw) && call_ensures(self@.func, (cw,), s@.seed));
        }
        s
    }

    /// A fresh, unforced node seeded with `x`: the element is a clone of
    /// `x`, and `x` itself is saved as the input of the deferred successor.
    fn fresh(x: T, f: F) -> (s: Stream<T, F>)
        requires
            forall|a: T| call_requires(f, (a,)),
        ensures
            s@.seed == x,
            s@.func == f,
            cloned::<T>(x, s@.head),
    {
        let h = x.clone();
        let ghost pred = NextPred { seed: x, func: f };
        let next = RwLock::new(None, Ghost(pred));
        Stream { node: Arc::new(Node { head: h, seed: x, func: f, next }) }
    }

    /// Create an infinite stream from a function and an initial input.
    /// The contents of the stream are created like so:
    ///
    /// `x`, `f(x)`, `f(f(x))`, `f(f(f(x)))`, etc.
    ///
    /// `f` must be total — callable on every value of `T`; each element is a
    /// clone of the stream's internal seed at that position.
    pub fn from_fn(x: T, f: F) -> (s: Stream<T, F>)
        requires
            forall|a: T| call_requires(f, (a,)),
        ensures
            s@.seed == x,
            s@.func == f,
            cloned::<T>(x, s@.head),
    {
        Stream::fresh(x, f)
    }

    /// Get the rest of the stream, skipping the first value.
    ///
    /// The first call forces the node's successor into existence; every call
    /// returns a handle to that one shared node, which the caller now owns
    /// independently of this handle.
    pub fn tail(&self) -> (r: Stream<T, F>)
        ensures
            succ(self@, r@),
    {
        proof {
            use_type_invariant(self);
        }
        let read = self.node.next.acquire_read();
        match read.borrow() {
            Some(s) => {
                let r = s.clone();
                read.release_read();
                return r;
            },
            None => {
                read.release_read();
            },
        }
        let (state, handle) = self.node.next.acquire_write();
        match state {
            Some(s) => {
                let r = s.clone();
                handle.release_write(Some(s));
                r
            },
            None => {
                let s = self.advance();
                let r = s.clone();
                handle.release_write(Some(s));
                r
            },
        }
    }

    /// Get an infinite iterator over the contents of the stream, anchored at
    /// this node.  Obtaining it only shares the node, it copies nothing.
    pub fn iter(&self) -> (it: StreamIter<T, F>)
        ensures
            it@ == self@,
    {
        StreamIter { cur: self.clone() }
    }
}

impl<T: Clone + Copy, F: Fn(T) -> T + Copy> Stream<T, F> {
    /// Create an infinite stream from a function and an initial input.
    /// The contents of the stream are created like so:
    ///
    /// `x`, `f(x)`, `f(f(x))`, `f(f(f(x)))`, etc.
    ///
    /// This is a specialized version of the function for types
    /// which are copy instead of clone: no duplication call is needed, so
    /// the element is known to be exactly `x`.
    pub fn from_fn_copy(x: T, f: F) -> (s: Stream<T, F>)
        requires
            forall|a: T| call_requires(f, (a,)),
        ensures
            s@.head == x,
            s@.seed == x,
            s@.func == f,
    {
        let ghost pred = NextPred { seed: x, func: f };
        let next = RwLock::new(None, Ghost(pred));
        Stream { node: Arc::new(Node { head: x, seed: x, func: f, next }) }
    }
}

impl<T: Clone, F: Fn(T) -> T> Clone for Stream<T, F> {
    /// Share the stream: the new handle denotes the very same node.
    fn clone(&self) -> (r: Self)
        ensures
            r == *self,
    {
        proof {
            use_type_invariant(self);
        }
        Stream { node: self.node.clone() }
    }
}

/// An iterator of values over the contents of a stream.
///
/// The iterator holds its own handle to the node it stands on; advancing
/// replaces that handle by the node's (forced) successor and never touches
/// the nodes themselves, so any number of iterators can walk one stream.  A
/// fresh iterator anchored anywhere can be had from [`Stream::iter`].
#[verifier::reject_recursive_types(T)]
#[verifier::reject_recursive_types(F)]
pub struct StreamIter<T: Clone, F: Fn(T) -> T> {
    cur: Stream<T, F>,
}

impl<T: Clone, F: Fn(T) -> T> View for StreamIter<T, F> {
    type V = StreamView<T, F>;

    closed spec fn view(&self) -> StreamView<T, F> {
        self.cur@
    }
}

impl<T: Clone, F: Fn(T) -> T + Copy> StreamIter<T, F> {
    /// Step the iterator: hand back (a clone of) the element of the node
    /// the iterator stands on, and move to the next node, forcing it into
    /// existence if this is anyone's first visit.
    ///
    /// The sequence is infinite, so there is no exhaustion to signal: every
    /// call returns a value.
    pub fn next(&mut self) -> (r: T)
        ensures
            cloned::<T>(old(self)@.head, r),
            succ(old(self)@, final(self)@),
    {
        let r = self.cur.head().clone();
        let nxt = self.cur.tail();
        self.cur = nxt;
        r
    }
}

/// `f` computes the pure function `g`: every value that `f` can return on
/// input `x` is exactly `g(x)`.  This is how an executable generator is tied
/// to its mathematical meaning; an impure `f` computes no `g`, and the laws
/// below do not speak about it.
pub open spec fn computes<T, F: Fn(T) -> T>(f: F, g: spec_fn(T) -> T) -> bool {
    forall|x: T, y: T| #[trigger] call_ensures(f, (x,), y) ==> y == g(x)
}

/// `g` applied `k` times to `x`: the mathematical element at position `k` of
/// the stream generated from `x` by `g`.
pub open spec fn iterate<T>(g: spec_fn(T) -> T, x: T, k: nat) -> T
    decreases k,
{
    if k == 0 {
        x
    } else {
        g(iterate(g, x, (k - 1) as nat))
    }
}

/// A successor is determined: when the generator computes a pure function
/// `g` and cloning `T` is faithful, a node's successor — however and
/// whenever it was forced — carries exactly `g` of the node's seed, as both
/// its element and its new seed.
pub proof fn lemma_successor_determined<T: Clone, F: Fn(T) -> T>(
    pre: StreamView<T, F>,
    post: StreamView<T, F>,
    g: spec_fn(T) -> T,
)
    requires
        clone_faithful::<T>(),
        computes(pre.func, g),
        succ(pre, post),
    ensures
        post.head == g(pre.seed),
        post.seed == post.head,
        post.func == pre.func,
{
    let (c, y): (T, T) = choose|c: T, y: T|
        {
            &&& #[trigger] cloned::<T>(pre.seed, c)
            &&& #[trigger] call_ensures(pre.func, (c,), y)
            &&& post.seed == y
            &&& cloned::<T>(y, post.head)
        };
    assert(c == pre.seed);
    assert(y == g(pre.seed));
}

/// Sharing: two handles obtained by taking the tail of the same node — in
/// either order, by the same or by different owners — denote the same
/// logical node: equal element, equal seed, equal generator.
pub proof fn lemma_tail_shares<T: Clone, F: Fn(T) -> T>(
    s: StreamView<T, F>,
    t1: StreamView<T, F>,
    t2: StreamView<T, F>,
    g: spec_fn(T) -> T,
)
    requires
        clone_faithful::<T>(),
        computes(s.func, g),
        succ(s, t1),
        succ(s, t2),
    ensures
        t1 == t2,
        t1.head == g(s.seed),
{
    lemma_successor_determined(s, t1, g);
    lemma_successor_determined(s, t2, g);
}

/// Structural determinism, one position at a time: along any chain of
/// successor nodes that starts at a node generated from `x0`, the node at
/// position `i` holds exactly `g` applied `i` times to `x0` — no matter in
/// what order, how often, or from how many handles the chain was forced.
proof fn lemma_chain_elem<T: Clone, F: Fn(T) -> T>(
    chain: Seq<StreamView<T, F>>,
    x0: T,
    f: F,
    g: spec_fn(T) -> T,
    i: int,
)
    requires
        clone_faithful::<T>(),
        computes(f, g),
        0 <= i < chain.len(),
        chain[0].head == x0,
        chain[0].seed == x0,
        chain[0].func == f,
        forall|j: int| 0 <= j < chain.len() - 1 ==> #[trigger] succ(chain[j], chain[j + 1]),
    ensures
        chain[i].head == iterate(g, x0, i as nat),
        chain[i].seed == chain[i].head,
        chain[i].func == f,
    decreases i,
{
    if i > 0 {
        lemma_chain_elem(chain, x0, f, g, i - 1);
        let j = i - 1;
        assert(succ(chain[j], chain[j + 1]));
        lemma_successor_determined(chain[i - 1], chain[i], g);
    }
}

/// Structural determinism: for a stream generated from `x0` by a generator
/// that computes the pure function `g`, any chain of successor views read
/// off the stream yields exactly `x0`, `g(x0)`, `g(g(x0))`, … — whatever
/// the order of access that materialized the nodes.
pub proof fn lemma_structural_determinism<T: Clone, F: Fn(T) -> T>(
    chain: Seq<StreamView<T, F>>,
    x0: T,
    f: F,
    g: spec_fn(T) -> T,
)
    requires
        clone_faithful::<T>(),
        computes(f, g),
        chain.len() > 0,
        chain[0].head == x0,
        chain[0].seed == x0,
        chain[0].func == f,
        forall|j: int| 0 <= j < chain.len() - 1 ==> #[trigger] succ(chain[j], chain[j + 1]),
    ensures
        forall|i: int|
            0 <= i < chain.len() ==> (#[trigger] chain[i]).head == iterate(g, x0, i as nat),
{
    assert forall|i: int|
        0 <= i < chain.len() implies (#[trigger] chain[i]).head == iterate(g, x0, i as nat) by {
        lemma_chain_elem(chain, x0, f, g, i);
    }
}

/// Generator equivalence: a stream built by [`Stream::from_fn`] and one
/// built by [`Stream::from_fn_copy`] from the same seed and the same
/// generator are the same stream — equal element, seed and generator, and
/// hence (by the laws above) equal at every position.
pub proof fn lemma_generator_equivalence<T: Clone, F: Fn(T) -> T>(
    x: T,
    f: F,
    s1: StreamView<T, F>,
    s2: StreamView<T, F>,
)
    requires
        clone_faithful::<T>(),
        s1.seed == x,
        cloned::<T>(x, s1.head),
        s1.func == f,
        s2.head == x,
        s2.seed == x,
        s2.func == f,
    ensures
        s1 == s2,
{
}

} // verus!
