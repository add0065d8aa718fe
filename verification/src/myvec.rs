//! The buffer itself: a contiguous store with verified length and capacity
//! bookkeeping.

use crate::growth::{
    amortized_target, cap_fits, exact_target, lemma_cap_fits_bounds_cap, lemma_cap_fits_monotone,
    nat_max, MIN_NON_ZERO_CAP,
};
use vstd::prelude::*;

verus! {

/// Capacity after `shrink_to(min_capacity)` on a buffer of length `len` and
/// capacity `cap`: down to `max(len, min_capacity)`, so that no live element
/// is ever stranded outside the allocation, and never up.
pub open spec fn shrink_to_result(len: nat, cap: nat, min_capacity: nat) -> nat {
    if cap > min_capacity {
        nat_max(len, min_capacity)
    } else {
        cap
    }
}

/// A growable contiguous buffer. The view `self@` is the sequence of live
/// elements; `self.spec_capacity()` is the number of slots currently backed
/// by storage. Every reachable value satisfies `self@.len() <=
/// self.spec_capacity()`, and the capacity is always representable as a
/// single allocation.
pub struct MyVec<T> {
    data: Vec<T>,
    cap: usize,
}

impl<T> View for MyVec<T> {
    type V = Seq<T>;

    closed spec fn view(&self) -> Seq<T> {
        self.data@
    }
}

impl<T> MyVec<T> {
    /// The number of element slots currently backed by storage.
    pub closed spec fn spec_capacity(&self) -> nat {
        self.cap as nat
    }

    /// Every reachable buffer keeps its live elements within its capacity,
    /// and its capacity within what one allocation can hold.
    #[verifier::type_invariant]
    spec fn wf(self) -> bool {
        &&& self.data@.len() <= self.cap
        &&& cap_fits::<T>(self.cap as nat)
    }

    /// An empty buffer with no allocation at all.
    pub fn new() -> (v: Self)
        ensures
            v@ == Seq::<T>::empty(),
            v.spec_capacity() == 0,
    {
        MyVec { data: Vec::new(), cap: 0 }
    }

    /// An empty buffer backed by storage for exactly `capacity` elements;
    /// for a capacity of zero, no allocation is made.
    pub fn with_capacity(capacity: usize) -> (v: Self)
        requires
            cap_fits::<T>(capacity as nat),
        ensures
            v@ == Seq::<T>::empty(),
            v.spec_capacity() == capacity,
    {
        MyVec { data: Vec::with_capacity(capacity), cap: capacity }
    }

    /// The capacity, which never falls short of the length.
    pub fn capacity(&self) -> (r: usize)
        ensures
            r == self.spec_capacity(),
            self@.len() <= r,
    {
        proof {
            use_type_invariant(self);
        }
        self.cap
    }

    /// The number of live elements, which never exceeds the capacity.
    pub fn len(&self) -> (r: usize)
        ensures
            r == self@.len(),
            r <= self.spec_capacity(),
    {
        proof {
            use_type_invariant(self);
        }
        self.data.len()
    }

    /// Read-only contiguous view of the live elements.
    pub fn as_slice(&self) -> (r: &[T])
        ensures
            r@ == self@,
    {
        self.data.as_slice()
    }

    /// Whether `additional` more elements exceed the spare room `capacity -
    /// length`.
    pub open spec fn spec_needs_to_grow(&self, additional: nat) -> bool {
        additional > self.spec_capacity() - self@.len()
    }

    fn needs_to_grow(&self, additional: usize) -> (r: bool)
        ensures
            r == self.spec_needs_to_grow(additional as nat),
    {
        proof {
            use_type_invariant(self);
        }
        additional > self.cap - self.data.len()
    }

    /// Makes room for at least `additional` more elements. When the spare
    /// room already suffices this does nothing; otherwise the capacity
    /// becomes the amortized target, so repeated calls grow geometrically.
    /// A request whose target capacity is not representable is excluded: on
    /// such a request the allocation layer has no answer but to abort.
    pub fn reserve(&mut self, additional: usize)
        requires
            old(self).spec_needs_to_grow(additional as nat) ==> cap_fits::<T>(
                amortized_target(old(self)@.len(), old(self).spec_capacity(), additional as nat),
            ),
        ensures
            final(self)@ == old(self)@,
            final(self).spec_capacity() == if old(self).spec_needs_to_grow(additional as nat) {
                amortized_target(old(self)@.len(), old(self).spec_capacity(), additional as nat)
            } else {
                old(self).spec_capacity()
            },
    {
        proof {
            use_type_invariant(&*self);
        }
        if self.needs_to_grow(additional) {
            self.grow_amortized(additional);
        }
    }

    /// Makes room for exactly `additional` more elements: the same trigger
    /// as `reserve`, but the capacity becomes precisely `length +
    /// additional`, with no over-allocation.
    pub fn reserve_exact(&mut self, additional: usize)
        requires
            old(self).spec_needs_to_grow(additional as nat) ==> cap_fits::<T>(
                exact_target(old(self)@.len(), additional as nat),
            ),
        ensures
            final(self)@ == old(self)@,
            final(self).spec_capacity() == if old(self).spec_needs_to_grow(additional as nat) {
                exact_target(old(self)@.len(), additional as nat)
            } else {
                old(self).spec_capacity()
            },
    {
        proof {
            use_type_invariant(&*self);
        }
        if self.needs_to_grow(additional) {
            self.grow_exact(additional);
        }
    }

    /// Appends `value` at the end of the live elements, growing by the
    /// amortized policy first when the buffer is full.
    pub fn push(&mut self, value: T)
        requires
            old(self)@.len() == old(self).spec_capacity() ==> cap_fits::<T>(
                amortized_target(old(self)@.len(), old(self).spec_capacity(), 1),
            ),
        ensures
            final(self)@ == old(self)@.push(value),
            final(self).spec_capacity() == if old(self)@.len() == old(self).spec_capacity() {
                amortized_target(old(self)@.len(), old(self).spec_capacity(), 1)
            } else {
                old(self).spec_capacity()
            },
    {
        proof {
            use_type_invariant(&*self);
        }
        if self.data.len() == self.cap {
            self.grow_amortized(1);
        }
        let mut store: Vec<T> = Vec::new();
        core::mem::swap(&mut store, &mut self.data);
        store.push(value);
        self.data = store;
    }

    /// Keeps the first `len` live elements and drops the rest; for `len` at
    /// or above the current length this is a no-op. The capacity never
    /// changes. The elements beyond `len` are dropped with the swapped-out
    /// tail, each destructor running exactly once.
    pub fn truncate(&mut self, len: usize)
        ensures
            final(self).spec_capacity() == old(self).spec_capacity(),
            len >= old(self)@.len() ==> final(self)@ == old(self)@,
            len < old(self)@.len() ==> final(self)@ == old(self)@.subrange(0, len as int),
    {
        proof {
            use_type_invariant(&*self);
        }
        if len > self.data.len() {
            return;
        }
        let mut store: Vec<T> = Vec::new();
        core::mem::swap(&mut store, &mut self.data);
        store.truncate(len);
        self.data = store;
        proof {
            assert(old(self)@.subrange(0, old(self)@.len() as int) =~= old(self)@);
        }
    }

    /// Shrinks the capacity down to the length exactly, deallocating
    /// entirely when the buffer is empty. The live elements are unchanged.
    pub fn shrink_to_fit(&mut self)
        ensures
            final(self)@ == old(self)@,
            final(self).spec_capacity() == old(self)@.len(),
    {
        proof {
            use_type_invariant(&*self);
        }
        if self.cap > self.data.len() {
            let target: usize = self.data.len();
            self.shrink(target);
        }
    }

    /// Shrinks the capacity down to `max(length, min_capacity)` when it is
    /// above `min_capacity`, and otherwise leaves it alone: shrinking never
    /// strands a live element outside the allocation, and never grows.
    pub fn shrink_to(&mut self, min_capacity: usize)
        ensures
            final(self)@ == old(self)@,
            final(self).spec_capacity() == shrink_to_result(
                old(self)@.len(),
                old(self).spec_capacity(),
                min_capacity as nat,
            ),
    {
        proof {
            use_type_invariant(&*self);
        }
        if self.cap > min_capacity {
            let length: usize = self.data.len();
            let target: usize = if length >= min_capacity {
                length
            } else {
                min_capacity
            };
            self.shrink(target);
        }
    }

    /// Both shrinking entries funnel here, as growth funnels into
    /// `resize_to`: the early return keeps a resize to the same capacity
    /// from touching the allocation at all.
    fn shrink(&mut self, cap: usize)
        requires
            old(self)@.len() <= cap,
            cap <= old(self).spec_capacity(),
        ensures
            final(self)@ == old(self)@,
            final(self).spec_capacity() == cap,
    {
        proof {
            use_type_invariant(&*self);
            lemma_cap_fits_monotone::<T>(cap as nat, self.spec_capacity());
        }
        if cap == self.cap {
            return;
        }
        self.resize_to(cap);
    }

    /// Grows the capacity to the amortized target: at least double, at
    /// least `length + additional`, never below the fixed floor.
    fn grow_amortized(&mut self, additional: usize)
        requires
            additional >= 1,
            cap_fits::<T>(
                amortized_target(old(self)@.len(), old(self).spec_capacity(), additional as nat),
            ),
        ensures
            final(self)@ == old(self)@,
            final(self).spec_capacity() == amortized_target(
                old(self)@.len(),
                old(self).spec_capacity(),
                additional as nat,
            ),
    {
        proof {
            use_type_invariant(&*self);
            lemma_cap_fits_bounds_cap::<T>(
                amortized_target(self@.len(), self.spec_capacity(), additional as nat),
            );
            if self.cap > 0 {
                lemma_cap_fits_bounds_cap::<T>(self.cap as nat);
            }
        }
        let required_cap: usize = self.data.len() + additional;
        let doubled: usize = self.cap * 2;
        let target: usize = if doubled >= required_cap {
            doubled
        } else {
            required_cap
        };
        let target: usize = if MIN_NON_ZERO_CAP >= target {
            MIN_NON_ZERO_CAP
        } else {
            target
        };
        self.resize_to(target);
    }

    /// Grows (or, for a caller asking less than the current capacity,
    /// resizes) to exactly `length + additional`.
    fn grow_exact(&mut self, additional: usize)
        requires
            cap_fits::<T>(exact_target(old(self)@.len(), additional as nat)),
        ensures
            final(self)@ == old(self)@,
            final(self).spec_capacity() == exact_target(old(self)@.len(), additional as nat),
    {
        proof {
            use_type_invariant(&*self);
            if self@.len() + additional > 0 {
                lemma_cap_fits_bounds_cap::<T>(exact_target(self@.len(), additional as nat));
            }
        }
        let target: usize = self.data.len() + additional;
        self.resize_to(target);
    }

    /// Every capacity change funnels here, so the representability guard is
    /// applied uniformly whichever policy asked for it. A target of zero
    /// deallocates entirely; otherwise the backing store is resized to hold
    /// exactly the target, the live elements untouched.
    fn resize_to(&mut self, cap: usize)
        requires
            old(self)@.len() <= cap,
            cap_fits::<T>(cap as nat),
        ensures
            final(self)@ == old(self)@,
            final(self).spec_capacity() == cap,
    {
        proof {
            use_type_invariant(&*self);
        }
        if cap == 0 {
            self.dealloc();
        } else {
            let mut store: Vec<T> = Vec::new();
            core::mem::swap(&mut store, &mut self.data);
            if cap > self.cap {
                store.reserve(cap - store.len());
            } else {
                vec_shrink_to(&mut store, cap);
            }
            self.data = store;
            self.cap = cap;
        }
    }

    /// Resets to the unallocated state. The swapped-out store still owns
    /// the live elements and the allocation; dropping it at the end of the
    /// body runs each element's destructor exactly once and releases the
    /// allocation exactly once.
    fn dealloc(&mut self)
        ensures
            final(self)@ == Seq::<T>::empty(),
            final(self).spec_capacity() == 0,
    {
        proof {
            use_type_invariant(&*self);
        }
        let mut store: Vec<T> = Vec::new();
        core::mem::swap(&mut store, &mut self.data);
        self.cap = 0;
    }
}

/// Relies on std's Vec::shrink_to: it only gives up spare capacity, keeping
/// room for at least `max(length, min_capacity)` elements; the elements
/// themselves are untouched.
#[verifier::external_body]
fn vec_shrink_to<T>(v: &mut Vec<T>, min_capacity: usize)
    ensures
        final(v)@ == old(v)@,
{
    v.shrink_to(min_capacity)
}

/// The view after appending each element of `vs`, in order, to a buffer
/// whose view is `s`. Each call of `push` ensures exactly the one-step case
/// of this function, so a run of N pushes leaves the view it computes.
pub open spec fn view_after_pushes<T>(s: Seq<T>, vs: Seq<T>) -> Seq<T>
    decreases vs.len(),
{
    if vs.len() == 0 {
        s
    } else {
        view_after_pushes(s.push(vs[0]), vs.subrange(1, vs.len() as int))
    }
}

/// Append correctness: a run of pushes appends exactly the pushed values,
/// in order, after whatever was already there — whatever reallocations
/// happen on the way, since each push keeps the prior view as a prefix.
pub proof fn lemma_view_after_pushes<T>(s: Seq<T>, vs: Seq<T>)
    ensures
        view_after_pushes(s, vs) == s + vs,
    decreases vs.len(),
{
    if vs.len() == 0 {
        assert(s + vs =~= s);
    } else {
        lemma_view_after_pushes(s.push(vs[0]), vs.subrange(1, vs.len() as int));
        assert(s.push(vs[0]) + vs.subrange(1, vs.len() as int) =~= s + vs);
    }
}

/// N pushes into an empty buffer leave exactly the N pushed values.
pub proof fn lemma_pushes_from_empty<T>(vs: Seq<T>)
    ensures
        view_after_pushes(Seq::<T>::empty(), vs) == vs,
{
    lemma_view_after_pushes(Seq::<T>::empty(), vs);
    assert(Seq::<T>::empty() + vs =~= vs);
}

/// Shrink correctness for `shrink_to`: the capacity never drops below the
/// length, never rises, and when it does drop it lands exactly on
/// `max(length, min_capacity)` — never below it.
pub proof fn lemma_shrink_to_result_bounds(len: nat, cap: nat, min_capacity: nat)
    requires
        len <= cap,
    ensures
        shrink_to_result(len, cap, min_capacity) >= len,
        shrink_to_result(len, cap, min_capacity) <= cap,
        shrink_to_result(len, cap, min_capacity) < cap ==> shrink_to_result(len, cap, min_capacity)
            == nat_max(len, min_capacity),
{
}

} // verus!
