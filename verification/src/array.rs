//! A generic growable buffer: a contiguous, resizable sequence of elements
//! with an amortized-doubling capacity policy (an empty buffer grows to
//! capacity 1, a full one doubles).

use vstd::prelude::*;

verus! {

/// A growable buffer of elements of type `T`.
///
/// The first `self@.len()` slots are live; `capacity` is the number of slots
/// the buffer has set aside, kept in step with the backing storage through
/// `Vec::reserve`. Popping never shrinks the capacity.
pub struct Array<T> {
    items: Vec<T>,
    capacity: usize,
}

impl<T> View for Array<T> {
    type V = Seq<T>;

    closed spec fn view(&self) -> Seq<T> {
        self.items@
    }
}

/// The capacity that a grow step yields: 1 from an empty allocation,
/// double from anything else.
pub open spec fn next_capacity(cap: nat) -> nat {
    if cap == 0 {
        1
    } else {
        2 * cap
    }
}

impl<T> Array<T> {
    /// The number of slots currently set aside for elements.
    pub closed spec fn spec_capacity(&self) -> nat {
        self.capacity as nat
    }

    /// Well-formedness: the live elements fit in the slots set aside.
    pub open spec fn wf(&self) -> bool {
        self@.len() <= self.spec_capacity()
    }

    /// An empty buffer with no slots set aside.
    pub fn new() -> (a: Array<T>)
        ensures
            a@ == Seq::<T>::empty(),
            a.spec_capacity() == 0,
            a.wf(),
    {
        Array { items: Vec::new(), capacity: 0 }
    }

    /// One grow step of the capacity policy.
    fn grow(&mut self)
        requires
            old(self)@.len() == old(self).spec_capacity(),
            old(self)@.len() < usize::MAX / 2,
        ensures
            final(self)@ == old(self)@,
            final(self).spec_capacity() == next_capacity(old(self).spec_capacity()),
    {
        let new_capacity: usize = if self.capacity == 0 {
            1
        } else {
            self.capacity * 2
        };
        let len = self.items.len();
        self.items.reserve(new_capacity - len);
        self.capacity = new_capacity;
    }

    /// Appends `value` as the new last element, growing first if the buffer
    /// is at capacity. The bound on the length is a machine limit: one more
    /// doubling must still fit in `usize`.
    pub fn push(&mut self, value: T)
        requires
            old(self)@.len() < usize::MAX / 2,
        ensures
            final(self)@ == old(self)@.push(value),
            final(self).spec_capacity() == (if old(self)@.len() == old(self).spec_capacity() {
                next_capacity(old(self).spec_capacity())
            } else {
                old(self).spec_capacity()
            }),
            old(self).wf() ==> final(self).wf(),
    {
        if self.items.len() == self.capacity {
            self.grow();
        }
        self.items.push(value);
    }

    /// Removes and returns the last element, if any. Does not shrink
    /// the capacity.
    pub fn pop(&mut self) -> (r: Option<T>)
        ensures
            old(self)@.len() > 0 ==> r == Some(old(self)@.last())
                && final(self)@ == old(self)@.drop_last(),
            old(self)@.len() == 0 ==> r == None::<T> && final(self)@ == old(self)@,
            final(self).spec_capacity() == old(self).spec_capacity(),
            old(self).wf() ==> final(self).wf(),
    {
        self.items.pop()
    }

    /// The number of live elements.
    pub fn length(&self) -> (n: usize)
        ensures
            n == self@.len(),
    {
        self.items.len()
    }

    /// The number of live elements, under the name the chunk layer uses.
    pub fn count(&self) -> (n: usize)
        ensures
            n == self@.len(),
    {
        self.items.len()
    }

    /// A reference to element `i`. Indexing at or beyond the current length
    /// is a caller error and is ruled out by the precondition; no stale or
    /// uninitialized slot can ever be read.
    pub fn index(&self, i: usize) -> (r: &T)
        requires
            i < self@.len(),
        ensures
            *r == self@[i as int],
    {
        &self.items[i]
    }
}

/// The contents of a buffer after the values `vs` have been pushed, in
/// order, onto an empty buffer: each push appends to the view, exactly as
/// `Array::push` promises.
pub open spec fn pushed<T>(vs: Seq<T>) -> Seq<T>
    decreases vs.len(),
{
    if vs.len() == 0 {
        Seq::<T>::empty()
    } else {
        pushed(vs.drop_last()).push(vs.last())
    }
}

/// Law: after any sequence of pushes onto an empty buffer, the length equals
/// the number of pushes and every value sits at the index it was pushed at,
/// in the original order.
pub proof fn lemma_pushes_keep_order<T>(vs: Seq<T>)
    ensures
        pushed(vs) == vs,
        pushed(vs).len() == vs.len(),
        forall|i: int| 0 <= i < vs.len() ==> pushed(vs)[i] == vs[i],
    decreases vs.len(),
{
    if vs.len() == 0 {
        assert(pushed(vs) =~= vs);
    } else {
        lemma_pushes_keep_order(vs.drop_last());
        assert(pushed(vs) =~= vs);
    }
}

/// The contents of a buffer that held `s` after `k` pops: each pop drops the
/// last element of the view, exactly as `Array::pop` promises.
pub open spec fn popped<T>(s: Seq<T>, k: nat) -> Seq<T>
    decreases k,
{
    if k == 0 {
        s
    } else {
        popped(s, (k - 1) as nat).drop_last()
    }
}

/// Law: popping a buffer that was filled by pushing `vs` hands the values
/// back in exact reverse order (the `k`-th pop returns `vs[len - 1 - k]`),
/// and once all of them are gone the buffer is empty again, so the next pop
/// returns nothing.
pub proof fn lemma_pops_reverse_order<T>(vs: Seq<T>, k: nat)
    requires
        k <= vs.len(),
    ensures
        popped(vs, k) == vs.take(vs.len() - k),
        k < vs.len() ==> popped(vs, k).last() == vs[vs.len() - 1 - k],
        k == vs.len() ==> popped(vs, k).len() == 0,
    decreases k,
{
    if k == 0 {
        assert(popped(vs, 0) =~= vs.take(vs.len() as int));
    } else {
        lemma_pops_reverse_order(vs, (k - 1) as nat);
        assert(popped(vs, k) =~= vs.take(vs.len() - k));
    }
}

} // verus!
