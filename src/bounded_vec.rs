//! A vector whose exact length is carried in its contracts, so that each
//! index is proved in range where it is written and never checked at run time.
use vstd::prelude::*;

verus! {

/// A vector that carries its exact length in its view.
///
/// Indexing asks for a proof that the index is below the length; `push`
/// consumes the vector and gives back one whose length is one greater.
pub struct BoundedVec<T> {
    inner: Vec<T>,
}

impl<T> View for BoundedVec<T> {
    type V = Seq<T>;

    closed spec fn view(&self) -> Seq<T> {
        self.inner@
    }
}

/// The sequence `s` after pushing each element of `extra` in turn.
pub open spec fn push_all<T>(s: Seq<T>, extra: Seq<T>) -> Seq<T>
    decreases extra.len(),
{
    if extra.len() == 0 {
        s
    } else {
        push_all(s, extra.drop_last()).push(extra.last())
    }
}

/// Built from `n` elements and then grown by `k` pushes, a vector has length
/// `n + k`, and each index below that gives the element that was put there:
/// the original elements first, then the pushed ones in order.
pub proof fn lemma_push_all<T>(s: Seq<T>, extra: Seq<T>)
    ensures
        push_all(s, extra).len() == s.len() + extra.len(),
        forall|i: int| 0 <= i < s.len() ==> #[trigger] push_all(s, extra)[i] == s[i],
        forall|i: int|
            s.len() <= i < s.len() + extra.len() ==> #[trigger] push_all(s, extra)[i] == extra[i
                - s.len()],
    decreases extra.len(),
{
    if extra.len() > 0 {
        lemma_push_all(s, extra.drop_last());
    }
}

impl<T> BoundedVec<T> {
    /// Push an element; the vector is consumed and comes back one longer.
    pub fn push(self, elem: T) -> (r: BoundedVec<T>)
        ensures
            r@ == self@.push(elem),
    {
        let mut inner = self.inner;
        inner.push(elem);
        BoundedVec { inner }
    }

    /// The element at index `n`, which must be below the length.
    pub fn index(&self, n: usize) -> (r: &T)
        requires
            n < self@.len(),
        ensures
            *r == self@[n as int],
    {
        &self.inner[n]
    }

    /// The element at index `n`, mutably; `n` must be below the length.
    pub fn index_mut(&mut self, n: usize) -> (r: &mut T)
        requires
            n < old(self)@.len(),
        ensures
            *r == old(self)@[n as int],
            final(self)@ == old(self)@.update(n as int, *final(r)),
    {
        &mut self.inner[n]
    }

    /// The number of elements.
    pub fn len(&self) -> (r: usize)
        ensures
            r == self@.len(),
    {
        self.inner.len()
    }
}

impl<T: Copy> BoundedVec<T> {
    /// A bounded vector holding the elements of `arr`, in order.
    pub fn from_array<const N: usize>(arr: [T; N]) -> (r: BoundedVec<T>)
        ensures
            r@ == arr@,
    {
        let mut inner: Vec<T> = Vec::new();
        let mut i: usize = 0;
        while i < N
            invariant
                i <= N,
                arr@.len() == N,
                inner@ == arr@.subrange(0, i as int),
            decreases N - i,
        {
            inner.push(arr[i]);
            i = i + 1;
        }
        assert(inner@ =~= arr@);
        BoundedVec { inner }
    }
}

} // verus!
