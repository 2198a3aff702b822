//! Non-empty vectors with contiguous storage.
//!
//! A [`NonEmpty<T>`] holds at least one element, and keeps all of its
//! elements, the first included, in one contiguous buffer, exactly as a
//! `Vec<T>` does. This is in contrast to head-plus-tail representations
//! of non-empty lists, which split the first element off from the rest
//! and so give up contiguity.
//!
//! The guarantee is established purely by construction: the only ways to
//! build a value are the checked constructors, which answer `None` for an
//! empty source, and every operation that reads a value may rely on its
//! length being at least one.

use vstd::prelude::*;

verus! {

/// A non-empty vector.
///
/// Wraps a single `Vec<T>` whose length is at least one at all times.
/// The abstract contents of a value are the sequence of its elements,
/// available through its view (`self@`).
pub struct NonEmpty<T>(Vec<T>);

impl<T> View for NonEmpty<T> {
    type V = Seq<T>;

    closed spec fn view(&self) -> Seq<T> {
        self.0@
    }
}

impl<T> NonEmpty<T> {
    /// The buffer is never empty.
    #[verifier::type_invariant]
    closed spec fn inv(self) -> bool {
        self.0@.len() >= 1
    }

    /// Construct a non-empty vector from a `Vec<T>`.
    ///
    /// Returns `None` exactly when the input vector is empty. Otherwise
    /// the result takes over the input's buffer as it stands: it holds
    /// the very same elements, at the same indices, with no copy.
    pub fn from_vec(vec: Vec<T>) -> (r: Option<Self>)
        ensures
            vec@.len() == 0 ==> r is None,
            vec@.len() > 0 ==> (r matches Some(ne) && ne@ == vec@),
    {
        if vec.is_empty() {
            None
        } else {
            Some(NonEmpty(vec))
        }
    }

    /// Construct a non-empty vector from a `&[T]`, duplicating the elements.
    ///
    /// Returns `None` exactly when the slice is empty. Otherwise the result
    /// owns a fresh buffer of the slice's length whose element at each index
    /// is a clone of the slice's element at that index; the slice itself is
    /// only read.
    pub fn from_slice(slice: &[T]) -> (r: Option<Self>) where T: Clone
        ensures
            slice@.len() == 0 ==> r is None,
            slice@.len() > 0 ==> (r matches Some(ne) && ne@.len() == slice@.len()
                && (forall|i: int| 0 <= i < slice@.len() ==> cloned::<T>(slice@[i], ne@[i]))),
    {
        let n: usize = slice.len();
        if n == 0 {
            None
        } else {
            let mut buf: Vec<T> = Vec::with_capacity(n);
            let mut i: usize = 0;
            while i < n
                invariant
                    n == slice@.len(),
                    i <= n,
                    buf@.len() == i,
                    forall|j: int| 0 <= j < i ==> cloned::<T>(slice@[j], buf@[j]),
                decreases n - i,
            {
                let e = slice[i].clone();
                buf.push(e);
                i = i + 1;
            }
            Some(NonEmpty(buf))
        }
    }

    /// The number of elements, which is always at least one.
    pub fn len(&self) -> (n: usize)
        ensures
            n == self@.len(),
            n >= 1,
    {
        proof {
            use_type_invariant(self);
        }
        self.0.len()
    }

    /// The first element, which exists in every value of this type.
    pub fn first(&self) -> (e: &T)
        ensures
            *e == self@[0],
    {
        proof {
            use_type_invariant(self);
        }
        &self.0[0]
    }

    /// The elements as a slice of the underlying contiguous buffer.
    pub fn as_slice(&self) -> (s: &[T])
        ensures
            s@ == self@,
    {
        self.0.as_slice()
    }

    /// Inspection is idempotent: any two outcomes of reading the elements
    /// of one and the same value agree, because each outcome equals the
    /// value's abstract contents. Stated here for [`Self::as_slice`]; the
    /// contracts of [`Self::len`] and [`Self::first`] pin their results to
    /// the same contents in the same way.
    pub proof fn lemma_inspection_idempotent(ne: &Self, s1: &[T], s2: &[T])
        requires
            call_ensures(Self::as_slice, (ne,), s1),
            call_ensures(Self::as_slice, (ne,), s2),
        ensures
            s1@ == s2@,
    {
    }

    /// Give the underlying buffer back, unchanged and still non-empty.
    pub fn into_vec(self) -> (v: Vec<T>)
        ensures
            v@ == self@,
            v@.len() >= 1,
    {
        proof {
            use_type_invariant(&self);
        }
        let NonEmpty(v) = self;
        v
    }
}

} // verus!
