use vstd::prelude::*;

verus! {

/// An owned sequence whose length is pinned to the constant `N`: every value
/// of this type holds exactly `N` elements, established when the value is
/// constructed and never broken afterwards.
pub struct FixedSeq<T, const N: usize> {
    elems: Vec<T>,
}

impl<T, const N: usize> View for FixedSeq<T, N> {
    type V = Seq<T>;

    closed spec fn view(&self) -> Seq<T> {
        self.elems@
    }
}

impl<T, const N: usize> FixedSeq<T, N> {
    #[verifier::type_invariant]
    closed spec fn length_pinned(self) -> bool {
        self.elems@.len() == N
    }

    /// Wraps a vector that is known to hold exactly `N` elements.
    pub fn new(elems: Vec<T>) -> (result: Self)
        requires
            elems@.len() == N,
        ensures
            result@ == elems@,
    {
        FixedSeq { elems }
    }

    /// Runtime-checked construction: wraps the vector when its length is
    /// exactly `N`, and reports the mismatch by returning nothing at all
    /// rather than a sequence of the wrong length.
    pub fn from_vec(elems: Vec<T>) -> (result: Option<Self>)
        ensures
            elems@.len() == N ==> (result matches Some(s) && s@ == elems@),
            elems@.len() != N ==> result is None,
    {
        if elems.len() == N {
            Some(FixedSeq { elems })
        } else {
            None
        }
    }

    /// Releases the elements as a vector, in order.
    pub fn into_vec(self) -> (result: Vec<T>)
        ensures
            result@ == self@,
            result@.len() == N,
    {
        proof {
            use_type_invariant(&self);
        }
        self.elems
    }

    /// Borrows the elements as a vector, in order.
    pub fn as_vec(&self) -> (result: &Vec<T>)
        ensures
            result@ == self@,
            result@.len() == N,
    {
        proof {
            use_type_invariant(self);
        }
        &self.elems
    }

    /// The number of elements, which is always `N`.
    pub fn len(&self) -> (n: usize)
        ensures
            n == N,
            self@.len() == N,
    {
        proof {
            use_type_invariant(self);
        }
        self.elems.len()
    }

    /// Borrows the element at position `i`.
    pub fn get(&self, i: usize) -> (element: &T)
        requires
            i < N,
        ensures
            *element == self@[i as int],
    {
        proof {
            use_type_invariant(self);
        }
        &self.elems[i]
    }
}

} // verus!
