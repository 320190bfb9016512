use vstd::prelude::*;

use crate::fixed_seq::FixedSeq;

verus! {

/// The left half of splitting `s` at position `k`: the first `k` elements of
/// `s`, in their original order.
pub open spec fn split_left<T>(s: Seq<T>, k: int) -> Seq<T> {
    s.subrange(0, k)
}

/// The right half of splitting `s` at position `k`: the elements of `s` from
/// position `k` on, in their original order.
pub open spec fn split_right<T>(s: Seq<T>, k: int) -> Seq<T> {
    s.subrange(k, s.len() as int)
}

/// Splitting an owned fixed-length sequence into two owned fixed-length
/// sequences of lengths `K` and `L`.
pub trait SplitOwned<T>: View<V = Seq<T>> + Sized {
    /// Consumes the sequence and relocates each of its elements into exactly
    /// one slot of the two outputs: the first `K` elements into the left
    /// output and the remaining `L` into the right output, each half in its
    /// original order.
    ///
    /// The arity constraint — the source length must equal `K + L` — is the
    /// precondition below, discharged while the program is verified: a call
    /// site that breaks it does not pass verification, so no mismatched split
    /// ever runs. There is no runtime failure path.
    fn split_owned<const K: usize, const L: usize>(self) -> (outputs: (
        FixedSeq<T, K>,
        FixedSeq<T, L>,
    ))
        requires
            K + L == self@.len(),
        ensures
            outputs.0@ == split_left(self@, K as int),
            outputs.1@ == split_right(self@, K as int),
            outputs.0@.len() == K,
            outputs.1@.len() == L,
    ;
}

impl<T, const N: usize> SplitOwned<T> for FixedSeq<T, N> {
    fn split_owned<const K: usize, const L: usize>(self) -> (outputs: (
        FixedSeq<T, K>,
        FixedSeq<T, L>,
    )) {
        let ghost source = self@;
        let mut rest: Vec<T> = self.into_vec();
        let mut left_elems: Vec<T> = Vec::new();
        let mut right_elems: Vec<T> = Vec::new();
        for i in 0..K
            invariant
                source.len() == K + L,
                left_elems@ == source.subrange(0, i as int),
                rest@ == source.subrange(i as int, source.len() as int),
        {
            let element = rest.remove(0);
            left_elems.push(element);
            proof {
                assert(left_elems@ =~= source.subrange(0, i + 1));
                assert(rest@ =~= source.subrange(i + 1, source.len() as int));
            }
        }
        for i in 0..L
            invariant
                source.len() == K + L,
                right_elems@ == source.subrange(K as int, K + i),
                rest@ == source.subrange(K + i, source.len() as int),
        {
            let element = rest.remove(0);
            right_elems.push(element);
            proof {
                assert(right_elems@ =~= source.subrange(K as int, K + i + 1));
                assert(rest@ =~= source.subrange(K + i + 1, source.len() as int));
            }
        }
        let left = FixedSeq::<T, K>::new(left_elems);
        let right = FixedSeq::<T, L>::new(right_elems);
        (left, right)
    }
}

} // verus!
