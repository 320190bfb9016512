use vstd::prelude::*;
use vstd::seq_lib::lemma_multiset_commutative;

use crate::split::split_left;
use crate::split::split_right;

verus! {

/// Partition: for every split position `k` of a sequence `s`, the left half
/// concatenated with the right half rebuilds `s` itself, element for element
/// and in order.
pub proof fn lemma_split_partition<T>(s: Seq<T>, k: int)
    requires
        0 <= k <= s.len(),
    ensures
        split_left(s, k) + split_right(s, k) == s,
{
    assert(split_left(s, k) + split_right(s, k) =~= s);
}

/// Order preservation: the left half carries `s[i]` at position `i`, and the
/// right half carries `s[k + i]` at position `i`.
pub proof fn lemma_split_order<T>(s: Seq<T>, k: int)
    requires
        0 <= k <= s.len(),
    ensures
        forall|i: int| 0 <= i < k ==> #[trigger] split_left(s, k)[i] == s[i],
        forall|i: int| 0 <= i < s.len() - k ==> #[trigger] split_right(s, k)[i] == s[k + i],
{
}

/// No duplication and no loss: the two halves together hold exactly as many
/// elements as `s`, and as a multiset they are exactly the elements of `s` —
/// none dropped, none duplicated.
pub proof fn lemma_split_no_loss<T>(s: Seq<T>, k: int)
    requires
        0 <= k <= s.len(),
    ensures
        split_left(s, k).len() + split_right(s, k).len() == s.len(),
        split_left(s, k).to_multiset().add(split_right(s, k).to_multiset()) == s.to_multiset(),
{
    lemma_split_partition(s, k);
    lemma_multiset_commutative(split_left(s, k), split_right(s, k));
}

/// Degenerate splits: splitting at the start yields an empty left half and
/// the whole of `s` on the right; splitting at the end is the symmetric case;
/// splitting an empty sequence yields two empty halves.
pub proof fn lemma_split_degenerate<T>(s: Seq<T>, k: int)
    requires
        0 <= k <= s.len(),
    ensures
        k == 0 ==> split_left(s, k) == Seq::<T>::empty() && split_right(s, k) == s,
        k == s.len() ==> split_left(s, k) == s && split_right(s, k) == Seq::<T>::empty(),
        s.len() == 0 ==> split_left(s, k) == Seq::<T>::empty() && split_right(s, k)
            == Seq::<T>::empty(),
{
    if k == 0 {
        assert(split_left(s, k) =~= Seq::<T>::empty());
        assert(split_right(s, k) =~= s);
    }
    if k == s.len() {
        assert(split_left(s, k) =~= s);
        assert(split_right(s, k) =~= Seq::<T>::empty());
    }
}

} // verus!
