//! Comparing byte strings of one length, byte by byte.
use core::cmp::Ordering;
use vstd::prelude::*;

verus! {

/// Whether `k` is the first place at which `a` and `b` hold different bytes.
pub open spec fn first_difference(a: Seq<u8>, b: Seq<u8>, k: int) -> bool {
    &&& 0 <= k < a.len()
    &&& k < b.len()
    &&& a[k] != b[k]
    &&& a.take(k) == b.take(k)
}

/// Whether `a` comes before `b`: at the first place where they differ, `a` holds the smaller byte.
pub open spec fn precedes(a: Seq<u8>, b: Seq<u8>) -> bool {
    exists|k: int| #[trigger] first_difference(a, b, k) && a[k] < b[k]
}

/// The order of two byte strings of one length: that of their bytes at the first place where they
/// differ, and `Equal` where they differ nowhere.
pub open spec fn byte_order(a: Seq<u8>, b: Seq<u8>) -> Ordering {
    if a == b {
        Ordering::Equal
    } else if precedes(a, b) {
        Ordering::Less
    } else {
        Ordering::Greater
    }
}

/// Two byte strings have at most one first difference.
pub proof fn lemma_first_difference_unique(a: Seq<u8>, b: Seq<u8>, j: int, k: int)
    requires
        first_difference(a, b, j),
        first_difference(a, b, k),
    ensures
        j == k,
{
    if j < k {
        assert(a.take(k)[j] == b.take(k)[j]);
    } else if k < j {
        assert(a.take(j)[k] == b.take(j)[k]);
    }
}

/// Of two different byte strings of one length exactly one comes before the other, and no byte
/// string comes before itself.
pub proof fn lemma_precedes_total(a: Seq<u8>, b: Seq<u8>)
    requires
        a.len() == b.len(),
    ensures
        a == b ==> !precedes(a, b) && !precedes(b, a),
        a != b ==> (precedes(a, b) <==> !precedes(b, a)),
{
    if a == b {
        assert forall|k: int| !first_difference(a, b, k) by {}
        assert forall|k: int| !first_difference(b, a, k) by {}
    } else {
        let k = lemma_differing_have_first_difference(a, b);
        assert(b.take(k) == a.take(k));
        assert(first_difference(b, a, k));
        if precedes(a, b) {
            let i = choose|i: int| #[trigger] first_difference(a, b, i) && a[i] < b[i];
            lemma_first_difference_unique(a, b, i, k);
            if precedes(b, a) {
                let j = choose|j: int| #[trigger] first_difference(b, a, j) && b[j] < a[j];
                lemma_first_difference_unique(b, a, j, k);
            }
        } else {
            assert(b[k] < a[k]);
        }
    }
}

/// Two different byte strings of one length have a first difference.
pub proof fn lemma_differing_have_first_difference(a: Seq<u8>, b: Seq<u8>) -> (k: int)
    requires
        a.len() == b.len(),
        a != b,
    ensures
        first_difference(a, b, k),
    decreases a.len(),
{
    if a.len() == 0 {
        assert(a =~= b);
        0
    } else if a.drop_last() == b.drop_last() {
        let k = a.len() - 1;
        if a[k] == b[k] {
            assert(a =~= a.drop_last().push(a[k]));
            assert(b =~= b.drop_last().push(b[k]));
        }
        assert(a.take(k) =~= a.drop_last());
        assert(b.take(k) =~= b.drop_last());
        k
    } else {
        let k = lemma_differing_have_first_difference(a.drop_last(), b.drop_last());
        assert(a.take(k) =~= a.drop_last().take(k));
        assert(b.take(k) =~= b.drop_last().take(k));
        k
    }
}

/// The first place at which two arrays hold different bytes, or `N` where there is none.
pub fn first_mismatch<const N: usize>(a: &[u8; N], b: &[u8; N]) -> (k: usize)
    ensures
        k <= N,
        k == N ==> a@ == b@,
        k < N ==> first_difference(a@, b@, k as int),
        k < N ==> (a@[k as int] < b@[k as int] <==> precedes(a@, b@)),
{
    let mut i: usize = 0;
    while i < N
        invariant
            i <= N,
            a@.take(i as int) == b@.take(i as int),
        decreases N - i,
    {
        if a[i] != b[i] {
            proof {
                assert(first_difference(a@, b@, i as int));
                assert(b@.take(i as int) == a@.take(i as int));
                assert(first_difference(b@, a@, i as int));
                lemma_precedes_total(a@, b@);
            }
            return i;
        }
        assert(a@.take(i + 1) =~= a@.take(i as int).push(a@[i as int]));
        assert(b@.take(i + 1) =~= b@.take(i as int).push(b@[i as int]));
        i += 1;
    }
    assert(a@ =~= a@.take(N as int));
    assert(b@ =~= b@.take(N as int));
    N
}

/// Whether two arrays hold the same bytes.
pub fn equal<const N: usize>(a: &[u8; N], b: &[u8; N]) -> (r: bool)
    ensures
        r == (a@ == b@),
{
    first_mismatch(a, b) == N
}

/// The order of two arrays, byte by byte.
pub fn compare<const N: usize>(a: &[u8; N], b: &[u8; N]) -> (r: Ordering)
    ensures
        r == byte_order(a@, b@),
{
    let k = first_mismatch(a, b);
    if k == N {
        Ordering::Equal
    } else if a[k] < b[k] {
        Ordering::Less
    } else {
        Ordering::Greater
    }
}

} // verus!
