use vstd::prelude::*;

verus! {

/// The sum of the values of a map with a finite domain. Which entry is
/// taken first makes no difference: see `lemma_total_remove`.
pub open spec fn total<K>(m: Map<K, nat>) -> nat
    decreases m.dom().len(),
    when m.dom().finite()
{
    if m.dom().len() == 0 {
        0
    } else {
        let k = m.dom().choose();
        m[k] + total(m.remove(k))
    }
}

/// What a map holds under a key, with absence read as zero.
pub open spec fn value_or_zero<K>(m: Map<K, nat>, k: K) -> nat {
    if m.dom().contains(k) {
        m[k]
    } else {
        0
    }
}

/// The empty map sums to zero.
pub proof fn lemma_total_empty<K>()
    ensures
        total(Map::<K, nat>::empty()) == 0,
{
    assert(Map::<K, nat>::empty().dom().len() == 0);
}

/// Any one entry can be split off the sum.
pub proof fn lemma_total_remove<K>(m: Map<K, nat>, k: K)
    requires
        m.dom().finite(),
        m.dom().contains(k),
    ensures
        total(m) == m[k] + total(m.remove(k)),
    decreases m.dom().len(),
{
    let c = m.dom().choose();
    assert(m.dom().len() > 0) by {
        if m.dom().len() == 0 {
            assert(m.dom() =~= Set::empty());
        }
    }
    if c != k {
        lemma_total_remove(m.remove(c), k);
        lemma_total_remove(m.remove(k), c);
        assert(m.remove(c).remove(k) =~= m.remove(k).remove(c));
    }
}

/// Writing a value under a key replaces that key's share of the sum.
pub proof fn lemma_total_insert<K>(m: Map<K, nat>, k: K, v: nat)
    requires
        m.dom().finite(),
    ensures
        total(m.insert(k, v)) == total(m) - value_or_zero(m, k) + v,
{
    let after = m.insert(k, v);
    lemma_total_remove(after, k);
    assert(after.remove(k) =~= m.remove(k));
    if m.dom().contains(k) {
        lemma_total_remove(m, k);
    } else {
        assert(m.remove(k) =~= m);
    }
}

/// Dropping a key takes that key's share out of the sum.
pub proof fn lemma_total_drop<K>(m: Map<K, nat>, k: K)
    requires
        m.dom().finite(),
    ensures
        total(m.remove(k)) == total(m) - value_or_zero(m, k),
{
    if m.dom().contains(k) {
        lemma_total_remove(m, k);
    } else {
        assert(m.remove(k) =~= m);
    }
}

/// No entry exceeds the sum.
pub proof fn lemma_total_bounds<K>(m: Map<K, nat>, k: K)
    requires
        m.dom().finite(),
    ensures
        value_or_zero(m, k) <= total(m),
{
    if m.dom().contains(k) {
        lemma_total_remove(m, k);
    }
}

} // verus!
