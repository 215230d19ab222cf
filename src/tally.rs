use vstd::prelude::*;

verus! {

/// Sum of all the counts held in a histogram.
pub open spec fn count_sum<K>(m: Map<K, usize>) -> nat
    decreases m.dom().len(),
{
    if m.dom().finite() && m.dom().len() > 0 {
        let k = m.dom().choose();
        m[k] as nat + count_sum(m.remove(k))
    } else {
        0
    }
}

/// The count under `k`, zero where the key is absent.
pub open spec fn count_of<K>(m: Map<K, usize>, k: K) -> nat {
    if m.contains_key(k) {
        m[k] as nat
    } else {
        0
    }
}

/// Splitting any one key off a finite histogram.
pub proof fn lemma_count_sum_remove<K>(m: Map<K, usize>, k: K)
    requires
        m.dom().finite(),
        m.contains_key(k),
    ensures
        count_sum(m) == m[k] as nat + count_sum(m.remove(k)),
    decreases m.dom().len(),
{
    let c = m.dom().choose();
    assert(m.dom().len() > 0);
    if c != k {
        lemma_count_sum_remove(m.remove(c), k);
        lemma_count_sum_remove(m.remove(k), c);
        assert(m.remove(c).remove(k) =~= m.remove(k).remove(c));
    }
}

/// Raising one key's count by one raises the sum by one.
pub proof fn lemma_count_sum_bump<K>(m: Map<K, usize>, k: K)
    requires
        m.dom().finite(),
        count_of(m, k) < usize::MAX,
    ensures
        count_sum(m.insert(k, (count_of(m, k) + 1) as usize)) == count_sum(m) + 1,
{
    let v = (count_of(m, k) + 1) as usize;
    let m2 = m.insert(k, v);
    lemma_count_sum_remove(m2, k);
    if m.contains_key(k) {
        lemma_count_sum_remove(m, k);
        assert(m2.remove(k) =~= m.remove(k));
    } else {
        assert(m2.remove(k) =~= m);
    }
}

/// No single count exceeds the sum.
pub proof fn lemma_count_le_sum<K>(m: Map<K, usize>, k: K)
    requires
        m.dom().finite(),
    ensures
        count_of(m, k) <= count_sum(m),
{
    if m.contains_key(k) {
        lemma_count_sum_remove(m, k);
    }
}

} // verus!
