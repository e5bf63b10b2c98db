//! Sums over finite maps, and what insertion and removal do to them.

use vstd::prelude::*;

verus! {

/// The sum of the values that a finite map holds. A map with no key sums to
/// zero, and so does, by convention, one with infinitely many keys.
pub open spec fn sum_values<K>(m: Map<K, int>) -> int
    decreases m.dom().len(),
{
    if m.dom().finite() && m.dom().len() > 0 {
        let k = m.dom().choose();
        m[k] + sum_values(m.remove(k))
    } else {
        0
    }
}

/// Any one key can be split off a sum: the sum is the value at that key
/// plus the sum of the rest.
pub proof fn lemma_sum_values_split<K>(m: Map<K, int>, k: K)
    requires
        m.dom().finite(),
        m.contains_key(k),
    ensures
        sum_values(m) == m[k] + sum_values(m.remove(k)),
    decreases m.dom().len(),
{
    let c = m.dom().choose();
    if c != k {
        let without_c = m.remove(c);
        let without_k = m.remove(k);
        lemma_sum_values_split(without_c, k);
        lemma_sum_values_split(without_k, c);
        assert(without_c.remove(k) =~= without_k.remove(c));
    }
}

/// Writing `v` at `k` changes the sum by the difference between `v` and
/// what the map held at `k` before, where a missing key counts as zero.
pub proof fn lemma_sum_values_insert<K>(m: Map<K, int>, k: K, v: int)
    requires
        m.dom().finite(),
    ensures
        sum_values(m.insert(k, v)) == sum_values(m) + v - (if m.contains_key(k) {
            m[k]
        } else {
            0
        }),
{
    let written = m.insert(k, v);
    lemma_sum_values_split(written, k);
    assert(written.remove(k) =~= m.remove(k));
    if m.contains_key(k) {
        lemma_sum_values_split(m, k);
    } else {
        assert(m.remove(k) =~= m);
    }
}

/// Where one finite map lies below another at every key, and both have the
/// same keys, its sum lies below the other's sum.
pub proof fn lemma_sum_values_monotonic<K>(low: Map<K, int>, high: Map<K, int>)
    requires
        low.dom().finite(),
        low.dom() == high.dom(),
        forall|k: K| low.contains_key(k) ==> low[k] <= high[k],
    ensures
        sum_values(low) <= sum_values(high),
    decreases low.dom().len(),
{
    if low.dom().len() > 0 {
        let k = low.dom().choose();
        lemma_sum_values_split(high, k);
        assert(low.remove(k).dom() =~= high.remove(k).dom());
        lemma_sum_values_monotonic(low.remove(k), high.remove(k));
    }
}

/// A finite map without negative values has a sum that is not negative and
/// that no single value exceeds.
pub proof fn lemma_sum_values_bounds<K>(m: Map<K, int>)
    requires
        m.dom().finite(),
        forall|k: K| m.contains_key(k) ==> m[k] >= 0,
    ensures
        sum_values(m) >= 0,
        forall|k: K| m.contains_key(k) ==> m[k] <= sum_values(m),
    decreases m.dom().len(),
{
    if m.dom().len() > 0 {
        let c = m.dom().choose();
        lemma_sum_values_bounds(m.remove(c));
        assert forall|k: K| m.contains_key(k) implies m[k] <= sum_values(m) by {
            if k != c {
                assert(m.remove(c).contains_key(k));
            }
        }
    }
}

} // verus!
