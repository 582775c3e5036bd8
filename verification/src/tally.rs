use vstd::prelude::*;

verus! {

/// The amount recorded for `key`, with an absent key read as zero.
pub open spec fn amount_at<K>(m: Map<K, u128>, key: K) -> nat {
    if m.dom().contains(key) {
        m[key] as nat
    } else {
        0
    }
}

/// The sum of all amounts recorded in a map with finitely many keys.
pub open spec fn sum_of<K>(m: Map<K, u128>) -> nat
    decreases m.dom().len(),
    when m.dom().finite()
{
    if m.dom().len() == 0 {
        0
    } else {
        let key = m.dom().choose();
        m[key] as nat + sum_of(m.remove(key))
    }
}

/// The empty map sums to zero.
pub proof fn lemma_sum_of_empty<K>()
    ensures
        sum_of(Map::<K, u128>::empty()) == 0,
{
    assert(Map::<K, u128>::empty().dom() =~= Set::<K>::empty());
}

/// Any one key can be split off the sum, not only the one the definition picks.
pub proof fn lemma_sum_of_split<K>(m: Map<K, u128>, key: K)
    requires
        m.dom().finite(),
        m.dom().contains(key),
    ensures
        sum_of(m) == m[key] as nat + sum_of(m.remove(key)),
    decreases m.dom().len(),
{
    let picked = m.dom().choose();
    if picked != key {
        lemma_sum_of_split(m.remove(picked), key);
        lemma_sum_of_split(m.remove(key), picked);
        assert(m.remove(picked).remove(key) =~= m.remove(key).remove(picked));
    }
}

/// Writing `value` under `key` changes the sum by the difference to what `key` held before.
pub proof fn lemma_sum_of_insert<K>(m: Map<K, u128>, key: K, value: u128)
    requires
        m.dom().finite(),
    ensures
        sum_of(m.insert(key, value)) == sum_of(m) - amount_at(m, key) + value as nat,
{
    let written = m.insert(key, value);
    lemma_sum_of_split(written, key);
    assert(written.remove(key) =~= m.remove(key));
    if m.dom().contains(key) {
        lemma_sum_of_split(m, key);
    } else {
        assert(m.remove(key) =~= m);
    }
}

/// Two distinct keys together never hold more than the whole map does.
pub proof fn lemma_sum_of_bounds_pair<K>(m: Map<K, u128>, a: K, b: K)
    requires
        m.dom().finite(),
        a != b,
    ensures
        amount_at(m, a) + amount_at(m, b) <= sum_of(m),
{
    if m.dom().contains(a) {
        lemma_sum_of_split(m, a);
        if m.dom().contains(b) {
            lemma_sum_of_split(m.remove(a), b);
        }
    } else if m.dom().contains(b) {
        lemma_sum_of_split(m, b);
    }
}

} // verus!
