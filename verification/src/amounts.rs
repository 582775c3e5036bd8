use vstd::prelude::*;
use crate::account::AccountId;
use crate::tally::{amount_at, lemma_sum_of_empty, lemma_sum_of_insert, sum_of};

verus! {

/// A key of an [`AmountMap`]: a plain value that can be told apart from another at run time.
pub trait Key: Copy {
    /// Whether the two keys are the same value.
    fn same(&self, other: &Self) -> (r: bool)
        ensures
            r == (*self == *other),
    ;
}

impl Key for AccountId {
    fn same(&self, other: &AccountId) -> (r: bool) {
        *self == *other
    }
}

/// The pair under which an allowance is kept: whose tokens, and who may move them.
#[derive(Clone, Copy, Debug)]
pub struct Delegation {
    pub owner: AccountId,
    pub spender: AccountId,
}

impl Key for Delegation {
    fn same(&self, other: &Delegation) -> (r: bool) {
        self.owner == other.owner && self.spender == other.spender
    }
}

/// The map that a list of entries stands for; a later entry overrides an earlier one.
pub open spec fn recorded<K>(entries: Seq<(K, u128)>) -> Map<K, u128>
    decreases entries.len(),
{
    if entries.len() == 0 {
        Map::empty()
    } else {
        recorded(entries.drop_last()).insert(entries.last().0, entries.last().1)
    }
}

/// Whether no key occurs in two entries.
pub open spec fn no_key_twice<K>(entries: Seq<(K, u128)>) -> bool {
    forall|i: int, j: int|
        0 <= i < entries.len() && 0 <= j < entries.len() && i != j ==> entries[i].0 != entries[j].0
}

proof fn lemma_recorded_dom<K>(entries: Seq<(K, u128)>)
    ensures
        recorded(entries).dom().finite(),
        forall|key: K|
            recorded(entries).dom().contains(key) <==> exists|i: int|
                0 <= i < entries.len() && #[trigger] entries[i].0 == key,
    decreases entries.len(),
{
    if entries.len() > 0 {
        let front = entries.drop_last();
        lemma_recorded_dom(front);
        assert forall|key: K|
            recorded(entries).dom().contains(key) implies exists|i: int|
            0 <= i < entries.len() && #[trigger] entries[i].0 == key by {
            if key == entries.last().0 {
                assert(entries[entries.len() - 1].0 == key);
            } else {
                let i = choose|i: int| 0 <= i < front.len() && #[trigger] front[i].0 == key;
                assert(entries[i].0 == key);
            }
        }
        assert forall|key: K|
            (exists|i: int|
                0 <= i < entries.len() && #[trigger] entries[i].0
                    == key) implies recorded(entries).dom().contains(key) by {
            let i = choose|i: int| 0 <= i < entries.len() && #[trigger] entries[i].0 == key;
            if i < entries.len() - 1 {
                assert(front[i].0 == key);
            }
        }
    }
}

proof fn lemma_recorded_at<K>(entries: Seq<(K, u128)>, i: int)
    requires
        no_key_twice(entries),
        0 <= i < entries.len(),
    ensures
        recorded(entries).dom().contains(entries[i].0),
        recorded(entries)[entries[i].0] == entries[i].1,
    decreases entries.len(),
{
    if i < entries.len() - 1 {
        let front = entries.drop_last();
        assert(no_key_twice(front)) by {
            assert forall|a: int, b: int|
                0 <= a < front.len() && 0 <= b < front.len() && a != b implies front[a].0
                != front[b].0 by {
                assert(entries[a].0 != entries[b].0);
            }
        }
        lemma_recorded_at(front, i);
        assert(front[i] == entries[i]);
    }
}

proof fn lemma_recorded_replace<K>(entries: Seq<(K, u128)>, i: int, amount: u128)
    requires
        no_key_twice(entries),
        0 <= i < entries.len(),
    ensures
        no_key_twice(entries.update(i, (entries[i].0, amount))),
        recorded(entries.update(i, (entries[i].0, amount))) == recorded(entries).insert(
            entries[i].0,
            amount,
        ),
{
    let key = entries[i].0;
    let replaced = entries.update(i, (key, amount));
    assert(no_key_twice(replaced)) by {
        assert forall|a: int, b: int|
            0 <= a < replaced.len() && 0 <= b < replaced.len() && a != b implies replaced[a].0
            != replaced[b].0 by {
            assert(entries[a].0 != entries[b].0);
        }
    }
    lemma_recorded_dom(entries);
    lemma_recorded_dom(replaced);
    let old_map = recorded(entries);
    let new_map = recorded(replaced);
    assert forall|k: K| new_map.dom().contains(k) <==> old_map.insert(key, amount).dom().contains(
        k,
    ) by {
        if new_map.dom().contains(k) {
            let j = choose|j: int| 0 <= j < replaced.len() && #[trigger] replaced[j].0 == k;
            assert(entries[j].0 == k);
        }
        if old_map.insert(key, amount).dom().contains(k) {
            if k == key {
                assert(replaced[i].0 == k);
            } else {
                let j = choose|j: int| 0 <= j < entries.len() && #[trigger] entries[j].0 == k;
                assert(replaced[j].0 == k);
            }
        }
    }
    assert forall|k: K| new_map.dom().contains(k) implies new_map[k] == old_map.insert(
        key,
        amount,
    )[k] by {
        let j = choose|j: int| 0 <= j < replaced.len() && #[trigger] replaced[j].0 == k;
        lemma_recorded_at(replaced, j);
        if j != i {
            assert(replaced[j] == entries[j]);
            lemma_recorded_at(entries, j);
        }
    }
    assert(new_map =~= old_map.insert(key, amount));
}

/// The amounts of a list of entries, added up.
spec fn listed_sum<K>(entries: Seq<(K, u128)>) -> nat
    decreases entries.len(),
{
    if entries.len() == 0 {
        0
    } else {
        listed_sum(entries.drop_last()) + entries.last().1 as nat
    }
}

proof fn lemma_no_key_twice_front<K>(entries: Seq<(K, u128)>, n: int)
    requires
        no_key_twice(entries),
        0 <= n <= entries.len(),
    ensures
        no_key_twice(entries.take(n)),
{
    let front = entries.take(n);
    assert forall|a: int, b: int|
        0 <= a < front.len() && 0 <= b < front.len() && a != b implies front[a].0 != front[b].0 by {
        assert(entries[a].0 != entries[b].0);
    }
}

proof fn lemma_listed_sum<K>(entries: Seq<(K, u128)>)
    requires
        no_key_twice(entries),
    ensures
        sum_of(recorded(entries)) == listed_sum(entries),
    decreases entries.len(),
{
    if entries.len() == 0 {
        lemma_sum_of_empty::<K>();
    } else {
        let front = entries.drop_last();
        assert(front =~= entries.take(entries.len() - 1));
        lemma_no_key_twice_front(entries, entries.len() - 1);
        lemma_listed_sum(front);
        lemma_recorded_dom(front);
        assert(!recorded(front).dom().contains(entries.last().0)) by {
            if recorded(front).dom().contains(entries.last().0) {
                let i = choose|i: int| 0 <= i < front.len() && #[trigger] front[i].0 == entries.last().0;
                assert(entries[i].0 == entries[entries.len() - 1].0);
            }
        }
        lemma_sum_of_insert(recorded(front), entries.last().0, entries.last().1);
    }
}

proof fn lemma_listed_sum_grows<K>(entries: Seq<(K, u128)>, n: int)
    requires
        0 <= n <= entries.len(),
    ensures
        listed_sum(entries.take(n)) <= listed_sum(entries),
    decreases entries.len(),
{
    if n < entries.len() {
        let front = entries.drop_last();
        lemma_listed_sum_grows(front, n);
        assert(front.take(n) =~= entries.take(n));
    } else {
        assert(entries.take(n) =~= entries);
    }
}

/// Amounts held under keys, where a key that was never written reads as zero.
pub struct AmountMap<K: Key> {
    entries: Vec<(K, u128)>,
}

impl<K: Key> AmountMap<K> {
    /// The keys that were written, each with the amount written last.
    pub closed spec fn view(&self) -> Map<K, u128> {
        recorded(self.entries@)
    }

    /// Whether the map is in order: each key is kept in one place only.
    pub closed spec fn wf(&self) -> bool {
        no_key_twice(self.entries@)
    }

    /// A map in which nothing was written yet.
    pub fn new() -> (m: AmountMap<K>)
        ensures
            m.wf(),
            m@ == Map::<K, u128>::empty(),
    {
        AmountMap { entries: Vec::new() }
    }

    /// Only finitely many keys were ever written.
    pub proof fn lemma_finite(&self)
        ensures
            self@.dom().finite(),
    {
        lemma_recorded_dom(self.entries@);
    }

    fn position(&self, key: K) -> (found: Option<usize>)
        ensures
            match found {
                Some(i) => i < self.entries@.len() && self.entries@[i as int].0 == key,
                None => !self@.dom().contains(key),
            },
    {
        let mut i: usize = 0;
        while i < self.entries.len()
            invariant
                i <= self.entries@.len(),
                forall|j: int| 0 <= j < i ==> self.entries@[j].0 != key,
            decreases self.entries@.len() - i,
        {
            if self.entries[i].0.same(&key) {
                return Some(i);
            }
            i += 1;
        }
        proof {
            lemma_recorded_dom(self.entries@);
        }
        None
    }

    /// The amount under `key`, zero where none was written.
    pub fn get(&self, key: K) -> (amount: u128)
        requires
            self.wf(),
        ensures
            amount == amount_at(self@, key),
    {
        match self.position(key) {
            Some(i) => {
                proof {
                    lemma_recorded_at(self.entries@, i as int);
                }
                self.entries[i].1
            },
            None => 0,
        }
    }

    /// Writes `amount` under `key`, over whatever stood there.
    pub fn set(&mut self, key: K, amount: u128)
        requires
            old(self).wf(),
        ensures
            final(self).wf(),
            final(self)@ == old(self)@.insert(key, amount),
    {
        match self.position(key) {
            Some(i) => {
                proof {
                    lemma_recorded_replace(self.entries@, i as int, amount);
                }
                self.entries.set(i, (key, amount));
            },
            None => {
                proof {
                    lemma_recorded_dom(self.entries@);
                    assert(self.entries@.push((key, amount)).drop_last() =~= self.entries@);
                    assert(no_key_twice(self.entries@.push((key, amount))));
                }
                self.entries.push((key, amount));
            },
        }
    }

    /// Every key that was written, with its amount, each key once.
    pub fn entries(&self) -> (listing: Vec<(K, u128)>)
        requires
            self.wf(),
        ensures
            no_key_twice(listing@),
            recorded(listing@) == self@,
    {
        let mut listing: Vec<(K, u128)> = Vec::new();
        let mut i: usize = 0;
        while i < self.entries.len()
            invariant
                i <= self.entries@.len(),
                listing@ == self.entries@.take(i as int),
            decreases self.entries@.len() - i,
        {
            let entry: (K, u128) = self.entries[i];
            listing.push(entry);
            assert(self.entries@.take(i + 1) =~= self.entries@.take(i as int).push(entry));
            i += 1;
        }
        assert(listing@ =~= self.entries@);
        listing
    }

    /// The map that `entries` stands for, unless a key occurs in it twice.
    pub fn from_entries(entries: Vec<(K, u128)>) -> (made: Option<AmountMap<K>>)
        ensures
            match made {
                Some(map) => no_key_twice(entries@) && map.wf() && map@ == recorded(entries@),
                None => !no_key_twice(entries@),
            },
    {
        let mut i: usize = 0;
        while i < entries.len()
            invariant
                i <= entries@.len(),
                forall|a: int, b: int| 0 <= b < a < i ==> entries@[a].0 != entries@[b].0,
            decreases entries@.len() - i,
        {
            let mut j: usize = 0;
            while j < i
                invariant
                    j <= i < entries@.len(),
                    forall|b: int| 0 <= b < j ==> entries@[i as int].0 != entries@[b].0,
                decreases i - j,
            {
                if entries[i].0.same(&entries[j].0) {
                    return None;
                }
                j += 1;
            }
            i += 1;
        }
        assert(no_key_twice(entries@)) by {
            assert forall|a: int, b: int|
                0 <= a < entries@.len() && 0 <= b < entries@.len() && a != b implies entries@[a].0
                != entries@[b].0 by {
                if a < b {
                    assert(entries@[b].0 != entries@[a].0);
                }
            }
        }
        Some(AmountMap { entries })
    }

    /// The sum of all amounts, unless it leaves the range of `u128`.
    pub fn total(&self) -> (sum: Option<u128>)
        requires
            self.wf(),
        ensures
            match sum {
                Some(total) => total == sum_of(self@),
                None => sum_of(self@) > u128::MAX,
            },
    {
        proof {
            lemma_listed_sum(self.entries@);
        }
        let mut total: u128 = 0;
        let mut i: usize = 0;
        while i < self.entries.len()
            invariant
                i <= self.entries@.len(),
                total == listed_sum(self.entries@.take(i as int)),
                sum_of(self@) == listed_sum(self.entries@),
            decreases self.entries@.len() - i,
        {
            proof {
                assert(self.entries@.take(i + 1).drop_last() =~= self.entries@.take(i as int));
                lemma_listed_sum_grows(self.entries@, i + 1);
            }
            match total.checked_add(self.entries[i].1) {
                Some(raised) => {
                    total = raised;
                },
                None => {
                    return None;
                },
            }
            i += 1;
        }
        assert(self.entries@.take(i as int) =~= self.entries@);
        Some(total)
    }
}

} // verus!
