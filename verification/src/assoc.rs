use vstd::prelude::*;

verus! {

/// The mapping that a sequence of key-value pairs stands for: a later pair
/// replaces an earlier one with the same key.
pub open spec fn pairs_map<K, V>(pairs: Seq<(K, V)>) -> Map<K, V>
    decreases pairs.len(),
{
    if pairs.len() == 0 {
        Map::empty()
    } else {
        pairs_map(pairs.drop_last()).insert(pairs.last().0, pairs.last().1)
    }
}

/// Whether no two of `pairs` have the same key.
pub open spec fn distinct_keys<K, V>(pairs: Seq<(K, V)>) -> bool {
    forall|i: int, j: int| 0 <= i < j < pairs.len() ==> pairs[i].0 != pairs[j].0
}

/// One more pair at the end maps its key to its value.
pub proof fn lemma_pair_added<K, V>(pairs: Seq<(K, V)>, pair: (K, V))
    ensures
        pairs_map(pairs.push(pair)) == pairs_map(pairs).insert(pair.0, pair.1),
{
    assert(pairs.push(pair).drop_last() =~= pairs);
}

/// A key that no pair has is not mapped.
pub proof fn lemma_absent_key<K, V>(pairs: Seq<(K, V)>, key: K)
    requires
        forall|i: int| 0 <= i < pairs.len() ==> pairs[i].0 != key,
    ensures
        !pairs_map(pairs).contains_key(key),
    decreases pairs.len(),
{
    if pairs.len() > 0 {
        lemma_absent_key(pairs.drop_last(), key);
    }
}

/// The key of a pair is mapped to the pair's value, where no later pair has
/// the same key.
pub proof fn lemma_pair_is_mapped<K, V>(pairs: Seq<(K, V)>, i: int)
    requires
        0 <= i < pairs.len(),
        forall|j: int| i < j < pairs.len() ==> pairs[j].0 != pairs[i].0,
    ensures
        pairs_map(pairs).contains_key(pairs[i].0),
        pairs_map(pairs)[pairs[i].0] == pairs[i].1,
    decreases pairs.len(),
{
    if i < pairs.len() - 1 {
        lemma_pair_is_mapped(pairs.drop_last(), i);
    }
}

/// Putting a new value in the place of the last pair with a key maps the key
/// to the new value and changes nothing else.
pub proof fn lemma_pair_replaced<K, V>(pairs: Seq<(K, V)>, i: int, pair: (K, V))
    requires
        0 <= i < pairs.len(),
        pairs[i].0 == pair.0,
        forall|j: int| i < j < pairs.len() ==> pairs[j].0 != pair.0,
    ensures
        pairs_map(pairs.update(i, pair)) == pairs_map(pairs).insert(pair.0, pair.1),
    decreases pairs.len(),
{
    let replaced = pairs.update(i, pair);
    if i == pairs.len() - 1 {
        assert(replaced.drop_last() =~= pairs.drop_last());
    } else {
        assert(replaced.drop_last() =~= pairs.drop_last().update(i, pair));
        lemma_pair_replaced(pairs.drop_last(), i, pair);
    }
    assert(pairs_map(replaced) =~= pairs_map(pairs).insert(pair.0, pair.1));
}

/// Pairs with distinct keys stand for a mapping with as many keys as there
/// are pairs.
pub proof fn lemma_as_many_keys_as_pairs<K, V>(pairs: Seq<(K, V)>)
    requires
        distinct_keys(pairs),
    ensures
        pairs_map(pairs).dom().finite(),
        pairs_map(pairs).dom().len() == pairs.len(),
    decreases pairs.len(),
{
    if pairs.len() > 0 {
        let init = pairs.drop_last();
        lemma_as_many_keys_as_pairs(init);
        lemma_absent_key(init, pairs.last().0);
        assert(pairs_map(pairs).dom() =~= pairs_map(init).dom().insert(pairs.last().0));
    } else {
        assert(pairs_map(pairs).dom() =~= Set::<K>::empty());
    }
}

/// A key of an association list: two keys count as the same where their
/// views are equal, and `same` decides that.
pub trait Key: View + Sized {
    fn same(&self, other: &Self) -> (same: bool)
        ensures
            same == (self@ == other@),
    ;
}

impl Key for String {
    fn same(&self, other: &String) -> (same: bool) {
        *self == *other
    }
}

/// The view of the key of each entry, with the entry's value.
pub open spec fn viewed_pairs<K: Key, V>(entries: Seq<(K, V)>) -> Seq<(K::V, V)> {
    entries.map_values(|entry: (K, V)| (entry.0@, entry.1))
}

/// A mapping from keys to values, held as a list of entries in which each
/// key stands once.
#[derive(Debug)]
pub struct AssocList<K: Key, V> {
    entries: Vec<(K, V)>,
}

impl<K: Key, V> View for AssocList<K, V> {
    type V = Map<K::V, V>;

    closed spec fn view(&self) -> Map<K::V, V> {
        pairs_map(viewed_pairs(self.entries@))
    }
}

impl<K: Key, V> AssocList<K, V> {
    #[verifier::type_invariant]
    closed spec fn keys_are_distinct(self) -> bool {
        distinct_keys(viewed_pairs(self.entries@))
    }

    /// A list without entries.
    pub fn new() -> (list: Self)
        ensures
            list@ == Map::<K::V, V>::empty(),
    {
        AssocList { entries: Vec::new() }
    }

    /// Where the entry with `key` stands, if there is one.
    fn position(&self, key: &K) -> (at: Option<usize>)
        ensures
            match at {
                Some(i) => i < self.entries@.len() && self.entries@[i as int].0@ == key@,
                None => forall|i: int| 0 <= i < self.entries@.len() ==> self.entries@[i].0@ != key@,
            },
    {
        let mut i: usize = 0;
        while i < self.entries.len()
            invariant
                i <= self.entries@.len(),
                forall|j: int| 0 <= j < i ==> self.entries@[j].0@ != key@,
            decreases self.entries.len() - i,
        {
            if self.entries[i].0.same(key) {
                return Some(i);
            }
            i = i + 1;
        }
        None
    }

    /// Maps `key` to `value`, in place of what `key` was mapped to before.
    pub fn insert(&mut self, key: K, value: V)
        ensures
            final(self)@ == old(self)@.insert(key@, value),
    {
        proof {
            use_type_invariant(&*self);
        }
        let ghost before = viewed_pairs(self.entries@);
        let ghost pair = (key@, value);
        let at = self.position(&key);
        let mut entries: Vec<(K, V)> = Vec::new();
        std::mem::swap(&mut self.entries, &mut entries);
        match at {
            Some(i) => {
                entries.set(i, (key, value));
                proof {
                    assert(before[i as int].0 == pair.0);
                    lemma_pair_replaced(before, i as int, pair);
                    assert(viewed_pairs(entries@) =~= before.update(i as int, pair));
                    assert forall|a: int, b: int| 0 <= a < b < before.len() implies before.update(
                        i as int,
                        pair,
                    )[a].0 != before.update(i as int, pair)[b].0 by {
                        assert(before[a].0 != before[b].0);
                    }
                }
            },
            None => {
                entries.push((key, value));
                proof {
                    lemma_pair_added(before, pair);
                    assert(viewed_pairs(entries@) =~= before.push(pair));
                    assert forall|a: int, b: int| 0 <= a < b < before.len() + 1 implies before.push(
                        pair,
                    )[a].0 != before.push(pair)[b].0 by {
                        if b < before.len() {
                            assert(before[a].0 != before[b].0);
                        } else {
                            assert(before[a].0 != pair.0);
                        }
                    }
                }
            },
        }
        proof {
            assert(distinct_keys(viewed_pairs(entries@)));
        }
        std::mem::swap(&mut self.entries, &mut entries);
    }

    /// The value that `key` is mapped to, if there is one.
    pub fn get(&self, key: &K) -> (value: Option<&V>)
        ensures
            value.is_some() == self@.contains_key(key@),
            value matches Some(v) ==> *v == self@[key@],
    {
        proof {
            use_type_invariant(self);
        }
        match self.position(key) {
            Some(i) => {
                proof {
                    lemma_pair_is_mapped(viewed_pairs(self.entries@), i as int);
                }
                Some(&self.entries[i].1)
            },
            None => {
                proof {
                    lemma_absent_key(viewed_pairs(self.entries@), key@);
                }
                None
            },
        }
    }

    /// The number of keys.
    pub fn len(&self) -> (n: usize)
        ensures
            self@.dom().finite(),
            n == self@.dom().len(),
    {
        proof {
            use_type_invariant(self);
            lemma_as_many_keys_as_pairs(viewed_pairs(self.entries@));
        }
        self.entries.len()
    }

    /// The entries, in the order in which their keys were first mapped.
    pub fn entries(&self) -> (entries: &Vec<(K, V)>)
        ensures
            pairs_map(viewed_pairs(entries@)) == self@,
    {
        &self.entries
    }
}

} // verus!
