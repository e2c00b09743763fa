//! A map with string keys, held as a list of entries in which no key occurs twice.

use vstd::prelude::*;

verus! {

/// No two entries have the same key.
spec fn unique_keys<V>(entries: Seq<(String, V)>) -> bool {
    forall|i: int, j: int|
        0 <= i < j < entries.len() ==> #[trigger] entries[i].0@ != #[trigger] entries[j].0@
}

/// Entry `i` has the key `key`.
spec fn entry_at<V>(entries: Seq<(String, V)>, key: Seq<char>, i: int) -> bool {
    0 <= i < entries.len() && entries[i].0@ == key
}

/// The map that a list of entries stands for.
spec fn entries_map<V>(entries: Seq<(String, V)>) -> Map<Seq<char>, V> {
    Map::new(
        |key: Seq<char>| exists|i: int| entry_at(entries, key, i),
        |key: Seq<char>| entries[choose|i: int| entry_at(entries, key, i)].1,
    )
}

/// A map from strings to `V`.
pub struct StringMap<V> {
    entries: Vec<(String, V)>,
}

impl<V> View for StringMap<V> {
    type V = Map<Seq<char>, V>;

    closed spec fn view(&self) -> Map<Seq<char>, V> {
        entries_map(self.entries@)
    }
}

impl<V> StringMap<V> {
    #[verifier::type_invariant]
    spec fn keys_are_unique(self) -> bool {
        unique_keys(self.entries@)
    }

    /// An empty map.
    pub fn new() -> (map: Self)
        ensures
            map@ == Map::<Seq<char>, V>::empty(),
    {
        let map = StringMap { entries: Vec::new() };
        assert(map@ =~= Map::<Seq<char>, V>::empty());
        map
    }

    fn position(&self, key: &String) -> (at: Option<usize>)
        ensures
            match at {
                Some(i) => entry_at(self.entries@, key@, i as int),
                None => forall|i: int| !entry_at(self.entries@, key@, i),
            },
    {
        let mut i: usize = 0;
        while i < self.entries.len()
            invariant
                i <= self.entries@.len(),
                forall|j: int| 0 <= j < i ==> !entry_at(self.entries@, key@, j),
            decreases self.entries@.len() - i,
        {
            if self.entries[i].0 == *key {
                return Some(i);
            }
            i = i + 1;
        }
        None
    }

    /// The value under `key`.
    pub fn get(&self, key: &String) -> (value: Option<&V>)
        ensures
            match value {
                Some(v) => self@.contains_key(key@) && self@[key@] == *v,
                None => !self@.contains_key(key@),
            },
    {
        proof {
            use_type_invariant(self);
        }
        match self.position(key) {
            Some(i) => {
                proof {
                    lemma_entry_is_in_map(self.entries@, i as int);
                }
                Some(&self.entries[i].1)
            },
            None => None,
        }
    }

    /// Whether the map has the key `key`.
    pub fn contains_key(&self, key: &String) -> (present: bool)
        ensures
            present == self@.contains_key(key@),
    {
        self.get(key).is_some()
    }

    /// Puts `value` under `key`, in place of what was there.
    pub fn insert(&mut self, key: String, value: V)
        ensures
            final(self)@ == old(self)@.insert(key@, value),
    {
        proof {
            use_type_invariant(&*self);
        }
        let at = self.position(&key);
        let mut entries: Vec<(String, V)> = Vec::new();
        std::mem::swap(&mut entries, &mut self.entries);
        let ghost before = entries@;
        match at {
            Some(i) => {
                let ghost k = key@;
                entries.set(i, (key, value));
                proof {
                    lemma_replace(before, entries@, i as int, k, value);
                }
            },
            None => {
                let ghost k = key@;
                entries.push((key, value));
                proof {
                    lemma_push(before, entries@, k, value);
                }
            },
        }
        self.entries = entries;
    }

    /// Takes the value under `key` out of the map.
    pub fn remove(&mut self, key: &String) -> (value: Option<V>)
        ensures
            final(self)@ == old(self)@.remove(key@),
            match value {
                Some(v) => old(self)@.contains_key(key@) && old(self)@[key@] == v,
                None => !old(self)@.contains_key(key@),
            },
    {
        proof {
            use_type_invariant(&*self);
        }
        match self.position(key) {
            Some(i) => {
                let mut entries: Vec<(String, V)> = Vec::new();
                std::mem::swap(&mut entries, &mut self.entries);
                let ghost before = entries@;
                let (_, value) = entries.remove(i);
                proof {
                    lemma_entry_is_in_map(before, i as int);
                    lemma_remove(before, entries@, i as int);
                }
                self.entries = entries;
                Some(value)
            },
            None => {
                assert(self@ =~= self@.remove(key@));
                None
            },
        }
    }

    /// Puts every entry of `other` into the map, in place of what was there under its key.
    pub fn extend(&mut self, other: StringMap<V>)
        ensures
            final(self)@ == old(self)@.union_prefer_right(other@),
    {
        proof {
            use_type_invariant(&other);
        }
        let ghost target = old(self)@.union_prefer_right(other@);
        let mut rest = other.entries;
        assert(entries_map(rest@) == other@);
        while rest.len() > 0
            invariant
                unique_keys(rest@),
                self@.union_prefer_right(entries_map(rest@)) == target,
            decreases rest@.len(),
        {
            let ghost before = rest@;
            let ghost held = self@;
            let last: usize = rest.len() - 1;
            let (key, value) = rest.remove(last);
            let ghost k = key@;
            proof {
                lemma_entry_is_in_map(before, last as int);
                lemma_remove(before, rest@, last as int);
            }
            self.insert(key, value);
            assert(self@.union_prefer_right(entries_map(rest@)) =~= held.union_prefer_right(
                entries_map(before),
            ));
        }
        assert(entries_map(rest@) =~= Map::<Seq<char>, V>::empty());
        assert(self@.union_prefer_right(entries_map(rest@)) =~= self@);
    }
}

impl<V: Clone> Clone for StringMap<V> {
    fn clone(&self) -> (copy: Self)
        ensures
            copy@.dom() == self@.dom(),
            forall|key: Seq<char>|
                #![trigger copy@[key]]
                self@.contains_key(key) ==> cloned(self@[key], copy@[key]),
    {
        proof {
            use_type_invariant(self);
        }
        let mut entries: Vec<(String, V)> = Vec::new();
        let mut i: usize = 0;
        while i < self.entries.len()
            invariant
                i <= self.entries@.len(),
                entries@.len() == i,
                forall|j: int|
                    0 <= j < i ==> (#[trigger] entries@[j]).0@ == self.entries@[j].0@ && cloned(
                        self.entries@[j].1,
                        entries@[j].1,
                    ),
            decreases self.entries@.len() - i,
        {
            let key = self.entries[i].0.clone();
            let value = self.entries[i].1.clone();
            entries.push((key, value));
            i = i + 1;
        }
        assert(unique_keys(entries@)) by {
            assert forall|a: int, b: int| 0 <= a < b < entries@.len() implies (
            #[trigger] entries@[a]).0@ != (#[trigger] entries@[b]).0@ by {
                assert(self.entries@[a].0@ != self.entries@[b].0@);
            }
        }
        let copy = StringMap { entries };
        assert forall|key: Seq<char>| copy@.contains_key(key) == self@.contains_key(key) by {
            if self@.contains_key(key) {
                let j = choose|j: int| entry_at(self.entries@, key, j);
                assert(entry_at(copy.entries@, key, j));
            }
            if copy@.contains_key(key) {
                let j = choose|j: int| entry_at(copy.entries@, key, j);
                assert(entry_at(self.entries@, key, j));
            }
        }
        assert(copy@.dom() =~= self@.dom());
        assert forall|key: Seq<char>|
            #![trigger copy@[key]]
            self@.contains_key(key) implies cloned(self@[key], copy@[key]) by {
            let j = choose|j: int| entry_at(self.entries@, key, j);
            assert(entry_at(copy.entries@, key, j));
            lemma_entry_is_in_map(self.entries@, j);
            lemma_entry_is_in_map(copy.entries@, j);
        }
        copy
    }
}

proof fn lemma_entry_is_in_map<V>(entries: Seq<(String, V)>, i: int)
    requires
        unique_keys(entries),
        0 <= i < entries.len(),
    ensures
        entries_map(entries).contains_key(entries[i].0@),
        entries_map(entries)[entries[i].0@] == entries[i].1,
{
    let key = entries[i].0@;
    assert(entry_at(entries, key, i));
    let j = choose|j: int| entry_at(entries, key, j);
    assert(entry_at(entries, key, j));
    assert(i == j);
}

proof fn lemma_replace<V>(
    before: Seq<(String, V)>,
    after: Seq<(String, V)>,
    i: int,
    key: Seq<char>,
    value: V,
)
    requires
        unique_keys(before),
        entry_at(before, key, i),
        after.len() == before.len(),
        after[i].0@ == key,
        after[i].1 == value,
        forall|j: int| 0 <= j < before.len() && j != i ==> after[j] == before[j],
    ensures
        unique_keys(after),
        entries_map(after) == entries_map(before).insert(key, value),
{
    assert forall|a: int, b: int| 0 <= a < b < after.len() implies (#[trigger] after[a]).0@ != (
    #[trigger] after[b]).0@ by {
        assert(before[a].0@ != before[b].0@);
    }
    let target = entries_map(before).insert(key, value);
    assert forall|k: Seq<char>| entries_map(after).contains_key(k) == target.contains_key(k) by {
        if target.contains_key(k) {
            if k == key {
                assert(entry_at(after, k, i));
            } else {
                let j = choose|j: int| entry_at(before, k, j);
                assert(entry_at(after, k, j));
            }
        }
        if entries_map(after).contains_key(k) {
            let j = choose|j: int| entry_at(after, k, j);
            assert(entry_at(before, k, j));
        }
    }
    assert forall|k: Seq<char>| target.contains_key(k) implies entries_map(after)[k]
        == target[k] by {
        let j = choose|j: int| entry_at(after, k, j);
        assert(entries_map(after).contains_key(k));
        lemma_entry_is_in_map(after, j);
        lemma_entry_is_in_map(before, j);
    }
    assert(entries_map(after) =~= target);
}

proof fn lemma_push<V>(
    before: Seq<(String, V)>,
    after: Seq<(String, V)>,
    key: Seq<char>,
    value: V,
)
    requires
        unique_keys(before),
        forall|i: int| !entry_at(before, key, i),
        after.len() == before.len() + 1,
        after.last().0@ == key,
        after.last().1 == value,
        forall|j: int| 0 <= j < before.len() ==> after[j] == before[j],
    ensures
        unique_keys(after),
        entries_map(after) == entries_map(before).insert(key, value),
{
    assert forall|a: int, b: int| 0 <= a < b < after.len() implies (#[trigger] after[a]).0@ != (
    #[trigger] after[b]).0@ by {
        if b < before.len() {
            assert(before[a].0@ != before[b].0@);
        } else {
            assert(!entry_at(before, key, a));
        }
    }
    let target = entries_map(before).insert(key, value);
    assert forall|k: Seq<char>| entries_map(after).contains_key(k) == target.contains_key(k) by {
        if target.contains_key(k) {
            if k == key {
                assert(entry_at(after, k, before.len() as int));
            } else {
                let j = choose|j: int| entry_at(before, k, j);
                assert(entry_at(after, k, j));
            }
        }
        if entries_map(after).contains_key(k) {
            let j = choose|j: int| entry_at(after, k, j);
            if j < before.len() {
                assert(entry_at(before, k, j));
            }
        }
    }
    assert forall|k: Seq<char>| target.contains_key(k) implies entries_map(after)[k]
        == target[k] by {
        let j = choose|j: int| entry_at(after, k, j);
        assert(entries_map(after).contains_key(k));
        lemma_entry_is_in_map(after, j);
        if j < before.len() {
            assert(entry_at(before, k, j));
            lemma_entry_is_in_map(before, j);
        }
    }
    assert(entries_map(after) =~= target);
}

proof fn lemma_remove<V>(before: Seq<(String, V)>, after: Seq<(String, V)>, i: int)
    requires
        unique_keys(before),
        0 <= i < before.len(),
        after == before.remove(i),
    ensures
        unique_keys(after),
        entries_map(after) == entries_map(before).remove(before[i].0@),
{
    let key = before[i].0@;
    assert forall|a: int, b: int| 0 <= a < b < after.len() implies (#[trigger] after[a]).0@ != (
    #[trigger] after[b]).0@ by {
        let a0 = if a < i { a } else { a + 1 };
        let b0 = if b < i { b } else { b + 1 };
        assert(before[a0].0@ != before[b0].0@);
    }
    let target = entries_map(before).remove(key);
    assert forall|k: Seq<char>| entries_map(after).contains_key(k) == target.contains_key(k) by {
        if target.contains_key(k) {
            let j = choose|j: int| entry_at(before, k, j);
            let j0 = if j < i { j } else { j - 1 };
            assert(entry_at(after, k, j0));
        }
        if entries_map(after).contains_key(k) {
            let j = choose|j: int| entry_at(after, k, j);
            let j0 = if j < i { j } else { j + 1 };
            assert(entry_at(before, k, j0));
            assert(k != key) by {
                assert(before[j0].0@ == k);
                assert(j0 != i);
            }
        }
    }
    assert forall|k: Seq<char>| target.contains_key(k) implies entries_map(after)[k]
        == target[k] by {
        let j = choose|j: int| entry_at(after, k, j);
        assert(entries_map(after).contains_key(k));
        lemma_entry_is_in_map(after, j);
        let j0 = if j < i { j } else { j + 1 };
        assert(entry_at(before, k, j0));
        lemma_entry_is_in_map(before, j0);
    }
    assert(entries_map(after) =~= target);
}

} // verus!
