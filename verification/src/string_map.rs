use vstd::prelude::*;

verus! {

/// A map from strings to strings, as Kubernetes uses for labels, annotations,
/// selectors and the files of a config map.
///
/// Every key occurs once.
#[derive(Debug)]
pub struct StringMap {
    entries: Vec<(String, String)>,
}

/// No key stands in two entries.
spec fn keys_distinct(entries: Seq<(String, String)>) -> bool {
    forall|i: int, j: int|
        #![trigger entries[i], entries[j]]
        0 <= i < j < entries.len() ==> entries[i].0@ != entries[j].0@
}

/// `key` stands in entry `i`.
spec fn key_at(entries: Seq<(String, String)>, key: Seq<char>, i: int) -> bool {
    0 <= i < entries.len() && entries[i].0@ == key
}

/// What the entries map their keys to.
spec fn entries_map(entries: Seq<(String, String)>) -> Map<Seq<char>, Seq<char>> {
    Map::new(
        |key: Seq<char>| exists|i: int| key_at(entries, key, i),
        |key: Seq<char>| entries[choose|i: int| key_at(entries, key, i)].1@,
    )
}

/// The pairs are the map: each is what the map holds under its key, no key comes twice, and every
/// key of the map is among them.
pub open spec fn lists(
    pairs: Seq<(Seq<char>, Seq<char>)>,
    map: Map<Seq<char>, Seq<char>>,
) -> bool {
    &&& forall|i: int|
        0 <= i < pairs.len() ==> {
            &&& map.contains_key((#[trigger] pairs[i]).0)
            &&& map[pairs[i].0] == pairs[i].1
        }
    &&& forall|i: int, j: int|
        0 <= i < j < pairs.len() ==> (#[trigger] pairs[i]).0 != (#[trigger] pairs[j]).0
    &&& forall|key: Seq<char>| #[trigger]
        map.contains_key(key) ==> exists|i: int|
            0 <= i < pairs.len() && (#[trigger] pairs[i]).0 == key
}

/// An entry is what the map holds under the entry's key.
proof fn lemma_entry(entries: Seq<(String, String)>, i: int)
    requires
        keys_distinct(entries),
        0 <= i < entries.len(),
    ensures
        entries_map(entries).contains_key(entries[i].0@),
        entries_map(entries)[entries[i].0@] == entries[i].1@,
{
    let key = entries[i].0@;
    assert(key_at(entries, key, i));
    let j = choose|j: int| key_at(entries, key, j);
    assert(key_at(entries, key, j));
    assert(i == j);
}

/// Replacing the value of an entry, its key kept, updates the map.
proof fn lemma_update(entries: Seq<(String, String)>, i: int, entry: (String, String))
    requires
        keys_distinct(entries),
        0 <= i < entries.len(),
        entry.0@ == entries[i].0@,
    ensures
        keys_distinct(entries.update(i, entry)),
        entries_map(entries.update(i, entry)) == entries_map(entries).insert(entry.0@, entry.1@),
{
    let updated = entries.update(i, entry);
    assert(keys_distinct(updated));
    let before = entries_map(entries).insert(entry.0@, entry.1@);
    let after = entries_map(updated);
    lemma_entry(updated, i);
    assert forall|key: Seq<char>| before.contains_key(key) == after.contains_key(key) by {
        if before.contains_key(key) && key != entry.0@ {
            let j = choose|j: int| key_at(entries, key, j);
            assert(key_at(updated, key, j));
        }
        if after.contains_key(key) {
            let j = choose|j: int| key_at(updated, key, j);
            assert(key_at(entries, key, j));
        }
    }
    assert forall|key: Seq<char>| before.contains_key(key) implies before[key] == after[key] by {
        if key != entry.0@ {
            let j = choose|j: int| key_at(entries, key, j);
            lemma_entry(entries, j);
            lemma_entry(updated, j);
        }
    }
    assert(before =~= after);
}

/// Adding an entry under a new key updates the map.
proof fn lemma_push(entries: Seq<(String, String)>, entry: (String, String))
    requires
        keys_distinct(entries),
        forall|i: int| 0 <= i < entries.len() ==> (#[trigger] entries[i]).0@ != entry.0@,
    ensures
        keys_distinct(entries.push(entry)),
        entries_map(entries.push(entry)) == entries_map(entries).insert(entry.0@, entry.1@),
{
    let pushed = entries.push(entry);
    assert(keys_distinct(pushed));
    let before = entries_map(entries).insert(entry.0@, entry.1@);
    let after = entries_map(pushed);
    lemma_entry(pushed, entries.len() as int);
    assert forall|key: Seq<char>| before.contains_key(key) == after.contains_key(key) by {
        if before.contains_key(key) && key != entry.0@ {
            let j = choose|j: int| key_at(entries, key, j);
            assert(key_at(pushed, key, j));
        }
        if after.contains_key(key) && key != entry.0@ {
            let j = choose|j: int| key_at(pushed, key, j);
            assert(key_at(entries, key, j));
        }
    }
    assert forall|key: Seq<char>| before.contains_key(key) implies before[key] == after[key] by {
        if key != entry.0@ {
            let j = choose|j: int| key_at(entries, key, j);
            lemma_entry(entries, j);
            lemma_entry(pushed, j);
        }
    }
    assert(before =~= after);
}

impl View for StringMap {
    type V = Map<Seq<char>, Seq<char>>;

    closed spec fn view(&self) -> Map<Seq<char>, Seq<char>> {
        entries_map(self.entries@)
    }
}

impl DeepView for StringMap {
    type V = Map<Seq<char>, Seq<char>>;

    open spec fn deep_view(&self) -> Map<Seq<char>, Seq<char>> {
        self@
    }
}

impl StringMap {
    #[verifier::type_invariant]
    spec fn well_formed(self) -> bool {
        keys_distinct(self.entries@)
    }

    /// The map with no entries.
    pub fn new() -> (result: StringMap)
        ensures
            result@ == Map::<Seq<char>, Seq<char>>::empty(),
    {
        let result = StringMap { entries: Vec::new() };
        assert(result@ =~= Map::<Seq<char>, Seq<char>>::empty());
        result
    }

    /// The map that holds one entry.
    pub fn singleton(key: String, value: String) -> (result: StringMap)
        ensures
            result@ == Map::<Seq<char>, Seq<char>>::empty().insert(key@, value@),
    {
        let mut result = StringMap::new();
        result.insert(key, value);
        result
    }

    /// Where `key` stands, if it does.
    fn position(&self, key: &String) -> (result: Option<usize>)
        ensures
            result matches Some(i) ==> key_at(self.entries@, key@, i as int),
            result is None ==> forall|i: int|
                0 <= i < self.entries@.len() ==> (#[trigger] self.entries@[i]).0@ != key@,
    {
        let mut i: usize = 0;
        while i < self.entries.len()
            invariant
                i <= self.entries.len(),
                forall|j: int| 0 <= j < i ==> (#[trigger] self.entries@[j]).0@ != key@,
            decreases self.entries.len() - i,
        {
            if self.entries[i].0 == *key {
                return Some(i);
            }
            i += 1;
        }
        None
    }

    /// Sets what `key` maps to, in place of what it mapped to before.
    pub fn insert(&mut self, key: String, value: String)
        ensures
            final(self)@ == old(self)@.insert(key@, value@),
    {
        proof {
            use_type_invariant(&*self);
        }
        let position = self.position(&key);
        let mut entries: Vec<(String, String)> = Vec::new();
        std::mem::swap(&mut self.entries, &mut entries);
        let ghost entry = (key, value);
        match position {
            Some(i) => {
                proof {
                    lemma_update(entries@, i as int, entry);
                }
                entries.set(i, (key, value));
            },
            None => {
                proof {
                    lemma_push(entries@, entry);
                }
                entries.push((key, value));
            },
        }
        self.entries = entries;
    }

    /// What `key` maps to.
    pub fn get(&self, key: &str) -> (result: Option<&String>)
        ensures
            match result {
                Some(value) => self@.contains_key(key@) && self@[key@] == value@,
                None => !self@.contains_key(key@),
            },
    {
        proof {
            use_type_invariant(self);
        }
        match self.position(&key.to_owned()) {
            Some(i) => {
                proof {
                    lemma_entry(self.entries@, i as int);
                }
                Some(&self.entries[i].1)
            },
            None => {
                proof {
                    if self@.contains_key(key@) {
                        let i = choose|i: int| key_at(self.entries@, key@, i);
                        assert(key_at(self.entries@, key@, i));
                    }
                }
                None
            },
        }
    }

    /// The entries one by one, in the order in which their keys first came in.
    pub fn entries(&self) -> (result: &Vec<(String, String)>)
        ensures
            lists(result.deep_view(), self@),
    {
        proof {
            use_type_invariant(self);
            let pairs = self.entries.deep_view();
            assert forall|i: int| 0 <= i < pairs.len() implies {
                &&& self@.contains_key((#[trigger] pairs[i]).0)
                &&& self@[pairs[i].0] == pairs[i].1
            } by {
                lemma_entry(self.entries@, i);
            }
            assert forall|i: int, j: int| 0 <= i < j < pairs.len() implies (
            #[trigger] pairs[i]).0 != (#[trigger] pairs[j]).0 by {
                assert(self.entries@[i].0@ != self.entries@[j].0@);
            }
            assert forall|key: Seq<char>| #[trigger]
                self@.contains_key(key) implies exists|i: int|
                0 <= i < pairs.len() && (#[trigger] pairs[i]).0 == key by {
                let i = choose|i: int| key_at(self.entries@, key, i);
                assert(key_at(self.entries@, key, i));
                assert(pairs[i].0 == key);
            }
        }
        &self.entries
    }

    /// Sets everything that `other` holds, in place of what those keys mapped to before.
    pub fn extend(&mut self, other: &StringMap)
        ensures
            final(self)@ == old(self)@.union_prefer_right(other@),
    {
        proof {
            use_type_invariant(other);
        }
        let mut i: usize = 0;
        assert(entries_map(other.entries@.take(0)) =~= Map::<Seq<char>, Seq<char>>::empty());
        assert(old(self)@ =~= old(self)@.union_prefer_right(entries_map(other.entries@.take(0))));
        while i < other.entries.len()
            invariant
                i <= other.entries.len(),
                keys_distinct(other.entries@),
                self@ == old(self)@.union_prefer_right(entries_map(other.entries@.take(i as int))),
            decreases other.entries.len() - i,
        {
            let entry = &other.entries[i];
            proof {
                let done = other.entries@.take(i as int);
                lemma_push(done, *entry);
                assert(done.push(*entry) =~= other.entries@.take(i + 1));
            }
            self.insert(entry.0.clone(), entry.1.clone());
            proof {
                assert(self@ =~= old(self)@.union_prefer_right(
                    entries_map(other.entries@.take(i + 1)),
                ));
            }
            i += 1;
        }
        assert(other.entries@.take(i as int) =~= other.entries@);
    }
}

impl Default for StringMap {
    fn default() -> (result: StringMap)
        ensures
            result@ == Map::<Seq<char>, Seq<char>>::empty(),
    {
        StringMap::new()
    }
}

impl Clone for StringMap {
    fn clone(&self) -> (result: StringMap)
        ensures
            result@ == self@,
    {
        let mut result = StringMap::new();
        result.extend(self);
        assert(result@ =~= self@);
        result
    }
}

/// Pairs list a map exactly where none of them comes twice and they are the pairs that the map
/// holds.
pub proof fn listed_pairs_are_the_map(
    pairs: Seq<(Seq<char>, Seq<char>)>,
    map: Map<Seq<char>, Seq<char>>,
)
    ensures
        lists(pairs, map) <==> {
            &&& pairs.no_duplicates()
            &&& forall|key: Seq<char>, value: Seq<char>| #[trigger]
                pairs.contains((key, value)) <==> map.contains_key(key) && map[key] == value
        },
{
    if lists(pairs, map) {
        assert forall|key: Seq<char>, value: Seq<char>| #[trigger]
            pairs.contains((key, value)) <==> map.contains_key(key) && map[key] == value by {
            if map.contains_key(key) && map[key] == value {
                let i = choose|i: int| 0 <= i < pairs.len() && (#[trigger] pairs[i]).0 == key;
                assert(pairs[i] == (key, value));
            }
        }
    } else if pairs.no_duplicates() && (forall|key: Seq<char>, value: Seq<char>| #[trigger]
        pairs.contains((key, value)) <==> map.contains_key(key) && map[key] == value) {
        assert forall|i: int| 0 <= i < pairs.len() implies {
            &&& map.contains_key((#[trigger] pairs[i]).0)
            &&& map[pairs[i].0] == pairs[i].1
        } by {
            assert(pairs.contains((pairs[i].0, pairs[i].1)));
        }
        assert forall|key: Seq<char>| #[trigger] map.contains_key(key) implies exists|i: int|
            0 <= i < pairs.len() && (#[trigger] pairs[i]).0 == key by {
            assert(pairs.contains((key, map[key])));
            let i = choose|i: int| 0 <= i < pairs.len() && pairs[i] == (key, map[key]);
            assert(pairs[i].0 == key);
        }
        assert(lists(pairs, map));
    }
}

} // verus!
