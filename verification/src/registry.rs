//! Values that are kept under names.

use crate::text::same_text;
use vstd::prelude::*;

verus! {

/// A value under its name.
#[derive(Debug)]
struct Entry<V> {
    key: String,
    value: V,
}

/// Values that are kept under names, one under each.
#[derive(Debug)]
pub struct Registry<V> {
    entries: Vec<Entry<V>>,
}

/// Whether an entry is under a name.
spec fn entry_at<V>(entries: Seq<Entry<V>>, i: int, key: Seq<char>) -> bool {
    0 <= i < entries.len() && entries[i].key@ == key
}

/// Whether no name stands twice.
spec fn distinct<V>(entries: Seq<Entry<V>>) -> bool {
    forall|i: int, j: int|
        0 <= i < j < entries.len() ==> (#[trigger] entries[i]).key@ != (#[trigger] entries[j]).key@
}

/// The values by their names.
spec fn map_of<V>(entries: Seq<Entry<V>>) -> Map<Seq<char>, V> {
    Map::new(
        |key: Seq<char>| exists|i: int| entry_at(entries, i, key),
        |key: Seq<char>| entries[choose|i: int| entry_at(entries, i, key)].value,
    )
}

/// The value under the name of an entry is that of the entry.
proof fn lemma_value_at<V>(entries: Seq<Entry<V>>, i: int)
    requires
        distinct(entries),
        0 <= i < entries.len(),
    ensures
        map_of(entries).dom().contains(entries[i].key@),
        map_of(entries)[entries[i].key@] == entries[i].value,
{
    let key = entries[i].key@;
    assert(entry_at(entries, i, key));
    let j = choose|j: int| entry_at(entries, j, key);
    assert(entry_at(entries, j, key));
    assert(i == j) by {
        if i < j {
            assert(entries[i].key@ != entries[j].key@);
        } else if j < i {
            assert(entries[j].key@ != entries[i].key@);
        }
    }
}

/// Two lists of entries hold the same values if each name is in both or in neither, with the same
/// value.
proof fn lemma_map_is<V>(entries: Seq<Entry<V>>, map: Map<Seq<char>, V>)
    requires
        distinct(entries),
        forall|i: int|
            0 <= i < entries.len() ==> map.dom().contains((#[trigger] entries[i]).key@)
                && map[entries[i].key@] == entries[i].value,
        forall|key: Seq<char>| #[trigger]
            map.dom().contains(key) ==> exists|i: int| entry_at(entries, i, key),
    ensures
        map_of(entries) == map,
{
    assert forall|key: Seq<char>| #[trigger] map_of(entries).dom().contains(key) implies map[key]
        == map_of(entries)[key] && map.dom().contains(key) by {
        let i = choose|i: int| entry_at(entries, i, key);
        lemma_value_at(entries, i);
    }
    assert(map_of(entries) =~= map);
}

impl<V> Registry<V> {
    #[verifier::type_invariant]
    spec fn names_are_distinct(self) -> bool {
        distinct(self.entries@)
    }

    /// The values by their names.
    pub closed spec fn view(&self) -> Map<Seq<char>, V> {
        map_of(self.entries@)
    }

    /// Holds nothing.
    pub fn new() -> (registry: Registry<V>)
        ensures
            registry@ == Map::<Seq<char>, V>::empty(),
    {
        let registry = Registry { entries: Vec::new() };
        assert(registry@ =~= Map::<Seq<char>, V>::empty());
        registry
    }

    /// Finds the place of a name.
    fn find(&self, key: &str) -> (place: Option<usize>)
        ensures
            match place {
                Some(i) => entry_at(self.entries@, i as int, key@),
                None => !self@.dom().contains(key@),
            },
    {
        let mut i: usize = 0;
        while i < self.entries.len()
            invariant
                i <= self.entries@.len(),
                forall|j: int| 0 <= j < i ==> !#[trigger] entry_at(self.entries@, j, key@),
            decreases self.entries@.len() - i,
        {
            if same_text(self.entries[i].key.as_str(), key) {
                return Some(i);
            }
            i = i + 1;
        }
        None
    }

    /// Finds whether something is under a name.
    pub fn contains_key(&self, key: &str) -> (contains: bool)
        ensures
            contains == self@.dom().contains(key@),
    {
        match self.find(key) {
            Some(i) => {
                proof {
                    use_type_invariant(self);
                    lemma_value_at(self.entries@, i as int);
                }
                true
            },
            None => false,
        }
    }

    /// Finds the value under a name.
    pub fn get(&self, key: &str) -> (value: Option<&V>)
        ensures
            match value {
                Some(value) => self@.dom().contains(key@) && *value == self@[key@],
                None => !self@.dom().contains(key@),
            },
    {
        match self.find(key) {
            Some(i) => {
                proof {
                    use_type_invariant(self);
                    lemma_value_at(self.entries@, i as int);
                }
                Some(&self.entries[i].value)
            },
            None => None,
        }
    }

    /// Puts a value under a name, in the place of one that is there.
    pub fn insert(&mut self, key: String, value: V)
        ensures
            final(self)@ == old(self)@.insert(key@, value),
    {
        proof {
            use_type_invariant(&*self);
        }
        let ghost before = self.entries@;
        let place = self.find(key.as_str());
        let mut entries: Vec<Entry<V>> = Vec::new();
        std::mem::swap(&mut entries, &mut self.entries);
        match place {
            Some(i) => {
                entries.set(i, Entry { key, value });
                proof {
                    let map = map_of(before).insert(key@, value);
                    assert(distinct(entries@)) by {
                        assert forall|j: int, k: int| 0 <= j < k < entries@.len() implies (
                        #[trigger] entries@[j]).key@ != (#[trigger] entries@[k]).key@ by {
                            assert(before[j].key@ != before[k].key@);
                        }
                    }
                    assert forall|j: int| 0 <= j < entries@.len() implies map.dom().contains(
                        (#[trigger] entries@[j]).key@,
                    ) && map[entries@[j].key@] == entries@[j].value by {
                        if j != i {
                            lemma_value_at(before, j);
                            if j < i {
                                assert(before[j].key@ != before[i as int].key@);
                            } else {
                                assert(before[i as int].key@ != before[j].key@);
                            }
                        }
                    }
                    assert forall|other: Seq<char>| #[trigger] map.dom().contains(
                        other,
                    ) implies exists|j: int| entry_at(entries@, j, other) by {
                        if other == key@ {
                            assert(entry_at(entries@, i as int, other));
                        } else {
                            let j = choose|j: int| entry_at(before, j, other);
                            assert(entry_at(entries@, j, other));
                        }
                    }
                    lemma_map_is(entries@, map);
                }
            },
            None => {
                entries.push(Entry { key, value });
                proof {
                    let map = map_of(before).insert(key@, value);
                    let last = before.len() as int;
                    assert forall|j: int, k: int| 0 <= j < k < entries@.len() implies (
                    #[trigger] entries@[j]).key@ != (#[trigger] entries@[k]).key@ by {
                        if k == last {
                            lemma_value_at(before, j);
                        } else {
                            assert(before[j].key@ != before[k].key@);
                        }
                    }
                    assert forall|j: int| 0 <= j < entries@.len() implies map.dom().contains(
                        (#[trigger] entries@[j]).key@,
                    ) && map[entries@[j].key@] == entries@[j].value by {
                        if j != last {
                            lemma_value_at(before, j);
                        }
                    }
                    assert forall|other: Seq<char>| #[trigger] map.dom().contains(
                        other,
                    ) implies exists|j: int| entry_at(entries@, j, other) by {
                        if other == key@ {
                            assert(entry_at(entries@, last, other));
                        } else {
                            let j = choose|j: int| entry_at(before, j, other);
                            assert(entry_at(entries@, j, other));
                        }
                    }
                    lemma_map_is(entries@, map);
                }
            },
        }
        self.entries = entries;
    }

    /// Takes the value from under a name.
    pub fn remove(&mut self, key: &str) -> (value: Option<V>)
        ensures
            final(self)@ == old(self)@.remove(key@),
            match value {
                Some(value) => old(self)@.dom().contains(key@) && value == old(self)@[key@],
                None => !old(self)@.dom().contains(key@),
            },
    {
        proof {
            use_type_invariant(&*self);
        }
        let ghost before = self.entries@;
        let i: usize = match self.find(key) {
            Some(i) => i,
            None => {
                assert(self@ =~= old(self)@.remove(key@));
                return None;
            },
        };
        let mut entries: Vec<Entry<V>> = Vec::new();
        std::mem::swap(&mut entries, &mut self.entries);
        let entry = entries.remove(i);
        proof {
            lemma_value_at(before, i as int);
            let map = map_of(before).remove(key@);
            assert forall|j: int, k: int| 0 <= j < k < entries@.len() implies (
            #[trigger] entries@[j]).key@ != (#[trigger] entries@[k]).key@ by {
                let from_j = if j < i {
                    j
                } else {
                    j + 1
                };
                let from_k = if k < i {
                    k
                } else {
                    k + 1
                };
                assert(before[from_j].key@ != before[from_k].key@);
            }
            assert forall|j: int| 0 <= j < entries@.len() implies map.dom().contains(
                (#[trigger] entries@[j]).key@,
            ) && map[entries@[j].key@] == entries@[j].value by {
                if j < i {
                    lemma_value_at(before, j);
                    assert(before[j].key@ != before[i as int].key@);
                } else {
                    lemma_value_at(before, j + 1);
                    assert(before[i as int].key@ != before[j + 1].key@);
                }
            }
            assert forall|other: Seq<char>| #[trigger] map.dom().contains(
                other,
            ) implies exists|j: int| entry_at(entries@, j, other) by {
                let j = choose|j: int| entry_at(before, j, other);
                if j < i {
                    assert(entry_at(entries@, j, other));
                } else {
                    assert(entry_at(entries@, j - 1, other));
                }
            }
            lemma_map_is(entries@, map);
        }
        self.entries = entries;
        Some(entry.value)
    }

    /// Lists the names, each once.
    pub fn keys(&self) -> (keys: Vec<String>)
        ensures
            forall|key: Seq<char>|
                self@.dom().contains(key) <==> exists|i: int|
                    0 <= i < keys@.len() && #[trigger] keys@[i]@ == key,
            forall|i: int, j: int|
                0 <= i < j < keys@.len() ==> #[trigger] keys@[i]@ != #[trigger] keys@[j]@,
    {
        proof {
            use_type_invariant(self);
        }
        let mut keys: Vec<String> = Vec::new();
        let mut i: usize = 0;
        while i < self.entries.len()
            invariant
                i <= self.entries@.len(),
                keys@.len() == i,
                forall|j: int| 0 <= j < i ==> #[trigger] keys@[j]@ == self.entries@[j].key@,
            decreases self.entries@.len() - i,
        {
            keys.push(self.entries[i].key.clone());
            i = i + 1;
        }
        proof {
            assert forall|key: Seq<char>| #[trigger] self@.dom().contains(key) implies exists|i: int|
                0 <= i < keys@.len() && #[trigger] keys@[i]@ == key by {
                let j = choose|j: int| entry_at(self.entries@, j, key);
                assert(keys@[j]@ == key);
            }
            assert forall|key: Seq<char>|
                (exists|i: int| 0 <= i < keys@.len() && #[trigger] keys@[i]@ == key) implies #[trigger] self@.dom().contains(
                key,
            ) by {
                let j = choose|j: int| 0 <= j < keys@.len() && #[trigger] keys@[j]@ == key;
                lemma_value_at(self.entries@, j);
            }
        }
        keys
    }
}

} // verus!
