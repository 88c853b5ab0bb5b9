//! A map from texts to texts that keeps its entries in the order in which
//! their keys were first set.
use vstd::prelude::*;

use crate::text::spelled;

verus! {

/// One entry of a [`StringMap`].
#[derive(Debug, PartialEq, Eq)]
struct StringEntry {
    key: String,
    value: String,
}

/// A map from texts to texts. No key occurs twice.
#[derive(Debug)]
pub struct StringMap {
    entries: Vec<StringEntry>,
}

/// Whether `key` is among the keys of `entries`.
spec fn has_key(entries: Seq<StringEntry>, key: Seq<char>) -> bool {
    exists|i: int| 0 <= i < entries.len() && (#[trigger] entries[i]).key@ == key
}

/// The position of `key` among the keys of `entries`.
spec fn key_position(entries: Seq<StringEntry>, key: Seq<char>) -> int {
    choose|i: int| 0 <= i < entries.len() && (#[trigger] entries[i]).key@ == key
}

/// The map that a list of entries stands for.
spec fn entries_map(entries: Seq<StringEntry>) -> Map<Seq<char>, Seq<char>> {
    Map::new(
        |key: Seq<char>| has_key(entries, key),
        |key: Seq<char>| entries[key_position(entries, key)].value@,
    )
}

/// No key occurs twice.
spec fn distinct_keys(entries: Seq<StringEntry>) -> bool {
    forall|i: int, j: int|
        0 <= i < entries.len() && 0 <= j < entries.len() && i != j ==> (#[trigger] entries[i]).key@
            != (#[trigger] entries[j]).key@
}

impl View for StringMap {
    type V = Map<Seq<char>, Seq<char>>;

    closed spec fn view(&self) -> Map<Seq<char>, Seq<char>> {
        entries_map(self.entries@)
    }
}

/// With distinct keys an entry is what the map holds under its key.
proof fn lemma_entry(entries: Seq<StringEntry>, i: int)
    requires
        distinct_keys(entries),
        0 <= i < entries.len(),
    ensures
        entries_map(entries).contains_key(entries[i].key@),
        entries_map(entries)[entries[i].key@] == entries[i].value@,
{
    let key = entries[i].key@;
    assert(has_key(entries, key));
    let p = key_position(entries, key);
    assert(entries[p].key@ == entries[i].key@);
}

/// The list without the occurrences of `key`.
pub open spec fn without(list: Seq<Seq<char>>, key: Seq<char>) -> Seq<Seq<char>> {
    list.filter(|k: Seq<char>| k != key)
}

/// A list in which `key` does not occur is what it is without it.
proof fn lemma_without_none(list: Seq<Seq<char>>, key: Seq<char>)
    requires
        forall|j: int| 0 <= j < list.len() ==> #[trigger] list[j] != key,
    ensures
        without(list, key) == list,
    decreases list.len(),
{
    reveal(Seq::filter);
    if list.len() > 0 {
        lemma_without_none(list.drop_last(), key);
        assert(list =~= list.drop_last().push(list.last()));
    } else {
        assert(without(list, key) =~= list);
    }
}

/// Without a key that occurs once, a list lacks just that place.
proof fn lemma_without_one(list: Seq<Seq<char>>, i: int)
    requires
        0 <= i < list.len(),
        forall|j: int| 0 <= j < list.len() && j != i ==> #[trigger] list[j] != list[i],
    ensures
        without(list, list[i]) == list.remove(i),
    decreases list.len(),
{
    reveal(Seq::filter);
    let front = list.drop_last();
    if i == list.len() - 1 {
        lemma_without_none(front, list[i]);
        assert(list.remove(i) =~= front);
    } else {
        assert(front[i] == list[i]);
        lemma_without_one(front, i);
        assert(list.remove(i) =~= front.remove(i).push(list.last()));
    }
}

/// Changing the value of one entry sets that value under the entry's key.
proof fn lemma_replaced(before: Seq<StringEntry>, after: Seq<StringEntry>, i: int)
    requires
        distinct_keys(before),
        0 <= i < before.len(),
        after.len() == before.len(),
        forall|j: int| 0 <= j < before.len() && j != i ==> #[trigger] after[j] == before[j],
        after[i].key == before[i].key,
    ensures
        distinct_keys(after),
        entries_map(after) == entries_map(before).insert(before[i].key@, after[i].value@),
{
    let goal = entries_map(before).insert(before[i].key@, after[i].value@);
    assert forall|a: int, b: int|
        0 <= a < after.len() && 0 <= b < after.len() && a != b implies (#[trigger] after[a]).key@
        != (#[trigger] after[b]).key@ by {
        assert(before[a].key@ != before[b].key@);
    }
    let map = entries_map(after);
    assert forall|key: Seq<char>|
        #![trigger map.dom().contains(key)]
        #![trigger goal.dom().contains(key)]
        map.dom().contains(key) == goal.dom().contains(key) && (goal.dom().contains(key)
            ==> map[key] == goal[key]) by {
        if has_key(before, key) {
            let j = key_position(before, key);
            assert(after[j].key@ == key);
            lemma_entry(before, j);
            lemma_entry(after, j);
        }
        if has_key(after, key) {
            let j = key_position(after, key);
            assert(before[j].key@ == key);
        }
    }
    assert(map =~= goal);
}

/// Adding an entry under a new key sets its value under that key.
proof fn lemma_pushed(before: Seq<StringEntry>, entry: StringEntry)
    requires
        distinct_keys(before),
        !has_key(before, entry.key@),
    ensures
        distinct_keys(before.push(entry)),
        entries_map(before.push(entry)) == entries_map(before).insert(entry.key@, entry.value@),
{
    let after = before.push(entry);
    let goal = entries_map(before).insert(entry.key@, entry.value@);
    let n = before.len() as int;
    let map = entries_map(after);
    assert forall|key: Seq<char>|
        #![trigger map.dom().contains(key)]
        #![trigger goal.dom().contains(key)]
        map.dom().contains(key) == goal.dom().contains(key) && (goal.dom().contains(key)
            ==> map[key] == goal[key]) by {
        if has_key(before, key) {
            let j = key_position(before, key);
            assert(after[j].key@ == key);
            lemma_entry(before, j);
            lemma_entry(after, j);
        }
        if key == entry.key@ {
            assert(after[n].key@ == key);
            lemma_entry(after, n);
        }
        if has_key(after, key) {
            let j = key_position(after, key);
            if j < n {
                assert(before[j].key@ == key);
            }
        }
    }
    assert(map =~= goal);
}

/// Taking an entry out removes its key.
proof fn lemma_removed(before: Seq<StringEntry>, i: int)
    requires
        distinct_keys(before),
        0 <= i < before.len(),
    ensures
        distinct_keys(before.remove(i)),
        entries_map(before.remove(i)) == entries_map(before).remove(before[i].key@),
{
    let after = before.remove(i);
    let goal = entries_map(before).remove(before[i].key@);
    assert forall|a: int, b: int|
        0 <= a < after.len() && 0 <= b < after.len() && a != b implies (#[trigger] after[a]).key@
        != (#[trigger] after[b]).key@ by {
        let c = if a < i { a } else { a + 1 };
        let d = if b < i { b } else { b + 1 };
        assert(before[c].key@ != before[d].key@);
    }
    let map = entries_map(after);
    assert forall|key: Seq<char>|
        #![trigger map.dom().contains(key)]
        #![trigger goal.dom().contains(key)]
        map.dom().contains(key) == goal.dom().contains(key) && (goal.dom().contains(key)
            ==> map[key] == goal[key]) by {
        if has_key(before, key) && key != before[i].key@ {
            let j = key_position(before, key);
            let k = if j < i { j } else { j - 1 };
            assert(after[k].key@ == key);
            lemma_entry(before, j);
            lemma_entry(after, k);
        }
        if has_key(after, key) {
            let k = key_position(after, key);
            let j = if k < i { k } else { k + 1 };
            assert(before[j].key@ == key);
            assert(before[j].key@ != before[i].key@);
        }
    }
    assert(map =~= goal);
}

/// The keys of distinct entries are as many as the keys of their map.
proof fn lemma_key_count(entries: Seq<StringEntry>)
    requires
        distinct_keys(entries),
    ensures
        entries_map(entries).dom().finite(),
        entries_map(entries).dom().len() == entries.len(),
{
    let keys = entries.map_values(|e: StringEntry| e.key@);
    assert(keys.no_duplicates());
    keys.unique_seq_to_set();
    assert forall|key: Seq<char>| entries_map(entries).dom().contains(key) implies keys.contains(
        key,
    ) by {
        let p = key_position(entries, key);
        assert(keys[p] == key);
    }
    assert forall|key: Seq<char>| keys.contains(key) implies entries_map(entries).dom().contains(
        key,
    ) by {
        let p = choose|p: int| 0 <= p < keys.len() && keys[p] == key;
        assert(entries[p].key@ == key);
    }
    assert(entries_map(entries).dom() =~= keys.to_set());
}

/// A map that agrees with every entry and has no more keys than there are
/// entries is the map of the entries.
proof fn lemma_covered(entries: Seq<StringEntry>, other: Map<Seq<char>, Seq<char>>)
    requires
        distinct_keys(entries),
        other.dom().finite(),
        other.dom().len() == entries.len(),
        forall|j: int|
            0 <= j < entries.len() ==> {
                &&& other.contains_key((#[trigger] entries[j]).key@)
                &&& other[entries[j].key@] == entries[j].value@
            },
    ensures
        entries_map(entries) == other,
{
    let map = entries_map(entries);
    lemma_key_count(entries);
    assert forall|key: Seq<char>| map.dom().contains(key) implies #[trigger] other.dom().contains(
        key,
    ) by {
        let p = key_position(entries, key);
        assert(entries[p].key@ == key);
    }
    vstd::set_lib::lemma_subset_equality(map.dom(), other.dom());
    assert forall|key: Seq<char>| #![auto] map.contains_key(key) implies map[key] == other[key] by {
        let p = key_position(entries, key);
        assert(entries[p].key@ == key);
        lemma_entry(entries, p);
    }
    assert(map =~= other);
}

/// The key list holds each key of the map once.
proof fn lemma_key_list(map: StringMap)
    requires
        distinct_keys(map.entries@),
    ensures
        forall|key: Seq<char>| map.key_list().contains(key) <==> map@.contains_key(key),
        map.key_list().no_duplicates(),
{
    let keys = map.key_list();
    assert forall|key: Seq<char>| keys.contains(key) <==> map@.contains_key(key) by {
        if map@.contains_key(key) {
            let p = key_position(map.entries@, key);
            assert(keys[p] == key);
        }
        if keys.contains(key) {
            let p = choose|p: int| 0 <= p < keys.len() && keys[p] == key;
            assert(map.entries@[p].key@ == key);
        }
    }
}

impl StringMap {
    /// The keys in order.
    pub closed spec fn key_list(self) -> Seq<Seq<char>> {
        self.entries@.map_values(|e: StringEntry| e.key@)
    }

    #[verifier::type_invariant]
    spec fn keys_distinct(self) -> bool {
        distinct_keys(self.entries@)
    }

    /// The empty map.
    pub fn new() -> (map: StringMap)
        ensures
            map@ == Map::<Seq<char>, Seq<char>>::empty(),
            map.key_list() == Seq::<Seq<char>>::empty(),
    {
        let map = StringMap { entries: Vec::new() };
        proof {
            assert(map.key_list() =~= Seq::<Seq<char>>::empty());
            assert(map@ =~= Map::<Seq<char>, Seq<char>>::empty());
        }
        map
    }

    /// The number of entries.
    pub fn len(&self) -> (n: usize)
        ensures
            n == self@.dom().len(),
            n == self.key_list().len(),
            self@.dom().finite(),
    {
        proof {
            use_type_invariant(self);
            lemma_key_count(self.entries@);
        }
        self.entries.len()
    }

    /// Whether there is no entry.
    pub fn is_empty(&self) -> (empty: bool)
        ensures
            empty == (self@ == Map::<Seq<char>, Seq<char>>::empty()),
    {
        proof {
            use_type_invariant(self);
            if self.entries@.len() == 0 {
                assert(self@ =~= Map::<Seq<char>, Seq<char>>::empty());
            } else {
                lemma_entry(self.entries@, 0);
            }
        }
        self.entries.len() == 0
    }

    fn position(&self, key: &str) -> (found: Option<usize>)
        ensures
            match found {
                Some(i) => i < self.entries@.len() && self.entries@[i as int].key@ == key@,
                None => !has_key(self.entries@, key@),
            },
    {
        for i in 0..self.entries.len()
            invariant
                forall|j: int| 0 <= j < i ==> (#[trigger] self.entries@[j]).key@ != key@,
        {
            if crate::text::is_text(&self.entries[i].key, key) {
                return Some(i);
            }
        }
        None
    }

    /// The value under `key`.
    pub fn get(&self, key: &str) -> (value: Option<&String>)
        ensures
            match value {
                Some(v) => self@.contains_key(key@) && self@[key@] == v@,
                None => !self@.contains_key(key@),
            },
    {
        proof {
            use_type_invariant(self);
        }
        match self.position(key) {
            Some(i) => {
                proof {
                    lemma_entry(self.entries@, i as int);
                }
                Some(&self.entries[i].value)
            },
            None => None,
        }
    }

    /// Puts `value` under `key` and gives back what stood there before.
    pub fn insert(&mut self, key: String, value: String) -> (before: Option<String>)
        ensures
            final(self)@ == old(self)@.insert(key@, value@),
            final(self).key_list() == if old(self)@.contains_key(key@) {
                old(self).key_list()
            } else {
                old(self).key_list().push(key@)
            },
            match before {
                Some(v) => old(self)@.contains_key(key@) && old(self)@[key@] == v@,
                None => !old(self)@.contains_key(key@),
            },
    {
        proof {
            use_type_invariant(&*self);
        }
        let ghost old_entries = self.entries@;
        let mut entries: Vec<StringEntry> = Vec::new();
        let place = self.position(key.as_str());
        std::mem::swap(&mut entries, &mut self.entries);
        let before = match place {
            Some(i) => {
                proof {
                    lemma_entry(old_entries, i as int);
                }
                let mut fresh = value;
                std::mem::swap(&mut entries[i].value, &mut fresh);
                proof {
                    lemma_replaced(old_entries, entries@, i as int);
                }
                Some(fresh)
            },
            None => {
                proof {
                    lemma_pushed(old_entries, StringEntry { key, value });
                }
                entries.push(StringEntry { key, value });
                None
            },
        };
        self.entries = entries;
        proof {
            let expected = if old(self)@.contains_key(key@) {
                old(self).key_list()
            } else {
                old(self).key_list().push(key@)
            };
            assert(self.key_list() =~= expected);
        }
        before
    }

    /// Takes the entry under `key` out and gives back its value.
    pub fn remove(&mut self, key: &str) -> (value: Option<String>)
        ensures
            final(self)@ == old(self)@.remove(key@),
            final(self).key_list() == without(old(self).key_list(), key@),
            match value {
                Some(v) => old(self)@.contains_key(key@) && old(self)@[key@] == v@,
                None => !old(self)@.contains_key(key@),
            },
    {
        proof {
            use_type_invariant(&*self);
        }
        let ghost old_entries = self.entries@;
        match self.position(key) {
            Some(i) => {
                let mut entries: Vec<StringEntry> = Vec::new();
                std::mem::swap(&mut entries, &mut self.entries);
                let entry = entries.remove(i);
                proof {
                    lemma_entry(old_entries, i as int);
                    lemma_removed(old_entries, i as int);
                    assert(entries@ =~= old_entries.remove(i as int));
                    let list = old(self).key_list();
                    assert(list[i as int] == key@);
                    assert forall|j: int|
                        0 <= j < list.len() && j != i implies #[trigger] list[j] != key@ by {
                        assert(old_entries[j].key@ != old_entries[i as int].key@);
                    }
                    lemma_without_one(list, i as int);
                }
                self.entries = entries;
                proof {
                    assert(self.key_list() =~= old(self).key_list().remove(i as int));
                }
                Some(entry.value)
            },
            None => {
                proof {
                    assert(self@ =~= old(self)@.remove(key@));
                    let list = self.key_list();
                    assert forall|j: int| 0 <= j < list.len() implies #[trigger] list[j]
                        != key@ by {
                        assert(self.entries@[j].key@ != key@);
                    }
                    lemma_without_none(list, key@);
                }
                None
            },
        }
    }

    /// The keys in order.
    pub fn keys(&self) -> (keys: Vec<String>)
        ensures
            spelled(keys@) == self.key_list(),
            forall|key: Seq<char>| self.key_list().contains(key) <==> self@.contains_key(key),
            self.key_list().no_duplicates(),
    {
        proof {
            use_type_invariant(self);
        }
        let mut keys: Vec<String> = Vec::new();
        for i in 0..self.entries.len()
            invariant
                keys@.len() == i,
                forall|j: int| 0 <= j < i ==> keys@[j]@ == (#[trigger] self.entries@[j]).key@,
        {
            keys.push(self.entries[i].key.clone());
        }
        proof {
            assert(spelled(keys@) =~= self.key_list());
            lemma_key_list(*self);
        }
        keys
    }

    /// Whether the two maps hold the same values under the same keys.
    pub fn same_map(&self, other: &StringMap) -> (same: bool)
        ensures
            same == (self@ == other@),
    {
        proof {
            use_type_invariant(self);
            use_type_invariant(other);
        }
        if self.len() != other.len() {
            return false;
        }
        for i in 0..self.entries.len()
            invariant
                distinct_keys(self.entries@),
                forall|j: int|
                    0 <= j < i ==> {
                        &&& other@.contains_key((#[trigger] self.entries@[j]).key@)
                        &&& other@[self.entries@[j].key@] == self.entries@[j].value@
                    },
        {
            proof {
                lemma_entry(self.entries@, i as int);
            }
            match other.get(self.entries[i].key.as_str()) {
                Some(value) => {
                    if *value != self.entries[i].value {
                        return false;
                    }
                },
                None => {
                    return false;
                },
            }
        }
        proof {
            lemma_covered(self.entries@, other@);
        }
        true
    }
}

impl PartialEq for StringMap {
    fn eq(&self, other: &StringMap) -> (same: bool) {
        self.same_map(other)
    }
}

impl vstd::std_specs::cmp::PartialEqSpecImpl for StringMap {
    open spec fn obeys_eq_spec() -> bool {
        true
    }

    open spec fn eq_spec(&self, other: &StringMap) -> bool {
        self@ == other@
    }
}

impl Eq for StringMap {

}

impl Clone for StringMap {
    fn clone(&self) -> (copy: StringMap)
        ensures
            copy@ == self@,
            copy.key_list() == self.key_list(),
    {
        proof {
            use_type_invariant(self);
        }
        let mut entries: Vec<StringEntry> = Vec::new();
        for i in 0..self.entries.len()
            invariant
                entries@ == self.entries@.take(i as int),
        {
            entries.push(
                StringEntry {
                    key: self.entries[i].key.clone(),
                    value: self.entries[i].value.clone(),
                },
            );
            proof {
                assert(entries@ =~= self.entries@.take(i + 1));
            }
        }
        proof {
            assert(entries@ =~= self.entries@);
        }
        StringMap { entries }
    }
}

} // verus!
