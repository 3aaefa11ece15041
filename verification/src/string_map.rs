//! A map from strings to values.

use vstd::prelude::*;

verus! {

/// The map that a list of entries stands for. Of two entries with the same
/// key the later one counts.
pub open spec fn entries_map<T>(entries: Seq<(String, T)>) -> Map<Seq<char>, T>
    decreases entries.len(),
{
    if entries.len() == 0 {
        Map::empty()
    } else {
        entries_map(entries.drop_last()).insert(entries.last().0@, entries.last().1)
    }
}

/// Whether no two entries in the list have the same key.
pub open spec fn keys_differ<T>(entries: Seq<(String, T)>) -> bool {
    forall|i: int, j: int|
        0 <= i < j < entries.len() ==> (#[trigger] entries[i]).0@ != (#[trigger] entries[j]).0@
}

/// A key is in the map of a list of entries just where one of them has it.
proof fn lemma_entries_map_keys<T>(entries: Seq<(String, T)>, key: Seq<char>)
    ensures
        entries_map(entries).contains_key(key) <==> exists|i: int|
            0 <= i < entries.len() && (#[trigger] entries[i]).0@ == key,
    decreases entries.len(),
{
    if entries.len() > 0 {
        let init = entries.drop_last();
        lemma_entries_map_keys(init, key);
        if entries_map(entries).contains_key(key) {
            if entries.last().0@ == key {
                assert(entries[entries.len() - 1].0@ == key);
            } else {
                let i = choose|i: int| 0 <= i < init.len() && (#[trigger] init[i]).0@ == key;
                assert(entries[i].0@ == key);
            }
        }
        if exists|i: int| 0 <= i < entries.len() && (#[trigger] entries[i]).0@ == key {
            let i = choose|i: int| 0 <= i < entries.len() && (#[trigger] entries[i]).0@ == key;
            if i < init.len() {
                assert(init[i].0@ == key);
            }
        }
    }
}

/// Where the keys differ, each entry's value is the one under its key.
pub proof fn lemma_entries_map_value<T>(entries: Seq<(String, T)>, i: int)
    requires
        keys_differ(entries),
        0 <= i < entries.len(),
    ensures
        entries_map(entries).contains_key(entries[i].0@),
        entries_map(entries)[entries[i].0@] == entries[i].1,
    decreases entries.len(),
{
    let init = entries.drop_last();
    if i < init.len() {
        assert(keys_differ(init)) by {
            assert forall|a: int, b: int| 0 <= a < b < init.len() implies (#[trigger] init[a]).0@
                != (#[trigger] init[b]).0@ by {
                assert(entries[a].0@ != entries[b].0@);
            }
        }
        lemma_entries_map_value(init, i);
        assert(entries[i].0@ != entries[entries.len() - 1].0@);
    }
}

/// A map from strings to values, held as a list in which no key stands twice.
#[derive(Debug)]
pub struct StringMap<T> {
    entries: Vec<(String, T)>,
}

impl<T> View for StringMap<T> {
    type V = Map<Seq<char>, T>;

    closed spec fn view(&self) -> Map<Seq<char>, T> {
        entries_map(self.entries@)
    }
}

impl<T> StringMap<T> {
    #[verifier::type_invariant]
    spec fn has_distinct_keys(self) -> bool {
        keys_differ(self.entries@)
    }

    /// The empty map.
    pub fn new() -> (map: Self)
        ensures
            map@ == Map::<Seq<char>, T>::empty(),
    {
        StringMap { entries: Vec::new() }
    }

    /// The entries of the map, in no particular order.
    pub fn into_entries(self) -> (entries: Vec<(String, T)>)
        ensures
            keys_differ(entries@),
            entries_map(entries@) == self@,
    {
        proof {
            use_type_invariant(&self);
        }
        self.entries
    }

    /// The place of the entry under `key`.
    fn position(&self, key: &str) -> (place: Option<usize>)
        ensures
            match place {
                Some(i) => i < self.entries@.len() && self.entries@[i as int].0@ == key@,
                None => !self@.contains_key(key@),
            },
    {
        let wanted: String = key.to_owned();
        let mut i: usize = 0;
        while i < self.entries.len()
            invariant
                i <= self.entries@.len(),
                wanted@ == key@,
                forall|j: int| 0 <= j < i ==> (#[trigger] self.entries@[j]).0@ != key@,
            decreases self.entries@.len() - i,
        {
            if self.entries[i].0 == wanted {
                return Some(i);
            }
            i = i + 1;
        }
        proof {
            lemma_entries_map_keys(self.entries@, key@);
        }
        None
    }

    /// The value under `key`.
    pub fn get(&self, key: &str) -> (value: Option<&T>)
        ensures
            match value {
                Some(v) => self@.contains_key(key@) && *v == self@[key@],
                None => !self@.contains_key(key@),
            },
    {
        match self.position(key) {
            Some(i) => {
                proof {
                    use_type_invariant(self);
                    lemma_entries_map_value(self.entries@, i as int);
                }
                Some(&self.entries[i].1)
            },
            None => None,
        }
    }

    /// Takes the value under `key` out of the map.
    pub fn remove(&mut self, key: &str) -> (value: Option<T>)
        ensures
            match value {
                Some(v) => old(self)@.contains_key(key@) && v == old(self)@[key@],
                None => !old(self)@.contains_key(key@),
            },
            final(self)@ == old(self)@.remove(key@),
    {
        match self.position(key) {
            Some(i) => {
                let mut entries: Vec<(String, T)> = Vec::new();
                proof {
                    use_type_invariant(&*self);
                    lemma_entries_map_value(self.entries@, i as int);
                    lemma_entries_map_removed(self.entries@, i as int);
                }
                std::mem::swap(&mut entries, &mut self.entries);
                let (_, value) = entries.remove(i);
                self.entries = entries;
                Some(value)
            },
            None => {
                assert(self@.remove(key@) =~= self@);
                None
            },
        }
    }

    /// Puts `value` under `key`, in place of the value that was there.
    pub fn insert(&mut self, key: String, value: T)
        ensures
            final(self)@ == old(self)@.insert(key@, value),
    {
        let _ = self.remove(key.as_str());
        let mut entries: Vec<(String, T)> = Vec::new();
        proof {
            use_type_invariant(&*self);
        }
        let ghost before = self.entries@;
        std::mem::swap(&mut entries, &mut self.entries);
        entries.push((key, value));
        proof {
            assert(entries@.drop_last() =~= before);
            assert(entries_map(entries@) =~= old(self)@.insert(key@, value));
            assert forall|i: int, j: int| 0 <= i < j < entries@.len() implies (
            #[trigger] entries@[i]).0@ != (#[trigger] entries@[j]).0@ by {
                lemma_entries_map_keys(before, key@);
                if j == before.len() {
                    assert(before[i].0@ != key@);
                } else {
                    assert(before[i].0@ != before[j].0@);
                }
            }
        }
        self.entries = entries;
    }
}

/// Dropping an entry from a list whose keys differ drops its key from the map.
proof fn lemma_entries_map_removed<T>(entries: Seq<(String, T)>, i: int)
    requires
        keys_differ(entries),
        0 <= i < entries.len(),
    ensures
        keys_differ(entries.remove(i)),
        entries_map(entries.remove(i)) == entries_map(entries).remove(entries[i].0@),
{
    let rest = entries.remove(i);
    let key = entries[i].0@;
    assert forall|a: int, b: int| 0 <= a < b < rest.len() implies (#[trigger] rest[a]).0@ != (
    #[trigger] rest[b]).0@ by {
        let a0 = if a < i { a } else { a + 1 };
        let b0 = if b < i { b } else { b + 1 };
        assert(entries[a0].0@ != entries[b0].0@);
    }
    assert forall|k: Seq<char>| #[trigger]
        entries_map(rest).contains_key(k) <==> entries_map(entries).remove(key).contains_key(k) by {
        lemma_entries_map_keys(entries, k);
        lemma_entries_map_keys(rest, k);
        if entries_map(rest).contains_key(k) {
            let a = choose|a: int| 0 <= a < rest.len() && (#[trigger] rest[a]).0@ == k;
            let a0 = if a < i { a } else { a + 1 };
            assert(entries[a0].0@ == k);
            if a0 < i {
                assert(entries[a0].0@ != entries[i].0@);
            } else {
                assert(entries[i].0@ != entries[a0].0@);
            }
        }
        if entries_map(entries).remove(key).contains_key(k) {
            let a = choose|a: int| 0 <= a < entries.len() && (#[trigger] entries[a]).0@ == k;
            let a1 = if a < i { a } else { a - 1 };
            assert(rest[a1].0@ == k);
        }
    }
    assert forall|k: Seq<char>| #[trigger] entries_map(rest).contains_key(k) implies entries_map(
        rest,
    )[k] == entries_map(entries)[k] by {
        lemma_entries_map_keys(rest, k);
        let a = choose|a: int| 0 <= a < rest.len() && (#[trigger] rest[a]).0@ == k;
        let a0 = if a < i { a } else { a + 1 };
        lemma_entries_map_value(rest, a);
        lemma_entries_map_value(entries, a0);
    }
    assert(entries_map(rest) =~= entries_map(entries).remove(key));
}

} // verus!
