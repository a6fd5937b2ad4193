//! A small table of values under text keys.

use crate::text::same_text;
use vstd::prelude::*;

verus! {

/// The values of `entries` by their keys. Where a key stands more than
/// once, its last entry counts.
pub open spec fn by_key<V>(entries: Seq<(String, V)>) -> Map<Seq<char>, V>
    decreases entries.len(),
{
    if entries.len() == 0 {
        Map::empty()
    } else {
        by_key(entries.drop_last()).insert(entries.last().0@, entries.last().1)
    }
}

/// Whether `key` stands at `place` in `entries` and nowhere behind it.
pub open spec fn last_place<V>(entries: Seq<(String, V)>, key: Seq<char>, place: int) -> bool {
    &&& 0 <= place < entries.len()
    &&& entries[place].0@ == key
    &&& forall|j: int| place < j < entries.len() ==> (#[trigger] entries[j]).0@ != key
}

/// A key that stands in no entry has no value.
proof fn lemma_by_key_absent<V>(entries: Seq<(String, V)>, key: Seq<char>)
    requires
        forall|j: int| 0 <= j < entries.len() ==> (#[trigger] entries[j]).0@ != key,
    ensures
        !by_key(entries).contains_key(key),
    decreases entries.len(),
{
    if entries.len() > 0 {
        assert(entries.last().0@ != key);
        assert forall|j: int| 0 <= j < entries.drop_last().len() implies (
        #[trigger] entries.drop_last()[j]).0@ != key by {
            assert(entries.drop_last()[j] == entries[j]);
        }
        lemma_by_key_absent(entries.drop_last(), key);
    }
}

/// The value of a key is that of its last entry.
proof fn lemma_by_key_last<V>(entries: Seq<(String, V)>, key: Seq<char>, place: int)
    requires
        last_place(entries, key, place),
    ensures
        by_key(entries).contains_key(key),
        by_key(entries)[key] == entries[place].1,
    decreases entries.len(),
{
    if place < entries.len() - 1 {
        let front = entries.drop_last();
        assert(entries.last().0@ != key);
        assert(front[place] == entries[place]);
        assert forall|j: int| place < j < front.len() implies (#[trigger] front[j]).0@ != key by {
            assert(front[j] == entries[j]);
        }
        lemma_by_key_last(front, key, place);
    }
}

/// A new value in the last entry of a key is the new value of the key, and
/// no other key changes.
proof fn lemma_by_key_update<V>(entries: Seq<(String, V)>, place: int, entry: (String, V))
    requires
        last_place(entries, entry.0@, place),
    ensures
        by_key(entries.update(place, entry)) == by_key(entries).insert(entry.0@, entry.1),
    decreases entries.len(),
{
    let changed = entries.update(place, entry);
    let front = entries.drop_last();
    if place == entries.len() - 1 {
        assert(changed.drop_last() =~= front);
        assert(by_key(changed) =~= by_key(entries).insert(entry.0@, entry.1));
    } else {
        assert(entries.last().0@ != entry.0@);
        assert(front[place] == entries[place]);
        assert forall|j: int| place < j < front.len() implies (#[trigger] front[j]).0@
            != entry.0@ by {
            assert(front[j] == entries[j]);
        }
        lemma_by_key_update(front, place, entry);
        assert(changed.drop_last() =~= front.update(place, entry));
        assert(changed.last() == entries.last());
        assert(by_key(changed) =~= by_key(entries).insert(entry.0@, entry.1));
    }
}

/// A table of values under text keys. Its view is the map from the text of
/// each key to its value.
pub struct Keyed<V> {
    entries: Vec<(String, V)>,
}

impl<V> View for Keyed<V> {
    type V = Map<Seq<char>, V>;

    closed spec fn view(&self) -> Map<Seq<char>, V> {
        by_key(self.entries@)
    }
}

impl<V> Keyed<V> {
    /// The empty table.
    pub fn new() -> (table: Self)
        ensures
            table@ == Map::<Seq<char>, V>::empty(),
    {
        Keyed { entries: Vec::new() }
    }

    /// The last place of `key` in the table.
    fn find(&self, key: &str) -> (place: Option<usize>)
        ensures
            match place {
                Some(i) => last_place(self.entries@, key@, i as int),
                None => forall|j: int|
                    0 <= j < self.entries.len() ==> (#[trigger] self.entries[j]).0@ != key@,
            },
    {
        let mut i: usize = self.entries.len();
        while i > 0
            invariant
                i <= self.entries.len(),
                forall|j: int|
                    i <= j < self.entries.len() ==> (#[trigger] self.entries[j]).0@ != key@,
            decreases i,
        {
            i = i - 1;
            if same_text(self.entries[i].0.as_str(), key) {
                return Some(i);
            }
        }
        None
    }

    /// The value under `key`, if there is one.
    pub fn get(&self, key: &str) -> (value: Option<&V>)
        ensures
            match value {
                Some(v) => self@.contains_key(key@) && self@[key@] == *v,
                None => !self@.contains_key(key@),
            },
    {
        match self.find(key) {
            Some(i) => {
                proof {
                    lemma_by_key_last(self.entries@, key@, i as int);
                }
                Some(&self.entries[i].1)
            },
            None => {
                proof {
                    lemma_by_key_absent(self.entries@, key@);
                }
                None
            },
        }
    }

    /// Puts `value` under `key`, in place of what was there.
    pub fn insert(&mut self, key: String, value: V)
        ensures
            final(self)@ == old(self)@.insert(key@, value),
    {
        let ghost before = self.entries@;
        let ghost entry = (key, value);
        match self.find(key.as_str()) {
            Some(i) => {
                self.entries.set(i, (key, value));
                proof {
                    lemma_by_key_update(before, i as int, entry);
                }
            },
            None => {
                self.entries.push((key, value));
                assert(self.entries@.drop_last() =~= before);
            },
        }
    }
}

} // verus!
