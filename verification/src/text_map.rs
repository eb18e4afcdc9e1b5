//! Maps whose keys are texts.

use vstd::prelude::*;

use crate::text::same_text;

verus! {

/// A map from texts to values, in which no key occurs twice.
#[derive(Debug)]
pub struct TextMap<V> {
    entries: Vec<(String, V)>,
}

/// The entry at position `i` has the key `key`.
pub open spec fn key_at<V>(entries: Seq<(String, V)>, key: Seq<char>, i: int) -> bool {
    0 <= i < entries.len() && entries[i].0@ == key
}

/// No two entries have the same key.
pub open spec fn distinct_keys<V>(entries: Seq<(String, V)>) -> bool {
    forall|i: int, j: int|
        #![trigger entries[i], entries[j]]
        0 <= i < j < entries.len() ==> entries[i].0@ != entries[j].0@
}

/// The entries, as a map.
pub open spec fn entries_map<V>(entries: Seq<(String, V)>) -> Map<Seq<char>, V> {
    Map::new(
        |key: Seq<char>| exists|i: int| key_at(entries, key, i),
        |key: Seq<char>| entries[choose|i: int| key_at(entries, key, i)].1,
    )
}

impl<V> View for TextMap<V> {
    type V = Map<Seq<char>, V>;

    closed spec fn view(&self) -> Map<Seq<char>, V> {
        entries_map(self.entries@)
    }
}

impl<V> TextMap<V> {
    #[verifier::type_invariant]
    spec fn well_formed(self) -> bool {
        distinct_keys(self.entries@)
    }

    /// A map without entries.
    pub fn new() -> (map: Self)
        ensures
            map@ == Map::<Seq<char>, V>::empty(),
    {
        let map = TextMap { entries: Vec::new() };
        assert(map@ =~= Map::<Seq<char>, V>::empty());
        map
    }

    fn position(&self, key: &str) -> (position: Option<usize>)
        ensures
            match position {
                Some(i) => key_at(self.entries@, key@, i as int),
                None => forall|i: int| !key_at(self.entries@, key@, i),
            },
    {
        let mut i: usize = 0;
        while i < self.entries.len()
            invariant
                i <= self.entries@.len(),
                forall|j: int| j < i ==> !key_at(self.entries@, key@, j),
            decreases self.entries@.len() - i,
        {
            if same_text(self.entries[i].0.as_str(), key) {
                return Some(i);
            }
            i += 1;
        }
        None
    }

    /// The value under a key, where there is one.
    pub fn get(&self, key: &str) -> (value: Option<&V>)
        ensures
            value == (if self@.contains_key(key@) {
                Some(&self@[key@])
            } else {
                None
            }),
    {
        proof {
            use_type_invariant(self);
        }
        match self.position(key) {
            Some(i) => {
                assert(key_at(self.entries@, key@, i as int));
                Some(&self.entries[i].1)
            },
            None => None,
        }
    }

    /// Puts a value under a key, in place of the one that was there.
    pub fn insert(&mut self, key: String, value: V)
        ensures
            final(self)@ == old(self)@.insert(key@, value),
    {
        proof {
            use_type_invariant(&*self);
        }
        let position = self.position(key.as_str());
        let mut entries: Vec<(String, V)> = Vec::new();
        std::mem::swap(&mut entries, &mut self.entries);
        let ghost before = entries@;
        match position {
            Some(i) => {
                entries.set(i, (key, value));
            },
            None => {
                entries.push((key, value));
            },
        }
        proof {
            match position {
                Some(i) => lemma_entry_replaced(before, entries@, i as int),
                None => lemma_entry_added(before, entries@),
            }
        }
        self.entries = entries;
    }

    /// All entries. Their order is that in which the keys came in.
    pub fn entries(&self) -> (entries: &Vec<(String, V)>)
        ensures
            distinct_keys(entries@),
            self@ == entries_map(entries@),
    {
        proof {
            use_type_invariant(self);
        }
        &self.entries
    }
}

/// In entries without a repeated key, each entry is what the map has under its key.
pub proof fn lemma_entry_in_map<V>(entries: Seq<(String, V)>, i: int)
    requires
        distinct_keys(entries),
        0 <= i < entries.len(),
    ensures
        entries_map(entries).contains_key(entries[i].0@),
        entries_map(entries)[entries[i].0@] == entries[i].1,
{
    let key = entries[i].0@;
    assert(key_at(entries, key, i));
    let j = choose|j: int| key_at(entries, key, j);
    assert(entries[j].0@ == entries[i].0@);
}

proof fn lemma_entry_replaced<V>(before: Seq<(String, V)>, after: Seq<(String, V)>, i: int)
    requires
        distinct_keys(before),
        0 <= i < before.len(),
        after == before.update(i, after[i]),
        after[i].0@ == before[i].0@,
    ensures
        distinct_keys(after),
        entries_map(after) == entries_map(before).insert(after[i].0@, after[i].1),
{
    let key = after[i].0@;
    assert forall|j: int, k: int|
        #![trigger after[j], after[k]]
        0 <= j < k < after.len() implies after[j].0@ != after[k].0@ by {
        assert(before[j].0@ != before[k].0@);
    }
    assert forall|other: Seq<char>, j: int|
        key_at(after, other, j) == key_at(before, other, j) by {}
    assert forall|other: Seq<char>| #[trigger]
        entries_map(after).contains_key(other) implies entries_map(after)[other] == entries_map(
        before,
    ).insert(key, after[i].1)[other] by {
        let j = choose|j: int| key_at(after, other, j);
        assert(key_at(before, other, j));
        lemma_entry_in_map(after, j);
        lemma_entry_in_map(before, j);
        if other == key {
            lemma_entry_in_map(after, i);
        }
    }
    lemma_entry_in_map(before, i);
    assert(entries_map(after) =~= entries_map(before).insert(key, after[i].1)) by {
        assert forall|other: Seq<char>|
            entries_map(after).contains_key(other) == entries_map(before).insert(
                key,
                after[i].1,
            ).contains_key(other) by {
            if exists|j: int| key_at(after, other, j) {
                let j = choose|j: int| key_at(after, other, j);
                assert(key_at(before, other, j));
            }
            if exists|j: int| key_at(before, other, j) {
                let j = choose|j: int| key_at(before, other, j);
                assert(key_at(after, other, j));
            }
            assert(key_at(after, key, i));
        }
    }
}

pub(crate) proof fn lemma_entry_added<V>(before: Seq<(String, V)>, after: Seq<(String, V)>)
    requires
        distinct_keys(before),
        after.len() == before.len() + 1,
        after == before.push(after.last()),
        forall|i: int| !key_at(before, after.last().0@, i),
    ensures
        distinct_keys(after),
        entries_map(after) == entries_map(before).insert(after.last().0@, after.last().1),
{
    let key = after.last().0@;
    let last = after.len() - 1;
    assert forall|j: int, k: int|
        #![trigger after[j], after[k]]
        0 <= j < k < after.len() implies after[j].0@ != after[k].0@ by {
        assert(after[j] == before[j]);
        assert(!key_at(before, key, j));
        if k < last {
            assert(before[j].0@ != before[k].0@);
        }
    }
    assert forall|other: Seq<char>|
        entries_map(after).contains_key(other) == entries_map(before).insert(
            key,
            after.last().1,
        ).contains_key(other) by {
        if exists|j: int| key_at(after, other, j) {
            let j = choose|j: int| key_at(after, other, j);
            if j < last {
                assert(key_at(before, other, j));
            }
        }
        if exists|j: int| key_at(before, other, j) {
            let j = choose|j: int| key_at(before, other, j);
            assert(key_at(after, other, j));
        }
        assert(key_at(after, key, last));
    }
    assert forall|other: Seq<char>| #[trigger]
        entries_map(after).contains_key(other) implies entries_map(after)[other] == entries_map(
        before,
    ).insert(key, after.last().1)[other] by {
        let j = choose|j: int| key_at(after, other, j);
        lemma_entry_in_map(after, j);
        if j < last {
            assert(after[j] == before[j]);
            lemma_entry_in_map(before, j);
            assert(!key_at(before, key, j));
        }
    }
    assert(entries_map(after) =~= entries_map(before).insert(key, after.last().1));
}

/// A value in a map is smaller than the map, in the order by which recursion ends.
pub proof fn lemma_value_smaller<V>(map: TextMap<V>, key: Seq<char>)
    requires
        map@.contains_key(key),
    ensures
        decreases_to!(map => map@[key]),
{
    let i = choose|i: int| key_at(map.entries@, key, i);
    assert(key_at(map.entries@, key, i));
    assert(decreases_to!(map => map.entries));
    assert(decreases_to!(map.entries => map.entries@));
    assert(decreases_to!(map.entries@ => map.entries@[i]));
    assert(decreases_to!(map.entries@[i] => map.entries@[i].1));
}

} // verus!
