//! A map from strings to strings, as config maps hold their data.

use vstd::prelude::*;

verus! {

/// A map from strings to strings. No key occurs twice among its entries.
#[derive(Debug)]
pub struct StringMap {
    entries: Vec<(String, String)>,
}

/// Whether an entry stands under this key.
spec fn entry_at(entries: Seq<(String, String)>, key: Seq<char>, i: int) -> bool {
    0 <= i < entries.len() && entries[i].0@ == key
}

/// Whether no key occurs twice.
spec fn keys_differ(entries: Seq<(String, String)>) -> bool {
    forall|i: int, j: int|
        0 <= i < j < entries.len() ==> #[trigger] entries[i].0@ != #[trigger] entries[j].0@
}

/// The map that a list of entries stands for.
spec fn entries_map(entries: Seq<(String, String)>) -> Map<Seq<char>, Seq<char>> {
    Map::new(
        |key: Seq<char>| exists|i: int| entry_at(entries, key, i),
        |key: Seq<char>| entries[choose|i: int| entry_at(entries, key, i)].1@,
    )
}

/// An entry of a list without repeated keys is what the map holds under its key.
proof fn lemma_entry_in_map(entries: Seq<(String, String)>, i: int)
    requires
        keys_differ(entries),
        0 <= i < entries.len(),
    ensures
        entries_map(entries).contains_key(entries[i].0@),
        entries_map(entries)[entries[i].0@] == entries[i].1@,
{
    let key = entries[i].0@;
    assert(entry_at(entries, key, i));
    let chosen = choose|j: int| entry_at(entries, key, j);
    assert(entry_at(entries, key, chosen));
    assert(chosen == i);
}

/// A list without repeated keys stands for the map that holds its entries and nothing else.
proof fn lemma_entries_make_map(
    entries: Seq<(String, String)>,
    expected: Map<Seq<char>, Seq<char>>,
)
    requires
        keys_differ(entries),
        forall|i: int|
            0 <= i < entries.len() ==> expected.contains_key((#[trigger] entries[i]).0@)
                && expected[entries[i].0@] == entries[i].1@,
        forall|key: Seq<char>| #[trigger]
            expected.contains_key(key) ==> exists|i: int| entry_at(entries, key, i),
    ensures
        entries_map(entries) == expected,
{
    assert forall|key: Seq<char>| #[trigger] entries_map(entries).dom().contains(key) implies
        expected.contains_key(key) && expected[key] == entries_map(entries)[key] by {
        let i = choose|i: int| entry_at(entries, key, i);
        assert(entry_at(entries, key, i));
        lemma_entry_in_map(entries, i);
    }
    assert(entries_map(entries) =~= expected);
}

impl View for StringMap {
    type V = Map<Seq<char>, Seq<char>>;

    closed spec fn view(&self) -> Map<Seq<char>, Seq<char>> {
        entries_map(self.entries@)
    }
}

impl StringMap {
    #[verifier::type_invariant]
    spec fn well_formed(self) -> bool {
        keys_differ(self.entries@)
    }

    /// The empty map.
    pub fn new() -> (res: Self)
        ensures
            res@ == Map::<Seq<char>, Seq<char>>::empty(),
    {
        let res = StringMap { entries: Vec::new() };
        assert(res@ =~= Map::<Seq<char>, Seq<char>>::empty());
        res
    }

    /// Where an entry stands under this key.
    fn position(&self, key: &str) -> (res: Option<usize>)
        ensures
            match res {
                Some(i) => entry_at(self.entries@, key@, i as int),
                None => !self@.contains_key(key@),
            },
    {
        let wanted: String = key.to_owned();
        let mut i: usize = 0;
        while i < self.entries.len()
            invariant
                wanted@ == key@,
                i <= self.entries.len(),
                forall|j: int| 0 <= j < i ==> !entry_at(self.entries@, key@, j),
            decreases self.entries.len() - i,
        {
            if self.entries[i].0 == wanted {
                return Some(i);
            }
            i = i + 1;
        }
        None
    }

    /// Holds a value under a key, in place of the one that it held there before.
    pub fn insert(&mut self, key: String, value: String)
        ensures
            final(self)@ == old(self)@.insert(key@, value@),
    {
        proof {
            use_type_invariant(&*self);
        }
        let found = self.position(key.as_str());
        let mut entries: Vec<(String, String)> = Vec::new();
        std::mem::swap(&mut entries, &mut self.entries);
        let ghost before = entries@;
        let ghost expected = entries_map(before).insert(key@, value@);
        match found {
            Some(i) => {
                entries.set(i, (key, value));
                assert(entries@ == before.update(i as int, (key, value)));
                assert forall|j: int| 0 <= j < entries@.len() implies expected.contains_key(
                    (#[trigger] entries@[j]).0@,
                ) && expected[entries@[j].0@] == entries@[j].1@ by {
                    lemma_entry_in_map(before, j);
                }
                assert forall|k: Seq<char>| #[trigger] expected.contains_key(k) implies exists|j: int|
                    entry_at(entries@, k, j) by {
                    let j = if k == key@ {
                        i as int
                    } else {
                        choose|j: int| entry_at(before, k, j)
                    };
                    assert(entry_at(entries@, k, j));
                }
            },
            None => {
                entries.push((key, value));
                assert(entries@ == before.push((key, value)));
                assert forall|j: int| 0 <= j < before.len() implies #[trigger] before[j].0@
                    != key@ by {
                    lemma_entry_in_map(before, j);
                }
                assert forall|j: int| 0 <= j < entries@.len() implies expected.contains_key(
                    (#[trigger] entries@[j]).0@,
                ) && expected[entries@[j].0@] == entries@[j].1@ by {
                    if j < before.len() {
                        lemma_entry_in_map(before, j);
                    }
                }
                assert forall|k: Seq<char>| #[trigger] expected.contains_key(k) implies exists|j: int|
                    entry_at(entries@, k, j) by {
                    let j = if k == key@ {
                        before.len() as int
                    } else {
                        choose|j: int| entry_at(before, k, j)
                    };
                    assert(entry_at(entries@, k, j));
                }
            },
        }
        proof {
            lemma_entries_make_map(entries@, expected);
        }
        self.entries = entries;
    }

    /// Takes the value out that is held under a key, where there is one.
    pub fn remove(&mut self, key: &str) -> (res: Option<String>)
        ensures
            final(self)@ == old(self)@.remove(key@),
            match res {
                Some(value) => old(self)@.contains_key(key@) && value@ == old(self)@[key@],
                None => !old(self)@.contains_key(key@),
            },
    {
        proof {
            use_type_invariant(&*self);
        }
        match self.position(key) {
            Some(i) => {
                let mut entries: Vec<(String, String)> = Vec::new();
                std::mem::swap(&mut entries, &mut self.entries);
                let ghost before = entries@;
                let ghost expected = entries_map(before).remove(key@);
                let (_, value) = entries.remove(i);
                assert(entries@ == before.remove(i as int));
                proof {
                    lemma_entry_in_map(before, i as int);
                }
                assert forall|j: int| 0 <= j < entries@.len() implies expected.contains_key(
                    (#[trigger] entries@[j]).0@,
                ) && expected[entries@[j].0@] == entries@[j].1@ by {
                    lemma_entry_in_map(before, if j < i { j } else { j + 1 });
                }
                assert forall|k: Seq<char>| #[trigger] expected.contains_key(k) implies exists|j: int|
                    entry_at(entries@, k, j) by {
                    let j = choose|j: int| entry_at(before, k, j);
                    assert(entry_at(entries@, k, if j < i { j } else { j - 1 }));
                }
                proof {
                    lemma_entries_make_map(entries@, expected);
                }
                self.entries = entries;
                Some(value)
            },
            None => {
                assert(self@.remove(key@) =~= self@);
                None
            },
        }
    }
}

} // verus!
