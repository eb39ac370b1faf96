//! Tables of records keyed by address.

use vstd::prelude::*;

use crate::address::Address;

verus! {

/// A finite map from addresses to records, held as a list in which no
/// address occurs twice. Its view is the map itself.
pub struct Table<V> {
    entries: Vec<(Address, V)>,
}

spec fn key_at<V>(entries: Seq<(Address, V)>, i: int) -> Seq<u8> {
    entries[i].0@
}

spec fn distinct<V>(entries: Seq<(Address, V)>) -> bool {
    forall|i: int, j: int|
        0 <= i < j < entries.len() ==> #[trigger] key_at(entries, i) != #[trigger] key_at(
            entries,
            j,
        )
}

spec fn carries<V>(entries: Seq<(Address, V)>, key: Seq<u8>) -> bool {
    exists|i: int| 0 <= i < entries.len() && #[trigger] key_at(entries, i) == key
}

spec fn index_of<V>(entries: Seq<(Address, V)>, key: Seq<u8>) -> int {
    choose|i: int| 0 <= i < entries.len() && #[trigger] key_at(entries, i) == key
}

spec fn model<V>(entries: Seq<(Address, V)>) -> Map<Seq<u8>, V> {
    Map::new(|key: Seq<u8>| carries(entries, key), |key: Seq<u8>| entries[index_of(entries, key)].1)
}

/// In a list without repeated keys, the entry found for a key is the one
/// that carries it.
proof fn lemma_found<V>(entries: Seq<(Address, V)>, i: int)
    requires
        distinct(entries),
        0 <= i < entries.len(),
    ensures
        carries(entries, key_at(entries, i)),
        index_of(entries, key_at(entries, i)) == i,
        model(entries).contains_key(key_at(entries, i)),
        model(entries)[key_at(entries, i)] == entries[i].1,
{
    let key = key_at(entries, i);
    assert(carries(entries, key));
    let j = index_of(entries, key);
    assert(0 <= j < entries.len() && key_at(entries, j) == key);
    if j < i {
        assert(key_at(entries, j) != key_at(entries, i));
    } else if i < j {
        assert(key_at(entries, i) != key_at(entries, j));
    }
}

/// A key of the model is carried by the entry that `index_of` picks.
proof fn lemma_carried<V>(entries: Seq<(Address, V)>, key: Seq<u8>)
    requires
        carries(entries, key),
    ensures
        0 <= index_of(entries, key) < entries.len(),
        key_at(entries, index_of(entries, key)) == key,
{
}

proof fn lemma_push<V>(before: Seq<(Address, V)>, key: Address, value: V)
    requires
        distinct(before),
        !carries(before, key@),
    ensures
        distinct(before.push((key, value))),
        model(before.push((key, value))) == model(before).insert(key@, value),
{
    let after = before.push((key, value));
    let n = before.len() as int;
    assert forall|i: int| 0 <= i < n implies key_at(after, i) == key_at(before, i) by {}
    assert(key_at(after, n) == key@);
    assert forall|i: int, j: int| 0 <= i < j < after.len() implies key_at(after, i) != key_at(
        after,
        j,
    ) by {
        if j < n {
            assert(key_at(before, i) != key_at(before, j));
        } else {
            assert(key_at(before, i) != key@);
        }
    }
    let expected = model(before).insert(key@, value);
    assert forall|k: Seq<u8>| model(after).contains_key(k) <==> expected.contains_key(k) by {
        if carries(after, k) {
            lemma_carried(after, k);
            let j = index_of(after, k);
            if j < n {
                assert(key_at(before, j) == k);
            }
        }
        if carries(before, k) {
            lemma_carried(before, k);
            assert(key_at(after, index_of(before, k)) == k);
        }
    }
    assert forall|k: Seq<u8>| model(after).contains_key(k) implies model(after)[k] == expected[k] by {
        if k == key@ {
            lemma_found(after, n);
        } else {
            lemma_carried(after, k);
            let j = index_of(after, k);
            assert(j < n);
            assert(key_at(before, j) == k);
            lemma_found(before, j);
        }
    }
    assert(model(after) =~= expected);
}

proof fn lemma_update<V>(before: Seq<(Address, V)>, i: int, key: Address, value: V)
    requires
        distinct(before),
        0 <= i < before.len(),
        key_at(before, i) == key@,
    ensures
        distinct(before.update(i, (key, value))),
        model(before.update(i, (key, value))) == model(before).insert(key@, value),
{
    let after = before.update(i, (key, value));
    assert forall|j: int| 0 <= j < before.len() implies key_at(after, j) == key_at(before, j) by {}
    assert forall|a: int, b: int| 0 <= a < b < after.len() implies key_at(after, a) != key_at(
        after,
        b,
    ) by {
        assert(key_at(before, a) != key_at(before, b));
    }
    let expected = model(before).insert(key@, value);
    assert forall|k: Seq<u8>| model(after).contains_key(k) <==> expected.contains_key(k) by {
        if carries(after, k) {
            lemma_carried(after, k);
            assert(key_at(before, index_of(after, k)) == k);
        }
        if carries(before, k) {
            lemma_carried(before, k);
            assert(key_at(after, index_of(before, k)) == k);
        }
        if k == key@ {
            assert(key_at(after, i) == k);
        }
    }
    assert forall|k: Seq<u8>| model(after).contains_key(k) implies model(after)[k] == expected[k] by {
        lemma_carried(after, k);
        let j = index_of(after, k);
        if j != i {
            assert(key_at(before, j) == k);
            lemma_found(before, j);
            assert(key_at(before, i) != key_at(before, j));
        }
    }
    assert(model(after) =~= expected);
}

proof fn lemma_remove<V>(before: Seq<(Address, V)>, i: int)
    requires
        distinct(before),
        0 <= i < before.len(),
    ensures
        distinct(before.remove(i)),
        model(before.remove(i)) == model(before).remove(key_at(before, i)),
{
    let after = before.remove(i);
    let key = key_at(before, i);
    assert forall|j: int| 0 <= j < after.len() implies key_at(after, j) == key_at(
        before,
        if j < i {
            j
        } else {
            j + 1
        },
    ) by {}
    assert forall|a: int, b: int| 0 <= a < b < after.len() implies key_at(after, a) != key_at(
        after,
        b,
    ) by {
        let a0 = if a < i { a } else { a + 1 };
        let b0 = if b < i { b } else { b + 1 };
        assert(key_at(before, a0) != key_at(before, b0));
    }
    let expected = model(before).remove(key);
    assert forall|k: Seq<u8>| model(after).contains_key(k) <==> expected.contains_key(k) by {
        if carries(after, k) {
            lemma_carried(after, k);
            let j = index_of(after, k);
            let j0 = if j < i { j } else { j + 1 };
            assert(key_at(before, j0) == k);
            if j0 < i {
                assert(key_at(before, j0) != key_at(before, i));
            } else {
                assert(key_at(before, i) != key_at(before, j0));
            }
        }
        if carries(before, k) && k != key {
            lemma_carried(before, k);
            let j0 = index_of(before, k);
            let j = if j0 < i { j0 } else { j0 - 1 };
            assert(key_at(after, j) == k);
        }
    }
    assert forall|k: Seq<u8>| model(after).contains_key(k) implies model(after)[k] == expected[k] by {
        lemma_carried(after, k);
        let j = index_of(after, k);
        let j0 = if j < i { j } else { j + 1 };
        assert(key_at(before, j0) == k);
        lemma_found(before, j0);
    }
    assert(model(after) =~= expected);
}

impl<V> View for Table<V> {
    type V = Map<Seq<u8>, V>;

    closed spec fn view(&self) -> Map<Seq<u8>, V> {
        model(self.entries@)
    }
}

impl<V> Table<V> {
    #[verifier::type_invariant]
    spec fn well_formed(self) -> bool {
        distinct(self.entries@)
    }

    /// The empty table.
    pub fn new() -> (table: Table<V>)
        ensures
            table@ == Map::<Seq<u8>, V>::empty(),
    {
        let table = Table { entries: Vec::new() };
        assert(table@ =~= Map::<Seq<u8>, V>::empty());
        table
    }

    /// Where the entry of `key` stands in the list.
    fn position(&self, key: &Address) -> (at: Option<usize>)
        ensures
            match at {
                Some(i) => i < self.entries.len() && key_at(self.entries@, i as int) == key@,
                None => !carries(self.entries@, key@),
            },
    {
        let mut i: usize = 0;
        while i < self.entries.len()
            invariant
                i <= self.entries.len(),
                forall|j: int| 0 <= j < i ==> key_at(self.entries@, j) != key@,
            decreases self.entries.len() - i,
        {
            if self.entries[i].0 == *key {
                return Some(i);
            }
            i += 1;
        }
        None
    }

    /// Whether the table has a record at `key`.
    pub fn contains(&self, key: &Address) -> (found: bool)
        ensures
            found == self@.contains_key(key@),
    {
        self.position(key).is_some()
    }

    /// The record at `key`, if there is one.
    pub fn get(&self, key: &Address) -> (record: Option<&V>)
        ensures
            match record {
                Some(value) => self@.contains_key(key@) && *value == self@[key@],
                None => !self@.contains_key(key@),
            },
    {
        proof {
            use_type_invariant(self);
        }
        match self.position(key) {
            Some(i) => {
                proof {
                    lemma_found(self.entries@, i as int);
                }
                Some(&self.entries[i].1)
            },
            None => None,
        }
    }

    /// Puts `value` at `key`, in place of the record that was there, if any.
    pub fn insert(&mut self, key: Address, value: V)
        ensures
            final(self)@ == old(self)@.insert(key@, value),
    {
        proof {
            use_type_invariant(&*self);
        }
        let at = self.position(&key);
        let mut entries: Vec<(Address, V)> = Vec::new();
        core::mem::swap(&mut entries, &mut self.entries);
        match at {
            Some(i) => {
                proof {
                    lemma_update(entries@, i as int, key, value);
                }
                entries.set(i, (key, value));
            },
            None => {
                proof {
                    lemma_push(entries@, key, value);
                }
                entries.push((key, value));
            },
        }
        self.entries = entries;
    }

    /// Takes the record at `key` out of the table, if there is one.
    pub fn remove(&mut self, key: &Address) -> (record: Option<V>)
        ensures
            final(self)@ == old(self)@.remove(key@),
            match record {
                Some(value) => old(self)@.contains_key(key@) && value == old(self)@[key@],
                None => !old(self)@.contains_key(key@),
            },
    {
        proof {
            use_type_invariant(&*self);
        }
        match self.position(key) {
            Some(i) => {
                let mut entries: Vec<(Address, V)> = Vec::new();
                core::mem::swap(&mut entries, &mut self.entries);
                proof {
                    lemma_found(entries@, i as int);
                    lemma_remove(entries@, i as int);
                }
                let entry = entries.remove(i);
                self.entries = entries;
                Some(entry.1)
            },
            None => {
                assert(self@.remove(key@) =~= self@);
                None
            },
        }
    }
}

} // verus!
