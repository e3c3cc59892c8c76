//! A table of values kept under string keys.

use vstd::prelude::*;

verus! {

/// Values kept under string keys; a key occurs at most once.
pub struct KeyedTable<V> {
    entries: Vec<(String, V)>,
}

/// The entries hold each key at most once.
spec fn keys_distinct<V>(entries: Seq<(String, V)>) -> bool {
    forall|i: int, j: int|
        0 <= i < entries.len() && 0 <= j < entries.len() && entries[i].0@ == entries[j].0@
            ==> i == j
}

/// Entry `i` is kept under `key`.
spec fn entry_at<V>(entries: Seq<(String, V)>, key: Seq<char>, i: int) -> bool {
    0 <= i < entries.len() && entries[i].0@ == key
}

/// The entries as a map from key to the view of the value.
spec fn entries_map<V: View>(entries: Seq<(String, V)>) -> Map<Seq<char>, V::V> {
    Map::new(
        |key: Seq<char>| exists|i: int| entry_at(entries, key, i),
        |key: Seq<char>| entries[choose|i: int| entry_at(entries, key, i)].1@,
    )
}

impl<V: View> View for KeyedTable<V> {
    type V = Map<Seq<char>, V::V>;

    closed spec fn view(&self) -> Map<Seq<char>, V::V> {
        entries_map(self.entries@)
    }
}

impl<V> KeyedTable<V> {
    #[verifier::type_invariant]
    spec fn distinct(self) -> bool {
        keys_distinct(self.entries@)
    }
}

/// The map says of a present key what its entry holds.
proof fn lemma_map_at<V: View>(entries: Seq<(String, V)>, i: int)
    requires
        keys_distinct(entries),
        0 <= i < entries.len(),
    ensures
        entries_map(entries).dom().contains(entries[i].0@),
        entries_map(entries)[entries[i].0@] == entries[i].1@,
{
    assert(entry_at(entries, entries[i].0@, i));
}

/// Adding an entry under a new key is insertion into the map.
proof fn lemma_map_push<V: View>(entries: Seq<(String, V)>, entry: (String, V))
    requires
        keys_distinct(entries),
        forall|i: int| 0 <= i < entries.len() ==> entries[i].0@ != entry.0@,
    ensures
        keys_distinct(entries.push(entry)),
        entries_map(entries.push(entry)) == entries_map(entries).insert(entry.0@, entry.1@),
{
    let longer = entries.push(entry);
    assert(keys_distinct(longer)) by {
        assert forall|i: int, j: int|
            0 <= i < longer.len() && 0 <= j < longer.len() && longer[i].0@ == longer[j].0@
        implies i == j by {
            if i < entries.len() && j < entries.len() {
                assert(entries[i].0@ == entries[j].0@);
            }
        }
    }
    assert forall|key: Seq<char>| #[trigger]
        entries_map(longer).dom().contains(key) <==> entries_map(entries).insert(
            entry.0@,
            entry.1@,
        ).dom().contains(key) by {
        if exists|i: int| entry_at(longer, key, i) {
            let i = choose|i: int| entry_at(longer, key, i);
            if i < entries.len() {
                assert(entry_at(entries, key, i));
            }
        }
        if exists|i: int| entry_at(entries, key, i) {
            let i = choose|i: int| entry_at(entries, key, i);
            assert(entry_at(longer, key, i));
        }
        assert(entry_at(longer, entry.0@, entries.len() as int));
    }
    assert forall|key: Seq<char>| #[trigger] entries_map(longer).dom().contains(key) implies
        entries_map(longer)[key] == entries_map(entries).insert(entry.0@, entry.1@)[key] by {
        let i = choose|i: int| entry_at(longer, key, i);
        lemma_map_at(longer, i);
        if i < entries.len() {
            lemma_map_at(entries, i);
        }
    }
    assert(entries_map(longer) =~= entries_map(entries).insert(entry.0@, entry.1@));
}

/// Taking an entry out is removal from the map.
proof fn lemma_map_remove<V: View>(entries: Seq<(String, V)>, at: int)
    requires
        keys_distinct(entries),
        0 <= at < entries.len(),
    ensures
        keys_distinct(entries.remove(at)),
        entries_map(entries.remove(at)) == entries_map(entries).remove(entries[at].0@),
{
    let shorter = entries.remove(at);
    let removed = entries[at].0@;
    assert forall|i: int| 0 <= i < shorter.len() implies #[trigger] shorter[i] == entries[if i
        < at {
        i
    } else {
        i + 1
    }] by {}
    assert(keys_distinct(shorter)) by {
        assert forall|i: int, j: int|
            0 <= i < shorter.len() && 0 <= j < shorter.len() && shorter[i].0@ == shorter[j].0@
        implies i == j by {
            let i2 = if i < at { i } else { i + 1 };
            let j2 = if j < at { j } else { j + 1 };
            assert(entries[i2].0@ == entries[j2].0@);
        }
    }
    assert forall|key: Seq<char>| #[trigger]
        entries_map(shorter).dom().contains(key) <==> entries_map(entries).remove(
            removed,
        ).dom().contains(key) by {
        if exists|i: int| entry_at(shorter, key, i) {
            let i = choose|i: int| entry_at(shorter, key, i);
            let i2 = if i < at { i } else { i + 1 };
            assert(entry_at(entries, key, i2));
            if key == removed {
                assert(entries[i2].0@ == entries[at].0@);
            }
        }
        if key != removed && exists|i: int| entry_at(entries, key, i) {
            let i = choose|i: int| entry_at(entries, key, i);
            let i2 = if i < at { i } else { i - 1 };
            assert(entry_at(shorter, key, i2));
        }
    }
    assert forall|key: Seq<char>| #[trigger] entries_map(shorter).dom().contains(key) implies
        entries_map(shorter)[key] == entries_map(entries).remove(removed)[key] by {
        let i = choose|i: int| entry_at(shorter, key, i);
        let i2 = if i < at { i } else { i + 1 };
        lemma_map_at(shorter, i);
        lemma_map_at(entries, i2);
    }
    assert(entries_map(shorter) =~= entries_map(entries).remove(removed));
}

impl<V: View> KeyedTable<V> {
    /// A table with no entry.
    pub fn new() -> (table: Self)
        ensures
            table@ == Map::<Seq<char>, V::V>::empty(),
    {
        let table = KeyedTable { entries: Vec::new() };
        proof {
            assert forall|key: Seq<char>| !table@.dom().contains(key) by {
                if exists|i: int| entry_at(table.entries@, key, i) {
                    let i = choose|i: int| entry_at(table.entries@, key, i);
                }
            }
            assert(table@ =~= Map::<Seq<char>, V::V>::empty());
        }
        table
    }

    /// Index of the entry kept under `key`.
    fn position(&self, key: &str) -> (at: Option<usize>)
        ensures
            match at {
                Some(i) => entry_at(self.entries@, key@, i as int),
                None => forall|i: int|
                    0 <= i < self.entries@.len() ==> self.entries@[i].0@ != key@,
            },
    {
        let mut i: usize = 0;
        while i < self.entries.len()
            invariant
                0 <= i <= self.entries@.len(),
                forall|j: int| 0 <= j < i ==> self.entries@[j].0@ != key@,
            decreases self.entries@.len() - i,
        {
            if crate::text::same_text(self.entries[i].0.as_str(), key) {
                return Some(i);
            }
            i += 1;
        }
        None
    }

    /// The value kept under `key`, if there is one.
    pub fn get(&self, key: &str) -> (value: Option<&V>)
        ensures
            match value {
                Some(v) => self@.dom().contains(key@) && v@ == self@[key@],
                None => !self@.dom().contains(key@),
            },
    {
        proof {
            use_type_invariant(self);
        }
        match self.position(key) {
            Some(i) => {
                proof {
                    lemma_map_at(self.entries@, i as int);
                }
                Some(&self.entries[i].1)
            },
            None => {
                assert(!self@.dom().contains(key@)) by {
                    if exists|i: int| entry_at(self.entries@, key@, i) {
                        let i = choose|i: int| entry_at(self.entries@, key@, i);
                    }
                }
                None
            },
        }
    }

    /// Drops the entry kept under `key`, and gives its value back.
    pub fn remove(&mut self, key: &str) -> (value: Option<V>)
        ensures
            final(self)@ == old(self)@.remove(key@),
            match value {
                Some(v) => old(self)@.dom().contains(key@) && v@ == old(self)@[key@],
                None => !old(self)@.dom().contains(key@),
            },
    {
        proof {
            use_type_invariant(&*self);
        }
        let at = self.position(key);
        match at {
            Some(i) => {
                proof {
                    lemma_map_at(self.entries@, i as int);
                    lemma_map_remove(self.entries@, i as int);
                }
                let mut entries: Vec<(String, V)> = Vec::new();
                std::mem::swap(&mut entries, &mut self.entries);
                let entry = entries.remove(i);
                self.entries = entries;
                Some(entry.1)
            },
            None => {
                assert(!self@.dom().contains(key@)) by {
                    if exists|i: int| entry_at(self.entries@, key@, i) {
                        let i = choose|i: int| entry_at(self.entries@, key@, i);
                    }
                }
                assert(self@.remove(key@) =~= self@);
                None
            },
        }
    }

    /// Keeps `value` under `key`, in place of what was kept there.
    pub fn insert(&mut self, key: String, value: V)
        ensures
            final(self)@ == old(self)@.insert(key@, value@),
    {
        let _ = self.remove(key.as_str());
        proof {
            use_type_invariant(&*self);
            assert forall|i: int| 0 <= i < self.entries@.len() implies self.entries@[i].0@
                != key@ by {
                lemma_map_at(self.entries@, i);
            }
            lemma_map_push(self.entries@, (key, value));
            assert(old(self)@.remove(key@).insert(key@, value@) =~= old(self)@.insert(
                key@,
                value@,
            ));
        }
        let mut entries: Vec<(String, V)> = Vec::new();
        std::mem::swap(&mut entries, &mut self.entries);
        entries.push((key, value));
        self.entries = entries;
    }

    /// Keeps the entries whose value `keep` accepts, and drops the others.
    pub(crate) fn retain<F: Fn(&V) -> bool>(
        &mut self,
        keep: F,
        Ghost(wanted): Ghost<spec_fn(V::V) -> bool>,
    )
        requires
            forall|v: &V| #[trigger] call_requires(keep, (v,)),
            forall|v: &V, kept: bool| #[trigger]
                call_ensures(keep, (v,), kept) ==> kept == wanted(v@),
        ensures
            final(self)@ == kept_where(old(self)@, wanted),
    {
        proof {
            use_type_invariant(&*self);
        }
        let ghost start = self.entries@;
        let mut rest: Vec<(String, V)> = Vec::new();
        std::mem::swap(&mut rest, &mut self.entries);
        let mut kept: KeyedTable<V> = KeyedTable::new();
        assert(start.subrange(0, start.len() as int) =~= start);
        assert(kept_where(entries_map(start), wanted) =~= kept@.union_prefer_right(
            kept_where(entries_map(rest@), wanted),
        ));
        while rest.len() > 0
            invariant
                keys_distinct(rest@),
                forall|v: &V| #[trigger] call_requires(keep, (v,)),
                forall|v: &V, kept: bool| #[trigger]
                    call_ensures(keep, (v,), kept) ==> kept == wanted(v@),
                forall|i: int|
                    0 <= i < rest@.len() ==> !kept@.dom().contains(#[trigger] rest@[i].0@),
                kept_where(entries_map(start), wanted) == kept@.union_prefer_right(
                    kept_where(entries_map(rest@), wanted),
                ),
            decreases rest@.len(),
        {
            let ghost before = rest@;
            let ghost kept_before = kept@;
            let entry = rest.pop().unwrap();
            proof {
                let last = before.len() - 1;
                lemma_map_at(before, last);
                lemma_map_remove(before, last);
                assert(before.remove(last) =~= rest@);
                assert(entries_map(rest@) == entries_map(before).remove(entry.0@));
                assert forall|i: int| 0 <= i < rest@.len() implies #[trigger] rest@[i].0@
                    != entry.0@ by {
                    assert(before[i].0@ != before[last].0@);
                }
            }
            if keep(&entry.1) {
                kept.insert(entry.0, entry.1);
                assert(kept_before.union_prefer_right(kept_where(entries_map(before), wanted))
                    =~= kept@.union_prefer_right(kept_where(entries_map(rest@), wanted)));
            } else {
                assert(kept_before.union_prefer_right(kept_where(entries_map(before), wanted))
                    =~= kept@.union_prefer_right(kept_where(entries_map(rest@), wanted)));
            }
        }
        proof {
            assert forall|key: Seq<char>| !entries_map(rest@).dom().contains(key) by {
                if exists|i: int| entry_at(rest@, key, i) {
                    let i = choose|i: int| entry_at(rest@, key, i);
                }
            }
            assert(kept@ =~= kept_where(entries_map(start), wanted));
        }
        *self = kept;
    }
}

/// The entries of `map` whose value is `wanted`.
pub open spec fn kept_where<T>(
    map: Map<Seq<char>, T>,
    wanted: spec_fn(T) -> bool,
) -> Map<Seq<char>, T> {
    map.restrict(Set::new(|key: Seq<char>| map.dom().contains(key) && wanted(map[key])))
}

} // verus!
