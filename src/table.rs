//! A table of values under distinct names, kept in insertion order.
use vstd::prelude::*;
use crate::text::str_eq;

verus! {

/// No two entries share a name.
pub open spec fn names_distinct<V>(entries: Seq<(String, V)>) -> bool {
    forall|i: int, j: int|
        0 <= i < entries.len() && 0 <= j < entries.len() && i != j ==> (#[trigger] entries[i]).0@
            != (#[trigger] entries[j]).0@
}

/// Some entry has the name `k`.
pub open spec fn has_name<V>(entries: Seq<(String, V)>, k: Seq<char>) -> bool {
    exists|i: int| 0 <= i < entries.len() && (#[trigger] entries[i]).0@ == k
}

/// The map from each name to the value stored under it.
pub open spec fn entries_map<V>(entries: Seq<(String, V)>) -> Map<Seq<char>, V> {
    Map::new(
        |k: Seq<char>| has_name(entries, k),
        |k: Seq<char>|
            entries[choose|i: int| 0 <= i < entries.len() && (#[trigger] entries[i]).0@ == k].1,
    )
}

proof fn lemma_entry_value<V>(entries: Seq<(String, V)>, i: int)
    requires
        names_distinct(entries),
        0 <= i < entries.len(),
    ensures
        entries_map(entries).contains_key(entries[i].0@),
        entries_map(entries)[entries[i].0@] == entries[i].1,
{
    let k = entries[i].0@;
    assert(has_name(entries, k));
    let j = choose|j: int| 0 <= j < entries.len() && (#[trigger] entries[j]).0@ == k;
    assert(j == i);
}

/// Values under distinct names.
#[derive(Debug, Clone)]
pub struct NameTable<V> {
    entries: Vec<(String, V)>,
}

impl<V> View for NameTable<V> {
    type V = Map<Seq<char>, V>;

    closed spec fn view(&self) -> Map<Seq<char>, V> {
        entries_map(self.entries@)
    }
}

impl<V> NameTable<V> {
    /// No two entries share a name.
    pub closed spec fn wf(&self) -> bool {
        names_distinct(self.entries@)
    }

    /// The entries, name and value, in insertion order.
    pub closed spec fn entries_view(&self) -> Seq<(String, V)> {
        self.entries@
    }

    /// An empty table.
    pub fn new() -> (r: NameTable<V>)
        ensures
            r@ == Map::<Seq<char>, V>::empty(),
            r.wf(),
    {
        let r = NameTable { entries: Vec::new() };
        assert(r@ =~= Map::<Seq<char>, V>::empty());
        r
    }

    /// The position of the entry named `k`, if there is one.
    fn position(&self, k: &str) -> (r: Option<usize>)
        ensures
            match r {
                Some(i) => i < self.entries@.len() && self.entries@[i as int].0@ == k@,
                None => !has_name(self.entries@, k@),
            },
    {
        let mut i: usize = 0;
        while i < self.entries.len()
            invariant
                i <= self.entries@.len(),
                forall|j: int| 0 <= j < i ==> (#[trigger] self.entries@[j]).0@ != k@,
            decreases self.entries@.len() - i,
        {
            if str_eq(self.entries[i].0.as_str(), k) {
                return Some(i);
            }
            i = i + 1;
        }
        None
    }

    /// How many names the table holds.
    pub fn len(&self) -> (r: usize)
        requires
            self.wf(),
        ensures
            r == self@.len(),
    {
        proof {
            self.lemma_len();
        }
        self.entries.len()
    }

    /// The table holds no names.
    pub fn is_empty(&self) -> (r: bool)
        requires
            self.wf(),
        ensures
            r == (self@.len() == 0),
    {
        self.len() == 0
    }

    /// The table holds the name `k`.
    pub fn contains_key(&self, k: &str) -> (r: bool)
        requires
            self.wf(),
        ensures
            r == self@.contains_key(k@),
    {
        self.position(k).is_some()
    }

    /// The value stored under `k`.
    pub fn get(&self, k: &str) -> (r: Option<&V>)
        requires
            self.wf(),
        ensures
            r is Some == self@.contains_key(k@),
            r is Some ==> *r->Some_0 == self@[k@],
    {
        match self.position(k) {
            Some(i) => {
                proof {
                    lemma_entry_value(self.entries@, i as int);
                }
                Some(&self.entries[i].1)
            },
            None => None,
        }
    }

    /// The entries, name and value, in insertion order.
    pub fn entries(&self) -> (r: &Vec<(String, V)>)
        ensures
            r@ == self.entries_view(),
    {
        &self.entries
    }

    /// Stores `v` under `k`, in place of any value stored there before.
    pub fn insert(&mut self, k: String, v: V)
        requires
            old(self).wf(),
        ensures
            final(self).wf(),
            final(self)@ == old(self)@.insert(k@, v),
    {
        let ghost old_entries = self.entries@;
        let ghost key = k@;
        match self.position(k.as_str()) {
            Some(i) => {
                self.entries.set(i, (k, v));
                proof {
                    let e = self.entries@;
                    assert(names_distinct(e)) by {
                        assert forall|a: int, b: int|
                            0 <= a < e.len() && 0 <= b < e.len() && a != b implies (
                        #[trigger] e[a]).0@ != (#[trigger] e[b]).0@ by {
                            assert(old_entries[a] == e[a] || a == i);
                            assert(old_entries[b] == e[b] || b == i);
                        }
                    }
                    assert forall|k2: Seq<char>| has_name(e, k2) == (#[trigger] has_name(
                        old_entries,
                        k2,
                    ) || k2 == key) by {
                        if has_name(old_entries, k2) {
                            let j = choose|j: int|
                                0 <= j < old_entries.len() && (#[trigger] old_entries[j]).0@
                                    == k2;
                            assert(e[j].0@ == k2);
                        }
                        if has_name(e, k2) {
                            let j = choose|j: int| 0 <= j < e.len() && (#[trigger] e[j]).0@ == k2;
                            assert(old_entries[j].0@ == k2 || j == i);
                        }
                        if k2 == key {
                            assert(e[i as int].0@ == k2);
                        }
                    }
                    assert forall|k2: Seq<char>| #[trigger]
                        entries_map(e).contains_key(k2) implies entries_map(e)[k2]
                        == old(self)@.insert(key, v)[k2] by {
                        let j = choose|j: int| 0 <= j < e.len() && (#[trigger] e[j]).0@ == k2;
                        lemma_entry_value(e, j);
                        if j != i {
                            assert(e[j].0@ != e[i as int].0@);
                            assert(old_entries[j] == e[j]);
                            lemma_entry_value(old_entries, j);
                        } else {
                            assert(e[j] == (k, v));
                        }
                    }
                    assert(old(self)@ == entries_map(old_entries));
                    assert(self@ == entries_map(e));
                    assert forall|k2: Seq<char>| #[trigger] entries_map(e).dom().contains(k2)
                        == old(self)@.insert(key, v).dom().contains(k2) by {
                        assert(has_name(e, k2) == (has_name(old_entries, k2) || k2 == key));
                        assert(entries_map(old_entries).dom().contains(k2) == has_name(
                            old_entries,
                            k2,
                        ));
                    }
                    assert(entries_map(e).dom() =~= old(self)@.insert(key, v).dom());
                    assert(self@ =~= old(self)@.insert(key, v));
                }
            },
            None => {
                self.entries.push((k, v));
                proof {
                    let e = self.entries@;
                    let n = old_entries.len() as int;
                    assert(names_distinct(e)) by {
                        assert forall|a: int, b: int|
                            0 <= a < e.len() && 0 <= b < e.len() && a != b implies (
                        #[trigger] e[a]).0@ != (#[trigger] e[b]).0@ by {
                            if a < n && b < n {
                                assert(old_entries[a] == e[a] && old_entries[b] == e[b]);
                            } else if a < n {
                                assert(old_entries[a] == e[a]);
                            } else {
                                assert(old_entries[b] == e[b]);
                            }
                        }
                    }
                    assert forall|k2: Seq<char>| has_name(e, k2) == (#[trigger] has_name(
                        old_entries,
                        k2,
                    ) || k2 == key) by {
                        if has_name(old_entries, k2) {
                            let j = choose|j: int|
                                0 <= j < old_entries.len() && (#[trigger] old_entries[j]).0@
                                    == k2;
                            assert(e[j].0@ == k2);
                        }
                        if has_name(e, k2) {
                            let j = choose|j: int| 0 <= j < e.len() && (#[trigger] e[j]).0@ == k2;
                            if j < n {
                                assert(old_entries[j].0@ == k2);
                            }
                        }
                        if k2 == key {
                            assert(e[n].0@ == k2);
                        }
                    }
                    assert forall|k2: Seq<char>| #[trigger]
                        entries_map(e).contains_key(k2) implies entries_map(e)[k2]
                        == old(self)@.insert(key, v)[k2] by {
                        let j = choose|j: int| 0 <= j < e.len() && (#[trigger] e[j]).0@ == k2;
                        lemma_entry_value(e, j);
                        if j < n {
                            assert(old_entries[j] == e[j]);
                            lemma_entry_value(old_entries, j);
                        }
                    }
                    assert(self@ =~= old(self)@.insert(key, v));
                }
            },
        }
    }

    /// Removes the entry named `k`, giving back its value; `None`, and the
    /// table unchanged, when there is none.
    pub fn remove(&mut self, k: &str) -> (r: Option<V>)
        requires
            old(self).wf(),
        ensures
            final(self).wf(),
            r is Some == old(self)@.contains_key(k@),
            r is Some ==> r->Some_0 == old(self)@[k@],
            final(self)@ == old(self)@.remove(k@),
    {
        let ghost old_entries = self.entries@;
        let ghost key = k@;
        match self.position(k) {
            Some(i) => {
                proof {
                    lemma_entry_value(old_entries, i as int);
                }
                let (_, v) = self.entries.remove(i);
                proof {
                    let e = self.entries@;
                    let ix = i as int;
                    assert forall|j: int| 0 <= j < e.len() implies #[trigger] e[j] == old_entries[
                        if j < ix { j } else { j + 1 }] by {}
                    assert(names_distinct(e)) by {
                        assert forall|a: int, b: int|
                            0 <= a < e.len() && 0 <= b < e.len() && a != b implies (
                        #[trigger] e[a]).0@ != (#[trigger] e[b]).0@ by {
                            assert(e[a] == old_entries[if a < ix { a } else { a + 1 }]);
                            assert(e[b] == old_entries[if b < ix { b } else { b + 1 }]);
                        }
                    }
                    assert forall|k2: Seq<char>| has_name(e, k2) == (#[trigger] has_name(
                        old_entries,
                        k2,
                    ) && k2 != key) by {
                        if has_name(old_entries, k2) && k2 != key {
                            let j = choose|j: int|
                                0 <= j < old_entries.len() && (#[trigger] old_entries[j]).0@
                                    == k2;
                            if j < ix {
                                assert(e[j].0@ == k2);
                            } else {
                                assert(j != ix);
                                assert(e[j - 1] == old_entries[j]);
                            }
                        }
                        if has_name(e, k2) {
                            let j = choose|j: int| 0 <= j < e.len() && (#[trigger] e[j]).0@ == k2;
                            let oj = if j < ix { j } else { j + 1 };
                            assert(e[j] == old_entries[oj]);
                            assert(oj != ix);
                        }
                    }
                    assert forall|k2: Seq<char>| #[trigger]
                        entries_map(e).contains_key(k2) implies entries_map(e)[k2]
                        == old(self)@.remove(key)[k2] by {
                        let j = choose|j: int| 0 <= j < e.len() && (#[trigger] e[j]).0@ == k2;
                        let oj = if j < ix { j } else { j + 1 };
                        assert(e[j] == old_entries[oj]);
                        lemma_entry_value(e, j);
                        lemma_entry_value(old_entries, oj);
                    }
                    assert(self@ =~= old(self)@.remove(key));
                }
                Some(v)
            },
            None => {
                assert(old(self)@.remove(key) =~= old(self)@);
                None
            },
        }
    }

    /// Each entry's name is in the table, with the entry's value, and the
    /// table holds as many names as there are entries.
    pub proof fn lemma_entries_named(&self)
        requires
            self.wf(),
        ensures
            self@.len() == self.entries_view().len(),
            forall|i: int|
                0 <= i < self.entries_view().len() ==> self@.contains_key(
                    (#[trigger] self.entries_view()[i]).0@,
                ) && self@[self.entries_view()[i].0@] == self.entries_view()[i].1,
    {
        self.lemma_len();
        assert forall|i: int| 0 <= i < self.entries_view().len() implies self@.contains_key(
            (#[trigger] self.entries_view()[i]).0@,
        ) && self@[self.entries_view()[i].0@] == self.entries_view()[i].1 by {
            lemma_entry_value(self.entries@, i);
        }
    }

    proof fn lemma_len(&self)
        requires
            names_distinct(self.entries@),
        ensures
            self@.len() == self.entries@.len(),
    {
        let e = self.entries@;
        let keys = Seq::new(e.len(), |i: int| e[i].0@);
        assert(keys.no_duplicates()) by {
            assert forall|a: int, b: int|
                0 <= a < keys.len() && 0 <= b < keys.len() && a != b implies keys[a]
                != keys[b] by {
                assert(e[a].0@ != e[b].0@);
            }
        }
        keys.unique_seq_to_set();
        assert(self@.dom() =~= keys.to_set()) by {
            assert forall|k: Seq<char>| self@.dom().contains(k) == keys.to_set().contains(k) by {
                if self@.dom().contains(k) {
                    let j = choose|j: int| 0 <= j < e.len() && (#[trigger] e[j]).0@ == k;
                    assert(keys[j] == k);
                }
                if keys.to_set().contains(k) {
                    let j = choose|j: int| 0 <= j < keys.len() && keys[j] == k;
                    assert(e[j].0@ == k);
                }
            }
        }
    }
}

} // verus!
