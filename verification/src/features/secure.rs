//! A key–value store for credentials and identifiers.
use vstd::prelude::*;
use crate::text::owned;

verus! {

/// A store of string values under string keys, each key at most once.
pub struct SecureStore {
    entries: Vec<(String, String)>,
}

/// Index `i` of `e` holds key `k`.
pub open spec fn holds_key(e: Seq<(String, String)>, i: int, k: Seq<char>) -> bool {
    0 <= i < e.len() && e[i].0@ == k
}

/// The map from keys to values that a list of distinct-key entries holds.
pub open spec fn entries_map(e: Seq<(String, String)>) -> Map<Seq<char>, Seq<char>> {
    Map::new(
        |k: Seq<char>| exists|i: int| holds_key(e, i, k),
        |k: Seq<char>| e[choose|i: int| holds_key(e, i, k)].1@,
    )
}

/// No two entries share a key.
pub open spec fn keys_distinct(e: Seq<(String, String)>) -> bool {
    forall|i: int, j: int| 0 <= i < j < e.len() ==> e[i].0@ != e[j].0@
}

proof fn lemma_entry_value(e: Seq<(String, String)>, i: int)
    requires
        keys_distinct(e),
        0 <= i < e.len(),
    ensures
        entries_map(e).contains_key(e[i].0@),
        entries_map(e)[e[i].0@] == e[i].1@,
{
    let k = e[i].0@;
    assert(holds_key(e, i, k));
    let j = choose|j: int| holds_key(e, j, k);
    assert(j == i) by {
        if j < i {
            assert(e[j].0@ != e[i].0@);
        } else if i < j {
            assert(e[i].0@ != e[j].0@);
        }
    }
}

impl View for SecureStore {
    type V = Map<Seq<char>, Seq<char>>;

    closed spec fn view(&self) -> Map<Seq<char>, Seq<char>> {
        entries_map(self.entries@)
    }
}

impl SecureStore {
    #[verifier::type_invariant]
    spec fn distinct_keys(self) -> bool {
        keys_distinct(self.entries@)
    }

    /// An empty store.
    pub fn new() -> (s: Self)
        ensures
            s@ == Map::<Seq<char>, Seq<char>>::empty(),
    {
        let s = SecureStore { entries: Vec::new() };
        assert(s@ =~= Map::<Seq<char>, Seq<char>>::empty());
        s
    }

    fn position(&self, key: &str) -> (res: Option<usize>)
        ensures
            match res {
                Some(i) => holds_key(self.entries@, i as int, key@),
                None => forall|i: int| !holds_key(self.entries@, i, key@),
            },
    {
        let k = owned(key);
        let mut i: usize = 0;
        while i < self.entries.len()
            invariant
                i <= self.entries@.len(),
                k@ == key@,
                forall|j: int| 0 <= j < i ==> !holds_key(self.entries@, j, key@),
            decreases self.entries@.len() - i,
        {
            if self.entries[i].0 == k {
                return Some(i);
            }
            i = i + 1;
        }
        None
    }

    /// The value under `key`, if any.
    pub fn load(&self, key: &str) -> (v: Option<String>)
        ensures
            v is Some <==> self@.contains_key(key@),
            v matches Some(v) ==> v@ == self@[key@],
    {
        proof { use_type_invariant(self); }
        match self.position(key) {
            Some(i) => {
                proof { lemma_entry_value(self.entries@, i as int); }
                Some(self.entries[i].1.clone())
            },
            None => None,
        }
    }

    /// Stores `value` under `key`, replacing what was there.
    pub fn save(&mut self, key: &str, value: &str)
        ensures
            final(self)@ == old(self)@.insert(key@, value@),
    {
        proof { use_type_invariant(&*self); }
        let ghost before = self.entries@;
        match self.position(key) {
            Some(i) => {
                let ghost k = key@;
                let mut entries: Vec<(String, String)> = Vec::new();
                std::mem::swap(&mut entries, &mut self.entries);
                entries.set(i, (owned(key), owned(value)));
                proof {
                    let after = entries@;
                    assert(keys_distinct(after));
                    assert(entries_map(after) =~= entries_map(before).insert(key@, value@)) by {
                        assert forall|k2: Seq<char>| #[trigger] entries_map(after).contains_key(k2) <==> entries_map(before).insert(key@, value@).contains_key(k2) by {
                            if k2 == key@ {
                                assert(holds_key(after, i as int, k2));
                                assert(holds_key(before, i as int, k2));
                            } else {
                                if exists|j: int| holds_key(after, j, k2) {
                                    let j = choose|j: int| holds_key(after, j, k2);
                                    assert(holds_key(before, j, k2));
                                }
                                if exists|j: int| holds_key(before, j, k2) {
                                    let j = choose|j: int| holds_key(before, j, k2);
                                    assert(holds_key(after, j, k2));
                                }
                            }
                        }
                        assert forall|k2: Seq<char>| #[trigger] entries_map(after).contains_key(k2) implies entries_map(after)[k2] == entries_map(before).insert(key@, value@)[k2] by {
                            let j = choose|j: int| holds_key(after, j, k2);
                            lemma_entry_value(after, j);
                            if k2 != key@ {
                                assert(holds_key(before, j, k2));
                                lemma_entry_value(before, j);
                            }
                        }
                    }
                }
                self.entries = entries;
            },
            None => {
                let mut entries: Vec<(String, String)> = Vec::new();
                std::mem::swap(&mut entries, &mut self.entries);
                entries.push((owned(key), owned(value)));
                proof {
                    let after = entries@;
                    let n = before.len() as int;
                    assert(keys_distinct(after)) by {
                        assert forall|a: int, b: int| 0 <= a < b < after.len() implies after[a].0@ != after[b].0@ by {
                            if b == n {
                                assert(!holds_key(before, a, key@));
                            }
                        }
                    }
                    assert(entries_map(after) =~= entries_map(before).insert(key@, value@)) by {
                        assert forall|k2: Seq<char>| #[trigger] entries_map(after).contains_key(k2) <==> entries_map(before).insert(key@, value@).contains_key(k2) by {
                            if k2 == key@ {
                                assert(holds_key(after, n, k2));
                            } else {
                                if exists|j: int| holds_key(after, j, k2) {
                                    let j = choose|j: int| holds_key(after, j, k2);
                                    assert(holds_key(before, j, k2));
                                }
                                if exists|j: int| holds_key(before, j, k2) {
                                    let j = choose|j: int| holds_key(before, j, k2);
                                    assert(holds_key(after, j, k2));
                                }
                            }
                        }
                        assert forall|k2: Seq<char>| #[trigger] entries_map(after).contains_key(k2) implies entries_map(after)[k2] == entries_map(before).insert(key@, value@)[k2] by {
                            let j = choose|j: int| holds_key(after, j, k2);
                            lemma_entry_value(after, j);
                            if k2 != key@ {
                                assert(holds_key(before, j, k2));
                                lemma_entry_value(before, j);
                            }
                        }
                    }
                }
                self.entries = entries;
            },
        }
    }

    /// Removes `key` and its value.
    pub fn delete(&mut self, key: &str)
        ensures
            final(self)@ == old(self)@.remove(key@),
    {
        proof { use_type_invariant(&*self); }
        let ghost before = self.entries@;
        match self.position(key) {
            Some(i) => {
                let mut entries: Vec<(String, String)> = Vec::new();
                std::mem::swap(&mut entries, &mut self.entries);
                entries.remove(i);
                proof {
                    let after = entries@;
                    assert(after =~= before.remove(i as int));
                    assert(keys_distinct(after)) by {
                        assert forall|a: int, b: int| 0 <= a < b < after.len() implies after[a].0@ != after[b].0@ by {
                            let a0 = if a < i { a } else { a + 1 };
                            let b0 = if b < i { b } else { b + 1 };
                            assert(after[a] == before[a0]);
                            assert(after[b] == before[b0]);
                        }
                    }
                    assert(entries_map(after) =~= entries_map(before).remove(key@)) by {
                        assert forall|k2: Seq<char>| #[trigger] entries_map(after).contains_key(k2) <==> entries_map(before).remove(key@).contains_key(k2) by {
                            if exists|j: int| holds_key(after, j, k2) {
                                let j = choose|j: int| holds_key(after, j, k2);
                                let j0 = if j < i { j } else { j + 1 };
                                assert(holds_key(before, j0, k2));
                                assert(j0 != i);
                                assert(k2 != key@);
                            }
                            if k2 != key@ && exists|j: int| holds_key(before, j, k2) {
                                let j = choose|j: int| holds_key(before, j, k2);
                                assert(j != i);
                                let j1 = if j < i { j } else { j - 1 };
                                assert(holds_key(after, j1, k2));
                            }
                        }
                        assert forall|k2: Seq<char>| #[trigger] entries_map(after).contains_key(k2) implies entries_map(after)[k2] == entries_map(before).remove(key@)[k2] by {
                            let j = choose|j: int| holds_key(after, j, k2);
                            lemma_entry_value(after, j);
                            let j0 = if j < i { j } else { j + 1 };
                            assert(holds_key(before, j0, k2));
                            lemma_entry_value(before, j0);
                        }
                    }
                }
                self.entries = entries;
            },
            None => {
                proof {
                    assert(entries_map(before) =~= entries_map(before).remove(key@));
                }
            },
        }
    }

    /// The stored pairs, each key once.
    pub fn pairs(&self) -> (r: &Vec<(String, String)>)
        ensures
            keys_distinct(r@),
            entries_map(r@) == self@,
    {
        proof { use_type_invariant(self); }
        &self.entries
    }
}

/// A read gives back what the last write under that key wrote, and a write
/// or delete leaves every other key as it was; after a delete the key reads
/// back nothing.
pub proof fn law_store_reads_back(m: Map<Seq<char>, Seq<char>>, key: Seq<char>, value: Seq<char>, other: Seq<char>)
    requires
        other != key,
    ensures
        m.insert(key, value).contains_key(key),
        m.insert(key, value)[key] == value,
        !m.remove(key).contains_key(key),
        m.insert(key, value).contains_key(other) == m.contains_key(other),
        m.remove(key).contains_key(other) == m.contains_key(other),
        m.contains_key(other) ==> m.insert(key, value)[other] == m[other] && m.remove(key)[other]
            == m[other],
{
}

} // verus!
