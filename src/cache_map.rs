//! The mapping from request path to cache cell: at most one cell per path;
//! removing a path makes its cell undiscoverable while readers that already
//! hold the cell keep it.

use vstd::prelude::*;

verus! {

/// The entries read as a map; a later entry for a key wins over an earlier one.
pub open spec fn entries_map<C>(es: Seq<(Seq<char>, C)>) -> Map<Seq<char>, C>
    decreases es.len(),
{
    if es.len() == 0 {
        Map::empty()
    } else {
        entries_map(es.drop_last()).insert(es.last().0, es.last().1)
    }
}

pub open spec fn keys_unique<C>(es: Seq<(Seq<char>, C)>) -> bool {
    forall|i: int, j: int| 0 <= i < j < es.len() ==> (#[trigger] es[i]).0 != (#[trigger] es[j]).0
}

proof fn lemma_entries_lookup<C>(es: Seq<(Seq<char>, C)>, k: Seq<char>)
    requires
        keys_unique(es),
    ensures
        entries_map(es).contains_key(k) <==> exists|i: int| 0 <= i < es.len() && (#[trigger] es[i]).0 == k,
        forall|i: int| 0 <= i < es.len() && (#[trigger] es[i]).0 == k ==> entries_map(es)[k] == es[i].1,
    decreases es.len(),
{
    if es.len() > 0 {
        let n = es.len() - 1;
        let init = es.drop_last();
        assert(keys_unique(init));
        lemma_entries_lookup(init, k);
        if exists|i: int| 0 <= i < es.len() && (#[trigger] es[i]).0 == k {
            let i = choose|i: int| 0 <= i < es.len() && (#[trigger] es[i]).0 == k;
            if i < n {
                assert(init[i] == es[i]);
            }
        }
        if entries_map(es).contains_key(k) && es[n].0 != k {
            assert(entries_map(init).contains_key(k));
            let i = choose|i: int| 0 <= i < init.len() && (#[trigger] init[i]).0 == k;
            assert(es[i] == init[i]);
        }
        assert forall|i: int| 0 <= i < es.len() && (#[trigger] es[i]).0 == k implies entries_map(es)[k] == es[i].1 by {
            if i < n {
                assert(init[i] == es[i]);
                assert(es[i].0 != es[n].0);
            }
        }
    }
}

proof fn lemma_entries_remove<C>(es: Seq<(Seq<char>, C)>, i: int)
    requires
        keys_unique(es),
        0 <= i < es.len(),
    ensures
        keys_unique(es.remove(i)),
        entries_map(es.remove(i)) == entries_map(es).remove(es[i].0),
    decreases es.len(),
{
    let r = es.remove(i);
    assert forall|a: int, b: int| 0 <= a < b < r.len() implies (#[trigger] r[a]).0 != (#[trigger] r[b]).0 by {
        let a2 = if a < i { a } else { a + 1 };
        let b2 = if b < i { b } else { b + 1 };
        assert(r[a] == es[a2] && r[b] == es[b2]);
    }
    if i == es.len() - 1 {
        assert(r =~= es.drop_last());
        lemma_entries_lookup(r, es[i].0);
        assert(entries_map(es).remove(es[i].0) =~= entries_map(r));
    } else {
        let init = es.drop_last();
        assert(keys_unique(init));
        lemma_entries_remove(init, i);
        assert(r.drop_last() =~= init.remove(i));
        assert(r.last() == es.last());
        assert(es.last().0 != es[i].0);
        assert(entries_map(r) =~= entries_map(es).remove(es[i].0));
    }
}

pub struct CacheMap<C> {
    entries: Vec<(String, C)>,
}

impl<C> CacheMap<C> {
    closed spec fn entries_view(&self) -> Seq<(Seq<char>, C)> {
        self.entries@.map_values(|e: (String, C)| (e.0@, e.1))
    }

    #[verifier::type_invariant]
    closed spec fn keys_are_unique(&self) -> bool {
        keys_unique(self.entries_view())
    }

    /// The cells by path.
    pub closed spec fn view(&self) -> Map<Seq<char>, C> {
        entries_map(self.entries_view())
    }

    pub fn new() -> (r: CacheMap<C>)
        ensures
            r.view() == Map::<Seq<char>, C>::empty(),
    {
        let r = CacheMap { entries: Vec::new() };
        assert(r.entries_view() =~= Seq::<(Seq<char>, C)>::empty());
        r
    }

    fn position(&self, key: &String) -> (r: Option<usize>)
        ensures
            match r {
                Some(i) => i < self.entries_view().len() && self.entries_view()[i as int].0 == key@,
                None => !self.view().contains_key(key@),
            },
    {
        proof {
            use_type_invariant(self);
        }
        let mut i: usize = 0;
        while i < self.entries.len()
            invariant
                i <= self.entries@.len(),
                forall|j: int| 0 <= j < i ==> (#[trigger] self.entries_view()[j]).0 != key@,
            decreases self.entries@.len() - i,
        {
            if self.entries[i].0 == *key {
                return Some(i);
            }
            i = i + 1;
        }
        proof {
            lemma_entries_lookup(self.entries_view(), key@);
        }
        None
    }

    /// The cell stored for `key`, if any.
    pub fn get(&self, key: &str) -> (r: Option<&C>)
        ensures
            match r {
                Some(c) => self.view().contains_key(key@) && *c == self.view()[key@],
                None => !self.view().contains_key(key@),
            },
    {
        proof {
            use_type_invariant(self);
        }
        let k = key.to_owned();
        match self.position(&k) {
            Some(i) => {
                proof {
                    lemma_entries_lookup(self.entries_view(), key@);
                }
                Some(&self.entries[i].1)
            },
            None => None,
        }
    }

    /// Stores `fresh` for `key` unless a cell is stored there already; says
    /// whether it stored it.
    pub fn insert_if_absent(&mut self, key: &str, fresh: C) -> (r: bool)
        ensures
            r == !old(self).view().contains_key(key@),
            final(self).view() == if r {
                old(self).view().insert(key@, fresh)
            } else {
                old(self).view()
            },
    {
        proof {
            use_type_invariant(&*self);
        }
        let k = key.to_owned();
        match self.position(&k) {
            Some(_) => {
                proof {
                    lemma_entries_lookup(self.entries_view(), key@);
                }
                false
            },
            None => {
                let mut entries = Vec::new();
                std::mem::swap(&mut entries, &mut self.entries);
                let ghost before = entries@.map_values(|e: (String, C)| (e.0@, e.1));
                proof {
                    lemma_entries_lookup(before, key@);
                }
                entries.push((k, fresh));
                let ghost after = entries@.map_values(|e: (String, C)| (e.0@, e.1));
                assert(after.drop_last() =~= before);
                assert(keys_unique(after)) by {
                    assert forall|a: int, b: int| 0 <= a < b < after.len() implies (#[trigger] after[a]).0 != (#[trigger] after[b]).0 by {
                        if b == after.len() - 1 {
                            assert(after[a] == before[a]);
                        } else {
                            assert(after[a] == before[a] && after[b] == before[b]);
                        }
                    }
                }
                self.entries = entries;
                true
            },
        }
    }

    /// The cell stored for `key`, storing `fresh` there first if there is none.
    pub fn get_or_insert(&mut self, key: &str, fresh: C) -> (r: &C)
        ensures
            final(self).view() == if old(self).view().contains_key(key@) {
                old(self).view()
            } else {
                old(self).view().insert(key@, fresh)
            },
            final(self).view().contains_key(key@),
            *r == final(self).view()[key@],
    {
        self.insert_if_absent(key, fresh);
        match self.get(key) {
            Some(c) => c,
            None => unreached(),
        }
    }

    /// Forgets the cell stored for `key` and hands it back.
    pub fn remove(&mut self, key: &str) -> (r: Option<C>)
        ensures
            final(self).view() == old(self).view().remove(key@),
            match r {
                Some(c) => old(self).view().contains_key(key@) && c == old(self).view()[key@],
                None => !old(self).view().contains_key(key@),
            },
    {
        proof {
            use_type_invariant(&*self);
        }
        let k = key.to_owned();
        match self.position(&k) {
            None => {
                assert(old(self).view().remove(key@) =~= old(self).view());
                None
            },
            Some(i) => {
                let mut entries = Vec::new();
                std::mem::swap(&mut entries, &mut self.entries);
                let ghost before = entries@.map_values(|e: (String, C)| (e.0@, e.1));
                proof {
                    lemma_entries_lookup(before, key@);
                    lemma_entries_remove(before, i as int);
                }
                let (_, cell) = entries.remove(i);
                let ghost after = entries@.map_values(|e: (String, C)| (e.0@, e.1));
                assert(after =~= before.remove(i as int));
                self.entries = entries;
                Some(cell)
            },
        }
    }
}

} // verus!
