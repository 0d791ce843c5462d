//! Maps from strings to strings, held as lists of entries with distinct
//! keys and viewed as `Map`s.

use crate::text::{owned, str_eq};
use vstd::prelude::*;

verus! {

/// A map from strings to strings, held as a list of entries with
/// distinct keys.
#[derive(Debug, Clone)]
pub struct StringMap {
    /// The entries, in no particular order.
    pub entries: Vec<(String, String)>,
}

/// The key-value view of a list of entries.
pub open spec fn entries_view(es: Seq<(String, String)>) -> Seq<(Seq<char>, Seq<char>)> {
    es.map_values(|e: (String, String)| (e.0@, e.1@))
}

/// The map of a list of entries with distinct keys.
pub open spec fn entries_map(es: Seq<(Seq<char>, Seq<char>)>) -> Map<Seq<char>, Seq<char>>
    decreases es.len(),
{
    if es.len() == 0 {
        Map::empty()
    } else {
        entries_map(es.drop_last()).insert(es.last().0, es.last().1)
    }
}

/// No key occurs twice.
pub open spec fn keys_distinct(es: Seq<(Seq<char>, Seq<char>)>) -> bool {
    forall|i: int, j: int| 0 <= i < j < es.len() ==> #[trigger] es[i].0 != #[trigger] es[j].0
}

impl View for StringMap {
    type V = Map<Seq<char>, Seq<char>>;

    open spec fn view(&self) -> Map<Seq<char>, Seq<char>> {
        entries_map(entries_view(self.entries@))
    }
}

impl StringMap {
    /// The entries' keys are distinct.
    pub open spec fn wf(&self) -> bool {
        keys_distinct(entries_view(self.entries@))
    }

    /// The empty map.
    pub fn new() -> (m: Self)
        ensures
            m.wf(),
            m@ == Map::<Seq<char>, Seq<char>>::empty(),
    {
        StringMap { entries: Vec::new() }
    }
}

pub proof fn lemma_entries_map_index(es: Seq<(Seq<char>, Seq<char>)>, i: int)
    requires
        keys_distinct(es),
        0 <= i < es.len(),
    ensures
        entries_map(es).contains_key(es[i].0),
        entries_map(es)[es[i].0] == es[i].1,
    decreases es.len(),
{
    if i < es.len() - 1 {
        let d = es.drop_last();
        assert(keys_distinct(d)) by {
            assert forall|a: int, b: int| 0 <= a < b < d.len() implies #[trigger] d[a].0 != #[trigger] d[b].0 by {
                assert(d[a] == es[a] && d[b] == es[b]);
            }
        }
        assert(d[i] == es[i]);
        lemma_entries_map_index(d, i);
        assert(es[i].0 != es.last().0);
    }
}

pub proof fn lemma_entries_map_keys(es: Seq<(Seq<char>, Seq<char>)>, k: Seq<char>)
    ensures
        entries_map(es).contains_key(k) <==> exists|i: int| 0 <= i < es.len() && #[trigger] es[i].0 == k,
    decreases es.len(),
{
    if es.len() > 0 {
        let d = es.drop_last();
        lemma_entries_map_keys(d, k);
        if entries_map(es).contains_key(k) {
            if k == es.last().0 {
                assert(es[es.len() - 1].0 == k);
            } else {
                let i = choose|i: int| 0 <= i < d.len() && #[trigger] d[i].0 == k;
                assert(es[i] == d[i]);
            }
        }
        if exists|i: int| 0 <= i < es.len() && #[trigger] es[i].0 == k {
            let i = choose|i: int| 0 <= i < es.len() && #[trigger] es[i].0 == k;
            if i < es.len() - 1 {
                assert(d[i] == es[i]);
            }
        }
    }
}

proof fn lemma_remove_entry(es: Seq<(Seq<char>, Seq<char>)>, i: int)
    requires
        keys_distinct(es),
        0 <= i < es.len(),
    ensures
        keys_distinct(es.remove(i)),
        entries_map(es.remove(i)) == entries_map(es).remove(es[i].0),
{
    let r = es.remove(i);
    assert forall|a: int, b: int| 0 <= a < b < r.len() implies #[trigger] r[a].0 != #[trigger] r[b].0 by {
        let a2 = if a < i { a } else { a + 1 };
        let b2 = if b < i { b } else { b + 1 };
        assert(r[a] == es[a2]);
        assert(r[b] == es[b2]);
    }
    let m1 = entries_map(r);
    let m2 = entries_map(es).remove(es[i].0);
    assert forall|k: Seq<char>| m1.contains_key(k) <==> m2.contains_key(k) by {
        lemma_entries_map_keys(r, k);
        lemma_entries_map_keys(es, k);
        if m1.contains_key(k) {
            let a = choose|a: int| 0 <= a < r.len() && #[trigger] r[a].0 == k;
            let a2 = if a < i { a } else { a + 1 };
            assert(r[a] == es[a2]);
            assert(es[a2].0 == k);
        }
        if m2.contains_key(k) {
            let a = choose|a: int| 0 <= a < es.len() && #[trigger] es[a].0 == k;
            let a1 = if a < i { a } else { a - 1 };
            assert(r[a1] == es[a]);
            assert(r[a1].0 == k);
        }
    }
    assert forall|k: Seq<char>| m1.contains_key(k) implies m1[k] == m2[k] by {
        lemma_entries_map_keys(r, k);
        let a = choose|a: int| 0 <= a < r.len() && #[trigger] r[a].0 == k;
        lemma_entries_map_index(r, a);
        let a2 = if a < i { a } else { a + 1 };
        assert(r[a] == es[a2]);
        lemma_entries_map_index(es, a2);
    }
    assert(m1 =~= m2);
}

proof fn lemma_push_entry(es: Seq<(Seq<char>, Seq<char>)>, k: Seq<char>, v: Seq<char>)
    requires
        keys_distinct(es),
        !entries_map(es).contains_key(k),
    ensures
        keys_distinct(es.push((k, v))),
        entries_map(es.push((k, v))) == entries_map(es).insert(k, v),
{
    let p = es.push((k, v));
    assert(p.drop_last() =~= es);
    assert forall|a: int, b: int| 0 <= a < b < p.len() implies #[trigger] p[a].0 != #[trigger] p[b].0 by {
        if b == es.len() {
            lemma_entries_map_keys(es, k);
            assert(p[a] == es[a]);
        } else {
            assert(p[a] == es[a] && p[b] == es[b]);
        }
    }
}

impl StringMap {
    /// The index of the entry with the given key, if any.
    pub fn position(&self, key: &str) -> (r: Option<usize>)
        requires
            self.wf(),
        ensures
            match r {
                Some(i) => i < self.entries@.len() && self.entries@[i as int].0@ == key@,
                None => !self@.contains_key(key@),
            },
    {
        let mut i: usize = 0;
        while i < self.entries.len()
            invariant
                i <= self.entries@.len(),
                forall|j: int| 0 <= j < i ==> self.entries@[j].0@ != key@,
            decreases self.entries.len() - i,
        {
            if str_eq(self.entries[i].0.as_str(), key) {
                return Some(i);
            }
            i = i + 1;
        }
        proof {
            let es = entries_view(self.entries@);
            lemma_entries_map_keys(es, key@);
            if self@.contains_key(key@) {
                let j = choose|j: int| 0 <= j < es.len() && #[trigger] es[j].0 == key@;
                assert(es[j].0 == self.entries@[j].0@);
            }
        }
        None
    }

    /// Removes a key.
    pub fn remove_key(&mut self, key: &str)
        requires
            old(self).wf(),
        ensures
            final(self).wf(),
            final(self)@ == old(self)@.remove(key@),
    {
        let pos = self.position(key);
        let ghost es0 = entries_view(self.entries@);
        match pos {
            Some(i) => {
                self.entries.remove(i);
                proof {
                    assert(entries_view(self.entries@) =~= es0.remove(i as int));
                    lemma_remove_entry(es0, i as int);
                    assert(es0[i as int].0 == key@);
                }
            },
            None => {
                assert(old(self)@.remove(key@) =~= old(self)@);
            },
        }
    }

    /// The value of a key, if it has one.
    pub fn get(&self, key: &str) -> (r: Option<String>)
        requires
            self.wf(),
        ensures
            match r {
                Some(v) => self@.contains_key(key@) && self@[key@] == v@,
                None => !self@.contains_key(key@),
            },
    {
        match self.position(key) {
            Some(i) => {
                proof {
                    let es = entries_view(self.entries@);
                    assert(es[i as int] == (self.entries@[i as int].0@, self.entries@[i as int].1@));
                    lemma_entries_map_index(es, i as int);
                }
                Some(self.entries[i].1.clone())
            },
            None => None,
        }
    }

    /// Removes every entry.
    pub fn clear(&mut self)
        ensures
            final(self).wf(),
            final(self)@ == Map::<Seq<char>, Seq<char>>::empty(),
    {
        self.entries = Vec::new();
        assert(entries_view(self.entries@) =~= Seq::<(Seq<char>, Seq<char>)>::empty());
    }

    /// Sets a key's value.
    pub fn insert(&mut self, key: &str, value: &str)
        requires
            old(self).wf(),
        ensures
            final(self).wf(),
            final(self)@ == old(self)@.insert(key@, value@),
    {
        self.remove_key(key);
        let ghost es1 = entries_view(self.entries@);
        let ghost m1 = self@;
        self.entries.push((owned(key), owned(value)));
        proof {
            assert(entries_view(self.entries@) =~= es1.push((key@, value@)));
            lemma_push_entry(es1, key@, value@);
            assert(m1.insert(key@, value@) =~= old(self)@.insert(key@, value@));
        }
    }

}

} // verus!
