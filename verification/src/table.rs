//! A string-keyed lookup table backed by a vector of entries.
//!
//! The registry of the protocol core needs exact-match lookup and an
//! insert-or-shadow registration whose effect is one whole binding at a
//! time. A vector of pairs gives both with a small model: the table's view
//! is the map in which a later entry for a key shadows an earlier one, and
//! every lookup is a pure read of that map.

use vstd::prelude::*;

use crate::text::str_eq;

verus! {

/// The map described by a sequence of entries, later entries shadowing
/// earlier ones.
pub open spec fn entries_map<V>(s: Seq<(String, V)>) -> Map<Seq<char>, V>
    decreases s.len(),
{
    if s.len() == 0 {
        Map::empty()
    } else {
        entries_map(s.drop_last()).insert(s.last().0@, s.last().1)
    }
}

proof fn lemma_entries_map_last_match<V>(s: Seq<(String, V)>, k: Seq<char>, i: int)
    requires
        0 <= i < s.len(),
        s[i].0@ == k,
        forall|j: int| i < j < s.len() ==> s[j].0@ != k,
    ensures
        entries_map(s).contains_key(k),
        entries_map(s)[k] == s[i].1,
    decreases s.len(),
{
    if i == s.len() - 1 {
    } else {
        assert(forall|j: int| i < j < s.drop_last().len() ==> s.drop_last()[j].0@ != k);
        lemma_entries_map_last_match(s.drop_last(), k, i);
    }
}

proof fn lemma_entries_map_no_match<V>(s: Seq<(String, V)>, k: Seq<char>)
    requires
        forall|j: int| 0 <= j < s.len() ==> s[j].0@ != k,
    ensures
        !entries_map(s).contains_key(k),
    decreases s.len(),
{
    if s.len() > 0 {
        lemma_entries_map_no_match(s.drop_last(), k);
    }
}

/// A table of values keyed by strings, with exact-match lookup.
pub struct LookupTable<V> {
    entries: Vec<(String, V)>,
}

impl<V> View for LookupTable<V> {
    type V = Map<Seq<char>, V>;

    closed spec fn view(&self) -> Map<Seq<char>, V> {
        entries_map(self.entries@)
    }
}

impl<V> LookupTable<V> {
    /// An empty table.
    pub fn new() -> (r: Self)
        ensures
            r@ == Map::<Seq<char>, V>::empty(),
    {
        LookupTable { entries: Vec::new() }
    }

    /// Bind `key` to `value`. The table afterwards is the old table with
    /// exactly this one binding added or replaced: an observer sees either
    /// the old map or the new one, never part of an update.
    pub fn insert(&mut self, key: String, value: V)
        ensures
            final(self)@ == old(self)@.insert(key@, value),
    {
        self.entries.push((key, value));
        proof {
            assert(self.entries@.drop_last() =~= old(self).entries@);
        }
    }

    /// The value bound to `key`, if any. A lookup is a read of the table's
    /// map: it is `Some` exactly when the key is bound, and returns the
    /// bound value.
    pub fn get(&self, key: &str) -> (r: Option<&V>)
        ensures
            match r {
                Some(v) => self@.contains_key(key@) && *v == self@[key@],
                None => !self@.contains_key(key@),
            },
    {
        let n = self.entries.len();
        let mut i = n;
        while i > 0
            invariant
                i <= n == self.entries@.len(),
                forall|j: int| i <= j < n ==> self.entries@[j].0@ != key@,
            decreases i,
        {
            i -= 1;
            if str_eq(self.entries[i].0.as_str(), key) {
                proof {
                    lemma_entries_map_last_match(self.entries@, key@, i as int);
                }
                return Some(&self.entries[i].1);
            }
        }
        proof {
            lemma_entries_map_no_match(self.entries@, key@);
        }
        None
    }
}

} // verus!
