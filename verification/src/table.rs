//! A name-keyed table, the shape shared by the callback registry, the
//! namespace object's property set and the engine's installed script globals:
//! setting a name that is already bound overwrites its binding, nothing is
//! ever removed, and the table is read as a map from names to values.
//!
//! The table keeps every binding it was ever given and reads the latest one,
//! so a superseded entry stays in place, as the registry's "replace, never
//! remove" rule prescribes; the map view hides the history.

use vstd::prelude::*;

verus! {

/// The map read off a binding list, later bindings winning.
pub open spec fn assoc_map<V>(es: Seq<(String, V)>) -> Map<Seq<char>, V>
    decreases es.len(),
{
    if es.len() == 0 {
        Map::empty()
    } else {
        assoc_map(es.drop_last()).insert(es.last().0@, es.last().1)
    }
}

proof fn lemma_assoc_map_no_match<V>(es: Seq<(String, V)>, k: Seq<char>)
    requires
        forall|j: int| 0 <= j < es.len() ==> (#[trigger] es[j]).0@ != k,
    ensures
        !assoc_map(es).contains_key(k),
    decreases es.len(),
{
    if es.len() > 0 {
        lemma_assoc_map_no_match(es.drop_last(), k);
    }
}

proof fn lemma_assoc_map_last_match<V>(es: Seq<(String, V)>, k: Seq<char>, i: int)
    requires
        0 <= i < es.len(),
        es[i].0@ == k,
        forall|j: int| i < j < es.len() ==> (#[trigger] es[j]).0@ != k,
    ensures
        assoc_map(es).contains_key(k),
        assoc_map(es)[k] == es[i].1,
    decreases es.len(),
{
    if i < es.len() - 1 {
        lemma_assoc_map_last_match(es.drop_last(), k, i);
    }
}

/// A table of named bindings. A name is bound to at most one value; binding a
/// name again overwrites; bindings persist for the table's lifetime.
pub struct NameTable<V> {
    entries: Vec<(String, V)>,
}

impl<V> View for NameTable<V> {
    type V = Map<Seq<char>, V>;

    closed spec fn view(&self) -> Map<Seq<char>, V> {
        assoc_map(self.entries@)
    }
}

impl<V> NameTable<V> {
    /// An empty table.
    pub fn new() -> (r: Self)
        ensures
            r@ == Map::<Seq<char>, V>::empty(),
    {
        NameTable { entries: Vec::new() }
    }

    /// Binds `name` to `value`, overwriting any prior binding of `name`.
    pub fn set(&mut self, name: String, value: V)
        ensures
            final(self)@ == old(self)@.insert(name@, value),
    {
        let ghost old_entries = self.entries@;
        self.entries.push((name, value));
        proof {
            assert(self.entries@.drop_last() =~= old_entries);
        }
    }

    /// Looks the binding of `name` up; absence is an answer, not an error.
    pub fn get(&self, name: &String) -> (r: Option<&V>)
        ensures
            match r {
                Some(v) => self@.contains_key(name@) && *v == self@[name@],
                Option::None => !self@.contains_key(name@),
            },
    {
        let mut i: usize = self.entries.len();
        while i > 0
            invariant
                i <= self.entries.len(),
                forall|j: int| i <= j < self.entries@.len() ==> (#[trigger] self.entries@[j]).0@
                    != name@,
            decreases i,
        {
            i = i - 1;
            if self.entries[i].0 == *name {
                proof {
                    lemma_assoc_map_last_match(self.entries@, name@, i as int);
                }
                return Some(&self.entries[i].1);
            }
        }
        proof {
            lemma_assoc_map_no_match(self.entries@, name@);
        }
        Option::None
    }
}

} // verus!
