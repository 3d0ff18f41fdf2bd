//! Small tables that are looked up by name.

use crate::text::same;
use vstd::prelude::*;

verus! {

/// What entries map to each other; of two with one name the later counts.
pub open spec fn entries_map<V>(list: Seq<(String, V)>) -> Map<Seq<char>, V>
    decreases list.len(),
{
    if list.len() == 0 {
        Map::empty()
    } else {
        entries_map(list.drop_last()).insert(list.last().0@, list.last().1)
    }
}

/// A table from names to values.
#[derive(Debug)]
pub struct Table<V> {
    entries: Vec<(String, V)>,
}

impl<V> View for Table<V> {
    type V = Map<Seq<char>, V>;

    closed spec fn view(&self) -> Map<Seq<char>, V> {
        entries_map(self.entries@)
    }
}

impl<V: Copy> Table<V> {
    /// A table without entries.
    pub fn new() -> (r: Table<V>)
        ensures
            r@ == Map::<Seq<char>, V>::empty(),
    {
        Table { entries: Vec::new() }
    }

    /// The value under a name.
    pub fn get(&self, name: &str) -> (r: Option<V>)
        ensures
            r == (if self@.contains_key(name@) {
                Some(self@[name@])
            } else {
                None
            }),
    {
        let ghost list = self.entries@;
        let mut i: usize = self.entries.len();
        assert(list.take(i as int) =~= list);
        while i > 0
            invariant
                list == self.entries@,
                i <= list.len(),
                entries_map(list.take(i as int)).contains_key(name@) == self@.contains_key(name@),
                self@.contains_key(name@) ==> entries_map(list.take(i as int))[name@]
                    == self@[name@],
            decreases i,
        {
            assert(list.take(i as int).drop_last() =~= list.take(i - 1));
            if same(self.entries[i - 1].0.as_str(), name) {
                return Some(self.entries[i - 1].1);
            }
            i = i - 1;
        }
        None
    }

    /// Takes out the entry under a name, where there is one.
    pub fn remove(&mut self, name: &str)
        ensures
            final(self)@ == old(self)@.remove(name@),
    {
        let ghost list = self.entries@;
        let mut kept: Vec<(String, V)> = Vec::new();
        assert(list.take(0) =~= Seq::<(String, V)>::empty());
        assert(Map::<Seq<char>, V>::empty().remove(name@) =~= Map::<Seq<char>, V>::empty());
        for i in 0..self.entries.len()
            invariant
                list == self.entries@,
                entries_map(kept@) == entries_map(list.take(i as int)).remove(name@),
        {
            let ghost shorter = kept@;
            let ghost before = entries_map(list.take(i as int));
            proof {
                assert(list.take(i + 1).drop_last() =~= list.take(i as int));
            }
            if !same(self.entries[i].0.as_str(), name) {
                let entry = (self.entries[i].0.clone(), self.entries[i].1);
                kept.push(entry);
                proof {
                    assert(kept@.drop_last() =~= shorter);
                    assert(before.remove(name@).insert(entry.0@, entry.1) =~= before.insert(
                        entry.0@,
                        entry.1,
                    ).remove(name@));
                }
            } else {
                assert(before.insert(name@, list[i as int].1).remove(name@) =~= before.remove(
                    name@,
                ));
            }
        }
        assert(list.take(list.len() as int) =~= list);
        self.entries = kept;
    }

    /// Puts a value under a name, in place of one that was there.
    pub fn insert(&mut self, name: &str, value: V)
        ensures
            final(self)@ == old(self)@.insert(name@, value),
    {
        let ghost was = self@;
        self.remove(name);
        let ghost shorter = self.entries@;
        self.entries.push((name.to_owned(), value));
        proof {
            assert(self.entries@.drop_last() =~= shorter);
            assert(was.remove(name@).insert(name@, value) =~= was.insert(name@, value));
        }
    }
}

/// Of two entries with one name the later counts, and a name without an entry
/// has no value.
pub proof fn later_entries_count<V>(list: Seq<(String, V)>, e: (String, V), name: Seq<char>)
    ensures
        entries_map(list.push(e)).contains_key(e.0@) && entries_map(list.push(e))[e.0@] == e.1,
        name != e.0@ ==> (entries_map(list.push(e)).contains_key(name) <==> entries_map(
            list,
        ).contains_key(name)) && (entries_map(list).contains_key(name) ==> entries_map(
            list.push(e),
        )[name] == entries_map(list)[name]),
        !entries_map(Seq::<(String, V)>::empty()).contains_key(name),
{
    assert(list.push(e).drop_last() =~= list);
}

} // verus!
