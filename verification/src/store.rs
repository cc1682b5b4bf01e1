//! The lookup-store capability: a read-only flat key-to-text store,
//! injected into the resolver, plus an in-memory realization of it used
//! where the mapping is held locally (and by the unit tests).

use vstd::prelude::*;

verus! {

/// A read-only flat key-to-text store. `contents` is the mathematical
/// mapping a store stands for; `get` performs one read of it, keyed
/// exactly (case-sensitively) by the given text.
pub trait LookupStore {
    /// The key-to-text mapping this store currently holds.
    spec fn contents(&self) -> Map<Seq<char>, Seq<char>>;

    /// Reads the text stored under exactly `key`, if any.
    fn get(&self, key: &String) -> (r: Option<String>)
        ensures
            match r {
                Some(text) => self.contents().contains_key(key@) && text@ == self.contents().index(
                    key@,
                ),
                None => !self.contents().contains_key(key@),
            },
    ;
}

/// The mapping a sequence of entries holds: an earlier entry shadows any
/// later entry with the same key.
pub open spec fn entries_map(s: Seq<(String, String)>) -> Map<Seq<char>, Seq<char>>
    decreases s.len(),
{
    if s.len() == 0 {
        Map::empty()
    } else {
        entries_map(s.drop_first()).insert(s.first().0@, s.first().1@)
    }
}

/// An in-memory key-to-text store.
pub struct MemoryStore {
    entries: Vec<(String, String)>,
}

impl MemoryStore {
    /// A store holding nothing.
    pub fn new() -> (s: MemoryStore)
        ensures
            s.contents() == Map::<Seq<char>, Seq<char>>::empty(),
    {
        let s = MemoryStore { entries: Vec::new() };
        proof {
            assert(s.entries@.len() == 0);
        }
        s
    }

    /// Adds an entry, replacing whatever text the key held before.
    pub fn insert(&mut self, key: String, text: String)
        ensures
            final(self).contents() == old(self).contents().insert(key@, text@),
    {
        let ghost old_entries = self.entries@;
        let ghost k = key@;
        let ghost t = text@;
        self.entries.insert(0, (key, text));
        proof {
            assert(self.entries@.drop_first() =~= old_entries);
            assert(entries_map(self.entries@) == entries_map(old_entries).insert(k, t));
        }
    }
}

impl LookupStore for MemoryStore {
    closed spec fn contents(&self) -> Map<Seq<char>, Seq<char>> {
        entries_map(self.entries@)
    }

    fn get(&self, key: &String) -> (r: Option<String>) {
        let ghost all = self.entries@;
        proof {
            assert(all.skip(0) =~= all);
        }
        let mut i: usize = 0;
        while i < self.entries.len()
            invariant
                i <= self.entries@.len(),
                self.entries@ == all,
                entries_map(all).contains_key(key@) == entries_map(all.skip(i as int)).contains_key(
                    key@,
                ),
                entries_map(all).contains_key(key@) ==> entries_map(all)[key@] == entries_map(
                    all.skip(i as int),
                )[key@],
            decreases self.entries@.len() - i,
        {
            let ghost rest = all.skip(i as int);
            proof {
                assert(rest.len() > 0);
                assert(rest.first() == all[i as int]);
            }
            let pair = &self.entries[i];
            if pair.0 == *key {
                proof {
                    assert(entries_map(rest) == entries_map(rest.drop_first()).insert(
                        rest.first().0@,
                        rest.first().1@,
                    ));
                    assert(entries_map(rest).contains_key(key@));
                    assert(entries_map(rest)[key@] == rest.first().1@);
                }
                return Some(pair.1.clone());
            }
            proof {
                assert(rest.drop_first() =~= all.skip(i as int + 1));
                assert(entries_map(rest) == entries_map(rest.drop_first()).insert(
                    rest.first().0@,
                    rest.first().1@,
                ));
            }
            i = i + 1;
        }
        proof {
            assert(all.skip(i as int) =~= Seq::<(String, String)>::empty());
            assert(entries_map(all.skip(i as int)) == Map::<Seq<char>, Seq<char>>::empty());
        }
        None
    }
}

} // verus!
