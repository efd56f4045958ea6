//! Named configurations loaded from a directory: a table from names to values in
//! which a later insertion under a name replaces the earlier one.

use vstd::prelude::*;

verus! {

/// The map that a sequence of named entries describes; a later entry under a name
/// shadows an earlier one.
pub open spec fn entries_map<T>(s: Seq<(String, T)>) -> Map<Seq<char>, T>
    decreases s.len(),
{
    if s.len() == 0 {
        Map::empty()
    } else {
        entries_map(s.drop_last()).insert(s.last().0@, s.last().1)
    }
}

/// No two entries carry the same name.
pub open spec fn distinct_names<T>(s: Seq<(String, T)>) -> bool {
    forall|i: int, j: int| 0 <= i < s.len() && 0 <= j < s.len() && i != j ==> #[trigger] s[i].0@ != #[trigger] s[j].0@
}

/// The names the entries carry.
pub open spec fn entry_names<T>(s: Seq<(String, T)>) -> Set<Seq<char>> {
    Set::new(|n: Seq<char>| exists|i: int| 0 <= i < s.len() && #[trigger] s[i].0@ == n)
}

/// The names of the entries are the keys of the map they describe.
pub proof fn lemma_entries_map_dom<T>(s: Seq<(String, T)>)
    ensures
        entries_map(s).dom() == entry_names(s),
        entries_map(s).dom().finite(),
    decreases s.len(),
{
    if s.len() > 0 {
        lemma_entries_map_dom(s.drop_last());
        assert forall|n: Seq<char>| entry_names(s).contains(n) implies #[trigger] entries_map(s).dom().contains(n) by {
            let i = choose|i: int| 0 <= i < s.len() && #[trigger] s[i].0@ == n;
            if i < s.len() - 1 {
                assert(s.drop_last()[i].0@ == n);
                assert(entry_names(s.drop_last()).contains(n));
            }
        }
        assert forall|n: Seq<char>| #[trigger] entries_map(s).dom().contains(n) implies entry_names(s).contains(n) by {
            if n != s.last().0@ {
                assert(entry_names(s.drop_last()).contains(n));
                let i = choose|i: int| 0 <= i < s.drop_last().len() && #[trigger] s.drop_last()[i].0@ == n;
                assert(s[i].0@ == n);
            } else {
                assert(s[s.len() - 1].0@ == n);
            }
        }
        assert(entries_map(s).dom() =~= entry_names(s));
    } else {
        assert(entries_map(s).dom() =~= entry_names(s));
    }
}

/// With distinct names, the map holds each entry's value under its name.
pub proof fn lemma_entries_map_index<T>(s: Seq<(String, T)>, i: int)
    requires
        distinct_names(s),
        0 <= i < s.len(),
    ensures
        entries_map(s).contains_key(s[i].0@),
        entries_map(s)[s[i].0@] == s[i].1,
    decreases s.len(),
{
    if i < s.len() - 1 {
        let t = s.drop_last();
        assert(t[i] == s[i]);
        assert(distinct_names(t)) by {
            assert forall|a: int, b: int| 0 <= a < t.len() && 0 <= b < t.len() && a != b implies #[trigger] t[a].0@ != #[trigger] t[b].0@ by {
                assert(t[a] == s[a] && t[b] == s[b]);
            }
        }
        lemma_entries_map_index(t, i);
        assert(s[i].0@ != s[s.len() - 1].0@);
    }
}

/// Replacing the value of an entry replaces the value under its name.
pub proof fn lemma_entries_map_update<T>(s: Seq<(String, T)>, i: int, e: (String, T))
    requires
        distinct_names(s),
        0 <= i < s.len(),
        e.0@ == s[i].0@,
    ensures
        entries_map(s.update(i, e)) == entries_map(s).insert(e.0@, e.1),
        distinct_names(s.update(i, e)),
    decreases s.len(),
{
    let u = s.update(i, e);
    assert(distinct_names(u)) by {
        assert forall|a: int, b: int| 0 <= a < u.len() && 0 <= b < u.len() && a != b implies #[trigger] u[a].0@ != #[trigger] u[b].0@ by {
            assert(u[a].0@ == s[a].0@ && u[b].0@ == s[b].0@);
        }
    }
    if i == s.len() - 1 {
        assert(u.drop_last() =~= s.drop_last());
        assert(entries_map(u) =~= entries_map(s).insert(e.0@, e.1));
    } else {
        let t = s.drop_last();
        assert(distinct_names(t)) by {
            assert forall|a: int, b: int| 0 <= a < t.len() && 0 <= b < t.len() && a != b implies #[trigger] t[a].0@ != #[trigger] t[b].0@ by {
                assert(t[a] == s[a] && t[b] == s[b]);
            }
        }
        lemma_entries_map_update(t, i, e);
        assert(u.drop_last() =~= t.update(i, e));
        assert(s.last().0@ != e.0@) by {
            assert(s[s.len() - 1].0@ != s[i].0@);
        }
        assert(entries_map(u) =~= entries_map(s).insert(e.0@, e.1));
    }
}

/// A table of named configurations.
pub struct ConfigTable<T> {
    entries: Vec<(String, T)>,
}

impl<T> View for ConfigTable<T> {
    type V = Map<Seq<char>, T>;

    closed spec fn view(&self) -> Map<Seq<char>, T> {
        entries_map(self.entries@)
    }
}

impl<T> ConfigTable<T> {
    /// The table's internal consistency: no name occurs twice.
    pub closed spec fn wf(&self) -> bool {
        distinct_names(self.entries@)
    }

    /// An empty table.
    pub fn new() -> (t: Self)
        ensures
            t.wf(),
            t@ == Map::<Seq<char>, T>::empty(),
    {
        ConfigTable { entries: Vec::new() }
    }

    fn find(&self, name: &String) -> (r: Option<usize>)
        requires
            self.wf(),
        ensures
            match r {
                Some(i) => i < self.entries@.len() && self.entries@[i as int].0@ == name@,
                None => !self@.contains_key(name@),
            },
    {
        let mut i: usize = 0;
        while i < self.entries.len()
            invariant
                i <= self.entries@.len(),
                forall|j: int| 0 <= j < i ==> #[trigger] self.entries@[j].0@ != name@,
            decreases self.entries@.len() - i,
        {
            if self.entries[i].0 == *name {
                return Some(i);
            }
            i = i + 1;
        }
        proof {
            lemma_entries_map_dom(self.entries@);
            if self@.contains_key(name@) {
                let j = choose|j: int| 0 <= j < self.entries@.len() && #[trigger] self.entries@[j].0@ == name@;
            }
        }
        None
    }

    /// Puts `value` under `name`, replacing what was there.
    pub fn insert(&mut self, name: String, value: T)
        requires
            old(self).wf(),
        ensures
            final(self).wf(),
            final(self)@ == old(self)@.insert(name@, value),
    {
        match self.find(&name) {
            Some(i) => {
                proof {
                    lemma_entries_map_update(self.entries@, i as int, (name, value));
                }
                self.entries.set(i, (name, value));
            },
            None => {
                proof {
                    lemma_entries_map_dom(self.entries@);
                }
                let ghost before = self.entries@;
                self.entries.push((name, value));
                proof {
                    let s = self.entries@;
                    assert(s.drop_last() =~= before);
                    assert forall|a: int, b: int| 0 <= a < s.len() && 0 <= b < s.len() && a != b implies #[trigger] s[a].0@ != #[trigger] s[b].0@ by {
                        if a == s.len() - 1 {
                            assert(!entry_names(before).contains(s[b].0@) || s[b].0@ != name@);
                            assert(before[b] == s[b]);
                        } else if b == s.len() - 1 {
                            assert(before[a] == s[a]);
                        } else {
                            assert(before[a] == s[a] && before[b] == s[b]);
                        }
                    }
                }
            },
        }
    }

    /// The value under `name`, if any.
    pub fn get(&self, name: &String) -> (r: Option<&T>)
        requires
            self.wf(),
        ensures
            match r {
                Some(v) => self@.contains_key(name@) && *v == self@[name@],
                None => !self@.contains_key(name@),
            },
    {
        match self.find(name) {
            Some(i) => {
                proof {
                    lemma_entries_map_index(self.entries@, i as int);
                }
                Some(&self.entries[i].1)
            },
            None => None,
        }
    }

    /// Number of names in the table.
    pub fn len(&self) -> (n: usize)
        requires
            self.wf(),
        ensures
            n == self@.len(),
    {
        proof {
            lemma_entries_map_dom(self.entries@);
            lemma_distinct_names_len(self.entries@);
        }
        self.entries.len()
    }

    /// The entries of the table, each name once.
    pub fn into_entries(self) -> (r: Vec<(String, T)>)
        requires
            self.wf(),
        ensures
            distinct_names(r@),
            entries_map(r@) == self@,
    {
        self.entries
    }
}

/// With distinct names there are as many names as entries.
pub proof fn lemma_distinct_names_len<T>(s: Seq<(String, T)>)
    requires
        distinct_names(s),
    ensures
        entry_names(s).len() == s.len(),
        entry_names(s).finite(),
    decreases s.len(),
{
    lemma_entries_map_dom(s);
    if s.len() > 0 {
        let t = s.drop_last();
        assert(distinct_names(t)) by {
            assert forall|a: int, b: int| 0 <= a < t.len() && 0 <= b < t.len() && a != b implies #[trigger] t[a].0@ != #[trigger] t[b].0@ by {
                assert(t[a] == s[a] && t[b] == s[b]);
            }
        }
        lemma_distinct_names_len(t);
        lemma_entries_map_dom(t);
        assert(!entry_names(t).contains(s.last().0@)) by {
            if entry_names(t).contains(s.last().0@) {
                let i = choose|i: int| 0 <= i < t.len() && #[trigger] t[i].0@ == s.last().0@;
                assert(s[i].0@ == s[s.len() - 1].0@);
            }
        }
        assert(entry_names(s) =~= entry_names(t).insert(s.last().0@)) by {
            assert forall|n: Seq<char>| #[trigger] entry_names(s).contains(n) implies entry_names(t).insert(s.last().0@).contains(n) by {
                let i = choose|i: int| 0 <= i < s.len() && #[trigger] s[i].0@ == n;
                if i < s.len() - 1 {
                    assert(t[i].0@ == n);
                }
            }
            assert forall|n: Seq<char>| #[trigger] entry_names(t).insert(s.last().0@).contains(n) implies entry_names(s).contains(n) by {
                if n == s.last().0@ {
                    assert(s[s.len() - 1].0@ == n);
                } else {
                    let i = choose|i: int| 0 <= i < t.len() && #[trigger] t[i].0@ == n;
                    assert(s[i].0@ == n);
                }
            }
        }
    } else {
        assert(entry_names(s) =~= Set::empty());
    }
}

}
