//! The cache of resolved ENS names, keyed by address.
use vstd::prelude::*;
use crate::types::Address;

verus! {

/// The text of an optional name.
pub open spec fn name_view(name: Option<String>) -> Option<Seq<char>> {
    match name {
        Some(s) => Some(s@),
        None => None,
    }
}

/// The cache after one lookup result is merged: a found name always replaces
/// what was there; "no name" only fills an address that had no entry.
pub open spec fn merged(
    m: Map<Seq<u8>, Option<Seq<char>>>,
    address: Seq<u8>,
    name: Option<Seq<char>>,
) -> Map<Seq<u8>, Option<Seq<char>>> {
    if name is Some {
        m.insert(address, name)
    } else if m.contains_key(address) {
        m
    } else {
        m.insert(address, None)
    }
}

/// The map that a list of entries stands for.
pub open spec fn entries_map(s: Seq<(Address, Option<String>)>) -> Map<
    Seq<u8>,
    Option<Seq<char>>,
>
    decreases s.len(),
{
    if s.len() == 0 {
        Map::empty()
    } else {
        entries_map(s.drop_last()).insert(s.last().0@, name_view(s.last().1))
    }
}

/// No address has two entries.
pub open spec fn keys_unique(s: Seq<(Address, Option<String>)>) -> bool {
    forall|i: int, j: int| 0 <= i < s.len() && 0 <= j < s.len() && i != j ==> s[i].0@ != s[j].0@
}

proof fn lemma_entries_map_dom(s: Seq<(Address, Option<String>)>, k: Seq<u8>)
    ensures
        entries_map(s).contains_key(k) <==> exists|i: int| 0 <= i < s.len() && s[i].0@ == k,
    decreases s.len(),
{
    if s.len() > 0 {
        lemma_entries_map_dom(s.drop_last(), k);
        if exists|i: int| 0 <= i < s.len() && s[i].0@ == k {
            let i = choose|i: int| 0 <= i < s.len() && s[i].0@ == k;
            if i < s.len() - 1 {
                assert(s.drop_last()[i].0@ == k);
            }
        }
        if exists|i: int| 0 <= i < s.drop_last().len() && s.drop_last()[i].0@ == k {
            let i = choose|i: int| 0 <= i < s.drop_last().len() && s.drop_last()[i].0@ == k;
            assert(s[i].0@ == k);
        }
    }
}

proof fn lemma_entries_map_at(s: Seq<(Address, Option<String>)>, j: int)
    requires
        keys_unique(s),
        0 <= j < s.len(),
    ensures
        entries_map(s).contains_key(s[j].0@),
        entries_map(s)[s[j].0@] == name_view(s[j].1),
    decreases s.len(),
{
    if j < s.len() - 1 {
        lemma_entries_map_at(s.drop_last(), j);
    }
}

proof fn lemma_entries_map_update(s: Seq<(Address, Option<String>)>, j: int, e: (
    Address,
    Option<String>,
))
    requires
        keys_unique(s),
        0 <= j < s.len(),
        e.0@ == s[j].0@,
    ensures
        keys_unique(s.update(j, e)),
        entries_map(s.update(j, e)) =~= entries_map(s).insert(e.0@, name_view(e.1)),
    decreases s.len(),
{
    let t = s.update(j, e);
    if j == s.len() - 1 {
        assert(t.drop_last() =~= s.drop_last());
    } else {
        assert(t.drop_last() =~= s.drop_last().update(j, e));
        lemma_entries_map_update(s.drop_last(), j, e);
    }
}

/// Resolved names by address. An entry holding `None` records that the
/// lookup found no name.
#[derive(Debug)]
pub struct EnsCache {
    entries: Vec<(Address, Option<String>)>,
}

impl EnsCache {
    pub closed spec fn view(&self) -> Map<Seq<u8>, Option<Seq<char>>> {
        entries_map(self.entries@)
    }

    pub closed spec fn wf(&self) -> bool {
        keys_unique(self.entries@)
    }

    /// An empty cache.
    pub fn new() -> (r: EnsCache)
        ensures
            r.wf(),
            r@ == Map::<Seq<u8>, Option<Seq<char>>>::empty(),
    {
        EnsCache { entries: Vec::new() }
    }

    /// The number of addresses with an entry.
    pub fn len(&self) -> (r: usize)
        requires
            self.wf(),
        ensures
            r == self@.dom().len(),
    {
        proof {
            self.lemma_len();
        }
        self.entries.len()
    }

    proof fn lemma_len(&self)
        requires
            self.wf(),
        ensures
            self@.dom().finite(),
            self@.dom().len() == self.entries@.len(),
        decreases self.entries@.len(),
    {
        lemma_dom_len(self.entries@);
    }

    /// The entry for `address`: `None` if there is none, else the name found
    /// for it, if any.
    pub fn get(&self, address: &Address) -> (r: Option<Option<String>>)
        requires
            self.wf(),
        ensures
            r is None <==> !self@.contains_key(address@),
            r matches Some(n) ==> self@[address@] == name_view(n),
    {
        match self.position(address) {
            Some(j) => {
                proof {
                    lemma_entries_map_at(self.entries@, j as int);
                }
                let n = match &self.entries[j].1 {
                    Some(s) => Some(s.clone()),
                    None => None,
                };
                Some(n)
            },
            None => None,
        }
    }

    fn position(&self, address: &Address) -> (r: Option<usize>)
        requires
            self.wf(),
        ensures
            r is None <==> !self@.contains_key(address@),
            r matches Some(j) ==> j < self.entries@.len() && self.entries@[j as int].0@
                == address@,
    {
        let mut i: usize = 0;
        while i < self.entries.len()
            invariant
                0 <= i <= self.entries@.len(),
                forall|j: int| 0 <= j < i ==> self.entries@[j].0@ != address@,
            decreases self.entries@.len() - i,
        {
            if self.entries[i].0.same(address) {
                proof {
                    lemma_entries_map_dom(self.entries@, address@);
                }
                return Some(i);
            }
            i = i + 1;
        }
        proof {
            lemma_entries_map_dom(self.entries@, address@);
        }
        None
    }

    /// Merges one lookup result: a found name always replaces the entry; no
    /// name is recorded only for an address that had no entry.
    pub fn insert(&mut self, address: Address, name: Option<String>)
        requires
            old(self).wf(),
        ensures
            final(self).wf(),
            final(self)@ == merged(old(self)@, address@, name_view(name)),
    {
        match self.position(&address) {
            Some(j) => {
                if name.is_some() {
                    proof {
                        lemma_entries_map_update(self.entries@, j as int, (address, name));
                    }
                    self.entries.set(j, (address, name));
                }
            },
            None => {
                proof {
                    lemma_entries_map_dom(self.entries@, address@);
                }
                self.entries.push((address, name));
                proof {
                    assert(self.entries@.drop_last() =~= old(self).entries@);
                }
            },
        }
    }
}

proof fn lemma_dom_len(s: Seq<(Address, Option<String>)>)
    requires
        keys_unique(s),
    ensures
        entries_map(s).dom().finite(),
        entries_map(s).dom().len() == s.len(),
    decreases s.len(),
{
    if s.len() > 0 {
        let t = s.drop_last();
        assert(keys_unique(t));
        lemma_dom_len(t);
        lemma_entries_map_dom(t, s.last().0@);
        if entries_map(t).contains_key(s.last().0@) {
            let i = choose|i: int| 0 <= i < t.len() && t[i].0@ == s.last().0@;
            assert(s[i].0@ == s[s.len() - 1].0@);
        }
    }
}

/// A found name survives a later "no name" for the same address, and replaces
/// an earlier one.
pub proof fn lemma_found_name_wins(
    m: Map<Seq<u8>, Option<Seq<char>>>,
    address: Seq<u8>,
    name: Seq<char>,
)
    ensures
        merged(merged(m, address, None), address, Some(name))[address] == Some(name),
        merged(merged(m, address, Some(name)), address, None)[address] == Some(name),
        merged(merged(m, address, Some(name)), address, None) == merged(m, address, Some(name)),
{
}

} // verus!
