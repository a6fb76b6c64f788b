//! The registry: an ordered map from extension identifier to source path and
//! expected version.

use indexmap::IndexMap;
use vstd::prelude::*;

use crate::index_map::{
    entries_of, entry_view, map_get_index, map_get_index_of, map_insert_full, map_len, map_new,
    EntryView,
};

verus! {

/// The identifier of an extension, unique within a registry.
#[derive(Debug, PartialEq, Eq, PartialOrd, Ord, Hash, Clone)]
pub struct ExtensionId(pub String);

impl ExtensionId {
    pub fn new(s: String) -> (r: ExtensionId)
        ensures
            r.0@ == s@,
    {
        ExtensionId(s)
    }

    pub fn as_str(&self) -> (r: &str)
        ensures
            r@ == self.0@,
    {
        self.0.as_str()
    }

    /// The identifier as text, as it is printed.
    pub fn to_string(&self) -> (r: String)
        ensures
            r@ == self.0@,
    {
        self.0.clone()
    }
}

/// Where an extension's sources are and which version the registry expects.
#[derive(Debug, Clone)]
pub struct ExtensionInfo {
    pub path: String,
    pub version: String,
}

/// Identifiers are pairwise distinct.
pub open spec fn keys_unique(s: Seq<EntryView>) -> bool {
    forall|i: int, j: int| 0 <= i < s.len() && 0 <= j < s.len() && i != j ==> s[i].0 != s[j].0
}

/// The version recorded for `id`, at its first occurrence.
pub open spec fn lookup_version(s: Seq<EntryView>, id: Seq<char>) -> Option<Seq<char>>
    decreases s.len(),
{
    if s.len() == 0 {
        None
    } else if s[0].0 == id {
        Some(s[0].2)
    } else {
        lookup_version(s.drop_first(), id)
    }
}

/// Where identifiers are distinct, the lookup finds the one entry that holds `id`.
pub proof fn lemma_lookup_at(s: Seq<EntryView>, i: int)
    requires
        keys_unique(s),
        0 <= i < s.len(),
    ensures
        lookup_version(s, s[i].0) == Some(s[i].2),
    decreases s.len(),
{
    if i > 0 {
        let t = s.drop_first();
        assert(t[i - 1] == s[i]);
        assert(keys_unique(t)) by {
            assert forall|a: int, b: int|
                0 <= a < t.len() && 0 <= b < t.len() && a != b implies t[a].0 != t[b].0 by {
                assert(t[a] == s[a + 1] && t[b] == s[b + 1]);
            }
        }
        assert(s[0].0 != s[i].0);
        lemma_lookup_at(t, i - 1);
    }
}

/// An identifier that no entry holds is not found.
pub proof fn lemma_lookup_absent(s: Seq<EntryView>, id: Seq<char>)
    requires
        forall|j: int| 0 <= j < s.len() ==> #[trigger] s[j].0 != id,
    ensures
        lookup_version(s, id) is None,
    decreases s.len(),
{
    if s.len() > 0 {
        let t = s.drop_first();
        assert forall|j: int| 0 <= j < t.len() implies #[trigger] t[j].0 != id by {
            assert(t[j] == s[j + 1]);
        }
        assert(s[0].0 != id);
        lemma_lookup_absent(t, id);
    }
}

/// The ordered registry, as loaded from its configuration document.
pub struct Registry {
    map: IndexMap<String, ExtensionInfo>,
}

impl View for Registry {
    type V = Seq<EntryView>;

    closed spec fn view(&self) -> Seq<EntryView> {
        entries_of(self.map)
    }
}

impl Registry {
    /// Each identifier occurs once.
    pub open spec fn wf(&self) -> bool {
        keys_unique(self@)
    }

    pub fn new() -> (r: Registry)
        ensures
            r.wf(),
            r@ == Seq::<EntryView>::empty(),
    {
        Registry { map: map_new() }
    }

    /// Records `info` under `id`: an identifier already present keeps its
    /// place and takes the new record, a new one goes last.
    pub fn insert(&mut self, id: ExtensionId, info: ExtensionInfo)
        requires
            old(self).wf(),
        ensures
            final(self).wf(),
            (exists|i: int| 0 <= i < old(self)@.len() && old(self)@[i].0 == id.0@) ==> (exists|i: int|
                0 <= i < old(self)@.len() && old(self)@[i].0 == id.0@
                    && final(self)@ == old(self)@.update(i, entry_view(id.0, info))),
            (forall|i: int| 0 <= i < old(self)@.len() ==> old(self)@[i].0 != id.0@)
                ==> final(self)@ == old(self)@.push(entry_view(id.0, info)),
    {
        let ghost before = self@;
        let ghost e = entry_view(id.0, info);
        let (i, prev) = map_insert_full(&mut self.map, id.0, info);
        proof {
            let after = self@;
            if prev is Some {
                assert(before[i as int].0 == e.0);
                assert forall|a: int, b: int|
                    0 <= a < after.len() && 0 <= b < after.len() && a != b implies after[a].0
                    != after[b].0 by {
                    if a != i && b != i {
                        assert(after[a] == before[a] && after[b] == before[b]);
                    } else if a == i {
                        assert(after[b] == before[b]);
                    } else {
                        assert(after[a] == before[a]);
                    }
                }
            } else {
                assert forall|a: int, b: int|
                    0 <= a < after.len() && 0 <= b < after.len() && a != b implies after[a].0
                    != after[b].0 by {
                    if a < before.len() && b < before.len() {
                        assert(after[a] == before[a] && after[b] == before[b]);
                    } else if a < before.len() {
                        assert(after[a] == before[a]);
                    } else {
                        assert(after[b] == before[b]);
                    }
                }
            }
        }
    }

    /// The number of extensions.
    pub fn len(&self) -> (r: usize)
        ensures
            r == self@.len(),
    {
        map_len(&self.map)
    }

    /// The identifier and record at position `i` of the order.
    pub fn entry(&self, i: usize) -> (r: (&String, &ExtensionInfo))
        requires
            i < self@.len(),
        ensures
            entry_view(*r.0, *r.1) == self@[i as int],
    {
        match map_get_index(&self.map, i) {
            Some(kv) => kv,
            None => {
                proof {
                    assert(false);
                }
                unreached()
            },
        }
    }

    /// The record of `id`, if the registry has one.
    pub fn get(&self, id: &ExtensionId) -> (r: Option<&ExtensionInfo>)
        requires
            self.wf(),
        ensures
            r matches Some(info) ==> lookup_version(self@, id.0@) == Some(info.version@)
                && exists|i: int|
                0 <= i < self@.len() && self@[i] == entry_view(id.0, *info),
            r is None ==> lookup_version(self@, id.0@) is None,
    {
        match map_get_index_of(&self.map, &id.0) {
            Some(i) => {
                let (_, info) = self.entry(i);
                proof {
                    lemma_lookup_at(self@, i as int);
                }
                Some(info)
            },
            None => {
                proof {
                    lemma_lookup_absent(self@, id.0@);
                }
                None
            },
        }
    }
}

} // verus!
