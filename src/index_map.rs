//! The ordered map of the `indexmap` crate, as the registry uses it.

use indexmap::IndexMap;
use vstd::prelude::*;

use crate::manifest::{GrammarManifestEntry, LanguageServerManifestEntry};
use crate::registry::ExtensionInfo;

verus! {

#[verifier::external_type_specification]
#[verifier::external_body]
#[verifier::reject_recursive_types(K)]
#[verifier::reject_recursive_types(V)]
#[verifier::reject_recursive_types(S)]
pub struct ExIndexMap<K, V, S>(IndexMap<K, V, S>);

/// Relies on `IndexMap`'s `Clone`, which the manifest's own `Clone` calls.
pub assume_specification<K, V, S>[ <IndexMap<K, V, S> as Clone>::clone ](
    m: &IndexMap<K, V, S>,
) -> IndexMap<K, V, S>
    where
        K: Clone,
        V: Clone,
        S: Clone,
;

/// One registry record as plain values: identifier, path and version.
pub type EntryView = (Seq<char>, Seq<char>, Seq<char>);

/// What a map from extension identifiers to their records holds, in its order.
pub uninterp spec fn entries_of(m: IndexMap<String, ExtensionInfo>) -> Seq<EntryView>;

pub open spec fn entry_view(k: String, v: ExtensionInfo) -> EntryView {
    (k@, v.path@, v.version@)
}

/// Relies on `IndexMap::new`: a new map is empty.
#[verifier::external_body]
pub(crate) fn map_new() -> (r: IndexMap<String, ExtensionInfo>)
    ensures
        entries_of(r) == Seq::<EntryView>::empty(),
{
    IndexMap::new()
}

/// Relies on `IndexMap::len`: the number of entries.
#[verifier::external_body]
pub(crate) fn map_len(m: &IndexMap<String, ExtensionInfo>) -> (r: usize)
    ensures
        r == entries_of(*m).len(),
{
    m.len()
}

/// Relies on `IndexMap::get_index`: the entry at a position of the order.
#[verifier::external_body]
pub(crate) fn map_get_index(m: &IndexMap<String, ExtensionInfo>, i: usize) -> (r: Option<
    (&String, &ExtensionInfo),
>)
    ensures
        i < entries_of(*m).len() ==> r is Some && entry_view(*r.unwrap().0, *r.unwrap().1)
            == entries_of(*m)[i as int],
        i >= entries_of(*m).len() ==> r is None,
{
    m.get_index(i)
}

/// Relies on `IndexMap::get_index_of`: the position of the entry with an
/// equal key, if there is one.
#[verifier::external_body]
pub(crate) fn map_get_index_of(m: &IndexMap<String, ExtensionInfo>, k: &String) -> (r: Option<
    usize,
>)
    ensures
        r matches Some(i) ==> i < entries_of(*m).len() && entries_of(*m)[i as int].0 == k@,
        r is None ==> forall|j: int|
            0 <= j < entries_of(*m).len() ==> #[trigger] entries_of(*m)[j].0 != k@,
{
    m.get_index_of(k)
}

/// Relies on `IndexMap::insert_full`: an equal key keeps its place and gets
/// the new value; a new key goes last.
#[verifier::external_body]
pub(crate) fn map_insert_full(m: &mut IndexMap<String, ExtensionInfo>, k: String, v: ExtensionInfo) -> (r: (
    usize,
    Option<ExtensionInfo>,
))
    ensures
        r.1 is Some ==> r.0 < entries_of(*old(m)).len() && entries_of(*old(m))[r.0 as int].0
            == k@ && entries_of(*final(m)) == entries_of(*old(m)).update(
            r.0 as int,
            entry_view(k, v),
        ),
        r.1 is None ==> r.0 == entries_of(*old(m)).len() && (forall|j: int|
            0 <= j < entries_of(*old(m)).len() ==> #[trigger] entries_of(*old(m))[j].0 != k@)
            && entries_of(*final(m)) == entries_of(*old(m)).push(entry_view(k, v)),
{
    m.insert_full(k, v)
}

/// A grammar as plain values: name, repository and revision.
pub type GrammarView = (Seq<char>, Seq<char>, Seq<char>);

/// What a map of grammars holds, in its order.
pub uninterp spec fn grammars_of(m: IndexMap<String, GrammarManifestEntry>) -> Seq<GrammarView>;

/// What a map of language servers holds, in its order: key, name, language.
pub uninterp spec fn servers_of(m: IndexMap<String, LanguageServerManifestEntry>) -> Seq<
    (Seq<char>, Seq<char>, Seq<char>),
>;

pub open spec fn grammar_view(k: String, g: GrammarManifestEntry) -> GrammarView {
    (k@, g.repository@, g.rev@)
}

/// Relies on `IndexMap::new`: a new map is empty.
#[verifier::external_body]
pub(crate) fn grammar_map_new() -> (r: IndexMap<String, GrammarManifestEntry>)
    ensures
        grammars_of(r) == Seq::<GrammarView>::empty(),
{
    IndexMap::new()
}

/// Relies on `IndexMap::new`: a new map is empty.
#[verifier::external_body]
pub(crate) fn server_map_new() -> (r: IndexMap<String, LanguageServerManifestEntry>)
    ensures
        servers_of(r) == Seq::<(Seq<char>, Seq<char>, Seq<char>)>::empty(),
{
    IndexMap::new()
}

/// Relies on `IndexMap::insert_full`: an equal key keeps its place and gets
/// the new value; a new key goes last.
#[verifier::external_body]
pub(crate) fn grammar_map_insert_full(
    m: &mut IndexMap<String, GrammarManifestEntry>,
    k: String,
    v: GrammarManifestEntry,
) -> (r: (usize, Option<GrammarManifestEntry>))
    ensures
        r.1 is Some ==> r.0 < grammars_of(*old(m)).len() && grammars_of(*old(m))[r.0 as int].0
            == k@ && grammars_of(*final(m)) == grammars_of(*old(m)).update(
            r.0 as int,
            grammar_view(k, v),
        ),
        r.1 is None ==> r.0 == grammars_of(*old(m)).len() && (forall|j: int|
            0 <= j < grammars_of(*old(m)).len() ==> #[trigger] grammars_of(*old(m))[j].0 != k@)
            && grammars_of(*final(m)) == grammars_of(*old(m)).push(grammar_view(k, v)),
{
    m.insert_full(k, v)
}

} // verus!
