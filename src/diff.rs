//! The diff engine: which extensions of the current registry need action,
//! relative to a baseline registry or to what is already published.

use vstd::prelude::*;

use crate::index_map::EntryView;
use crate::registry::{lookup_version, lemma_lookup_at, ExtensionId, Registry};

verus! {

/// The identifiers, as text.
pub open spec fn ids_view(ids: Seq<ExtensionId>) -> Seq<Seq<char>> {
    ids.map_values(|x: ExtensionId| x.0@)
}

/// The identifiers of `cur`, in its order, whose version differs from the one
/// that `base` records, or that `base` does not hold.
pub open spec fn changed_since(cur: Seq<EntryView>, base: Seq<EntryView>) -> Seq<Seq<char>>
    decreases cur.len(),
{
    if cur.len() == 0 {
        Seq::empty()
    } else {
        let prev = changed_since(cur.drop_last(), base);
        let e = cur.last();
        if lookup_version(base, e.0) == Some(e.2) {
            prev
        } else {
            prev.push(e.0)
        }
    }
}

/// Extensions of `current` whose version differs from the one in `baseline`;
/// one that `baseline` lacks counts as changed. The order is `current`'s.
pub fn changed_extension_ids(current: &Registry, baseline: &Registry) -> (r: Vec<ExtensionId>)
    requires
        current.wf(),
        baseline.wf(),
    ensures
        ids_view(r@) == changed_since(current@, baseline@),
{
    let n = current.len();
    let mut changed: Vec<ExtensionId> = Vec::new();
    let mut i: usize = 0;
    while i < n
        invariant
            n == current@.len(),
            i <= n,
            baseline.wf(),
            ids_view(changed@) == changed_since(current@.subrange(0, i as int), baseline@),
        decreases n - i,
    {
        let (key, info) = current.entry(i);
        let id = ExtensionId::new(key.clone());
        let same = match baseline.get(&id) {
            Some(on_base) => on_base.version == info.version,
            None => false,
        };
        let ghost before = changed@;
        if !same {
            changed.push(id);
        }
        proof {
            let s = current@.subrange(0, i + 1);
            assert(s.drop_last() =~= current@.subrange(0, i as int));
            assert(s.last() == current@[i as int]);
            if !same {
                assert(ids_view(changed@) =~= ids_view(before).push(id.0@));
            }
        }
        i += 1;
    }
    assert(current@.subrange(0, n as int) =~= current@);
    changed
}

/// An empty change set is the same as every extension of `cur` having its
/// version, unchanged, in `base`.
proof fn lemma_changed_since_empty(cur: Seq<EntryView>, base: Seq<EntryView>)
    ensures
        changed_since(cur, base).len() == 0 <==> forall|i: int|
            0 <= i < cur.len() ==> lookup_version(base, #[trigger] cur[i].0) == Some(cur[i].2),
    decreases cur.len(),
{
    if cur.len() > 0 {
        let t = cur.drop_last();
        lemma_changed_since_empty(t, base);
        assert forall|i: int| 0 <= i < t.len() implies #[trigger] t[i] == cur[i] by {}
        if changed_since(cur, base).len() == 0 {
            assert forall|i: int| 0 <= i < cur.len() implies lookup_version(
                base,
                #[trigger] cur[i].0,
            ) == Some(cur[i].2) by {
                if i < t.len() {
                    assert(t[i] == cur[i]);
                }
            }
        } else if forall|i: int|
            0 <= i < cur.len() ==> lookup_version(base, #[trigger] cur[i].0) == Some(cur[i].2) {
            assert forall|i: int| 0 <= i < t.len() implies lookup_version(
                base,
                #[trigger] t[i].0,
            ) == Some(t[i].2) by {
                assert(t[i] == cur[i]);
            }
            assert(lookup_version(base, cur[cur.len() - 1].0) == Some(cur[cur.len() - 1].2));
        }
    }
}

/// Nothing has changed between two registries exactly when every extension of
/// the first has the same version in the second, and none of them is new.
pub proof fn lemma_nothing_changed_iff_same_versions(current: Registry, baseline: Registry)
    requires
        current.wf(),
        baseline.wf(),
    ensures
        changed_since(current@, baseline@).len() == 0 <==> forall|i: int|
            0 <= i < current@.len() ==> lookup_version(baseline@, #[trigger] current@[i].0) == Some(
                current@[i].2,
            ),
{
    lemma_changed_since_empty(current@, baseline@);
}

/// A registry has not changed against itself.
pub proof fn lemma_nothing_changed_against_itself(reg: Registry)
    requires
        reg.wf(),
    ensures
        changed_since(reg@, reg@) == Seq::<Seq<char>>::empty(),
{
    assert forall|i: int| 0 <= i < reg@.len() implies lookup_version(reg@, #[trigger] reg@[i].0)
        == Some(reg@[i].2) by {
        lemma_lookup_at(reg@, i);
    }
    lemma_changed_since_empty(reg@, reg@);
    assert(changed_since(reg@, reg@) =~= Seq::<Seq<char>>::empty());
}

/// The published-versions index as plain values: identifier and versions.
pub open spec fn published_view(p: Seq<(ExtensionId, Vec<String>)>) -> Seq<(Seq<char>, Seq<Seq<char>>)> {
    p.map_values(|e: (ExtensionId, Vec<String>)| (e.0.0@, e.1@.map_values(|s: String| s@)))
}

/// The versions published for `id`, at its first occurrence in the index.
pub open spec fn published_lookup(p: Seq<(Seq<char>, Seq<Seq<char>>)>, id: Seq<char>) -> Option<
    Seq<Seq<char>>,
>
    decreases p.len(),
{
    if p.len() == 0 {
        None
    } else if p[0].0 == id {
        Some(p[0].1)
    } else {
        published_lookup(p.drop_first(), id)
    }
}

/// An extension needs publishing when the index has no versions for it, or
/// versions that do not include the current one.
pub open spec fn needs_publishing(p: Seq<(Seq<char>, Seq<Seq<char>>)>, e: EntryView) -> bool {
    match published_lookup(p, e.0) {
        None => true,
        Some(versions) => !versions.contains(e.2),
    }
}

/// The identifiers of `cur`, in its order, that need publishing.
pub open spec fn unpublished(cur: Seq<EntryView>, p: Seq<(Seq<char>, Seq<Seq<char>>)>) -> Seq<
    Seq<char>,
>
    decreases cur.len(),
{
    if cur.len() == 0 {
        Seq::empty()
    } else {
        let prev = unpublished(cur.drop_last(), p);
        if needs_publishing(p, cur.last()) {
            prev.push(cur.last().0)
        } else {
            prev
        }
    }
}

proof fn lemma_published_lookup_first(p: Seq<(Seq<char>, Seq<Seq<char>>)>, id: Seq<char>, j: int)
    requires
        0 <= j <= p.len(),
        forall|k: int| 0 <= k < j ==> #[trigger] p[k].0 != id,
        j < p.len() ==> p[j].0 == id,
    ensures
        j < p.len() ==> published_lookup(p, id) == Some(p[j].1),
        j == p.len() ==> published_lookup(p, id) is None,
    decreases p.len(),
{
    if p.len() > 0 && j > 0 {
        let t = p.drop_first();
        assert(p[0].0 != id);
        assert forall|k: int| 0 <= k < j - 1 implies #[trigger] t[k].0 != id by {
            assert(t[k] == p[k + 1]);
        }
        if j < p.len() {
            assert(t[j - 1] == p[j]);
        }
        lemma_published_lookup_first(t, id, j - 1);
    }
}

/// The position of the first index entry for `id`.
fn find_published(published: &Vec<(ExtensionId, Vec<String>)>, id: &String) -> (r: Option<usize>)
    ensures
        r matches Some(j) ==> j < published@.len() && published_lookup(
            published_view(published@),
            id@,
        ) == Some(published_view(published@)[j as int].1),
        r is None ==> published_lookup(published_view(published@), id@) is None,
{
    let ghost pv = published_view(published@);
    let mut j: usize = 0;
    while j < published.len()
        invariant
            j <= published@.len(),
            pv == published_view(published@),
            forall|k: int| 0 <= k < j ==> #[trigger] pv[k].0 != id@,
        decreases published@.len() - j,
    {
        if published[j].0.0 == *id {
            proof {
                lemma_published_lookup_first(pv, id@, j as int);
            }
            return Some(j);
        }
        j += 1;
    }
    proof {
        lemma_published_lookup_first(pv, id@, j as int);
    }
    None
}

/// Whether `versions` holds `version`.
fn contains_version(versions: &Vec<String>, version: &String) -> (r: bool)
    ensures
        r == versions@.map_values(|s: String| s@).contains(version@),
{
    let ghost vs = versions@.map_values(|s: String| s@);
    let mut k: usize = 0;
    while k < versions.len()
        invariant
            k <= versions@.len(),
            vs == versions@.map_values(|s: String| s@),
            forall|m: int| 0 <= m < k ==> #[trigger] vs[m] != version@,
        decreases versions@.len() - k,
    {
        if versions[k] == *version {
            assert(vs[k as int] == version@);
            return true;
        }
        k += 1;
    }
    false
}

/// Extensions of `current` that need publishing: those that `published` has
/// no versions for, and those whose current version it does not list. The
/// order is `current`'s; an identifier listed twice in `published` counts at
/// its first entry.
pub fn unpublished_extension_ids(
    current: &Registry,
    published: &Vec<(ExtensionId, Vec<String>)>,
) -> (r: Vec<ExtensionId>)
    requires
        current.wf(),
    ensures
        ids_view(r@) == unpublished(current@, published_view(published@)),
{
    let ghost pv = published_view(published@);
    let n = current.len();
    let mut result: Vec<ExtensionId> = Vec::new();
    let mut i: usize = 0;
    while i < n
        invariant
            n == current@.len(),
            i <= n,
            pv == published_view(published@),
            ids_view(result@) == unpublished(current@.subrange(0, i as int), pv),
        decreases n - i,
    {
        let (key, info) = current.entry(i);
        let needed = match find_published(published, key) {
            None => true,
            Some(j) => !contains_version(&published[j].1, &info.version),
        };
        let ghost before = result@;
        if needed {
            result.push(ExtensionId::new(key.clone()));
        }
        proof {
            let s = current@.subrange(0, i + 1);
            assert(s.drop_last() =~= current@.subrange(0, i as int));
            assert(s.last() == current@[i as int]);
            if needed {
                assert(ids_view(result@) =~= ids_view(before).push(key@));
            }
        }
        i += 1;
    }
    assert(current@.subrange(0, n as int) =~= current@);
    result
}

} // verus!
