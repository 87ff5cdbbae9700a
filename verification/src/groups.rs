//! Grouping of units by display key.
//!
//! Units are grouped by their display key (`size N` or `range [a, b]`)
//! with an insertion-ordered map, so each distinct key appears in
//! first-seen order and unit order is preserved inside every group.  The
//! map itself comes from the `indexmap` crate; its contents are named by
//! `group_entries` and every method the logic calls carries a contract
//! over that name.

use vstd::prelude::*;

use indexmap::IndexMap;

use crate::state::VllmState;
use crate::types::duplicate_artifacts;
use crate::types::spec_display_submod_name;
use crate::types::spec_size_or_range;
use crate::types::VllmCompileRangeGroup;
use crate::types::VllmSubgraphInfo;
use crate::types::VllmSubgraphWithArtifacts;

verus! {

#[verifier::external_type_specification]
#[verifier::external_body]
#[verifier::reject_recursive_types(K)]
#[verifier::reject_recursive_types(V)]
#[verifier::reject_recursive_types(S)]
pub struct ExIndexMap<K, V, S>(IndexMap<K, V, S>);

/// What the group index holds: for each display key, in first-seen order,
/// the positions of the units carrying that key, in unit order.
pub uninterp spec fn group_entries(m: IndexMap<String, Vec<usize>>) -> Seq<(Seq<char>, Seq<usize>)>;

/// The position of key `k` among the entries, or `-1` when absent.
pub open spec fn key_index(es: Seq<(Seq<char>, Seq<usize>)>, k: Seq<char>) -> int
    decreases es.len(),
{
    if es.len() == 0 {
        -1
    } else if es.last().0 == k {
        es.len() - 1
    } else {
        key_index(es.drop_last(), k)
    }
}

/// Relies on indexmap::IndexMap::new: the created map is empty.
#[verifier::external_body]
fn im_new() -> (m: IndexMap<String, Vec<usize>>)
    ensures
        group_entries(m) == Seq::<(Seq<char>, Seq<usize>)>::empty(),
{
    IndexMap::new()
}

/// Relies on indexmap::IndexMap::get_mut: returns the value stored under an
/// equal key if the key is present, else nothing; afterwards that entry
/// holds whatever the caller leaves behind the reference, with every other
/// entry and the entry order unchanged.
#[verifier::external_body]
fn im_get_mut<'a>(m: &'a mut IndexMap<String, Vec<usize>>, k: &String) -> (r: Option<
    &'a mut Vec<usize>,
>)
    ensures
        key_index(group_entries(*old(m)), k@) < 0 ==> r is None && group_entries(*final(m))
            == group_entries(*old(m)),
        key_index(group_entries(*old(m)), k@) >= 0 ==> (r matches Some(v) && ({
            let es = group_entries(*old(m));
            let j = key_index(es, k@);
            &&& v@ == es[j].1
            &&& group_entries(*final(m)) == es.update(j, (es[j].0, final(v)@))
        })),
{
    m.get_mut(k)
}

/// Relies on indexmap::IndexMap::insert: inserting an absent key appends
/// the new entry after all existing entries, which keep their order.
#[verifier::external_body]
fn im_insert(m: &mut IndexMap<String, Vec<usize>>, k: String, v: Vec<usize>)
    requires
        key_index(group_entries(*old(m)), k@) < 0,
    ensures
        group_entries(*final(m)) == group_entries(*old(m)).push((k@, v@)),
{
    m.insert(k, v);
}

/// Relies on indexmap::IndexMap::into_iter: iteration yields the entries
/// in their stored order.
#[verifier::external_body]
fn im_entries(m: IndexMap<String, Vec<usize>>) -> (r: Vec<(String, Vec<usize>)>)
    ensures
        r@.len() == group_entries(m).len(),
        forall|i: int|
            0 <= i < r@.len() ==> r@[i].0@ == group_entries(m)[i].0 && r@[i].1@ == group_entries(
                m,
            )[i].1,
{
    m.into_iter().collect()
}

/// The group index of a unit list: the entry sequence after adding each
/// unit in turn, appending a fresh entry on a first-seen key and extending
/// the existing entry otherwise.
pub open spec fn spec_group_index(s: Seq<VllmSubgraphInfo>) -> Seq<(Seq<char>, Seq<usize>)>
    decreases s.len(),
{
    if s.len() == 0 {
        Seq::empty()
    } else {
        let rest = spec_group_index(s.drop_last());
        let k = spec_size_or_range(s.last());
        let j = key_index(rest, k);
        let idx = (s.len() - 1) as usize;
        if j < 0 {
            rest.push((k, seq![idx]))
        } else {
            rest.update(j, (rest[j].0, rest[j].1.push(idx)))
        }
    }
}

/// `key_index` is a position among the entries, points at its key, and
/// is negative exactly when no entry carries the key.
pub proof fn lemma_key_index(es: Seq<(Seq<char>, Seq<usize>)>, k: Seq<char>)
    ensures
        -1 <= key_index(es, k) < es.len(),
        key_index(es, k) >= 0 ==> es[key_index(es, k)].0 == k,
        key_index(es, k) < 0 ==> forall|i: int| 0 <= i < es.len() ==> es[i].0 != k,
    decreases es.len(),
{
    if es.len() > 0 && es.last().0 != k {
        lemma_key_index(es.drop_last(), k);
        if key_index(es, k) < 0 {
            assert forall|i: int| 0 <= i < es.len() implies es[i].0 != k by {
                if i < es.len() - 1 {
                    assert(es[i] == es.drop_last()[i]);
                }
            }
        }
    }
}

/// Every position stored in the group index points at a unit of the list.
pub proof fn lemma_group_index_bounds(s: Seq<VllmSubgraphInfo>)
    ensures
        forall|i: int, j: int|
            0 <= i < spec_group_index(s).len() && 0 <= j < spec_group_index(s)[i].1.len()
                ==> spec_group_index(s)[i].1[j] < s.len(),
    decreases s.len(),
{
    if s.len() > 0 {
        lemma_group_index_bounds(s.drop_last());
        let rest = spec_group_index(s.drop_last());
        let full = spec_group_index(s);
        let k = spec_size_or_range(s.last());
        let kj = key_index(rest, k);
        lemma_key_index(rest, k);
        assert forall|i: int, j: int|
            0 <= i < full.len() && 0 <= j < full[i].1.len() implies full[i].1[j] < s.len() by {
            if kj < 0 {
                if i < rest.len() {
                    assert(full[i] == rest[i]);
                } else {
                    assert(full[i].1 == seq![(s.len() - 1) as usize]);
                }
            } else {
                if i == kj {
                    assert(full[i].1 == rest[kj].1.push((s.len() - 1) as usize));
                    if j < rest[kj].1.len() {
                        assert(full[i].1[j] == rest[kj].1[j]);
                    }
                } else {
                    assert(full[i] == rest[i]);
                }
            }
        }
    }
}

/// No two entries of the group index share a key.
pub proof fn lemma_group_index_keys_unique(s: Seq<VllmSubgraphInfo>)
    ensures
        forall|g1: int, g2: int|
            0 <= g1 < g2 < spec_group_index(s).len() ==> spec_group_index(s)[g1].0
                != spec_group_index(s)[g2].0,
    decreases s.len(),
{
    if s.len() > 0 {
        lemma_group_index_keys_unique(s.drop_last());
        let rest = spec_group_index(s.drop_last());
        let full = spec_group_index(s);
        let k = spec_size_or_range(s.last());
        let kj = key_index(rest, k);
        lemma_key_index(rest, k);
        assert forall|g1: int, g2: int|
            0 <= g1 < g2 < full.len() implies full[g1].0 != full[g2].0 by {
            if kj < 0 {
                if g2 < rest.len() {
                    assert(full[g1] == rest[g1]);
                    assert(full[g2] == rest[g2]);
                } else {
                    assert(full[g1] == rest[g1]);
                    assert(full[g2].0 == k);
                }
            } else {
                assert(full[g1].0 == rest[g1].0);
                assert(full[g2].0 == rest[g2].0);
            }
        }
    }
}

/// Every unit is a member of an entry carrying its own display key.
pub proof fn lemma_group_index_membership(s: Seq<VllmSubgraphInfo>, a: int)
    requires
        0 <= a < s.len(),
    ensures
        exists|g: int|
            {
                &&& 0 <= g < spec_group_index(s).len()
                &&& spec_group_index(s)[g].0 == spec_size_or_range(s[a])
                &&& spec_group_index(s)[g].1.contains(a as usize)
            },
    decreases s.len(),
{
    let rest = spec_group_index(s.drop_last());
    let full = spec_group_index(s);
    let k = spec_size_or_range(s.last());
    let kj = key_index(rest, k);
    let idx = (s.len() - 1) as usize;
    lemma_key_index(rest, k);
    if a == s.len() - 1 {
        if kj < 0 {
            let g = rest.len() as int;
            assert(full[g].0 == k);
            assert(full[g].1 == seq![idx]);
            assert(full[g].1[0] == idx);
            assert(full[g].1.contains(a as usize));
        } else {
            assert(full[kj].0 == rest[kj].0);
            assert(full[kj].1 == rest[kj].1.push(idx));
            assert(full[kj].1[full[kj].1.len() - 1] == idx);
            assert(full[kj].1.contains(a as usize));
        }
    } else {
        lemma_group_index_membership(s.drop_last(), a);
        let g0 = choose|g: int|
            {
                &&& 0 <= g < rest.len()
                &&& rest[g].0 == spec_size_or_range(s.drop_last()[a])
                &&& rest[g].1.contains(a as usize)
            };
        assert(s.drop_last()[a] == s[a]);
        if kj >= 0 && g0 == kj {
            assert(full[g0].0 == rest[g0].0);
            let t = choose|t: int| 0 <= t < rest[g0].1.len() && rest[g0].1[t] == a as usize;
            assert(full[g0].1 == rest[g0].1.push(idx));
            assert(full[g0].1[t] == a as usize);
            assert(full[g0].1.contains(a as usize));
        } else {
            assert(full[g0] == rest[g0]);
        }
    }
}

/// Units carrying one display key land in one and the same group,
/// whatever their positions in the unit list: in particular, two units
/// covering the same single size, or the same range, are always grouped
/// together, regardless of discovery order.
pub proof fn lemma_same_key_same_group(s: Seq<VllmSubgraphInfo>, a: int, b: int)
    requires
        0 <= a < s.len(),
        0 <= b < s.len(),
        spec_size_or_range(s[a]) == spec_size_or_range(s[b]),
    ensures
        exists|g: int|
            {
                &&& 0 <= g < spec_group_index(s).len()
                &&& spec_group_index(s)[g].0 == spec_size_or_range(s[a])
                &&& spec_group_index(s)[g].1.contains(a as usize)
                &&& spec_group_index(s)[g].1.contains(b as usize)
            },
{
    let full = spec_group_index(s);
    lemma_group_index_membership(s, a);
    lemma_group_index_membership(s, b);
    lemma_group_index_keys_unique(s);
    let ga = choose|g: int|
        {
            &&& 0 <= g < full.len()
            &&& full[g].0 == spec_size_or_range(s[a])
            &&& full[g].1.contains(a as usize)
        };
    let gb = choose|g: int|
        {
            &&& 0 <= g < full.len()
            &&& full[g].0 == spec_size_or_range(s[b])
            &&& full[g].1.contains(b as usize)
        };
    assert(ga == gb);
}

/// One display row agrees with one unit of the accumulator.
pub open spec fn submod_matches(w: VllmSubgraphWithArtifacts, u: VllmSubgraphInfo) -> bool {
    &&& w.submod_name@ == spec_display_submod_name(u)
    &&& w.artifacts@ == u.artifacts@
    &&& w.artifact_count == u.artifacts@.len()
}

/// One built group agrees with one entry of the group index.
pub open spec fn group_matches_entry(
    g: VllmCompileRangeGroup,
    e: (Seq<char>, Seq<usize>),
    s: Seq<VllmSubgraphInfo>,
) -> bool {
    &&& g.size_or_range@ == e.0
    &&& g.submod_count == e.1.len()
    &&& g.submods@.len() == e.1.len()
    &&& forall|j: int|
        0 <= j < e.1.len() ==> e.1[j] < s.len() && submod_matches(g.submods@[j], s[e.1[j] as int])
}

/// The built group list agrees, entry by entry, with the group index of
/// the unit list.
pub open spec fn groups_match(gs: Seq<VllmCompileRangeGroup>, s: Seq<VllmSubgraphInfo>) -> bool {
    &&& gs.len() == spec_group_index(s).len()
    &&& forall|i: int|
        0 <= i < gs.len() ==> group_matches_entry(gs[i], spec_group_index(s)[i], s)
}

/// Grouping is a pure function of the unit list: any two group lists built
/// from the same units agree on every displayed key, count, name and
/// artifact.  In particular, building the groups twice over an unmodified
/// accumulator yields identical results.
pub proof fn lemma_build_groups_idempotent(
    gs1: Seq<VllmCompileRangeGroup>,
    gs2: Seq<VllmCompileRangeGroup>,
    s: Seq<VllmSubgraphInfo>,
)
    requires
        groups_match(gs1, s),
        groups_match(gs2, s),
    ensures
        gs1.len() == gs2.len(),
        forall|i: int|
            0 <= i < gs1.len() ==> gs1[i].size_or_range@ == gs2[i].size_or_range@ && gs1[i].submod_count
                == gs2[i].submod_count && gs1[i].submods@.len() == gs2[i].submods@.len(),
        forall|i: int, j: int|
            0 <= i < gs1.len() && 0 <= j < gs1[i].submods@.len() ==> gs1[i].submods@[j].submod_name@
                == gs2[i].submods@[j].submod_name@ && gs1[i].submods@[j].artifacts@
                == gs2[i].submods@[j].artifacts@ && gs1[i].submods@[j].artifact_count
                == gs2[i].submods@[j].artifact_count,
{
    let es = spec_group_index(s);
    assert forall|i: int, j: int|
        0 <= i < gs1.len() && 0 <= j < gs1[i].submods@.len() implies gs1[i].submods@[j].submod_name@
        == gs2[i].submods@[j].submod_name@ && gs1[i].submods@[j].artifacts@
        == gs2[i].submods@[j].artifacts@ && gs1[i].submods@[j].artifact_count
        == gs2[i].submods@[j].artifact_count by {
        assert(group_matches_entry(gs1[i], es[i], s));
        assert(group_matches_entry(gs2[i], es[i], s));
        assert(submod_matches(gs1[i].submods@[j], s[es[i].1[j] as int]));
        assert(submod_matches(gs2[i].submods@[j], s[es[i].1[j] as int]));
    }
}

impl VllmState {
    /// Groups the units by display key for hierarchical display: keys in
    /// first-seen order, unit order kept inside each group, each group
    /// carrying its member count and each member its artifact count.
    /// Pure: the accumulator is not changed, and the result is a function
    /// of the unit list alone.
    pub fn build_compile_range_groups(&self) -> (r: Vec<VllmCompileRangeGroup>)
        ensures
            groups_match(r@, self.subgraphs@),
    {
        let subs = &self.subgraphs;
        let mut m = im_new();
        let mut i: usize = 0;
        while i < subs.len()
            invariant
                i <= subs@.len(),
                group_entries(m) == spec_group_index(subs@.take(i as int)),
            decreases subs@.len() - i,
        {
            proof {
                assert(subs@.take(i as int + 1).drop_last() =~= subs@.take(i as int));
                assert(subs@.take(i as int + 1).last() == subs@[i as int]);
            }
            let key = subs[i].size_or_range();
            match im_get_mut(&mut m, &key) {
                Some(v) => {
                    v.push(i);
                },
                None => {
                    let mut single: Vec<usize> = Vec::new();
                    single.push(i);
                    proof {
                        assert(single@ =~= seq![i]);
                    }
                    im_insert(&mut m, key, single);
                },
            }
            i = i + 1;
        }
        proof {
            assert(subs@.take(subs@.len() as int) =~= subs@);
            lemma_group_index_bounds(subs@);
        }
        let entries = im_entries(m);
        let ghost es = spec_group_index(subs@);
        let mut r: Vec<VllmCompileRangeGroup> = Vec::new();
        let mut gi: usize = 0;
        while gi < entries.len()
            invariant
                gi <= entries@.len(),
                entries@.len() == es.len(),
                es == spec_group_index(subs@),
                subs@ == self.subgraphs@,
                forall|t: int|
                    0 <= t < entries@.len() ==> entries@[t].0@ == es[t].0 && entries@[t].1@
                        == es[t].1,
                forall|t: int, j: int|
                    0 <= t < es.len() && 0 <= j < es[t].1.len() ==> es[t].1[j] < subs@.len(),
                r@.len() == gi,
                forall|t: int| 0 <= t < gi ==> group_matches_entry(r@[t], es[t], subs@),
            decreases entries@.len() - gi,
        {
            let e = &entries[gi];
            let mut submods: Vec<VllmSubgraphWithArtifacts> = Vec::new();
            let mut j: usize = 0;
            while j < e.1.len()
                invariant
                    0 <= gi < entries@.len(),
                    entries@.len() == es.len(),
                    subs@ == self.subgraphs@,
                    e == entries@[gi as int],
                    e.1@ == es[gi as int].1,
                    forall|t: int, jj: int|
                        0 <= t < es.len() && 0 <= jj < es[t].1.len() ==> es[t].1[jj] < subs@.len(),
                    j <= e.1@.len(),
                    submods@.len() == j,
                    forall|t: int|
                        0 <= t < j ==> submod_matches(submods@[t], subs@[e.1@[t] as int]),
                decreases e.1@.len() - j,
            {
                let u = e.1[j];
                proof {
                    assert(es[gi as int].1[j as int] < subs@.len());
                }
                let unit = &subs[u];
                let row = VllmSubgraphWithArtifacts {
                    submod_name: unit.display_submod_name(),
                    artifacts: duplicate_artifacts(&unit.artifacts),
                    artifact_count: unit.artifacts.len(),
                };
                submods.push(row);
                j = j + 1;
            }
            let group = VllmCompileRangeGroup {
                size_or_range: e.0.clone(),
                submod_count: submods.len(),
                submods,
            };
            r.push(group);
            gi = gi + 1;
        }
        r
    }
}

} // verus!
