//! Catalog-shaping operations of the configuration builder: the
//! default-first reordering of a versioned axis, and the flattening of the
//! categorized dependency catalog into one list of options.

use vstd::prelude::*;
use crate::spring::Dependencies;
use crate::spring::DependencyCategoriesView;
use crate::spring::Value;
use crate::spring::ValueView;
use crate::text::str_eq;

verus! {

/// Position of the first option at or after `i` whose id is `id`, if any.
pub open spec fn find_id_from(vs: Seq<ValueView>, id: Seq<char>, i: int) -> Option<int>
    decreases vs.len() - i,
{
    if i < 0 || i >= vs.len() {
        None
    } else if vs[i].id == id {
        Some(i)
    } else {
        find_id_from(vs, id, i + 1)
    }
}

/// Position of the first option whose id is `id`, if any.
pub open spec fn find_id(vs: Seq<ValueView>, id: Seq<char>) -> Option<int> {
    find_id_from(vs, id, 0)
}

/// Some option of `vs` carries `id`.
pub open spec fn has_id(vs: Seq<ValueView>, id: Seq<char>) -> bool {
    exists|i: int| 0 <= i < vs.len() && vs[i].id == id
}

/// Where the default is promoted from: its first position, or 0 when the
/// default id does not occur in the list.
pub open spec fn default_index(vs: Seq<ValueView>, id: Seq<char>) -> int {
    match find_id(vs, id) {
        Some(i) => i,
        None => 0,
    }
}

/// `vs` with positions 0 and `i` exchanged.
pub open spec fn swapped_front(vs: Seq<ValueView>, i: int) -> Seq<ValueView>
    recommends
        0 <= i < vs.len(),
{
    vs.update(0, vs[i]).update(i, vs[0])
}

/// The default-first reordering: the one swap that brings the default (or,
/// when it is absent, the option already in front) to position 0.
pub open spec fn promoted(vs: Seq<ValueView>, id: Seq<char>) -> Seq<ValueView> {
    if vs.len() == 0 {
        vs
    } else {
        swapped_front(vs, default_index(vs, id))
    }
}

proof fn lemma_find_id_from_hit(vs: Seq<ValueView>, id: Seq<char>, i: int, k: int)
    requires
        0 <= i <= k < vs.len(),
        vs[k].id == id,
        forall|j: int| i <= j < k ==> vs[j].id != id,
    ensures
        find_id_from(vs, id, i) == Some(k),
    decreases k - i,
{
    if i < k {
        lemma_find_id_from_hit(vs, id, i + 1, k);
    }
}

proof fn lemma_find_id_from_miss(vs: Seq<ValueView>, id: Seq<char>, i: int)
    requires
        0 <= i,
        forall|j: int| i <= j < vs.len() ==> vs[j].id != id,
    ensures
        find_id_from(vs, id, i) == None::<int>,
    decreases vs.len() - i,
{
    if i < vs.len() {
        lemma_find_id_from_miss(vs, id, i + 1);
    }
}

/// What `find_id` returns: the first matching position when one exists,
/// nothing otherwise.
pub proof fn lemma_find_id_props(vs: Seq<ValueView>, id: Seq<char>)
    ensures
        match find_id(vs, id) {
            Some(k) => 0 <= k < vs.len() && vs[k].id == id && forall|j: int|
                0 <= j < k ==> vs[j].id != id,
            None => !has_id(vs, id),
        },
{
    if has_id(vs, id) {
        let w = choose|i: int| 0 <= i < vs.len() && vs[i].id == id;
        lemma_find_id_first(vs, id, 0, w);
    } else {
        lemma_find_id_from_miss(vs, id, 0);
    }
}

proof fn lemma_find_id_first(vs: Seq<ValueView>, id: Seq<char>, i: int, w: int)
    requires
        0 <= i <= w < vs.len(),
        vs[w].id == id,
    ensures
        match find_id_from(vs, id, i) {
            Some(k) => i <= k < vs.len() && vs[k].id == id && forall|j: int|
                i <= j < k ==> vs[j].id != id,
            None => false,
        },
    decreases w - i,
{
    if vs[i].id != id {
        lemma_find_id_first(vs, id, i + 1, w);
    }
}

/// First position of `id` in `values`, or 0 when `id` does not occur.
pub fn find_index_or_zero(values: &Vec<Value>, id: &str) -> (i: usize)
    ensures
        i as int == default_index(values.deep_view(), id@),
        i == 0 || i < values.len(),
{
    let n = values.len();
    let mut j: usize = 0;
    while j < n
        invariant
            j <= n,
            n == values.len(),
            forall|k: int| 0 <= k < j ==> values.deep_view()[k].id != id@,
        decreases n - j,
    {
        if str_eq(values[j].id.as_str(), id) {
            proof {
                lemma_find_id_from_hit(values.deep_view(), id@, 0, j as int);
            }
            return j;
        }
        j = j + 1;
    }
    proof {
        lemma_find_id_from_miss(values.deep_view(), id@, 0);
    }
    0
}

/// Swaps the axis default into position 0; every position other than 0 and
/// the default's old one is left untouched.
pub fn promote_default(values: &mut Vec<Value>, default_id: &str)
    ensures
        final(values).deep_view() == promoted(old(values).deep_view(), default_id@),
        final(values).len() == old(values).len(),
{
    let idx = find_index_or_zero(values, default_id);
    if idx != 0 {
        let chosen = values[idx].duplicate();
        let front = values[0].duplicate();
        values[0] = chosen;
        values[idx] = front;
        proof {
            assert(values.deep_view() =~= promoted(old(values).deep_view(), default_id@));
        }
    } else {
        proof {
            assert(values.deep_view() =~= promoted(old(values).deep_view(), default_id@));
        }
    }
}

/// When the default id occurs in the list, the reordered list starts with
/// it and keeps its length.
pub proof fn lemma_promoted_default_first(vs: Seq<ValueView>, id: Seq<char>)
    requires
        has_id(vs, id),
    ensures
        promoted(vs, id).len() == vs.len(),
        promoted(vs, id)[0].id == id,
{
    lemma_find_id_props(vs, id);
}

/// The reordered list is a permutation of the original: the same multiset
/// of options, hence the same multiset of ids.
pub proof fn lemma_promoted_permutes(vs: Seq<ValueView>, id: Seq<char>)
    ensures
        promoted(vs, id).to_multiset() == vs.to_multiset(),
{
    broadcast use vstd::seq_lib::to_multiset_update;
    broadcast use vstd::seq_lib::group_to_multiset_ensures;
    broadcast use vstd::multiset::group_multiset_axioms;

    if vs.len() != 0 {
        lemma_find_id_props(vs, id);
        let i = default_index(vs, id);
        let s1 = vs.update(0, vs[i]);
        assert(s1[i] == vs[i]);
        assert(vs.contains(vs[0]) && vs.contains(vs[i]));
        assert(promoted(vs, id).to_multiset() =~= vs.to_multiset());
    }
}

/// Reordering twice with the same default changes nothing after the first
/// time: the promotion is idempotent.
pub proof fn lemma_promoted_idempotent(vs: Seq<ValueView>, id: Seq<char>)
    ensures
        promoted(promoted(vs, id), id) == promoted(vs, id),
{
    if vs.len() != 0 {
        let p = promoted(vs, id);
        lemma_find_id_props(vs, id);
        if has_id(vs, id) {
            lemma_find_id_from_hit(p, id, 0, 0);
            assert(promoted(p, id) =~= p);
        } else {
            assert(p =~= vs);
            lemma_find_id_from_miss(p, id, 0);
            assert(promoted(p, id) =~= p);
        }
    }
}

/// Promoting the default and then promoting the id that originally stood
/// first restores the original order, provided ids are pairwise distinct.
pub proof fn lemma_promoted_roundtrip(vs: Seq<ValueView>, id: Seq<char>)
    requires
        vs.len() > 0,
        ids_distinct(vs),
    ensures
        promoted(promoted(vs, id), vs[0].id) == vs,
{
    let p = promoted(vs, id);
    lemma_find_id_props(vs, id);
    let k = default_index(vs, id);
    if k == 0 {
        assert(p =~= vs);
        lemma_find_id_from_hit(p, vs[0].id, 0, 0);
        assert(promoted(p, vs[0].id) =~= vs);
    } else {
        assert(p[k].id == vs[0].id);
        assert(forall|j: int| 0 <= j < k ==> p[j].id != vs[0].id);
        lemma_find_id_from_hit(p, vs[0].id, 0, k);
        assert(promoted(p, vs[0].id) =~= vs);
    }
}

/// The ids offered by a list of options.
pub open spec fn ids_of(vs: Seq<ValueView>) -> Set<Seq<char>> {
    Set::new(|id: Seq<char>| has_id(vs, id))
}

/// No two options of `vs` carry the same id.
pub open spec fn ids_distinct(vs: Seq<ValueView>) -> bool {
    forall|i: int, j: int| 0 <= i < j < vs.len() ==> vs[i].id != vs[j].id
}

/// The catalog invariant on the dependency section: ids are unique within
/// each category and no id belongs to two categories.
pub open spec fn catalog_ids_unique(cats: Seq<DependencyCategoriesView>) -> bool {
    &&& forall|c: int| 0 <= c < cats.len() ==> ids_distinct(#[trigger] cats[c].values)
    &&& forall|c1: int, c2: int, id: Seq<char>|
        #![trigger has_id(cats[c1].values, id), has_id(cats[c2].values, id)]
        0 <= c1 < c2 < cats.len() ==> !(has_id(cats[c1].values, id) && has_id(
            cats[c2].values,
            id,
        ))
}

/// The id set a catalog offers, category by category.
pub open spec fn catalog_id_set(cats: Seq<DependencyCategoriesView>) -> Set<Seq<char>> {
    Set::new(
        |id: Seq<char>| exists|c: int| 0 <= c < cats.len() && has_id(#[trigger] cats[c].values, id),
    )
}

/// Flattening offers exactly the union of the categories' id sets.
pub proof fn lemma_flat_ids_union(cats: Seq<DependencyCategoriesView>)
    ensures
        ids_of(flat_values(cats)) == catalog_id_set(cats),
    decreases cats.len(),
{
    if cats.len() == 0 {
        assert(ids_of(flat_values(cats)) =~= catalog_id_set(cats));
    } else {
        lemma_flat_ids_union(cats.drop_last());
        let f = flat_values(cats);
        let pre = flat_values(cats.drop_last());
        let lastv = cats.last().values;
        assert forall|id: Seq<char>| has_id(f, id) implies catalog_id_set(cats).contains(id) by {
            let k = choose|k: int| 0 <= k < f.len() && f[k].id == id;
            if k < pre.len() {
                assert(f[k] == pre[k]);
                assert(has_id(pre, id));
                assert(catalog_id_set(cats.drop_last()).contains(id));
                let c = choose|c: int|
                    0 <= c < cats.drop_last().len() && has_id(cats.drop_last()[c].values, id);
                assert(cats.drop_last()[c] == cats[c]);
                assert(has_id(cats[c].values, id));
            } else {
                assert(f[k] == lastv[k - pre.len()]);
                assert(has_id(lastv, id));
                assert(has_id(cats[cats.len() - 1].values, id));
            }
        }
        assert forall|id: Seq<char>| catalog_id_set(cats).contains(id) implies has_id(f, id) by {
            let c = choose|c: int| 0 <= c < cats.len() && has_id(#[trigger] cats[c].values, id);
            let j = choose|j: int| 0 <= j < cats[c].values.len() && cats[c].values[j].id == id;
            if c < cats.len() - 1 {
                assert(cats.drop_last()[c] == cats[c]);
                assert(has_id(cats.drop_last()[c].values, id));
                assert(catalog_id_set(cats.drop_last()).contains(id));
                assert(has_id(pre, id));
                let k = choose|k: int| 0 <= k < pre.len() && pre[k].id == id;
                assert(f[k] == pre[k]);
                assert(has_id(f, id));
            } else {
                assert(f[pre.len() + j] == lastv[j]);
                assert(has_id(f, id));
            }
        }
        assert(ids_of(f) =~= catalog_id_set(cats));
    }
}

/// Under the catalog invariant the flattened list never offers an id twice:
/// its id set is the plain union of the categories' id sets, duplicate-free.
pub proof fn lemma_flatten_no_duplicates(cats: Seq<DependencyCategoriesView>)
    requires
        catalog_ids_unique(cats),
    ensures
        ids_distinct(flat_values(cats)),
    decreases cats.len(),
{
    if cats.len() > 0 {
        assert(catalog_ids_unique(cats.drop_last())) by {
            assert(forall|c: int|
                0 <= c < cats.drop_last().len() ==> #[trigger] cats.drop_last()[c] == cats[c]);
        }
        lemma_flatten_no_duplicates(cats.drop_last());
        let f = flat_values(cats);
        let pre = flat_values(cats.drop_last());
        let lastv = cats.last().values;
        assert(ids_distinct(lastv)) by {
            assert(cats[cats.len() - 1].values == lastv);
        }
        assert forall|i: int, j: int| 0 <= i < j < f.len() implies f[i].id != f[j].id by {
            if j < pre.len() {
                assert(f[i] == pre[i] && f[j] == pre[j]);
            } else if i >= pre.len() {
                assert(f[i] == lastv[i - pre.len()] && f[j] == lastv[j - pre.len()]);
            } else {
                assert(f[i] == pre[i] && f[j] == lastv[j - pre.len()]);
                assert(has_id(pre, pre[i].id));
                lemma_flat_ids_union(cats.drop_last());
                assert(catalog_id_set(cats.drop_last()).contains(pre[i].id));
                let c = choose|c: int|
                    0 <= c < cats.drop_last().len() && has_id(
                        #[trigger] cats.drop_last()[c].values,
                        pre[i].id,
                    );
                assert(cats.drop_last()[c] == cats[c]);
                assert(has_id(cats[c].values, pre[i].id));
                if f[j].id == f[i].id {
                    assert(has_id(lastv, pre[i].id));
                    assert(has_id(cats[cats.len() - 1].values, pre[i].id));
                }
            }
        }
    }
}

/// All options of all categories in one flat list, category order kept.
pub open spec fn flat_values(cats: Seq<DependencyCategoriesView>) -> Seq<ValueView>
    decreases cats.len(),
{
    if cats.len() == 0 {
        Seq::empty()
    } else {
        flat_values(cats.drop_last()) + cats.last().values
    }
}

/// The dependency catalog as the single flat option list that the selection
/// step offers.
pub fn flatten_dependencies(deps: &Dependencies) -> (r: Vec<Value>)
    ensures
        r.deep_view() == flat_values(deps@.values),
{
    let mut out: Vec<Value> = Vec::new();
    let n = deps.values.len();
    let mut c: usize = 0;
    while c < n
        invariant
            c <= n,
            n == deps.values.len(),
            out.deep_view() == flat_values(deps@.values.take(c as int)),
        decreases n - c,
    {
        let m = deps.values[c].values.len();
        let mut k: usize = 0;
        while k < m
            invariant
                k <= m,
                c < n,
                n == deps.values.len(),
                m == deps.values[c as int].values.len(),
                out.deep_view() == flat_values(deps@.values.take(c as int)) + deps@.values[
                    c as int
                ].values.take(k as int),
            decreases m - k,
        {
            let item = deps.values[c].values[k].duplicate();
            proof {
                assert(item@ == deps@.values[c as int].values[k as int]);
            }
            out.push(item);
            proof {
                let fa = flat_values(deps@.values.take(c as int));
                let bs = deps@.values[c as int].values;
                assert(forall|i: int| 0 <= i < fa.len() + k ==> out.deep_view()[i] == (fa
                    + bs.take(k as int))[i]);
                assert(out.deep_view() =~~= fa + bs.take(k as int + 1));
            }
            k = k + 1;
        }
        proof {
            assert(deps@.values.take(c as int + 1).drop_last() =~= deps@.values.take(c as int));
            assert(deps@.values[c as int].values.take(m as int) =~= deps@.values[c as int].values);
            assert(out.deep_view() =~~= flat_values(deps@.values.take(c as int + 1)));
        }
        c = c + 1;
    }
    proof {
        assert(deps@.values.take(n as int) =~= deps@.values);
    }
    out
}

} // verus!
