//! Keeps saved filter views consistent with the remote entities they name:
//! ids of projects and statuses that no longer exist are dropped.

use vstd::prelude::*;
use crate::filter::contains_id;

verus! {

/// The filter of a saved view, as persisted.
#[derive(Debug, Clone)]
pub struct FilterData {
    pub status_ids: Option<Vec<i64>>,
    pub status_exclude: Option<bool>,
    pub assignee_ids: Option<Vec<i64>>,
    pub assignee_exclude: Option<bool>,
    pub project_ids: Option<Vec<i64>>,
    pub project_exclude: Option<bool>,
}

/// A saved view as read from local storage; `filter` is `None` when the
/// persisted filter could not be read, and such a view is left alone.
#[derive(Debug, Clone)]
pub struct StoredView {
    pub id: i32,
    pub name: String,
    pub is_system: bool,
    pub filter: Option<FilterData>,
}

pub open spec fn ids_view(o: Option<Vec<i64>>) -> Option<Seq<i64>> {
    match o {
        Some(v) => Some(v@),
        None => None,
    }
}

pub open spec fn valid_view(o: Option<&Vec<i64>>) -> Option<Seq<i64>> {
    match o {
        Some(v) => Some(v@),
        None => None,
    }
}

/// The ids of `ids` that `valid` holds, in order.
pub open spec fn keep_valid(ids: Seq<i64>, valid: Seq<i64>) -> Seq<i64>
    decreases ids.len(),
{
    if ids.len() == 0 {
        Seq::empty()
    } else {
        keep_valid(ids.drop_last(), valid) + (if valid.contains(ids.last()) { seq![ids.last()] } else { Seq::empty() })
    }
}

/// One dimension after pruning: untouched when it has no list or no
/// validity set was supplied; otherwise only its valid ids stay (possibly
/// none, which still means "no filter").
pub open spec fn pruned(ids: Option<Seq<i64>>, valid: Option<Seq<i64>>) -> Option<Seq<i64>> {
    match (ids, valid) {
        (Some(l), Some(v)) => Some(keep_valid(l, v)),
        _ => ids,
    }
}

/// `out` is `f` with its project and status dimensions pruned, and every
/// other part kept.
pub open spec fn sanitized_as(out: FilterData, f: FilterData, vp: Option<Seq<i64>>, vs: Option<Seq<i64>>) -> bool {
    &&& ids_view(out.project_ids) == pruned(ids_view(f.project_ids), vp)
    &&& ids_view(out.status_ids) == pruned(ids_view(f.status_ids), vs)
    &&& ids_view(out.assignee_ids) == ids_view(f.assignee_ids)
    &&& out.status_exclude == f.status_exclude
    &&& out.assignee_exclude == f.assignee_exclude
    &&& out.project_exclude == f.project_exclude
}

/// Whether pruning would change a filter.
pub open spec fn has_dangling(f: FilterData, vp: Option<Seq<i64>>, vs: Option<Seq<i64>>) -> bool {
    pruned(ids_view(f.project_ids), vp) != ids_view(f.project_ids) || pruned(ids_view(f.status_ids), vs)
        != ids_view(f.status_ids)
}

/// Whether a stored view is rewritten: a user view with a readable filter
/// that names an id outside a supplied validity set.
pub open spec fn needs_rewrite(v: StoredView, vp: Option<Seq<i64>>, vs: Option<Seq<i64>>) -> bool {
    !v.is_system && v.filter is Some && has_dangling(v.filter.unwrap(), vp, vs)
}

fn copy_ids(ids: &Vec<i64>) -> (r: Vec<i64>)
    ensures
        r@ == ids@,
{
    let mut out: Vec<i64> = Vec::new();
    let mut i: usize = 0;
    while i < ids.len()
        invariant
            i <= ids@.len(),
            out@ == ids@.subrange(0, i as int),
        decreases ids.len() - i,
    {
        out.push(ids[i]);
        assert(out@ =~= ids@.subrange(0, i + 1));
        i = i + 1;
    }
    assert(ids@.subrange(0, i as int) =~= ids@);
    out
}

fn copy_opt_ids(ids: &Option<Vec<i64>>) -> (r: Option<Vec<i64>>)
    ensures
        ids_view(r) == ids_view(*ids),
{
    match ids {
        Some(v) => Some(copy_ids(v)),
        None => None,
    }
}

/// The ids of `ids` that `valid` holds, in order.
pub fn retain_valid(ids: &Vec<i64>, valid: &Vec<i64>) -> (r: Vec<i64>)
    ensures
        r@ == keep_valid(ids@, valid@),
{
    let mut out: Vec<i64> = Vec::new();
    let mut i: usize = 0;
    while i < ids.len()
        invariant
            i <= ids@.len(),
            out@ == keep_valid(ids@.subrange(0, i as int), valid@),
        decreases ids.len() - i,
    {
        let id = ids[i];
        if contains_id(valid, id) {
            out.push(id);
        }
        let ghost next = ids@.subrange(0, i + 1);
        assert(next.drop_last() =~= ids@.subrange(0, i as int));
        assert(out@ =~= keep_valid(next, valid@));
        i = i + 1;
    }
    assert(ids@.subrange(0, i as int) =~= ids@);
    out
}

fn prune_dimension(ids: &Option<Vec<i64>>, valid: Option<&Vec<i64>>) -> (r: Option<Vec<i64>>)
    ensures
        ids_view(r) == pruned(ids_view(*ids), valid_view(valid)),
{
    match (ids, valid) {
        (Some(l), Some(v)) => Some(retain_valid(l, v)),
        _ => copy_opt_ids(ids),
    }
}

fn same_ids(a: &Option<Vec<i64>>, b: &Option<Vec<i64>>) -> (r: bool)
    ensures
        r == (ids_view(*a) == ids_view(*b)),
{
    match (a, b) {
        (Some(x), Some(y)) => {
            assert(ids_view(*a) == Some(x@) && ids_view(*b) == Some(y@));
            if x.len() != y.len() {
                assert(x@ != y@);
                return false;
            }
            let mut i: usize = 0;
            while i < x.len()
                invariant
                    ids_view(*a) == Some(x@) && ids_view(*b) == Some(y@),
                    x@.len() == y@.len(),
                    i <= x@.len(),
                    forall|k: int| 0 <= k < i ==> x@[k] == y@[k],
                decreases x.len() - i,
            {
                if x[i] != y[i] {
                    assert(x@[i as int] != y@[i as int]);
                    return false;
                }
                i = i + 1;
            }
            assert(x@ =~= y@);
            true
        },
        (None, None) => true,
        _ => false,
    }
}

impl FilterData {
    /// This filter with ids outside the supplied validity sets removed from
    /// its project and status dimensions, and whether anything was removed.
    pub fn sanitized(&self, valid_projects: Option<&Vec<i64>>, valid_statuses: Option<&Vec<i64>>) -> (r: (
        FilterData,
        bool,
    ))
        ensures
            sanitized_as(r.0, *self, valid_view(valid_projects), valid_view(valid_statuses)),
            r.1 == has_dangling(*self, valid_view(valid_projects), valid_view(valid_statuses)),
    {
        let project_ids = prune_dimension(&self.project_ids, valid_projects);
        let status_ids = prune_dimension(&self.status_ids, valid_statuses);
        let changed = !same_ids(&project_ids, &self.project_ids) || !same_ids(&status_ids, &self.status_ids);
        let out = FilterData {
            status_ids,
            status_exclude: self.status_exclude,
            assignee_ids: copy_opt_ids(&self.assignee_ids),
            assignee_exclude: self.assignee_exclude,
            project_ids,
            project_exclude: self.project_exclude,
        };
        (out, changed)
    }
}

/// For each stored view, in order, its sanitised filter when it must be
/// rewritten, else `None`: system views, views whose filter could not be
/// read, and views with no dangling id are not touched.
pub fn sanitize_views(views: &Vec<StoredView>, valid_projects: Option<&Vec<i64>>, valid_statuses: Option<&Vec<i64>>) -> (r: Vec<Option<FilterData>>)
    ensures
        r@.len() == views@.len(),
        forall|i: int| 0 <= i < views@.len() ==> (#[trigger] r@[i] is Some) == needs_rewrite(
            views@[i],
            valid_view(valid_projects),
            valid_view(valid_statuses),
        ),
        forall|i: int|
            0 <= i < views@.len() && #[trigger] r@[i] is Some ==> sanitized_as(
                r@[i].unwrap(),
                views@[i].filter.unwrap(),
                valid_view(valid_projects),
                valid_view(valid_statuses),
            ),
{
    let mut out: Vec<Option<FilterData>> = Vec::new();
    let mut i: usize = 0;
    while i < views.len()
        invariant
            i <= views@.len(),
            out@.len() == i,
            forall|k: int| 0 <= k < i ==> (#[trigger] out@[k] is Some) == needs_rewrite(
                views@[k],
                valid_view(valid_projects),
                valid_view(valid_statuses),
            ),
            forall|k: int|
                0 <= k < i && #[trigger] out@[k] is Some ==> sanitized_as(
                    out@[k].unwrap(),
                    views@[k].filter.unwrap(),
                    valid_view(valid_projects),
                    valid_view(valid_statuses),
                ),
        decreases views.len() - i,
    {
        let view = &views[i];
        let update = if view.is_system {
            None
        } else {
            match &view.filter {
                Some(f) => {
                    let (clean, changed) = f.sanitized(valid_projects, valid_statuses);
                    if changed {
                        Some(clean)
                    } else {
                        None
                    }
                },
                None => None,
            }
        };
        out.push(update);
        i = i + 1;
    }
    out
}

proof fn lemma_keep_valid_idempotent(ids: Seq<i64>, valid: Seq<i64>)
    ensures
        keep_valid(keep_valid(ids, valid), valid) == keep_valid(ids, valid),
        forall|k: int| 0 <= k < keep_valid(ids, valid).len() ==> valid.contains(#[trigger] keep_valid(ids, valid)[k]),
    decreases ids.len(),
{
    if ids.len() > 0 {
        lemma_keep_valid_idempotent(ids.drop_last(), valid);
        let pre = keep_valid(ids.drop_last(), valid);
        let x = ids.last();
        if valid.contains(x) {
            let s = pre.push(x);
            assert(keep_valid(ids, valid) =~= s);
            assert(s.drop_last() =~= pre);
            assert(keep_valid(s, valid) =~= keep_valid(pre, valid) + seq![x]);
        } else {
            assert(keep_valid(ids, valid) =~= pre);
        }
    }
}

proof fn lemma_keep_valid_all_valid(ids: Seq<i64>, valid: Seq<i64>)
    requires
        forall|k: int| 0 <= k < ids.len() ==> valid.contains(#[trigger] ids[k]),
    ensures
        keep_valid(ids, valid) == ids,
    decreases ids.len(),
{
    if ids.len() > 0 {
        let pre = ids.drop_last();
        assert forall|k: int| 0 <= k < pre.len() implies valid.contains(#[trigger] pre[k]) by {
            assert(pre[k] == ids[k]);
        }
        lemma_keep_valid_all_valid(pre, valid);
        assert(valid.contains(ids[ids.len() - 1]));
        assert(keep_valid(ids, valid) =~= ids);
    }
}

/// Sanitising is idempotent: a filter that has been sanitised against some
/// validity sets has nothing left to remove against the same sets, so a
/// second run rewrites no view.
pub proof fn lemma_sanitize_idempotent(f: FilterData, out: FilterData, vp: Option<Seq<i64>>, vs: Option<Seq<i64>>)
    requires
        sanitized_as(out, f, vp, vs),
    ensures
        !has_dangling(out, vp, vs),
{
    match (ids_view(f.project_ids), vp) {
        (Some(l), Some(v)) => lemma_keep_valid_idempotent(l, v),
        _ => {},
    }
    match (ids_view(f.status_ids), vs) {
        (Some(l), Some(v)) => lemma_keep_valid_idempotent(l, v),
        _ => {},
    }
}

/// A filter whose project and status ids all lie in the supplied validity
/// sets has no dangling id, so its view is left exactly as stored.
pub proof fn lemma_valid_filter_untouched(f: FilterData, vp: Option<Seq<i64>>, vs: Option<Seq<i64>>)
    requires
        vp is Some && ids_view(f.project_ids) is Some ==> forall|k: int|
            0 <= k < ids_view(f.project_ids).unwrap().len() ==> vp.unwrap().contains(
                #[trigger] ids_view(f.project_ids).unwrap()[k],
            ),
        vs is Some && ids_view(f.status_ids) is Some ==> forall|k: int|
            0 <= k < ids_view(f.status_ids).unwrap().len() ==> vs.unwrap().contains(
                #[trigger] ids_view(f.status_ids).unwrap()[k],
            ),
    ensures
        !has_dangling(f, vp, vs),
{
    match (ids_view(f.project_ids), vp) {
        (Some(l), Some(v)) => lemma_keep_valid_all_valid(l, v),
        _ => {},
    }
    match (ids_view(f.status_ids), vs) {
        (Some(l), Some(v)) => lemma_keep_valid_all_valid(l, v),
        _ => {},
    }
}

} // verus!
