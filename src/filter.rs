//! Issue filters: which collections to query, how a filter is
//! encoded as query parameters, and which issues it admits.

use vstd::prelude::*;
use vstd::string::*;
use crate::domain::Issue;
use crate::text::{int_decimal, push_int};

verus! {

/// A filter over issues. Each dimension holds an optional id list; an
/// absent or empty list means "no filter on this dimension". In
/// `assignee_ids`, `None` stands for "unassigned".
#[derive(Debug, Clone)]
pub struct FilterObject {
    pub status_ids: Option<Vec<i64>>,
    pub status_exclude: Option<bool>,
    pub assignee_ids: Option<Vec<Option<i64>>>,
    pub assignee_exclude: Option<bool>,
    pub project_ids: Option<Vec<i64>>,
}

/// Query value that stands for "unassigned"; no real id renders as it.
pub open spec fn unassigned_token() -> Seq<char> {
    "null"@
}

pub open spec fn assignee_token(a: Option<i64>) -> Seq<char> {
    match a {
        Some(id) => int_decimal(id as int),
        None => unassigned_token(),
    }
}

/// Ids rendered in decimal and joined by commas.
pub open spec fn join_ids(s: Seq<i64>) -> Seq<char>
    decreases s.len(),
{
    if s.len() == 0 {
        Seq::empty()
    } else if s.len() == 1 {
        int_decimal(s[0] as int)
    } else {
        join_ids(s.drop_last()) + seq![','] + int_decimal(s.last() as int)
    }
}

/// Assignees rendered as tokens and joined by commas.
pub open spec fn join_assignees(s: Seq<Option<i64>>) -> Seq<char>
    decreases s.len(),
{
    if s.len() == 0 {
        Seq::empty()
    } else if s.len() == 1 {
        assignee_token(s[0])
    } else {
        join_assignees(s.drop_last()) + seq![','] + assignee_token(s.last())
    }
}

pub open spec fn flag(b: Option<bool>) -> bool {
    match b {
        Some(x) => x,
        None => false,
    }
}

pub open spec fn status_param(f: FilterObject) -> Seq<(Seq<char>, Seq<char>)> {
    match f.status_ids {
        Some(ids) => if ids@.len() > 0 {
            seq![(if flag(f.status_exclude) { "status__not_in"@ } else { "status"@ }, join_ids(ids@))]
        } else {
            Seq::empty()
        },
        None => Seq::empty(),
    }
}

pub open spec fn assignee_param(f: FilterObject) -> Seq<(Seq<char>, Seq<char>)> {
    match f.assignee_ids {
        Some(ids) => if ids@.len() > 0 {
            seq![(if flag(f.assignee_exclude) { "assigned_to__not_in"@ } else { "assigned_to"@ }, join_assignees(ids@))]
        } else {
            Seq::empty()
        },
        None => Seq::empty(),
    }
}

/// The query parameters that encode a filter's status and assignee
/// dimensions (the project dimension selects collections instead).
pub open spec fn query_params_spec(f: FilterObject) -> Seq<(Seq<char>, Seq<char>)> {
    status_param(f) + assignee_param(f)
}

pub open spec fn params_view(v: Seq<(String, String)>) -> Seq<(Seq<char>, Seq<char>)> {
    Seq::new(v.len(), |i: int| (v[i].0@, v[i].1@))
}

fn join_id_list(ids: &Vec<i64>) -> (r: String)
    ensures
        r@ == join_ids(ids@),
{
    let mut out = String::new();
    let mut i: usize = 0;
    while i < ids.len()
        invariant
            i <= ids@.len(),
            out@ == join_ids(ids@.subrange(0, i as int)),
        decreases ids.len() - i,
    {
        proof {
            reveal_strlit(",");
        }
        let ghost before = out@;
        if i > 0 {
            out.append(",");
        }
        push_int(&mut out, ids[i]);
        proof {
            let s = ids@.subrange(0, i + 1);
            assert(s.drop_last() =~= ids@.subrange(0, i as int));
            if i == 0 {
                assert(before =~= Seq::<char>::empty());
                assert(out@ =~= join_ids(s));
            } else {
                assert(out@ =~= join_ids(s));
            }
        }
        i = i + 1;
    }
    assert(ids@.subrange(0, ids@.len() as int) =~= ids@);
    out
}

fn push_assignee(out: &mut String, a: Option<i64>)
    ensures
        final(out)@ == old(out)@ + assignee_token(a),
{
    match a {
        Some(id) => push_int(out, id),
        None => {
            proof {
                reveal_strlit("null");
            }
            out.append("null");
        },
    }
}

fn join_assignee_list(ids: &Vec<Option<i64>>) -> (r: String)
    ensures
        r@ == join_assignees(ids@),
{
    let mut out = String::new();
    let mut i: usize = 0;
    while i < ids.len()
        invariant
            i <= ids@.len(),
            out@ == join_assignees(ids@.subrange(0, i as int)),
        decreases ids.len() - i,
    {
        proof {
            reveal_strlit(",");
        }
        let ghost before = out@;
        if i > 0 {
            out.append(",");
        }
        push_assignee(&mut out, ids[i]);
        proof {
            let s = ids@.subrange(0, i + 1);
            assert(s.drop_last() =~= ids@.subrange(0, i as int));
            if i == 0 {
                assert(before =~= Seq::<char>::empty());
                assert(out@ =~= join_assignees(s));
            } else {
                assert(out@ =~= join_assignees(s));
            }
        }
        i = i + 1;
    }
    assert(ids@.subrange(0, ids@.len() as int) =~= ids@);
    out
}

fn flag_exec(b: Option<bool>) -> (r: bool)
    ensures
        r == flag(b),
{
    match b {
        Some(x) => x,
        None => false,
    }
}

impl FilterObject {
    /// The query parameters for one collection query: for each of the
    /// status and assignee dimensions with a non-empty list, an include or
    /// exclude parameter whose value is the list joined by commas.
    pub fn query_params(&self) -> (r: Vec<(String, String)>)
        ensures
            params_view(r@) == query_params_spec(*self),
    {
        let mut params: Vec<(String, String)> = Vec::new();
        proof {
            reveal_strlit("status__not_in");
            reveal_strlit("status");
            reveal_strlit("assigned_to__not_in");
            reveal_strlit("assigned_to");
        }
        match &self.status_ids {
            Some(ids) => {
                if ids.len() > 0 {
                    let key = if flag_exec(self.status_exclude) { "status__not_in" } else { "status" };
                    params.push((String::from_str(key), join_id_list(ids)));
                }
            },
            None => {},
        }
        let ghost mid = params@;
        assert(params_view(mid) =~= status_param(*self));
        match &self.assignee_ids {
            Some(ids) => {
                if ids.len() > 0 {
                    let key = if flag_exec(self.assignee_exclude) { "assigned_to__not_in" } else { "assigned_to" };
                    params.push((String::from_str(key), join_assignee_list(ids)));
                }
            },
            None => {},
        }
        assert(params_view(params@) =~= status_param(*self) + assignee_param(*self));
        params
    }
}

/// A dimension admits a value when its list is absent or empty, or when
/// membership of the value in the list differs from the exclude flag.
pub open spec fn admits<T>(ids: Option<Vec<T>>, exclude: Option<bool>, v: T) -> bool {
    match ids {
        Some(l) => l@.len() == 0 || (l@.contains(v) != flag(exclude)),
        None => true,
    }
}

/// Whether a filter admits an issue, on all of its dimensions.
pub open spec fn matches_filter(i: Issue, f: FilterObject) -> bool {
    admits(f.status_ids, f.status_exclude, i.status) && admits(
        f.assignee_ids,
        f.assignee_exclude,
        i.assigned_to,
    ) && admits(f.project_ids, None, i.project)
}

/// The issues of `s` that `f` admits, in order.
pub open spec fn keep_matching(s: Seq<Issue>, f: FilterObject) -> Seq<Issue>
    decreases s.len(),
{
    if s.len() == 0 {
        Seq::empty()
    } else {
        keep_matching(s.drop_last(), f) + (if matches_filter(s.last(), f) { seq![s.last()] } else { Seq::empty() })
    }
}

pub fn contains_id(l: &Vec<i64>, v: i64) -> (r: bool)
    ensures
        r == l@.contains(v),
{
    let mut i: usize = 0;
    while i < l.len()
        invariant
            i <= l@.len(),
            forall|k: int| 0 <= k < i ==> l@[k] != v,
        decreases l.len() - i,
    {
        if l[i] == v {
            assert(l@[i as int] == v);
            return true;
        }
        i = i + 1;
    }
    false
}

fn contains_assignee(l: &Vec<Option<i64>>, v: Option<i64>) -> (r: bool)
    ensures
        r == l@.contains(v),
{
    let mut i: usize = 0;
    while i < l.len()
        invariant
            i <= l@.len(),
            forall|k: int| 0 <= k < i ==> l@[k] != v,
        decreases l.len() - i,
    {
        let same = match (l[i], v) {
            (Some(a), Some(b)) => a == b,
            (None, None) => true,
            _ => false,
        };
        if same {
            assert(l@[i as int] == v);
            return true;
        }
        i = i + 1;
    }
    false
}

impl FilterObject {
    /// Whether this filter admits `issue`.
    pub fn admits_issue(&self, issue: &Issue) -> (r: bool)
        ensures
            r == matches_filter(*issue, *self),
    {
        let status_ok = match &self.status_ids {
            Some(l) => l.len() == 0 || (contains_id(l, issue.status) != flag_exec(self.status_exclude)),
            None => true,
        };
        let assignee_ok = match &self.assignee_ids {
            Some(l) => l.len() == 0 || (contains_assignee(l, issue.assigned_to) != flag_exec(
                self.assignee_exclude,
            )),
            None => true,
        };
        let project_ok = match &self.project_ids {
            Some(l) => l.len() == 0 || contains_id(l, issue.project),
            None => true,
        };
        status_ok && assignee_ok && project_ok
    }
}

/// Keeps the issues that `filter` admits, in order.
pub fn filter_issues(issues: Vec<Issue>, filter: &FilterObject) -> (r: Vec<Issue>)
    ensures
        r@ == keep_matching(issues@, *filter),
{
    let mut rest = issues;
    let mut kept: Vec<Issue> = Vec::new();
    let ghost all = rest@;
    let total = rest.len();
    let mut n: usize = 0;
    while rest.len() > 0
        invariant
            total == all.len(),
            n + rest@.len() == all.len(),
            rest@ == all.subrange(n as int, all.len() as int),
            kept@ == keep_matching(all.subrange(0, n as int), *filter),
        decreases rest.len(),
    {
        let item = rest.remove(0);
        let ghost pre = all.subrange(0, n as int);
        let ghost next = all.subrange(0, n + 1);
        assert(next.drop_last() =~= pre);
        assert(next.last() == item);
        if filter.admits_issue(&item) {
            kept.push(item);
        }
        assert(kept@ =~= keep_matching(next, *filter));
        assert(rest@ =~= all.subrange(n + 1, all.len() as int));
        n = n + 1;
    }
    assert(all.subrange(0, n as int) =~= all);
    kept
}

/// Whether a collection id passes the UI's project selection: an absent or
/// empty list selects every collection.
pub open spec fn project_selected(sel: Option<Vec<i64>>, id: i64) -> bool {
    match sel {
        Some(l) => l@.len() == 0 || l@.contains(id),
        None => true,
    }
}

pub open spec fn keep_selected(s: Seq<i64>, sel: Option<Vec<i64>>) -> Seq<i64>
    decreases s.len(),
{
    if s.len() == 0 {
        Seq::empty()
    } else {
        keep_selected(s.drop_last(), sel) + (if project_selected(sel, s.last()) { seq![s.last()] } else { Seq::empty() })
    }
}

/// The collections to query: the configured ones that the filter's
/// project dimension selects, in configured order.
pub fn select_target_projects(configured: &Vec<i64>, filter: &FilterObject) -> (r: Vec<i64>)
    ensures
        r@ == keep_selected(configured@, filter.project_ids),
{
    let mut out: Vec<i64> = Vec::new();
    let mut i: usize = 0;
    while i < configured.len()
        invariant
            i <= configured@.len(),
            out@ == keep_selected(configured@.subrange(0, i as int), filter.project_ids),
        decreases configured.len() - i,
    {
        let id = configured[i];
        let keep = match &filter.project_ids {
            Some(l) => l.len() == 0 || contains_id(l, id),
            None => true,
        };
        if keep {
            out.push(id);
        }
        let ghost next = configured@.subrange(0, i + 1);
        assert(next.drop_last() =~= configured@.subrange(0, i as int));
        assert(out@ =~= keep_selected(next, filter.project_ids));
        i = i + 1;
    }
    assert(configured@.subrange(0, i as int) =~= configured@);
    out
}

/// The id list that `serde_json` reads from a JSON text, if it reads one.
pub uninterp spec fn json_id_list(s: Seq<char>) -> Option<Seq<i64>>;

/// Relies on `serde_json::from_str::<Vec<i64>>`: the list a JSON array of
/// integers denotes, or `None` for any other text.
#[verifier::external_body]
fn parse_id_list(s: &str) -> (r: Option<Vec<i64>>)
    ensures
        match r {
            Some(v) => json_id_list(s@) == Some(v@),
            None => json_id_list(s@) is None,
        },
{
    serde_json::from_str::<Vec<i64>>(s).ok()
}

/// The collections selected in the persisted configuration value; no
/// value, or one that is not a JSON list of ids, selects none.
pub fn selected_project_ids(stored: Option<&str>) -> (r: Vec<i64>)
    ensures
        r@ == match stored {
            Some(s) => match json_id_list(s@) {
                Some(v) => v,
                None => Seq::empty(),
            },
            None => Seq::empty(),
        },
{
    match stored {
        Some(s) => match parse_id_list(s) {
            Some(v) => v,
            None => Vec::new(),
        },
        None => Vec::new(),
    }
}

/// The JSON text that `serde_json` writes for a list of ids.
pub uninterp spec fn json_of_ids(s: Seq<i64>) -> Seq<char>;

/// Relies on `serde_json::to_string` on a `Vec<i64>`: the JSON array of
/// the ids. Writing integers into memory cannot fail, so the error arm
/// never runs.
#[verifier::external_body]
fn encode_id_list(ids: &Vec<i64>) -> (r: String)
    ensures
        r@ == json_of_ids(ids@),
{
    serde_json::to_string(ids).unwrap_or_default()
}

/// The configuration value that records a selection of collections.
pub fn selection_config_value(ids: &Vec<i64>) -> (r: String)
    ensures
        r@ == json_of_ids(ids@),
{
    encode_id_list(ids)
}

/// The collections an aggregation queries: those of the persisted
/// selection that the filter's project dimension keeps.
pub fn target_projects(stored: Option<&str>, filter: &FilterObject) -> (r: Vec<i64>)
    ensures
        r@ == keep_selected(
            match stored {
                Some(s) => match json_id_list(s@) {
                    Some(v) => v,
                    None => Seq::empty(),
                },
                None => Seq::empty(),
            },
            filter.project_ids,
        ),
{
    let configured = selected_project_ids(stored);
    select_target_projects(&configured, filter)
}

} // verus!
