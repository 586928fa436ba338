//! The remote API surface: which method and path each operation uses, and
//! the query of a per-collection issue listing.

use vstd::prelude::*;
use vstd::string::*;
use crate::filter::{FilterObject, params_view, query_params_spec};
use crate::text::{int_decimal, format_int};

verus! {

#[derive(Debug, Clone, Copy, PartialEq, Eq, Structural)]
pub enum HttpMethod {
    Get,
    Post,
    Patch,
    Delete,
}

/// The remote operations this client performs.
#[derive(Debug, Clone, Copy, PartialEq, Eq, Structural)]
pub enum Endpoint {
    Login,
    RefreshToken,
    CurrentUser,
    Projects,
    Project(i64),
    Issues,
    Issue(i64),
    IssueHistory(i64),
    PatchIssue(i64),
}

pub open spec fn api_prefix() -> Seq<char> {
    "api/v1/"@
}

/// Path of an operation, relative to the API root.
pub open spec fn relative_path(e: Endpoint) -> Seq<char> {
    match e {
        Endpoint::Login => "auth"@,
        Endpoint::RefreshToken => "auth/refresh"@,
        Endpoint::CurrentUser => "users/me"@,
        Endpoint::Projects => "projects"@,
        Endpoint::Project(id) => "projects/"@ + int_decimal(id as int),
        Endpoint::Issues => "issues"@,
        Endpoint::Issue(id) => "issues/"@ + int_decimal(id as int),
        Endpoint::IssueHistory(id) => "history/issue/"@ + int_decimal(id as int),
        Endpoint::PatchIssue(id) => "issues/"@ + int_decimal(id as int),
    }
}

pub open spec fn method_of(e: Endpoint) -> HttpMethod {
    match e {
        Endpoint::Login => HttpMethod::Post,
        Endpoint::RefreshToken => HttpMethod::Post,
        Endpoint::PatchIssue(_) => HttpMethod::Patch,
        _ => HttpMethod::Get,
    }
}

impl Endpoint {
    pub fn method(&self) -> (r: HttpMethod)
        ensures
            r == method_of(*self),
    {
        match self {
            Endpoint::Login => HttpMethod::Post,
            Endpoint::RefreshToken => HttpMethod::Post,
            Endpoint::PatchIssue(_) => HttpMethod::Patch,
            _ => HttpMethod::Get,
        }
    }

    /// The path of this operation under the versioned API prefix, to be
    /// joined onto the server's base URL.
    pub fn path(&self) -> (r: String)
        ensures
            r@ == api_prefix() + relative_path(*self),
    {
        let rel = match self {
            Endpoint::Login => String::from_str("auth"),
            Endpoint::RefreshToken => String::from_str("auth/refresh"),
            Endpoint::CurrentUser => String::from_str("users/me"),
            Endpoint::Projects => String::from_str("projects"),
            Endpoint::Project(id) => String::from_str("projects/").concat(format_int(*id).as_str()),
            Endpoint::Issues => String::from_str("issues"),
            Endpoint::Issue(id) => String::from_str("issues/").concat(format_int(*id).as_str()),
            Endpoint::IssueHistory(id) => String::from_str("history/issue/").concat(format_int(*id).as_str()),
            Endpoint::PatchIssue(id) => String::from_str("issues/").concat(format_int(*id).as_str()),
        };
        String::from_str("api/v1/").concat(rel.as_str())
    }
}

/// The query of one collection's issue listing: the collection, then the
/// filter's parameters.
pub fn issue_list_query(project_id: i64, filter: &FilterObject) -> (r: Vec<(String, String)>)
    ensures
        params_view(r@) == seq![("project"@, int_decimal(project_id as int))] + query_params_spec(*filter),
{
    let mut q: Vec<(String, String)> = Vec::new();
    q.push((String::from_str("project"), format_int(project_id)));
    let mut rest = filter.query_params();
    let ghost tail = rest@;
    q.append(&mut rest);
    assert(params_view(q@) =~= seq![("project"@, int_decimal(project_id as int))] + params_view(tail));
    q
}

/// The query of the project listing: restricted to one member when given.
pub fn project_list_query(member_id: Option<i64>) -> (r: Vec<(String, String)>)
    ensures
        params_view(r@) == match member_id {
            Some(id) => seq![("member"@, int_decimal(id as int))],
            None => Seq::empty(),
        },
{
    let mut q: Vec<(String, String)> = Vec::new();
    match member_id {
        Some(id) => {
            q.push((String::from_str("member"), format_int(id)));
        },
        None => {},
    }
    assert(params_view(q@) =~= match member_id {
        Some(id) => seq![("member"@, int_decimal(id as int))],
        None => Seq::<(Seq<char>, Seq<char>)>::empty(),
    });
    q
}

} // verus!
