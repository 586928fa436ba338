//! The optimistic update protocol: a sparse patch carrying the version the
//! client last saw, its wire form, and how a stale version is surfaced.

use vstd::prelude::*;
use vstd::string::*;
use crate::error::{Error, TaigaClientError, failure_class, lift_client_error, reports_version_mismatch};
use crate::refresh::{RefreshAction, RefreshEvent, RefreshState, step_spec};
use crate::text::{int_decimal, parse_int, parse_int_spec, push_int, starts_with_text, text_equals,
    lemma_parse_int_decimal, lemma_nat_digits, is_digit};

verus! {

/// One optional field of a sparse patch: left as it is, cleared, or set.
#[derive(Debug, Clone, Copy, PartialEq, Eq, Structural)]
pub enum FieldPatch<T> {
    Unset,
    Clear,
    Value(T),
}

/// A partial update of an issue, guarded by the version the client last
/// observed. Only the fields that are set travel on the wire.
#[derive(Debug, Clone)]
pub struct PatchIssueRequest {
    pub version: i64,
    pub status: Option<i64>,
    pub assigned_to: FieldPatch<i64>,
    pub comment: Option<String>,
}

/// The JSON string literal that `serde_json` writes for a text.
pub uninterp spec fn json_string_literal(s: Seq<char>) -> Seq<char>;

/// Relies on `serde_json::to_string` on a `str`: the quoted, escaped JSON
/// literal of the text. Writing a string into memory cannot fail, so the
/// error arm never runs.
#[verifier::external_body]
fn quote_json(s: &str) -> (r: String)
    ensures
        r@ == json_string_literal(s@),
{
    serde_json::to_string(s).unwrap_or_default()
}

pub open spec fn assignee_key() -> Seq<char> {
    "\"assigned_to\":"@
}

/// The object member that carries an assignee patch; empty when the field
/// is left unchanged.
pub open spec fn assignee_member(p: FieldPatch<i64>) -> Seq<char> {
    match p {
        FieldPatch::Unset => Seq::empty(),
        FieldPatch::Clear => assignee_key() + "null"@,
        FieldPatch::Value(a) => assignee_key() + int_decimal(a as int),
    }
}

/// The JSON body of a patch request: the version, then each field that is
/// set, in a fixed order.
pub open spec fn patch_body(r: PatchIssueRequest) -> Seq<char> {
    "{\"version\":"@ + int_decimal(r.version as int) + (match r.status {
        Some(s) => ",\"status\":"@ + int_decimal(s as int),
        None => Seq::empty(),
    }) + (match r.assigned_to {
        FieldPatch::Unset => Seq::empty(),
        _ => ","@ + assignee_member(r.assigned_to),
    }) + (match r.comment {
        Some(c) => ",\"comment\":"@ + json_string_literal(c@),
        None => Seq::empty(),
    }) + "}"@
}

/// The assignee patch that a member text denotes, if any.
pub open spec fn decode_assignee_spec(s: Seq<char>) -> Option<FieldPatch<i64>> {
    let key = assignee_key();
    if s.len() == 0 {
        Some(FieldPatch::Unset)
    } else if key.len() <= s.len() && s.subrange(0, key.len() as int) == key {
        let rest = s.subrange(key.len() as int, s.len() as int);
        if rest == "null"@ {
            Some(FieldPatch::Clear)
        } else {
            match parse_int_spec(rest) {
                Some(v) => Some(FieldPatch::Value(v as i64)),
                None => None,
            }
        }
    } else {
        None
    }
}

fn push_assignee_member(out: &mut String, p: FieldPatch<i64>)
    ensures
        final(out)@ == old(out)@ + assignee_member(p),
{
    match p {
        FieldPatch::Unset => {
            assert(old(out)@ + Seq::<char>::empty() =~= old(out)@);
        },
        FieldPatch::Clear => {
            out.append("\"assigned_to\":");
            out.append("null");
            assert(final(out)@ =~= old(out)@ + assignee_member(p));
        },
        FieldPatch::Value(a) => {
            out.append("\"assigned_to\":");
            push_int(out, a);
            assert(final(out)@ =~= old(out)@ + assignee_member(p));
        },
    }
}

impl FieldPatch<i64> {
    /// The wire form of an assignee patch: the `assigned_to` member, or
    /// nothing when the field is left unchanged.
    pub fn assignee_wire(&self) -> (r: String)
        ensures
            r@ == assignee_member(*self),
    {
        let mut out = String::new();
        push_assignee_member(&mut out, *self);
        assert(out@ =~= assignee_member(*self));
        out
    }

    /// Reads an assignee patch back from its wire form.
    pub fn from_assignee_wire(s: &str) -> (r: Option<FieldPatch<i64>>)
        ensures
            r == decode_assignee_spec(s@),
    {
        let len = s.unicode_len();
        if len == 0 {
            return Some(FieldPatch::Unset);
        }
        let key = "\"assigned_to\":";
        proof {
            reveal_strlit("\"assigned_to\":");
        }
        if !starts_with_text(s, key) {
            return None;
        }
        let klen = key.unicode_len();
        let rest = s.substring_char(klen, len);
        if text_equals(rest, "null") {
            return Some(FieldPatch::Clear);
        }
        match parse_int(rest) {
            Some(v) => Some(FieldPatch::Value(v)),
            None => None,
        }
    }
}

impl PatchIssueRequest {
    /// The JSON body sent with the patch.
    pub fn to_body(&self) -> (r: String)
        ensures
            r@ == patch_body(*self),
    {
        let mut out = String::new();
        out.append("{\"version\":");
        push_int(&mut out, self.version);
        let ghost a = out@;
        match self.status {
            Some(s) => {
                out.append(",\"status\":");
                push_int(&mut out, s);
            },
            None => {},
        }
        let ghost b = out@;
        match self.assigned_to {
            FieldPatch::Unset => {},
            _ => {
                out.append(",");
                push_assignee_member(&mut out, self.assigned_to);
            },
        }
        let ghost c = out@;
        match &self.comment {
            Some(text) => {
                out.append(",\"comment\":");
                let quoted = quote_json(text.as_str());
                out.append(quoted.as_str());
            },
            None => {},
        }
        out.append("}");
        assert(out@ =~= patch_body(*self));
        out
    }
}

/// Each assignee patch reads back as itself from its wire form, so the
/// three states (unchanged, unassign, assign) have three distinct wire
/// forms, and reading then writing again gives back the same form.
pub proof fn lemma_assignee_round_trip(p: FieldPatch<i64>)
    ensures
        decode_assignee_spec(assignee_member(p)) == Some(p),
        assignee_member(decode_assignee_spec(assignee_member(p)).unwrap()) == assignee_member(p),
        forall|q: FieldPatch<i64>| assignee_member(q) == assignee_member(p) ==> q == p,
{
    reveal_strlit("\"assigned_to\":");
    reveal_strlit("null");
    assert forall|q: FieldPatch<i64>| #![auto] decode_assignee_spec(assignee_member(q)) == Some(q) by {
        let key = assignee_key();
        let s = assignee_member(q);
        match q {
            FieldPatch::Unset => {},
            FieldPatch::Clear => {
                assert(s.subrange(0, key.len() as int) =~= key);
                assert(s.subrange(key.len() as int, s.len() as int) =~= "null"@);
            },
            FieldPatch::Value(a) => {
                assert(s.subrange(0, key.len() as int) =~= key);
                let rest = s.subrange(key.len() as int, s.len() as int);
                assert(rest =~= int_decimal(a as int));
                lemma_parse_int_decimal(a as int);
                if a < 0 {
                    assert(rest[0] == '-');
                } else {
                    lemma_nat_digits(a as nat);
                    assert(is_digit(rest[0]));
                }
                assert(rest != "null"@) by {
                    if rest == "null"@ {
                        assert(rest[0] == 'n');
                    }
                }
            },
        }
    }
    assert forall|q: FieldPatch<i64>| assignee_member(q) == assignee_member(p) implies q == p by {
        assert(decode_assignee_spec(assignee_member(q)) == Some(q));
    }
}

/// A stale-version rejection (412, or a 400 whose body reports a version
/// mismatch) reaches the caller as `Error::VersionConflict`: it is neither
/// taken for an expired credential nor retried.
pub proof fn lemma_stale_version_is_conflict(status: u16, lowered: Seq<char>, body: Seq<char>)
    requires
        status == 412 || (status == 400 && reports_version_mismatch(lowered, body)),
    ensures
        failure_class(status, lowered, body) == TaigaClientError::VersionConflict(status),
        lift_client_error(failure_class(status, lowered, body)) == Error::VersionConflict,
        step_spec(
            RefreshState::AwaitingFirst,
            RefreshEvent::OperationReturned { unauthorized: failure_class(status, lowered, body) is Unauthorized },
        ) == (RefreshState::Done, RefreshAction::ReturnOperationResult),
{
}

} // verus!
