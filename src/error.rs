//! The closed error taxonomy of the remote client, the classifier that maps
//! failed responses onto it, and the application-level error.

use vstd::prelude::*;
use vstd::string::*;
use crate::text::{contains_seq, contains_text, lower_of, lowercase, int_decimal, format_int};

verus! {

/// Longest prefix of an undecodable body, in characters, that a decode
/// error keeps for diagnosis.
pub const DECODE_EXCERPT_LIMIT: usize = 2000;

/// Why a remote call failed.
#[derive(Debug, Clone, PartialEq, Eq)]
pub enum TaigaClientError {
    /// The request never got a response (DNS, TLS, reset, timeout).
    Network(String),
    /// The request URL could not be built.
    UrlParse(String),
    /// 404.
    EndpointNotFound(u16),
    /// 401 or 403.
    Unauthorized(u16),
    /// 412, or a 400 whose body reports a version mismatch.
    VersionConflict(u16),
    /// A successful response whose body did not decode; holds a bounded
    /// prefix of that body.
    Decode(String),
    /// Any other non-success status.
    RequestFailed(u16),
}

pub open spec fn is_success_status(status: u16) -> bool {
    200 <= status <= 299
}

/// A body that reports a stale version: "version" in any case, together
/// with "doesn't match" or "does not match".
pub open spec fn reports_version_mismatch(lowered: Seq<char>, body: Seq<char>) -> bool {
    contains_seq(lowered, "version"@) && (contains_seq(body, "doesn't match"@)
        || contains_seq(body, "does not match"@))
}

/// How a non-success response is classified, given its status, its body
/// folded to lower case, and its body.
pub open spec fn failure_class(status: u16, lowered: Seq<char>, body: Seq<char>) -> TaigaClientError {
    if status == 412 || (status == 400 && reports_version_mismatch(lowered, body)) {
        TaigaClientError::VersionConflict(status)
    } else if status == 404 {
        TaigaClientError::EndpointNotFound(status)
    } else if status == 401 || status == 403 {
        TaigaClientError::Unauthorized(status)
    } else {
        TaigaClientError::RequestFailed(status)
    }
}

impl TaigaClientError {
    /// Classifies a non-success response whose body has already been folded
    /// to lower case (`lowered`).
    pub fn classify_lowered(status: u16, lowered: &str, body: &str) -> (r: TaigaClientError)
        ensures
            r == failure_class(status, lowered@, body@),
    {
        if status == 412 {
            return TaigaClientError::VersionConflict(status);
        }
        if status == 400 {
            proof {
                reveal_strlit("version");
                reveal_strlit("doesn't match");
                reveal_strlit("does not match");
            }
            if contains_text(lowered, "version") && (contains_text(body, "doesn't match")
                || contains_text(body, "does not match")) {
                return TaigaClientError::VersionConflict(status);
            }
        }
        if status == 404 {
            TaigaClientError::EndpointNotFound(status)
        } else if status == 401 || status == 403 {
            TaigaClientError::Unauthorized(status)
        } else {
            TaigaClientError::RequestFailed(status)
        }
    }

    /// Classifies a non-success response by its status and body.
    pub fn classify(status: u16, body: &str) -> (r: TaigaClientError)
        ensures
            r == failure_class(status, lower_of(body@), body@),
    {
        let lowered = lowercase(body);
        Self::classify_lowered(status, lowered.as_str(), body)
    }

    /// The error for a successful response whose body did not decode: it
    /// keeps the body's first `DECODE_EXCERPT_LIMIT` characters.
    pub fn decode_failure(body: &str) -> (r: TaigaClientError)
        ensures
            r matches TaigaClientError::Decode(m) && m@ == body@.subrange(
                0,
                if body@.len() < DECODE_EXCERPT_LIMIT { body@.len() as int } else { DECODE_EXCERPT_LIMIT as int },
            ),
    {
        let len = body.unicode_len();
        let end = if len < DECODE_EXCERPT_LIMIT { len } else { DECODE_EXCERPT_LIMIT };
        let excerpt = body.substring_char(0, end);
        TaigaClientError::Decode(String::from_str(excerpt))
    }

    pub fn is_unauthorized(&self) -> (r: bool)
        ensures
            r == (self is Unauthorized),
    {
        match self {
            TaigaClientError::Unauthorized(_) => true,
            _ => false,
        }
    }

    pub fn is_version_conflict(&self) -> (r: bool)
        ensures
            r == (self is VersionConflict),
    {
        match self {
            TaigaClientError::VersionConflict(_) => true,
            _ => false,
        }
    }

    /// A human-readable description of the error.
    pub fn message(&self) -> (r: String)
        ensures
            r@ == client_error_text(*self),
    {
        proof {
            reveal_strlit("HTTP Request failed: ");
            reveal_strlit("Invalid URL: ");
            reveal_strlit("Serialization error: ");
            reveal_strlit("Request failed with status: ");
        }
        match self {
            TaigaClientError::Network(m) => String::from_str("HTTP Request failed: ").concat(m.as_str()),
            TaigaClientError::UrlParse(m) => String::from_str("Invalid URL: ").concat(m.as_str()),
            TaigaClientError::EndpointNotFound(_) => String::from_str(
                "The requested endpoint was not found (404).",
            ),
            TaigaClientError::Unauthorized(_) => String::from_str(
                "Invalid credentials or insufficient permissions (401/403).",
            ),
            TaigaClientError::VersionConflict(_) => String::from_str(
                "Version conflict: the resource was modified by another user.",
            ),
            TaigaClientError::Decode(m) => String::from_str("Serialization error: ").concat(m.as_str()),
            TaigaClientError::RequestFailed(s) => {
                let code = format_int(*s as i64);
                String::from_str("Request failed with status: ").concat(code.as_str())
            },
        }
    }
}

pub open spec fn client_error_text(e: TaigaClientError) -> Seq<char> {
    match e {
        TaigaClientError::Network(m) => "HTTP Request failed: "@ + m@,
        TaigaClientError::UrlParse(m) => "Invalid URL: "@ + m@,
        TaigaClientError::EndpointNotFound(_) => "The requested endpoint was not found (404)."@,
        TaigaClientError::Unauthorized(_) => "Invalid credentials or insufficient permissions (401/403)."@,
        TaigaClientError::VersionConflict(_) => "Version conflict: the resource was modified by another user."@,
        TaigaClientError::Decode(m) => "Serialization error: "@ + m@,
        TaigaClientError::RequestFailed(s) => "Request failed with status: "@ + int_decimal(s as int),
    }
}

/// Application-level error, as surfaced to the presentation layer.
#[derive(Debug, Clone)]
pub enum Error {
    /// A remote failure other than an expired credential or a stale version.
    TaigaClient(TaigaClientError),
    Keyring(String),
    Serde(String),
    Tauri(String),
    UrlParse(String),
    Database(String),
    Io(String),
    /// The remote copy changed since it was read: reload and retry.
    VersionConflict,
    /// The credential was rejected and could not be renewed.
    Unauthorized,
    InvalidInput(String),
}

/// How a client error is surfaced to the application.
pub open spec fn lift_client_error(e: TaigaClientError) -> Error {
    match e {
        TaigaClientError::VersionConflict(_) => Error::VersionConflict,
        TaigaClientError::Unauthorized(_) => Error::Unauthorized,
        other => Error::TaigaClient(other),
    }
}

impl From<TaigaClientError> for Error {
    fn from(e: TaigaClientError) -> (r: Error)
        ensures
            r == lift_client_error(e),
    {
        match e {
            TaigaClientError::VersionConflict(_) => Error::VersionConflict,
            TaigaClientError::Unauthorized(_) => Error::Unauthorized,
            other => Error::TaigaClient(other),
        }
    }
}

impl vstd::std_specs::convert::FromSpecImpl<TaigaClientError> for Error {
    open spec fn obeys_from_spec() -> bool {
        true
    }

    open spec fn from_spec(e: TaigaClientError) -> Error {
        lift_client_error(e)
    }
}

/// Whether an application error stands for a rejected credential.
pub fn is_unauthorized(err: &Error) -> (r: bool)
    ensures
        r == (*err is Unauthorized),
{
    match err {
        Error::Unauthorized => true,
        _ => false,
    }
}

} // verus!
