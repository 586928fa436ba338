//! Synchronisation core of a desktop issue-tracker client.
//!
//! - `error`: the closed taxonomy of remote failures and the classifier
//!   that maps failed responses onto it.
//! - `transport`: methods, paths and queries of the remote operations.
//! - `refresh`: decisions of the retry-once-after-refresh middleware.
//! - `filter` and `aggregate`: which collections to query, and the fan-in
//!   of their results into one recency-ordered list.
//! - `patch`: the version-guarded sparse patch and its wire form.
//! - `sanitize`: pruning saved views of ids that no longer exist.
//! - `models` and `domain`: wire records and the view models built from them.
//! - `input` and `text`: input checks and text helpers.

pub mod aggregate;
pub mod domain;
pub mod error;
pub mod filter;
pub mod input;
pub mod models;
pub mod patch;
pub mod refresh;
pub mod sanitize;
pub mod text;
pub mod transport;
