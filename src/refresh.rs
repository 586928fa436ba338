//! Decisions of the credential-refresh middleware. A wrapped operation runs
//! once; if it fails as unauthorized, the credentials are refreshed once and
//! the operation runs once more. The driver that performs the actions (runs
//! the operation, talks to the refresh endpoint, writes the store) feeds
//! each outcome back as an event.

use vstd::prelude::*;
use crate::models::TokenPair;

verus! {

#[derive(Debug, Clone, Copy, PartialEq, Eq, Structural)]
pub enum RefreshState {
    /// The operation has been started for the first time.
    AwaitingFirst,
    /// A refresh exchange is under way.
    AwaitingRefresh,
    /// The operation has been started a second time.
    AwaitingRetry,
    /// A result has been handed back.
    Done,
}

#[derive(Debug, Clone, Copy, PartialEq, Eq, Structural)]
pub enum RefreshEvent {
    /// The operation returned; `unauthorized` when it failed as such.
    OperationReturned { unauthorized: bool },
    /// The new credential pair has been obtained and stored.
    RefreshSucceeded,
    /// Obtaining or storing the new pair failed.
    RefreshFailed,
}

#[derive(Debug, Clone, Copy, PartialEq, Eq, Structural)]
pub enum RefreshAction {
    RunOperation,
    RefreshCredentials,
    /// Hand back what the last run of the operation returned.
    ReturnOperationResult,
    /// Hand back the error of the refresh exchange.
    ReturnRefreshError,
}

/// The events that can follow in each state.
pub open spec fn accepts(s: RefreshState, e: RefreshEvent) -> bool {
    match s {
        RefreshState::AwaitingFirst => e is OperationReturned,
        RefreshState::AwaitingRefresh => !(e is OperationReturned),
        RefreshState::AwaitingRetry => e is OperationReturned,
        RefreshState::Done => false,
    }
}

pub open spec fn step_spec(s: RefreshState, e: RefreshEvent) -> (RefreshState, RefreshAction) {
    match s {
        RefreshState::AwaitingFirst => match e {
            RefreshEvent::OperationReturned { unauthorized } => if unauthorized {
                (RefreshState::AwaitingRefresh, RefreshAction::RefreshCredentials)
            } else {
                (RefreshState::Done, RefreshAction::ReturnOperationResult)
            },
            _ => (RefreshState::Done, RefreshAction::ReturnOperationResult),
        },
        RefreshState::AwaitingRefresh => match e {
            RefreshEvent::RefreshSucceeded => (RefreshState::AwaitingRetry, RefreshAction::RunOperation),
            _ => (RefreshState::Done, RefreshAction::ReturnRefreshError),
        },
        _ => (RefreshState::Done, RefreshAction::ReturnOperationResult),
    }
}

/// How many steps at most remain before a result is handed back.
pub open spec fn remaining_steps(s: RefreshState) -> nat {
    match s {
        RefreshState::AwaitingFirst => 3,
        RefreshState::AwaitingRefresh => 2,
        RefreshState::AwaitingRetry => 1,
        RefreshState::Done => 0,
    }
}

/// The first decision: run the operation.
pub fn refresh_start() -> (r: (RefreshState, RefreshAction))
    ensures
        r == (RefreshState::AwaitingFirst, RefreshAction::RunOperation),
{
    (RefreshState::AwaitingFirst, RefreshAction::RunOperation)
}

/// The next state and action after `event` in state `state`.
pub fn refresh_step(state: RefreshState, event: RefreshEvent) -> (r: (RefreshState, RefreshAction))
    requires
        accepts(state, event),
    ensures
        r == step_spec(state, event),
{
    match state {
        RefreshState::AwaitingFirst => match event {
            RefreshEvent::OperationReturned { unauthorized } => if unauthorized {
                (RefreshState::AwaitingRefresh, RefreshAction::RefreshCredentials)
            } else {
                (RefreshState::Done, RefreshAction::ReturnOperationResult)
            },
            _ => (RefreshState::Done, RefreshAction::ReturnOperationResult),
        },
        RefreshState::AwaitingRefresh => match event {
            RefreshEvent::RefreshSucceeded => (RefreshState::AwaitingRetry, RefreshAction::RunOperation),
            _ => (RefreshState::Done, RefreshAction::ReturnRefreshError),
        },
        _ => (RefreshState::Done, RefreshAction::ReturnOperationResult),
    }
}

/// Every step moves closer to a handed-back result, a result is handed back
/// exactly when the machine is done, and the first state is never entered
/// again: so a wrapped call refreshes at most once and runs the operation at
/// most twice, and never loops.
pub proof fn lemma_refresh_bounded(s: RefreshState, e: RefreshEvent)
    requires
        accepts(s, e),
    ensures
        remaining_steps(step_spec(s, e).0) < remaining_steps(s),
        step_spec(s, e).0 != RefreshState::AwaitingFirst,
        step_spec(s, e).1 == RefreshAction::RefreshCredentials ==> s == RefreshState::AwaitingFirst,
        step_spec(s, e).1 == RefreshAction::RunOperation ==> s == RefreshState::AwaitingRefresh,
        (step_spec(s, e).0 == RefreshState::Done) == (step_spec(s, e).1 is ReturnOperationResult
            || step_spec(s, e).1 is ReturnRefreshError),
{
}

/// Only an unauthorized failure of the first run leads to a refresh; any
/// other outcome of either run is handed back as it is.
pub proof fn lemma_refresh_only_on_unauthorized(s: RefreshState, unauthorized: bool)
    requires
        s == RefreshState::AwaitingFirst || s == RefreshState::AwaitingRetry,
    ensures
        step_spec(s, RefreshEvent::OperationReturned { unauthorized }).1 == (if s
            == RefreshState::AwaitingFirst && unauthorized {
            RefreshAction::RefreshCredentials
        } else {
            RefreshAction::ReturnOperationResult
        }),
{
}

/// How many refresh exchanges a run from `s` starts, feeding the events of
/// `es` in order for as long as they are accepted.
pub open spec fn refreshes_in_run(s: RefreshState, es: Seq<RefreshEvent>) -> nat
    decreases es.len(),
{
    if es.len() == 0 || !accepts(s, es[0]) {
        0
    } else {
        let next = step_spec(s, es[0]);
        (if next.1 is RefreshCredentials { 1nat } else { 0nat }) + refreshes_in_run(next.0, es.drop_first())
    }
}

/// How many steps a run from `s` takes on the events of `es`.
pub open spec fn steps_in_run(s: RefreshState, es: Seq<RefreshEvent>) -> nat
    decreases es.len(),
{
    if es.len() == 0 || !accepts(s, es[0]) {
        0
    } else {
        1 + steps_in_run(step_spec(s, es[0]).0, es.drop_first())
    }
}

proof fn lemma_no_refresh_after_first(s: RefreshState, es: Seq<RefreshEvent>)
    requires
        s != RefreshState::AwaitingFirst,
    ensures
        refreshes_in_run(s, es) == 0,
    decreases es.len(),
{
    if es.len() > 0 && accepts(s, es[0]) {
        lemma_refresh_bounded(s, es[0]);
        lemma_no_refresh_after_first(step_spec(s, es[0]).0, es.drop_first());
    }
}

/// Whatever the outcomes, one wrapped call starts at most one refresh
/// exchange and ends within three steps (first run, refresh, second run).
pub proof fn lemma_run_refreshes_at_most_once(es: Seq<RefreshEvent>)
    ensures
        refreshes_in_run(RefreshState::AwaitingFirst, es) <= 1,
        steps_in_run(RefreshState::AwaitingFirst, es) <= 3,
{
    if es.len() > 0 && accepts(RefreshState::AwaitingFirst, es[0]) {
        lemma_refresh_bounded(RefreshState::AwaitingFirst, es[0]);
        lemma_no_refresh_after_first(step_spec(RefreshState::AwaitingFirst, es[0]).0, es.drop_first());
    }
    lemma_steps_bounded(RefreshState::AwaitingFirst, es);
}

proof fn lemma_steps_bounded(s: RefreshState, es: Seq<RefreshEvent>)
    ensures
        steps_in_run(s, es) <= remaining_steps(s),
    decreases es.len(),
{
    if es.len() > 0 && accepts(s, es[0]) {
        lemma_refresh_bounded(s, es[0]);
        lemma_steps_bounded(step_spec(s, es[0]).0, es.drop_first());
    }
}

/// The two credential slots of the store.
#[derive(Debug, Clone, Copy, PartialEq, Eq, Structural)]
pub enum CredentialSlot {
    AccessToken,
    RefreshToken,
}

/// One write to the credential store.
#[derive(Debug)]
pub struct CredentialWrite {
    pub slot: CredentialSlot,
    pub value: String,
}

/// The writes that persist a refreshed pair, in the order they must be made:
/// the refresh token first, so that a failure between the two writes never
/// leaves a fresh access token beside a spent refresh token.
pub fn refreshed_credential_writes(pair: TokenPair) -> (r: Vec<CredentialWrite>)
    ensures
        r@.len() == 2,
        r@[0].slot == CredentialSlot::RefreshToken,
        r@[0].value == pair.refresh,
        r@[1].slot == CredentialSlot::AccessToken,
        r@[1].value == pair.auth_token,
{
    let mut writes: Vec<CredentialWrite> = Vec::new();
    writes.push(CredentialWrite { slot: CredentialSlot::RefreshToken, value: pair.refresh });
    writes.push(CredentialWrite { slot: CredentialSlot::AccessToken, value: pair.auth_token });
    writes
}

} // verus!
