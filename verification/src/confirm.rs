//! Waiting until the ledger has accepted a transaction: the ledger is asked
//! for the receipt a bounded number of times, with a pause in between.

use vstd::prelude::*;
use crate::gateway::{ErrorCode, LedgerError, ProviderFailure};

verus! {

/// How often the ledger is asked for a receipt before the wait is given up.
pub const ACCEPTANCE_POLLS: u32 = 120;

/// The pause between two requests for a receipt, in milliseconds.
pub const POLL_PAUSE_MILLIS: u64 = 500;

/// The ledger's answer to a request for a transaction's receipt.
#[derive(Clone, Copy, Debug, PartialEq, Eq, Structural)]
pub enum ReceiptReply {
    /// The ledger holds a receipt: the transaction is accepted.
    Found,
    /// The request failed.
    Failed(ProviderFailure),
}

/// What the caller does next while it waits.
#[derive(Clone, Copy, Debug, PartialEq, Eq, Structural)]
pub enum AcceptanceAction {
    /// Go on with the run: the transaction is accepted, or nothing was to be
    /// waited for.
    Proceed,
    /// Ask the ledger for the receipt.
    Poll,
    /// Pause, then ask the ledger for the receipt.
    PauseThenPoll,
    /// Stop the run with this failure.
    GiveUp(ProviderFailure),
}

/// The failure that says the ledger does not know the transaction yet.
pub open spec fn not_yet() -> ProviderFailure {
    ProviderFailure::Ledger(ErrorCode::Known(LedgerError::TransactionHashNotFound))
}

/// How a wait starts: with the first request and all polls left, or with
/// nothing to do where the run does not wait.
pub open spec fn begin_acceptance_spec(wait: bool) -> (u32, AcceptanceAction) {
    if wait {
        (ACCEPTANCE_POLLS, AcceptanceAction::Poll)
    } else {
        (0, AcceptanceAction::Proceed)
    }
}

/// The step that a wait takes on a reply, with `polls_left` requests
/// allowed, the one just answered among them. Only the answer that the
/// transaction is not known yet leads to another request; when none is left,
/// the wait has timed out.
pub open spec fn acceptance_step_spec(polls_left: u32, reply: ReceiptReply) -> (
    u32,
    AcceptanceAction,
) {
    match reply {
        ReceiptReply::Found => (polls_left, AcceptanceAction::Proceed),
        ReceiptReply::Failed(why) => if why != not_yet() {
            (polls_left, AcceptanceAction::GiveUp(why))
        } else if polls_left > 1 {
            ((polls_left - 1) as u32, AcceptanceAction::PauseThenPoll)
        } else {
            (0, AcceptanceAction::GiveUp(ProviderFailure::TimedOut))
        },
    }
}

/// Starts a wait: the polls that are left, and what to do first.
pub fn begin_acceptance(wait: bool) -> (r: (u32, AcceptanceAction))
    ensures
        r == begin_acceptance_spec(wait),
{
    if wait {
        (ACCEPTANCE_POLLS, AcceptanceAction::Poll)
    } else {
        (0, AcceptanceAction::Proceed)
    }
}

/// Takes one step of a wait: the polls that are left, and what to do.
pub fn acceptance_step(polls_left: u32, reply: ReceiptReply) -> (r: (u32, AcceptanceAction))
    ensures
        r == acceptance_step_spec(polls_left, reply),
{
    match reply {
        ReceiptReply::Found => (polls_left, AcceptanceAction::Proceed),
        ReceiptReply::Failed(why) => {
            let unknown = matches!(
                why,
                ProviderFailure::Ledger(ErrorCode::Known(LedgerError::TransactionHashNotFound))
            );
            if !unknown {
                (polls_left, AcceptanceAction::GiveUp(why))
            } else if polls_left > 1 {
                (polls_left - 1, AcceptanceAction::PauseThenPoll)
            } else {
                (0, AcceptanceAction::GiveUp(ProviderFailure::TimedOut))
            }
        },
    }
}

/// A wait ends: every further request uses up one of the polls that are
/// left, and a wait never asks again once none is left.
pub proof fn lemma_wait_is_bounded(polls_left: u32, reply: ReceiptReply)
    ensures
        ({
            let next = acceptance_step_spec(polls_left, reply);
            &&& next.1 != AcceptanceAction::Poll
            &&& next.1 == AcceptanceAction::PauseThenPoll ==> 1 <= next.0 < polls_left
            &&& next.0 <= polls_left
        }),
{
}

/// A wait asks again only where the ledger does not know the transaction
/// yet, and proceeds only on a receipt.
pub proof fn lemma_wait_follows_reply(polls_left: u32, reply: ReceiptReply)
    ensures
        ({
            let next = acceptance_step_spec(polls_left, reply);
            &&& next.1 == AcceptanceAction::PauseThenPoll ==> reply == ReceiptReply::Failed(
                not_yet(),
            )
            &&& next.1 == AcceptanceAction::Proceed <==> reply == ReceiptReply::Found
        }),
{
}

} // verus!
