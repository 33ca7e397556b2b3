use yas_deploy::confirm::{
    acceptance_step, begin_acceptance, AcceptanceAction, ReceiptReply, ACCEPTANCE_POLLS,
    POLL_PAUSE_MILLIS,
};
use yas_deploy::gateway::{ErrorCode, LedgerError, ProviderFailure};

const NOT_YET: ProviderFailure =
    ProviderFailure::Ledger(ErrorCode::Known(LedgerError::TransactionHashNotFound));

#[test]
fn a_wait_starts_with_a_poll_and_all_polls_left() {
    assert_eq!(ACCEPTANCE_POLLS, 120);
    assert_eq!(POLL_PAUSE_MILLIS, 500);
    assert_eq!(begin_acceptance(true), (120, AcceptanceAction::Poll));
}

#[test]
fn nothing_is_waited_for_where_the_run_does_not_wait() {
    assert_eq!(begin_acceptance(false), (0, AcceptanceAction::Proceed));
}

#[test]
fn a_receipt_ends_the_wait() {
    assert_eq!(acceptance_step(120, ReceiptReply::Found), (120, AcceptanceAction::Proceed));
    assert_eq!(acceptance_step(1, ReceiptReply::Found), (1, AcceptanceAction::Proceed));
    assert_eq!(acceptance_step(0, ReceiptReply::Found), (0, AcceptanceAction::Proceed));
}

#[test]
fn an_unknown_transaction_is_asked_for_again_after_a_pause() {
    assert_eq!(acceptance_step(120, ReceiptReply::Failed(NOT_YET)), (119, AcceptanceAction::PauseThenPoll));
    assert_eq!(acceptance_step(2, ReceiptReply::Failed(NOT_YET)), (1, AcceptanceAction::PauseThenPoll));
}

#[test]
fn the_wait_times_out_when_no_poll_is_left() {
    let timed_out = (0, AcceptanceAction::GiveUp(ProviderFailure::TimedOut));
    assert_eq!(acceptance_step(1, ReceiptReply::Failed(NOT_YET)), timed_out);
    assert_eq!(acceptance_step(0, ReceiptReply::Failed(NOT_YET)), timed_out);
}

#[test]
fn any_other_failure_ends_the_wait_with_it() {
    for why in [
        ProviderFailure::RateLimited,
        ProviderFailure::Other,
        ProviderFailure::Ledger(ErrorCode::Known(LedgerError::ClassHashNotFound)),
        ProviderFailure::Ledger(ErrorCode::Unknown(25)),
    ] {
        assert_eq!(acceptance_step(7, ReceiptReply::Failed(why)), (7, AcceptanceAction::GiveUp(why)));
    }
}

#[test]
fn a_ledger_that_never_knows_the_transaction_is_asked_120_times() {
    let (mut left, mut action) = begin_acceptance(true);
    let mut polls = 0;
    while matches!(action, AcceptanceAction::Poll | AcceptanceAction::PauseThenPoll) {
        polls += 1;
        (left, action) = acceptance_step(left, ReceiptReply::Failed(NOT_YET));
    }
    assert_eq!(polls, 120);
    assert_eq!((left, action), (0, AcceptanceAction::GiveUp(ProviderFailure::TimedOut)));
}
