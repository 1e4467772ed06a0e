use coio_core::accept::{
    classify, AcceptAction, AcceptEvent, AcceptState, CancelAction, ErrorKind, SubscribeAction,
    UnixListenerAccept,
};
use coio_core::readiness::ReadinessCell;

const AGAIN: i32 = 11;
const WOULD_BLOCK: i32 = 140;

fn fresh() -> UnixListenerAccept {
    UnixListenerAccept::with_codes(true, AGAIN, WOULD_BLOCK)
}

fn not_cancelled() -> AcceptEvent {
    AcceptEvent::CancelChecked { cancelled: false }
}

fn would_block() -> AcceptEvent {
    AcceptEvent::Refused { raw_os_error: Some(AGAIN) }
}

/// Brings a fresh operation to the point where it is parked in `cell`.
fn parked(cell: &mut ReadinessCell<u32>, co: u32) -> UnixListenerAccept {
    let mut op = fresh();
    assert_eq!(op.done(cell, not_cancelled()), AcceptAction::Accept);
    assert_eq!(op.done(cell, would_block()), AcceptAction::Park);
    assert_eq!(
        op.subscribe(cell, co, false),
        SubscribeAction { schedule: None, bind_cancel: false }
    );
    op
}

#[test]
fn a_new_operation_is_fresh_and_starts_with_the_cancel_check() {
    let op = UnixListenerAccept::new(true);
    assert_eq!(op.state(), AcceptState::Fresh);
    assert!(op.is_coroutine());
    assert_eq!(op.pending(), AcceptAction::CheckCancel);
    let outside = UnixListenerAccept::new(false);
    assert!(!outside.is_coroutine());
}

#[test]
fn a_pending_connection_is_accepted_in_one_attempt() {
    let mut cell: ReadinessCell<u32> = ReadinessCell::new();
    let mut op = fresh();
    assert_eq!(op.done(&mut cell, not_cancelled()), AcceptAction::Accept);
    assert_eq!(op.state(), AcceptState::Accepting);
    assert_eq!(op.done(&mut cell, AcceptEvent::Accepted), AcceptAction::Finish);
    assert_eq!(op.state(), AcceptState::Done);
}

#[test]
fn the_flag_is_cleared_before_the_accept_call() {
    let mut cell: ReadinessCell<u32> = ReadinessCell::new();
    assert_eq!(cell.signal(), None);
    assert!(cell.is_set());
    let mut op = fresh();
    assert_eq!(op.done(&mut cell, not_cancelled()), AcceptAction::Accept);
    assert!(!cell.is_set());
}

#[test]
fn without_a_peer_the_operation_parks_and_a_signal_wakes_it() {
    let mut cell: ReadinessCell<u32> = ReadinessCell::new();
    let mut op = parked(&mut cell, 7);
    assert_eq!(op.state(), AcceptState::Parked);
    assert_eq!(cell.signal(), Some(7));
    assert!(cell.is_set());
    assert_eq!(op.done(&mut cell, AcceptEvent::Woken), AcceptAction::CheckCancel);
    assert_eq!(op.done(&mut cell, not_cancelled()), AcceptAction::Accept);
    assert!(!cell.is_set());
    assert_eq!(op.done(&mut cell, AcceptEvent::Accepted), AcceptAction::Finish);
    assert_eq!(op.state(), AcceptState::Done);
}

#[test]
fn a_wake_with_nothing_pending_costs_one_attempt_and_parks_again() {
    let mut cell: ReadinessCell<u32> = ReadinessCell::new();
    let mut op = parked(&mut cell, 7);
    assert_eq!(cell.signal(), Some(7));
    let mut accepts = 0;
    let mut action = op.done(&mut cell, AcceptEvent::Woken);
    loop {
        let event = match action {
            AcceptAction::CheckCancel => not_cancelled(),
            AcceptAction::Accept => {
                accepts += 1;
                would_block()
            }
            AcceptAction::Park => break,
            AcceptAction::Finish | AcceptAction::Fail(_) => panic!("the operation ended"),
        };
        action = op.done(&mut cell, event);
    }
    assert_eq!(accepts, 1);
    assert_eq!(op.state(), AcceptState::Parked);
    assert_eq!(
        op.subscribe(&mut cell, 7, false),
        SubscribeAction { schedule: None, bind_cancel: false }
    );
}

#[test]
fn cancelling_a_parked_operation_fails_it_with_the_cancellation() {
    let mut cell: ReadinessCell<u32> = ReadinessCell::new();
    let mut op = parked(&mut cell, 7);
    assert_eq!(cell.schedule(), Some(7));
    assert_eq!(op.done(&mut cell, AcceptEvent::Woken), AcceptAction::CheckCancel);
    assert_eq!(
        op.done(&mut cell, AcceptEvent::CancelChecked { cancelled: true }),
        AcceptAction::Fail(ErrorKind::Cancelled)
    );
    assert_eq!(op.state(), AcceptState::Failed(ErrorKind::Cancelled));
}

#[test]
fn a_cancelled_coroutine_never_calls_accept() {
    let mut cell: ReadinessCell<u32> = ReadinessCell::new();
    let mut op = fresh();
    assert_eq!(
        op.done(&mut cell, AcceptEvent::CancelChecked { cancelled: true }),
        AcceptAction::Fail(ErrorKind::Cancelled)
    );
    assert_eq!(op.pending(), AcceptAction::Fail(ErrorKind::Cancelled));
}

#[test]
fn an_event_during_the_accept_call_leads_to_a_retry() {
    let mut cell: ReadinessCell<u32> = ReadinessCell::new();
    let mut op = fresh();
    assert_eq!(op.done(&mut cell, not_cancelled()), AcceptAction::Accept);
    assert_eq!(cell.signal(), None);
    assert_eq!(op.done(&mut cell, would_block()), AcceptAction::CheckCancel);
    assert_eq!(op.state(), AcceptState::CheckingCancel);
    assert!(!cell.is_set());
    assert_eq!(op.done(&mut cell, not_cancelled()), AcceptAction::Accept);
    assert_eq!(op.done(&mut cell, AcceptEvent::Accepted), AcceptAction::Finish);
}

#[test]
fn an_event_just_before_parking_reschedules_at_once() {
    let mut cell: ReadinessCell<u32> = ReadinessCell::new();
    let mut op = fresh();
    assert_eq!(op.done(&mut cell, not_cancelled()), AcceptAction::Accept);
    assert_eq!(op.done(&mut cell, would_block()), AcceptAction::Park);
    assert_eq!(cell.signal(), None);
    assert_eq!(
        op.subscribe(&mut cell, 9, false),
        SubscribeAction { schedule: Some(9), bind_cancel: false }
    );
    assert_eq!(cell.schedule(), None);
    assert_eq!(op.done(&mut cell, AcceptEvent::Woken), AcceptAction::CheckCancel);
}

#[test]
fn an_event_after_parking_hands_out_the_coroutine() {
    let mut cell: ReadinessCell<u32> = ReadinessCell::new();
    let _op = parked(&mut cell, 9);
    assert_eq!(cell.signal(), Some(9));
    assert_eq!(cell.signal(), None);
}

#[test]
fn subscribe_asks_for_the_cancel_binding_when_enabled() {
    let mut cell: ReadinessCell<u32> = ReadinessCell::new();
    let op = fresh();
    assert_eq!(
        op.subscribe(&mut cell, 3, true),
        SubscribeAction { schedule: None, bind_cancel: true }
    );
    assert_eq!(cell.schedule(), Some(3));
    assert_eq!(
        op.subscribe(&mut cell, 4, false),
        SubscribeAction { schedule: None, bind_cancel: false }
    );
    assert_eq!(cell.schedule(), Some(4));
}

#[test]
fn subscribe_binds_the_cancel_token_after_rescheduling_too() {
    let mut cell: ReadinessCell<u32> = ReadinessCell::new();
    let op = fresh();
    assert_eq!(cell.signal(), None);
    assert_eq!(
        op.subscribe(&mut cell, 5, true),
        SubscribeAction { schedule: Some(5), bind_cancel: true }
    );
    assert_eq!(cell.schedule(), None);
    assert!(cell.is_set());
}

#[test]
fn a_token_found_set_after_binding_is_fired() {
    let op = fresh();
    assert_eq!(op.recheck_cancel(true), CancelAction::Fire);
    assert_eq!(op.recheck_cancel(false), CancelAction::Leave);
}

#[test]
fn a_hard_error_is_handed_out_as_it_came() {
    let mut cell: ReadinessCell<u32> = ReadinessCell::new();
    let mut op = fresh();
    op.done(&mut cell, not_cancelled());
    assert_eq!(
        op.done(&mut cell, AcceptEvent::Refused { raw_os_error: Some(24) }),
        AcceptAction::Fail(ErrorKind::OsError(Some(24)))
    );
    assert_eq!(op.state(), AcceptState::Failed(ErrorKind::OsError(Some(24))));
}

#[test]
fn an_error_without_a_number_is_a_hard_error() {
    let mut cell: ReadinessCell<u32> = ReadinessCell::new();
    let mut op = fresh();
    op.done(&mut cell, not_cancelled());
    assert_eq!(
        op.done(&mut cell, AcceptEvent::Refused { raw_os_error: None }),
        AcceptAction::Fail(ErrorKind::OsError(None))
    );
}

#[test]
fn a_hard_error_leaves_the_flag_alone() {
    let mut cell: ReadinessCell<u32> = ReadinessCell::new();
    let mut op = fresh();
    op.done(&mut cell, not_cancelled());
    cell.signal();
    op.done(&mut cell, AcceptEvent::Refused { raw_os_error: Some(24) });
    assert!(cell.is_set());
}

#[test]
fn both_retry_codes_park() {
    for code in [AGAIN, WOULD_BLOCK] {
        let mut cell: ReadinessCell<u32> = ReadinessCell::new();
        let mut op = fresh();
        op.done(&mut cell, not_cancelled());
        assert_eq!(
            op.done(&mut cell, AcceptEvent::Refused { raw_os_error: Some(code) }),
            AcceptAction::Park
        );
    }
}

#[test]
fn the_platform_codes_are_taken_as_retries() {
    for code in [libc::EAGAIN, libc::EWOULDBLOCK] {
        let mut cell: ReadinessCell<u32> = ReadinessCell::new();
        let mut op = UnixListenerAccept::new(true);
        op.done(&mut cell, not_cancelled());
        assert_eq!(
            op.done(&mut cell, AcceptEvent::Refused { raw_os_error: Some(code) }),
            AcceptAction::Park
        );
    }
    let mut cell: ReadinessCell<u32> = ReadinessCell::new();
    let mut op = UnixListenerAccept::new(true);
    op.done(&mut cell, not_cancelled());
    assert_eq!(
        op.done(&mut cell, AcceptEvent::Refused { raw_os_error: Some(libc::EMFILE) }),
        AcceptAction::Fail(ErrorKind::OsError(Some(libc::EMFILE)))
    );
}

#[test]
fn classify_tells_retries_from_refusals() {
    assert_eq!(classify(Some(11), 11, 140), ErrorKind::WouldBlockRetry);
    assert_eq!(classify(Some(140), 11, 140), ErrorKind::WouldBlockRetry);
    assert_eq!(classify(Some(12), 11, 140), ErrorKind::OsError(Some(12)));
    assert_eq!(classify(None, 11, 140), ErrorKind::OsError(None));
}

#[test]
fn an_event_that_answers_nothing_is_ignored() {
    let mut cell: ReadinessCell<u32> = ReadinessCell::new();
    let mut op = fresh();
    assert_eq!(op.done(&mut cell, AcceptEvent::Accepted), AcceptAction::CheckCancel);
    assert_eq!(op.done(&mut cell, AcceptEvent::Woken), AcceptAction::CheckCancel);
    assert_eq!(op.state(), AcceptState::Fresh);
    op.done(&mut cell, not_cancelled());
    cell.signal();
    assert_eq!(op.done(&mut cell, AcceptEvent::Woken), AcceptAction::Accept);
    assert_eq!(op.done(&mut cell, not_cancelled()), AcceptAction::Accept);
    assert_eq!(op.state(), AcceptState::Accepting);
    assert!(cell.is_set());
}

#[test]
fn a_finished_operation_stays_finished() {
    let mut cell: ReadinessCell<u32> = ReadinessCell::new();
    let mut op = fresh();
    op.done(&mut cell, not_cancelled());
    op.done(&mut cell, AcceptEvent::Accepted);
    for event in [not_cancelled(), AcceptEvent::Accepted, would_block(), AcceptEvent::Woken] {
        assert_eq!(op.done(&mut cell, event), AcceptAction::Finish);
        assert_eq!(op.state(), AcceptState::Done);
    }
}

#[test]
fn the_cell_keeps_flag_and_coroutine_apart() {
    let mut cell: ReadinessCell<&str> = ReadinessCell::new();
    assert!(!cell.is_set());
    assert_eq!(cell.park("a"), None);
    assert!(!cell.take_flag());
    assert_eq!(cell.signal(), Some("a"));
    assert!(cell.take_flag());
    assert!(!cell.take_flag());
    cell.signal();
    cell.clear();
    assert!(!cell.is_set());
    cell.signal();
    assert_eq!(cell.park("b"), Some("b"));
    assert!(cell.is_set());
    assert_eq!(cell.schedule(), None);
}
