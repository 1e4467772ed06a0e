//! What holds of the accept operation and the readiness cell together.
//!
//! Each statement follows one course of events through the steps of the
//! operation, for every value of what the course leaves open.

use crate::accept::{
    spec_classify, spec_pending, spec_recheck_cancel, spec_step, spec_subscribe, AcceptAction,
    AcceptEvent, AcceptState, CancelAction, ErrorKind, Step,
};
use crate::readiness::CellState;
use vstd::prelude::*;

verus! {

/// The retry never leaves the operation: a step neither fails with it nor
/// asks the caller to hand it out.
pub proof fn lemma_retry_contained(
    state: AcceptState,
    flag: bool,
    again: i32,
    would_block: i32,
    event: AcceptEvent,
)
    requires
        state != AcceptState::Failed(ErrorKind::WouldBlockRetry),
    ensures
        spec_step(state, flag, again, would_block, event).state != AcceptState::Failed(
            ErrorKind::WouldBlockRetry,
        ),
        spec_step(state, flag, again, would_block, event).action != AcceptAction::Fail(
            ErrorKind::WouldBlockRetry,
        ),
{
}

/// Once the operation has ended, every event is answered with its outcome.
pub proof fn lemma_ends_stay(
    state: AcceptState,
    flag: bool,
    again: i32,
    would_block: i32,
    event: AcceptEvent,
)
    requires
        state == AcceptState::Done || state is Failed,
    ensures
        spec_step(state, flag, again, would_block, event) == (Step {
            state,
            flag,
            action: spec_pending(state),
        }),
{
}

/// The accept call is only ever asked for with the readiness flag cleared.
pub proof fn lemma_cleared_before_accept(
    state: AcceptState,
    flag: bool,
    again: i32,
    would_block: i32,
    event: AcceptEvent,
)
    requires
        state != AcceptState::Accepting,
        spec_step(state, flag, again, would_block, event).action == AcceptAction::Accept,
    ensures
        !spec_step(state, flag, again, would_block, event).flag,
{
}

/// A refusal that is no retry ends the operation with the system's error,
/// unchanged.
pub proof fn lemma_hard_error(flag: bool, again: i32, would_block: i32, raw_os_error: Option<i32>)
    requires
        raw_os_error != Some(again),
        raw_os_error != Some(would_block),
    ensures
        spec_step(
            AcceptState::Accepting,
            flag,
            again,
            would_block,
            AcceptEvent::Refused { raw_os_error },
        ) == (Step {
            state: AcceptState::Failed(ErrorKind::OsError(raw_os_error)),
            flag,
            action: AcceptAction::Fail(ErrorKind::OsError(raw_os_error)),
        }),
{
}

/// With a connection pending, a fresh operation that is not cancelled ends
/// after one accept call.
pub proof fn lemma_happy_path(flag: bool, again: i32, would_block: i32)
    ensures
        ({
            let checked = spec_step(
                AcceptState::Fresh,
                flag,
                again,
                would_block,
                AcceptEvent::CancelChecked { cancelled: false },
            );
            let accepted = spec_step(
                checked.state,
                checked.flag,
                again,
                would_block,
                AcceptEvent::Accepted,
            );
            &&& spec_pending(AcceptState::Fresh) == AcceptAction::CheckCancel
            &&& checked.action == AcceptAction::Accept
            &&& accepted.action == AcceptAction::Finish
            &&& accepted.state == AcceptState::Done
        }),
{
}

/// With nothing pending and no event, the operation parks. When the reactor
/// then signals, the parked coroutine is handed out to run again, and the
/// next attempt, with a connection pending, ends the operation.
pub proof fn lemma_park_and_wake<C>(again: i32, would_block: i32, raw_os_error: Option<i32>, co: C)
    requires
        spec_classify(raw_os_error, again, would_block) == ErrorKind::WouldBlockRetry,
    ensures
        ({
            let refused = spec_step(
                AcceptState::Accepting,
                false,
                again,
                would_block,
                AcceptEvent::Refused { raw_os_error },
            );
            let cell = CellState::<C> { flag: refused.flag, parked: None }.parked_with(co);
            let woken = spec_step(
                refused.state,
                cell.signalled().flag,
                again,
                would_block,
                AcceptEvent::Woken,
            );
            let checked = spec_step(
                woken.state,
                woken.flag,
                again,
                would_block,
                AcceptEvent::CancelChecked { cancelled: false },
            );
            let accepted = spec_step(
                checked.state,
                checked.flag,
                again,
                would_block,
                AcceptEvent::Accepted,
            );
            &&& refused.state == AcceptState::Parked
            &&& refused.action == AcceptAction::Park
            &&& spec_subscribe(refused.flag, co, false).schedule is None
            &&& cell.parked == Some(co)
            &&& woken.action == AcceptAction::CheckCancel
            &&& checked.action == AcceptAction::Accept
            &&& accepted.state == AcceptState::Done
            &&& accepted.action == AcceptAction::Finish
        }),
{
}

/// A wake-up with nothing pending costs one more accept call and ends in the
/// operation parked again, without an error.
pub proof fn lemma_spurious_wake(flag: bool, again: i32, would_block: i32, raw_os_error: Option<i32>)
    requires
        spec_classify(raw_os_error, again, would_block) == ErrorKind::WouldBlockRetry,
    ensures
        ({
            let woken = spec_step(
                AcceptState::Parked,
                flag,
                again,
                would_block,
                AcceptEvent::Woken,
            );
            let checked = spec_step(
                woken.state,
                woken.flag,
                again,
                would_block,
                AcceptEvent::CancelChecked { cancelled: false },
            );
            let refused = spec_step(
                checked.state,
                checked.flag,
                again,
                would_block,
                AcceptEvent::Refused { raw_os_error },
            );
            &&& woken.action == AcceptAction::CheckCancel
            &&& checked.action == AcceptAction::Accept
            &&& refused.action == AcceptAction::Park
            &&& refused.state == AcceptState::Parked
        }),
{
}

/// A parked operation that is woken by its cancellation fails with the
/// cancellation after two steps, without another accept call.
pub proof fn lemma_cancel_while_parked(flag: bool, again: i32, would_block: i32)
    ensures
        ({
            let woken = spec_step(
                AcceptState::Parked,
                flag,
                again,
                would_block,
                AcceptEvent::Woken,
            );
            let checked = spec_step(
                woken.state,
                woken.flag,
                again,
                would_block,
                AcceptEvent::CancelChecked { cancelled: true },
            );
            &&& woken.action == AcceptAction::CheckCancel
            &&& checked.action == AcceptAction::Fail(ErrorKind::Cancelled)
            &&& checked.state == AcceptState::Failed(ErrorKind::Cancelled)
        }),
{
}

/// No cancellation is lost while a coroutine is being suspended. With
/// cancellation enabled the cell is bound to the cancel token whether or not
/// an event has already put the coroutine on the run queue, and a token that
/// is found set after the binding is fired at once. Without cancellation
/// nothing is bound.
pub proof fn lemma_cancel_is_rechecked<C>(flag: bool, co: C, cancel_enabled: bool, canceled: bool)
    ensures
        spec_subscribe(flag, co, cancel_enabled).bind_cancel == cancel_enabled,
        spec_subscribe(flag, co, cancel_enabled).schedule == (if flag {
            Some(co)
        } else {
            None
        }),
        spec_recheck_cancel(canceled) == CancelAction::Fire <==> canceled,
{
}

/// No wake-up is lost. Say the flag has been cleared for an attempt, the
/// accept call would block, and the reactor signals once. If it signals
/// before the operation looks at the flag again, the operation does not park
/// but tries again. If it signals after that look and before the coroutine is
/// parked, the parking hands the coroutine back to run at once. If it signals
/// after the coroutine is parked, the signal hands the coroutine out.
pub proof fn lemma_no_lost_wakeup<C>(
    start: CellState<C>,
    again: i32,
    would_block: i32,
    raw_os_error: Option<i32>,
    co: C,
    cancel_enabled: bool,
)
    requires
        spec_classify(raw_os_error, again, would_block) == ErrorKind::WouldBlockRetry,
        start.parked is None,
    ensures
        ({
            let cleared = start.cleared();
            // The signal arrives during the accept call.
            let early = spec_step(
                AcceptState::Accepting,
                cleared.signalled().flag,
                again,
                would_block,
                AcceptEvent::Refused { raw_os_error },
            );
            // No signal has arrived when the call returns.
            let late = spec_step(
                AcceptState::Accepting,
                cleared.flag,
                again,
                would_block,
                AcceptEvent::Refused { raw_os_error },
            );
            let looked = CellState::<C> { flag: late.flag, parked: None };
            &&& early.state == AcceptState::CheckingCancel
            &&& early.action == AcceptAction::CheckCancel
            &&& late.action == AcceptAction::Park
            &&& spec_subscribe(looked.signalled().flag, co, cancel_enabled).schedule == Some(co)
            &&& looked.signalled().parked_with(co).parked is None
            &&& looked.parked_with(co).parked == Some(co)
            &&& looked.parked_with(co).signalled().flag
        }),
{
}

} // verus!
