//! Accepting a connection on a listening socket without blocking the thread.
//!
//! The socket is edge-triggered: the reactor reports that something happened,
//! not that something is there. So each attempt clears the readiness flag,
//! then tries to accept, and if that would block looks at the flag once more
//! before it parks; an event that arrives at any point of this is either seen
//! by that second look or by the parking itself.
//!
//! The operation does none of the outside work itself. It is told what
//! happened and answers with what to do next; the caller performs that and
//! comes back with the outcome.

use crate::readiness::ReadinessCell;
use vstd::prelude::*;

verus! {

/// Why an attempt to accept did not yield a connection.
#[derive(Clone, Copy, Debug, PartialEq, Eq, Structural)]
pub enum ErrorKind {
    /// Nothing is pending: try again after the next event. Never handed out.
    WouldBlockRetry,
    /// The coroutine was cancelled.
    Cancelled,
    /// The system refused, with this error number if it gave one.
    OsError(Option<i32>),
}

/// Where an accept operation stands.
#[derive(Clone, Copy, Debug, PartialEq, Eq, Structural)]
pub enum AcceptState {
    /// Nothing has been done yet.
    Fresh,
    /// Trying: the answer to the cancellation check is awaited.
    CheckingCancel,
    /// Trying: the readiness flag is cleared and the result of the accept
    /// call is awaited.
    Accepting,
    /// The coroutine is suspended until the reactor or a cancellation wakes it.
    Parked,
    /// A connection was accepted.
    Done,
    /// The operation failed.
    Failed(ErrorKind),
}

/// What the caller reports to the operation.
#[derive(Clone, Copy, Debug, PartialEq, Eq, Structural)]
pub enum AcceptEvent {
    /// The cancellation check was made.
    CancelChecked { cancelled: bool },
    /// The accept call returned a connection.
    Accepted,
    /// The accept call failed, with this error number if the system gave one.
    Refused { raw_os_error: Option<i32> },
    /// The coroutine was resumed after it had parked.
    Woken,
}

/// What the operation asks of the caller.
#[derive(Clone, Copy, Debug, PartialEq, Eq, Structural)]
pub enum AcceptAction {
    /// Check whether the coroutine was cancelled; answer with `CancelChecked`.
    CheckCancel,
    /// Call the socket's non-blocking accept; answer with `Accepted` or
    /// `Refused`.
    Accept,
    /// Suspend the coroutine, handing the operation to the reactor; answer
    /// with `Woken` once it runs again.
    Park,
    /// Hand out the accepted connection and its peer address.
    Finish,
    /// Hand out the error.
    Fail(ErrorKind),
}

/// What to do with a coroutine that is being suspended: first the one, then
/// the other.
#[derive(Debug, PartialEq, Eq, Structural)]
pub struct SubscribeAction<C> {
    /// An event has already occurred: put this coroutine on the run queue.
    /// Where it is `None` the coroutine stays parked in the cell.
    pub schedule: Option<C>,
    /// Bind the cell to the coroutine's cancel token, then look at the token
    /// and report what it says with `recheck_cancel`.
    pub bind_cancel: bool,
}

/// What to do once the cell is bound to the cancel token.
#[derive(Clone, Copy, Debug, PartialEq, Eq, Structural)]
pub enum CancelAction {
    /// The token is already set: fire the cancellation now.
    Fire,
    /// The token is not set: it fires by itself when it is.
    Leave,
}

/// The plain values of an accept operation.
pub struct AcceptView {
    /// Where the operation stands.
    pub state: AcceptState,
    /// Whether it was started inside a coroutine.
    pub is_coroutine: bool,
    /// The error number for "try again".
    pub again: i32,
    /// The error number for "would block".
    pub would_block: i32,
}

/// The outcome of one step: the new state, the new value of the readiness
/// flag, and what is asked of the caller.
pub struct Step {
    pub state: AcceptState,
    pub flag: bool,
    pub action: AcceptAction,
}

/// How a failure of the accept call is classed: as a retry if its error
/// number is one of the two that mean that nothing is pending, else as the
/// system's refusal.
pub open spec fn spec_classify(raw_os_error: Option<i32>, again: i32, would_block: i32) -> ErrorKind {
    if raw_os_error == Some(again) || raw_os_error == Some(would_block) {
        ErrorKind::WouldBlockRetry
    } else {
        ErrorKind::OsError(raw_os_error)
    }
}

/// The action that a state waits for the outcome of.
pub open spec fn spec_pending(state: AcceptState) -> AcceptAction {
    match state {
        AcceptState::Fresh => AcceptAction::CheckCancel,
        AcceptState::CheckingCancel => AcceptAction::CheckCancel,
        AcceptState::Accepting => AcceptAction::Accept,
        AcceptState::Parked => AcceptAction::Park,
        AcceptState::Done => AcceptAction::Finish,
        AcceptState::Failed(kind) => AcceptAction::Fail(kind),
    }
}

/// One step of the operation.
///
/// An event that does not answer the pending action changes nothing, and the
/// pending action is asked for again.
pub open spec fn spec_step(
    state: AcceptState,
    flag: bool,
    again: i32,
    would_block: i32,
    event: AcceptEvent,
) -> Step {
    match (state, event) {
        (AcceptState::Fresh, AcceptEvent::CancelChecked { cancelled })
        | (AcceptState::CheckingCancel, AcceptEvent::CancelChecked { cancelled }) => {
            if cancelled {
                Step {
                    state: AcceptState::Failed(ErrorKind::Cancelled),
                    flag,
                    action: AcceptAction::Fail(ErrorKind::Cancelled),
                }
            } else {
                Step { state: AcceptState::Accepting, flag: false, action: AcceptAction::Accept }
            }
        },
        (AcceptState::Accepting, AcceptEvent::Accepted) => {
            Step { state: AcceptState::Done, flag, action: AcceptAction::Finish }
        },
        (AcceptState::Accepting, AcceptEvent::Refused { raw_os_error }) => {
            match spec_classify(raw_os_error, again, would_block) {
                ErrorKind::WouldBlockRetry => {
                    if flag {
                        Step {
                            state: AcceptState::CheckingCancel,
                            flag: false,
                            action: AcceptAction::CheckCancel,
                        }
                    } else {
                        Step { state: AcceptState::Parked, flag: false, action: AcceptAction::Park }
                    }
                },
                kind => Step {
                    state: AcceptState::Failed(kind),
                    flag,
                    action: AcceptAction::Fail(kind),
                },
            }
        },
        (AcceptState::Parked, AcceptEvent::Woken) => {
            Step {
                state: AcceptState::CheckingCancel,
                flag,
                action: AcceptAction::CheckCancel,
            }
        },
        _ => Step { state, flag, action: spec_pending(state) },
    }
}

/// What becomes of a coroutine that is being suspended, given the readiness
/// flag at that moment: it is put on the run queue if an event has occurred,
/// and the cell is bound to its cancel token if cancellation is enabled,
/// whether or not it was put on the run queue.
pub open spec fn spec_subscribe<C>(flag: bool, co: C, cancel_enabled: bool) -> SubscribeAction<C> {
    SubscribeAction {
        schedule: if flag {
            Some(co)
        } else {
            None
        },
        bind_cancel: cancel_enabled,
    }
}

/// What the second look at the cancel token leads to.
pub open spec fn spec_recheck_cancel(canceled: bool) -> CancelAction {
    if canceled {
        CancelAction::Fire
    } else {
        CancelAction::Leave
    }
}

/// `libc::EAGAIN`, the error number for "try again". Its value depends on the
/// platform, so nothing is said of it.
#[verifier::external_body]
fn eagain() -> i32 {
    libc::EAGAIN
}

/// `libc::EWOULDBLOCK`, the error number for "operation would block". Its
/// value depends on the platform, so nothing is said of it.
#[verifier::external_body]
fn ewouldblock() -> i32 {
    libc::EWOULDBLOCK
}

/// Classes a failure of the accept call by its error number.
pub fn classify(raw_os_error: Option<i32>, again: i32, would_block: i32) -> (kind: ErrorKind)
    ensures
        kind == spec_classify(raw_os_error, again, would_block),
{
    match raw_os_error {
        Some(code) => {
            if code == again || code == would_block {
                ErrorKind::WouldBlockRetry
            } else {
                ErrorKind::OsError(raw_os_error)
            }
        },
        None => ErrorKind::OsError(raw_os_error),
    }
}

/// One accept on a listening socket, on behalf of a coroutine.
pub struct UnixListenerAccept {
    state: AcceptState,
    is_coroutine: bool,
    again: i32,
    would_block: i32,
}

impl View for UnixListenerAccept {
    type V = AcceptView;

    closed spec fn view(&self) -> AcceptView {
        AcceptView {
            state: self.state,
            is_coroutine: self.is_coroutine,
            again: self.again,
            would_block: self.would_block,
        }
    }
}

impl UnixListenerAccept {
    /// The retry is dealt with inside the operation: it never becomes the
    /// operation's failure.
    #[verifier::type_invariant]
    spec fn contained(self) -> bool {
        self.state != AcceptState::Failed(ErrorKind::WouldBlockRetry)
    }

    /// A fresh operation that takes the two error numbers for "nothing is
    /// pending" from the platform.
    pub fn new(is_coroutine: bool) -> (op: Self)
        ensures
            op@.state == AcceptState::Fresh,
            op@.is_coroutine == is_coroutine,
    {
        Self::with_codes(is_coroutine, eagain(), ewouldblock())
    }

    /// A fresh operation for which `again` and `would_block` are the error
    /// numbers that mean that nothing is pending.
    pub fn with_codes(is_coroutine: bool, again: i32, would_block: i32) -> (op: Self)
        ensures
            op@ == (AcceptView { state: AcceptState::Fresh, is_coroutine, again, would_block }),
    {
        UnixListenerAccept { state: AcceptState::Fresh, is_coroutine, again, would_block }
    }

    /// Whether the operation was started inside a coroutine.
    pub fn is_coroutine(&self) -> (b: bool)
        ensures
            b == self@.is_coroutine,
    {
        self.is_coroutine
    }

    /// Where the operation stands.
    pub fn state(&self) -> (state: AcceptState)
        ensures
            state == self@.state,
            state != AcceptState::Failed(ErrorKind::WouldBlockRetry),
    {
        proof {
            use_type_invariant(self);
        }
        self.state
    }

    /// The action whose outcome the operation waits for. For a fresh
    /// operation this is the first thing to do.
    pub fn pending(&self) -> (action: AcceptAction)
        ensures
            action == spec_pending(self@.state),
            action != AcceptAction::Fail(ErrorKind::WouldBlockRetry),
    {
        proof {
            use_type_invariant(self);
        }
        match self.state {
            AcceptState::Fresh => AcceptAction::CheckCancel,
            AcceptState::CheckingCancel => AcceptAction::CheckCancel,
            AcceptState::Accepting => AcceptAction::Accept,
            AcceptState::Parked => AcceptAction::Park,
            AcceptState::Done => AcceptAction::Finish,
            AcceptState::Failed(kind) => AcceptAction::Fail(kind),
        }
    }

    /// Drives the operation one step towards its completion: takes the
    /// outcome of the action that was pending and returns the next one.
    ///
    /// After the cancellation check the readiness flag is cleared before the
    /// accept call is asked for. When the call would block, the flag is
    /// cleared again and, if it was set, the attempt is repeated at once;
    /// only otherwise the coroutine parks. `Finish` and `Fail` end the
    /// operation: from then on every event is answered with the same action.
    pub fn done<C>(&mut self, cell: &mut ReadinessCell<C>, event: AcceptEvent) -> (action:
        AcceptAction)
        ensures
            (Step { state: final(self)@.state, flag: final(cell)@.flag, action }) == spec_step(
                old(self)@.state,
                old(cell)@.flag,
                old(self)@.again,
                old(self)@.would_block,
                event,
            ),
            final(cell)@.parked == old(cell)@.parked,
            final(self)@.is_coroutine == old(self)@.is_coroutine,
            final(self)@.again == old(self)@.again,
            final(self)@.would_block == old(self)@.would_block,
            action != AcceptAction::Fail(ErrorKind::WouldBlockRetry),
    {
        proof {
            use_type_invariant(&*self);
        }
        match (self.state, event) {
            (AcceptState::Fresh, AcceptEvent::CancelChecked { cancelled })
            | (AcceptState::CheckingCancel, AcceptEvent::CancelChecked { cancelled }) => {
                if cancelled {
                    self.state = AcceptState::Failed(ErrorKind::Cancelled);
                    AcceptAction::Fail(ErrorKind::Cancelled)
                } else {
                    // Clear the flag before the call, never after it.
                    cell.clear();
                    self.state = AcceptState::Accepting;
                    AcceptAction::Accept
                }
            },
            (AcceptState::Accepting, AcceptEvent::Accepted) => {
                self.state = AcceptState::Done;
                AcceptAction::Finish
            },
            (AcceptState::Accepting, AcceptEvent::Refused { raw_os_error }) => {
                match classify(raw_os_error, self.again, self.would_block) {
                    ErrorKind::WouldBlockRetry => {
                        if cell.take_flag() {
                            // An event arrived during the call.
                            self.state = AcceptState::CheckingCancel;
                            AcceptAction::CheckCancel
                        } else {
                            self.state = AcceptState::Parked;
                            AcceptAction::Park
                        }
                    },
                    kind => {
                        self.state = AcceptState::Failed(kind);
                        AcceptAction::Fail(kind)
                    },
                }
            },
            (AcceptState::Parked, AcceptEvent::Woken) => {
                self.state = AcceptState::CheckingCancel;
                AcceptAction::CheckCancel
            },
            _ => self.pending(),
        }
    }

    /// Installs a coroutine that is being suspended into the readiness cell.
    ///
    /// The coroutine is parked first and the flag is read after that, so an
    /// event that occurred before the coroutine was parked is not lost: the
    /// coroutine is then handed back to be put on the run queue. After that,
    /// and whatever the flag was, the cell is to be bound to the cancel token
    /// where cancellation is enabled.
    pub fn subscribe<C>(&self, cell: &mut ReadinessCell<C>, co: C, cancel_enabled: bool) -> (action:
        SubscribeAction<C>)
        ensures
            action == spec_subscribe(old(cell)@.flag, co, cancel_enabled),
            final(cell)@ == old(cell)@.parked_with(co),
    {
        let schedule = cell.park(co);
        SubscribeAction { schedule, bind_cancel: cancel_enabled }
    }

    /// Takes what the cancel token says once the cell is bound to it: a
    /// token that is already set is to be fired at once, since nothing else
    /// will wake the coroutine for it.
    pub fn recheck_cancel(&self, canceled: bool) -> (action: CancelAction)
        ensures
            action == spec_recheck_cancel(canceled),
    {
        if canceled {
            CancelAction::Fire
        } else {
            CancelAction::Leave
        }
    }
}

} // verus!
