//! The reactor's state for one descriptor.

use vstd::prelude::*;

verus! {

/// What a readiness cell holds.
pub struct CellState<C> {
    /// An event has occurred since the flag was last cleared.
    pub flag: bool,
    /// The coroutine that waits for an event, if any.
    pub parked: Option<C>,
}

impl<C> CellState<C> {
    /// The state with the flag cleared.
    pub open spec fn cleared(self) -> Self {
        CellState { flag: false, parked: self.parked }
    }

    /// The state with nobody parked.
    pub open spec fn vacated(self) -> Self {
        CellState { flag: self.flag, parked: None }
    }

    /// The state after a signal: the flag is set and nobody is parked.
    pub open spec fn signalled(self) -> Self {
        CellState { flag: true, parked: None }
    }

    /// The state after `co` has tried to park: it stays parked unless the
    /// flag was set.
    pub open spec fn parked_with(self, co: C) -> Self {
        if self.flag {
            CellState { flag: true, parked: None }
        } else {
            CellState { flag: false, parked: Some(co) }
        }
    }
}

/// An edge flag and a place for one parked coroutine.
///
/// The flag says that an event has occurred since it was last cleared. The
/// reactor sets it with `signal`; the waiting side clears it before it tries
/// its operation, and parks itself if the operation would block. Whoever finds
/// both the flag set and a coroutine parked takes the coroutine out and must
/// put it back on the run queue.
pub struct ReadinessCell<C> {
    /// An event has occurred since the flag was last cleared.
    io_flag: bool,
    /// The coroutine that waits for an event, if any.
    co: Option<C>,
}

impl<C> View for ReadinessCell<C> {
    type V = CellState<C>;

    closed spec fn view(&self) -> CellState<C> {
        CellState { flag: self.io_flag, parked: self.co }
    }
}

impl<C> ReadinessCell<C> {
    /// A cell with its flag clear and nobody parked.
    pub fn new() -> (cell: Self)
        ensures
            cell@ == (CellState::<C> { flag: false, parked: None }),
    {
        ReadinessCell { io_flag: false, co: None }
    }

    /// Clears the flag.
    pub fn clear(&mut self)
        ensures
            final(self)@ == old(self)@.cleared(),
    {
        self.io_flag = false;
    }

    /// Clears the flag and tells whether it was set.
    pub fn take_flag(&mut self) -> (was_set: bool)
        ensures
            was_set == old(self)@.flag,
            final(self)@ == old(self)@.cleared(),
    {
        let was_set = self.io_flag;
        self.io_flag = false;
        was_set
    }

    /// Whether an event has occurred since the flag was last cleared.
    pub fn is_set(&self) -> (set: bool)
        ensures
            set == self@.flag,
    {
        self.io_flag
    }

    /// Takes the parked coroutine out, for the caller to put on the run queue.
    pub fn schedule(&mut self) -> (co: Option<C>)
        ensures
            co == old(self)@.parked,
            final(self)@ == old(self)@.vacated(),
    {
        self.co.take()
    }

    /// Records that an event has occurred: sets the flag and takes the parked
    /// coroutine out, for the caller to put on the run queue.
    pub fn signal(&mut self) -> (woken: Option<C>)
        ensures
            woken == old(self)@.parked,
            final(self)@ == old(self)@.signalled(),
    {
        self.io_flag = true;
        self.schedule()
    }

    /// Parks `co` in the cell, then looks at the flag. If an event has
    /// occurred in the meantime, `co` is taken out again and returned, for the
    /// caller to put on the run queue at once.
    pub fn park(&mut self, co: C) -> (ready: Option<C>)
        ensures
            ready == (if old(self)@.flag {
                Some(co)
            } else {
                None
            }),
            final(self)@ == old(self)@.parked_with(co),
    {
        self.co = Some(co);
        if self.io_flag {
            self.schedule()
        } else {
            None
        }
    }
}

} // verus!
