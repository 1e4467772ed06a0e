//! One cell of a block.

use crate::index::WRITE;
use vstd::prelude::*;

verus! {

/// A cell for one value, with a flag that tells whether the value has been
/// written.
///
/// A slot starts vacant, is written once, and is read once. After the read it
/// is spent: the flag stays set and the value is gone.
pub struct Slot<T> {
    /// The value, while the slot is full.
    value: Option<T>,
    /// The state of the slot: `WRITE` once a value has been written.
    state: usize,
}

impl<T> Slot<T> {
    /// The value that the slot holds, if any.
    pub closed spec fn value(self) -> Option<T> {
        self.value
    }

    /// Whether the write flag is set.
    pub closed spec fn written(self) -> bool {
        self.state == WRITE
    }

    /// A slot holds a value only if its write flag is set, and no other bit of
    /// its state is ever set.
    pub closed spec fn wf(self) -> bool {
        &&& self.state == 0 || self.state == WRITE
        &&& self.value is Some ==> self.state == WRITE
    }

    /// Nothing has been written yet.
    pub open spec fn is_vacant(self) -> bool {
        self.wf() && !self.written()
    }

    /// A value has been written and not yet read.
    pub open spec fn is_full(self) -> bool {
        self.wf() && self.value() is Some
    }

    /// The value has been written and read.
    pub open spec fn is_spent(self) -> bool {
        self.wf() && self.written() && self.value() is None
    }

    /// A vacant slot.
    pub fn new() -> (slot: Self)
        ensures
            slot.is_vacant(),
    {
        Slot { value: None, state: 0 }
    }

    /// Stores `value` and then sets the write flag.
    pub fn write(&mut self, value: T)
        requires
            old(self).is_vacant(),
        ensures
            final(self).is_full(),
            final(self).value() == Some(value),
    {
        self.value = Some(value);
        proof {
            lemma_set_write(self.state);
        }
        self.state = self.state | WRITE;
    }

    /// Whether a value has been written into the slot.
    pub fn is_written(&self) -> (b: bool)
        requires
            self.wf(),
        ensures
            b == self.written(),
    {
        proof {
            lemma_test_write(self.state);
        }
        self.state & WRITE != 0
    }

    /// Moves the value out of a full slot.
    pub fn read(&mut self) -> (value: T)
        requires
            old(self).is_full(),
        ensures
            old(self).value() == Some(value),
            final(self).is_spent(),
    {
        self.value.take().unwrap()
    }
}

proof fn lemma_set_write(state: usize)
    by (bit_vector)
    requires
        state == 0 || state == 1,
    ensures
        state | 1usize == 1,
{
}

proof fn lemma_test_write(state: usize)
    by (bit_vector)
    requires
        state == 0 || state == 1,
    ensures
        (state & 1usize != 0) == (state == 1),
{
}

} // verus!
