//! One segment of the queue.

use crate::index::BLOCK_CAP;
use crate::slot::Slot;
use vstd::prelude::*;

verus! {

/// A segment of `BLOCK_CAP` slots, filled and emptied front to back, with a
/// link to the segment that follows it.
///
/// The link names the following block by the lap that it covers. It is unset
/// until the producer has filled this block and installed the next one.
pub struct Block<T> {
    /// The next block in the chain.
    next: Option<usize>,
    /// Slots for values.
    slots: Vec<Slot<T>>,
}

impl<T> Block<T> {
    /// The slots of the block, in order.
    pub closed spec fn slots(self) -> Seq<Slot<T>> {
        self.slots@
    }

    /// The lap of the block that follows this one, once it is installed.
    pub closed spec fn link(self) -> Option<usize> {
        self.next
    }

    /// A block has `BLOCK_CAP` well-formed slots.
    pub open spec fn wf(self) -> bool {
        &&& self.slots().len() == BLOCK_CAP
        &&& forall|i: int| 0 <= i < BLOCK_CAP ==> (#[trigger] self.slots()[i]).wf()
    }

    /// The slots from `from` up to `to` are full, those before are spent, and
    /// those from `to` on are vacant.
    pub open spec fn filled(self, from: int, to: int) -> bool {
        &&& self.wf()
        &&& forall|i: int| 0 <= i < from && i < BLOCK_CAP ==> (#[trigger] self.slots()[i]).is_spent()
        &&& forall|i: int| from <= i < to && 0 <= i < BLOCK_CAP ==> (#[trigger] self.slots()[i]).is_full()
        &&& forall|i: int| to <= i < BLOCK_CAP && 0 <= i ==> (#[trigger] self.slots()[i]).is_vacant()
    }

    /// The value in slot `i`, where that slot is full.
    pub open spec fn value_at(self, i: int) -> T {
        self.slots()[i].value()->0
    }

    /// A block whose slots are all vacant and whose link is unset.
    pub fn new() -> (block: Self)
        ensures
            block.filled(0, 0),
            block.link() is None,
    {
        let mut slots: Vec<Slot<T>> = Vec::new();
        while slots.len() < BLOCK_CAP
            invariant
                slots.len() <= BLOCK_CAP,
                forall|i: int| 0 <= i < slots.len() ==> (#[trigger] slots@[i]).is_vacant(),
            decreases BLOCK_CAP - slots.len(),
        {
            slots.push(Slot::new());
        }
        Block { next: None, slots }
    }

    /// The link to the next block: `None` until that block is installed.
    pub fn next(&self) -> (next: Option<usize>)
        ensures
            next == self.link(),
    {
        self.next
    }

    /// Installs the next block, which covers `lap`.
    pub fn set_next(&mut self, lap: usize)
        requires
            old(self).link() is None,
        ensures
            final(self).link() == Some(lap),
            final(self).slots() == old(self).slots(),
    {
        self.next = Some(lap);
    }

    /// Writes `value` into the first vacant slot, which is slot `offset`.
    pub fn write(&mut self, offset: usize, value: T)
        requires
            offset < BLOCK_CAP,
            old(self).wf(),
            old(self).slots()[offset as int].is_vacant(),
        ensures
            final(self).wf(),
            final(self).link() == old(self).link(),
            final(self).slots()[offset as int].is_full(),
            final(self).value_at(offset as int) == value,
            forall|i: int|
                0 <= i < BLOCK_CAP && i != offset ==> final(self).slots()[i] == old(self).slots()[i],
    {
        self.slots[offset].write(value);
    }

    /// Moves the value out of slot `offset`, which is full.
    pub fn read(&mut self, offset: usize) -> (value: T)
        requires
            offset < BLOCK_CAP,
            old(self).wf(),
            old(self).slots()[offset as int].is_full(),
        ensures
            final(self).wf(),
            final(self).link() == old(self).link(),
            value == old(self).value_at(offset as int),
            final(self).slots()[offset as int].is_spent(),
            forall|i: int|
                0 <= i < BLOCK_CAP && i != offset ==> final(self).slots()[i] == old(self).slots()[i],
    {
        self.slots[offset].read()
    }
}

} // verus!
