//! An unbounded first-in first-out queue made of linked segments.

use crate::block::Block;
use crate::history::{after_pop, after_push, pop_result};
use crate::index::{
    count_between, distance, follows, has_next, hint_of, hinted, lap, lap_after, lap_of,
    lap_space, laps_ahead, lemma_lap_space, lemma_parts, lemma_whole, offset, offset_of,
    same_lap, same_position, skip, step, with_hint, without_hint, BLOCK_CAP,
};
use crate::position::{padded_get, padded_new, padded_set, padded_value, Position};
use crossbeam::utils::CachePadded;
use std::collections::VecDeque;
use vstd::prelude::*;

verus! {

/// The first slot of block `k` of a chain that has not been read, where the
/// head stands at `head`.
pub open spec fn first_unread(head: usize, k: int) -> int {
    if k == 0 {
        offset_of(head)
    } else {
        0
    }
}

/// The first slot of block `k` of a chain of `blocks` blocks that is still
/// vacant, where the tail stands at `tail`.
pub open spec fn first_vacant(blocks: int, tail: usize, k: int) -> int {
    if k == blocks - 1 {
        offset_of(tail)
    } else {
        31
    }
}

/// The link that block `k` of a chain of `blocks` blocks carries, where the
/// head stands at `head`: the lap of the block after it, and none for the
/// last block.
pub open spec fn link_of(blocks: int, head: usize, k: int) -> Option<usize> {
    if k < blocks - 1 {
        Some(lap_after(lap_of(head), k + 1) as usize)
    } else {
        None
    }
}

/// The blocks of `chain` are what a head at `head` and a tail at `tail` make
/// of them: in each block the slots that have been read are spent, those
/// from head to tail are full and the rest is vacant, and every block but the
/// last is linked to the block after it.
pub open spec fn shaped<T>(chain: Seq<Block<T>>, head: usize, tail: usize) -> bool {
    forall|k: int|
        0 <= k < chain.len() ==> (#[trigger] chain[k]).filled(
            first_unread(head, k),
            first_vacant(chain.len() as int, tail, k),
        ) && chain[k].link() == link_of(chain.len() as int, head, k)
}

/// An unbounded queue for one producer and one consumer.
///
/// Values live in blocks of `BLOCK_CAP` slots. The blocks are chained oldest
/// first: the consumer works on the first block, the producer on the last.
/// A block is added when the producer fills the last slot of its block, and
/// released when the consumer has read the last slot of its block.
///
/// The queue is used through exclusive access: whoever pushes or pops holds
/// the whole queue for the length of the call. Dropping the queue drops the
/// values that are still in it, oldest first, and every block.
pub struct SegQueue<T> {
    /// The head of the queue.
    head: CachePadded<Position>,
    /// The tail of the queue.
    tail: CachePadded<Position>,
    /// The chain of blocks, from the head's block to the tail's block.
    blocks: VecDeque<Block<T>>,
}

impl<T> View for SegQueue<T> {
    type V = Seq<T>;

    /// The values in the queue, oldest first.
    open spec fn view(&self) -> Seq<T> {
        Seq::new(
            count_between(self.head_index(), self.tail_index()) as nat,
            |i: int| self.value_at(offset_of(self.head_index()) + i),
        )
    }
}

impl<T> SegQueue<T> {
    /// The encoded index of the head.
    pub closed spec fn head_index(self) -> usize {
        padded_value(self.head).index
    }

    /// The encoded index of the tail.
    pub closed spec fn tail_index(self) -> usize {
        padded_value(self.tail).index
    }

    /// The block that the head works on.
    pub closed spec fn head_block(self) -> Option<usize> {
        padded_value(self.head).block
    }

    /// The block that the tail works on.
    pub closed spec fn tail_block(self) -> Option<usize> {
        padded_value(self.tail).block
    }

    /// The chain of blocks, oldest first.
    pub closed spec fn chain(self) -> Seq<Block<T>> {
        self.blocks@
    }

    /// The value in the slot that lies `place` slots after the first slot of
    /// the head's block.
    pub open spec fn value_at(self, place: int) -> T {
        self.chain()[place / 31].value_at(place % 31)
    }

    /// Indices and blocks agree.
    ///
    /// Head and tail point at slots, never at a boundary, and the tail
    /// carries no hint. Before the first push there is no block and both
    /// indices are zero. Afterwards each end names the block of its lap, the
    /// chain reaches from the head's lap to the tail's lap, and the slots from
    /// head to tail are exactly the full ones. Every block but the last is
    /// linked to the block after it.
    pub open spec fn sound(self) -> bool {
        let head = self.head_index();
        let tail = self.tail_index();
        let n = self.chain().len() as int;
        &&& hint_of(tail) == 0
        &&& 0 <= offset_of(head) <= 30
        &&& 0 <= offset_of(tail) <= 30
        &&& n == 0 ==> head == 0 && tail == 0
        &&& n == 0 ==> self.head_block() is None && self.tail_block() is None
        &&& n > 0 ==> n == laps_ahead(head, tail) + 1
        &&& n > 0 ==> self.head_block() == Some(lap_of(head) as usize) && self.tail_block()
            == Some(lap_of(tail) as usize)
        &&& count_between(head, tail) >= 0
        &&& shaped(self.chain(), head, tail)
    }

    /// The queue's invariant: indices and blocks agree, and a head whose hint
    /// is set has a block after its own.
    pub open spec fn wf(self) -> bool {
        &&& self.sound()
        &&& has_next(self.head_index()) ==> self.chain().len() >= 2
    }

    /// The number of values beyond which the indices could no longer tell a
    /// full queue from an empty one.
    pub open spec fn spec_capacity() -> int {
        31 * (lap_space() - 1)
    }

    /// The number of values that a queue can hold at one time: a push needs
    /// the queue to hold fewer.
    pub fn capacity() -> (n: usize)
        ensures
            n == Self::spec_capacity(),
    {
        proof {
            lemma_lap_space();
        }
        BLOCK_CAP * (usize::MAX / 64)
    }

    /// No block is kept longer than it is needed: the chain is as long as
    /// the values in the queue take, give or take the part of the first block
    /// that has been read and the part of the last that is still vacant.
    pub proof fn lemma_blocks_follow_len(self)
        requires
            self.wf(),
            self.chain().len() > 0,
        ensures
            31 * (self.chain().len() - 1) - 30 <= self@.len() <= 31 * (self.chain().len() - 1)
                + 30,
    {
        lemma_parts(self.head_index());
        lemma_parts(self.tail_index());
    }

    /// A queue that holds nothing has at most the one block that both ends
    /// stand in.
    pub proof fn lemma_empty_keeps_one_block(self)
        requires
            self.wf(),
            self@.len() == 0,
        ensures
            self.chain().len() <= 1,
    {
        lemma_parts(self.head_index());
        lemma_parts(self.tail_index());
    }

    /// Creates a new queue, without a block: the first push brings one.
    pub fn new() -> (queue: Self)
        ensures
            queue.wf(),
            queue@ == Seq::<T>::empty(),
            queue.head_index() == 0,
            queue.tail_index() == 0,
            queue.head_block() is None,
            queue.tail_block() is None,
            queue.chain().len() == 0,
    {
        let queue = SegQueue {
            head: padded_new(Position { index: 0, block: None }),
            tail: padded_new(Position { index: 0, block: None }),
            blocks: VecDeque::new(),
        };
        proof {
            lemma_whole(0, 0, 0, 0);
            lemma_lap_space();
        }
        queue
    }

    /// Pushes a value onto the back of the queue.
    ///
    /// The head is left alone and the tail moves on by one slot. The first
    /// push brings the first block. A push that fills the last slot of the
    /// tail's block brings the next block, links it, and moves the tail past
    /// the boundary; at the end of the index space the tail starts again at
    /// zero. No other push brings a block.
    pub fn push(&mut self, value: T)
        requires
            old(self).wf(),
            old(self)@.len() < Self::spec_capacity(),
        ensures
            final(self).wf(),
            final(self)@ == after_push(old(self)@, value),
            final(self).head_index() == old(self).head_index(),
            follows(old(self).tail_index(), final(self).tail_index()),
            final(self).head_block() == Some(lap_of(final(self).head_index()) as usize),
            final(self).tail_block() == Some(lap_of(final(self).tail_index()) as usize),
            final(self).chain().len() == old(self).chain().len() + (if old(self).chain().len() == 0
                || offset_of(old(self).tail_index()) == 30 {
                1int
            } else {
                0int
            }),
    {
        let tail = padded_get(&self.tail).index;
        let mut block = padded_get(&self.tail).block;
        let ghost head = self.head_index();
        proof {
            lemma_parts(tail);
            lemma_parts(head);
            lemma_lap_space();
            lemma_whole(0, 0, 0, 0);
        }

        // Calculate the offset of the index into the block.
        let offset = offset(tail);

        // If the next block will have to be installed, make it in advance.
        let mut next_block: Option<Block<T>> = None;
        if offset + 1 == BLOCK_CAP {
            next_block = Some(Block::new());
        }

        // If this is the first push, bring the first block.
        if block.is_none() {
            block = Some(lap(tail));
            self.blocks.push_back(Block::new());
            let head_index = padded_get(&self.head).index;
            padded_set(&mut self.head, Position { index: head_index, block });
        }
        let ghost chain = self.chain();
        let ghost n = chain.len() as int;
        assert(n == laps_ahead(head, tail) + 1);
        assert(shaped(chain, head, tail));

        let new_tail = step(tail);
        padded_set(&mut self.tail, Position { index: new_tail, block });

        // Write the value into the slot.
        let mut last = self.blocks.pop_back().unwrap();
        assert(last == chain[n - 1]);
        last.write(offset, value);

        // If the end of the block is reached, install the next one.
        let ghost written;
        if offset + 1 == BLOCK_CAP {
            let next = next_block.unwrap();
            let next_index = skip(new_tail);
            let next_lap = lap(next_index);
            last.set_next(next_lap);
            proof {
                written = last;
                lemma_parts(next_index);
            }
            self.blocks.push_back(last);
            self.blocks.push_back(next);
            padded_set(&mut self.tail, Position { index: next_index, block: Some(next_lap) });
            assert(self.chain() =~= chain.update(n - 1, written).push(next));
        } else {
            proof {
                written = last;
                lemma_parts(new_tail);
            }
            self.blocks.push_back(last);
            assert(self.chain() =~= chain.update(n - 1, written));
        }
        proof {
            let after = self.chain();
            assert(self.head_index() == head);
            assert(shaped(after, head, self.tail_index())) by {
                assert forall|k: int| 0 <= k < after.len() implies (#[trigger] after[k]).filled(
                    first_unread(head, k),
                    first_vacant(after.len() as int, self.tail_index(), k),
                ) && after[k].link() == link_of(after.len() as int, head, k) by {
                    if k < n - 1 {
                        assert(after[k] == chain[k]);
                    } else if k == n - 1 {
                        assert(after[k] == written);
                    }
                }
            }
            assert(self.wf());
            assert(self@ =~= old(self)@.push(value)) by {
                assert forall|i: int| 0 <= i < old(self)@.len() implies self@[i] == old(self)@[i] by {
                    let place = offset_of(head) + i;
                    assert(after[place / 31].slots()[place % 31] == old(self).chain()[place
                        / 31].slots()[place % 31]);
                }
            }
        }
    }

    /// Moves the head on to `next`, the index of the slot after the head's,
    /// and takes the value out of the slot that the head leaves. Where that
    /// was the last slot of its block, the head takes the block's link for
    /// its own block and the block is released.
    fn take_front(&mut self, next: usize) -> (value: T)
        requires
            old(self).sound(),
            old(self)@.len() > 0,
            follows(old(self).head_index(), next),
        ensures
            final(self).sound(),
            final(self).head_index() == next,
            final(self).tail_index() == old(self).tail_index(),
            final(self).tail_block() == old(self).tail_block(),
            final(self).chain().len() == old(self).chain().len() - (if offset_of(
                old(self).head_index(),
            ) == 30 {
                1int
            } else {
                0int
            }),
            value == old(self)@[0],
            final(self)@ == old(self)@.drop_first(),
    {
        let head = padded_get(&self.head).index;
        let head_block = padded_get(&self.head).block;
        let ghost tail = self.tail_index();
        let ghost tail_block = self.tail_block();
        proof {
            lemma_parts(head);
            lemma_parts(tail);
            lemma_parts(next);
            lemma_lap_space();
        }
        let offset = offset(head);
        let ghost chain = self.chain();
        let ghost n = chain.len() as int;
        assert(n >= 1);
        assert(chain[0].slots()[offset as int].is_full());

        // Read the value.
        let mut block = self.blocks.pop_front().unwrap();
        assert(block == chain[0]);
        let value = block.read(offset);
        let ghost spent = block;

        if offset + 1 != BLOCK_CAP {
            padded_set(&mut self.head, Position { index: next, block: head_block });
            self.blocks.push_front(block);
            assert(self.chain() =~= chain.update(0, spent));
        } else {
            // The end of the block is reached: move to the next one and
            // release this one.
            padded_set(&mut self.head, Position { index: next, block: block.next() });
            assert(self.chain() =~= chain.drop_first());
        }
        proof {
            let after = self.chain();
            assert(self.tail_index() == tail);
            assert(self.tail_block() == tail_block);
            assert(shaped(after, next, tail)) by {
                assert forall|k: int| 0 <= k < after.len() implies (#[trigger] after[k]).filled(
                    first_unread(next, k),
                    first_vacant(after.len() as int, tail, k),
                ) && after[k].link() == link_of(after.len() as int, next, k) by {
                    if offset + 1 != BLOCK_CAP {
                        if k == 0 {
                            assert(after[k] == spent);
                        } else {
                            assert(after[k] == chain[k]);
                        }
                    } else {
                        assert(after[k] == chain[k + 1]);
                    }
                }
            }
            assert(self.sound());
            assert(value == old(self)@[0]);
            assert(self@ =~= old(self)@.drop_first()) by {
                assert forall|i: int| 0 <= i < old(self)@.len() - 1 implies self@[i] == old(
                    self,
                )@[i + 1] by {
                    let place = offset_of(head) + i + 1;
                    if offset + 1 != BLOCK_CAP {
                        assert(after[place / 31].slots()[place % 31] == chain[place
                            / 31].slots()[place % 31]);
                    } else {
                        assert(after[i / 31] == chain[place / 31]);
                    }
                }
            }
        }
        value
    }

    /// Pops the value at the front of the queue.
    ///
    /// If the queue is empty, `None` is returned and nothing changes. Else
    /// the tail is left alone and the head moves on by one slot, with its hint
    /// set exactly if a block follows the one it then stands in. The pop that
    /// reads the last slot of the head's block releases that block and moves
    /// the head past the boundary into the next one; no other pop releases a
    /// block.
    pub fn pop(&mut self) -> (value: Option<T>)
        requires
            old(self).wf(),
        ensures
            final(self).wf(),
            value == pop_result(old(self)@),
            final(self)@ == after_pop(old(self)@),
            old(self)@.len() == 0 ==> *final(self) == *old(self),
            final(self).tail_index() == old(self).tail_index(),
            final(self).tail_block() == old(self).tail_block(),
            old(self)@.len() > 0 ==> follows(old(self).head_index(), final(self).head_index()),
            old(self)@.len() > 0 ==> (has_next(final(self).head_index()) <==> final(self).chain().len()
                >= 2),
            final(self).chain().len() == old(self).chain().len() - (if old(self)@.len() > 0
                && offset_of(old(self).head_index()) == 30 {
                1int
            } else {
                0int
            }),
    {
        let head = padded_get(&self.head).index;
        let ghost tail_index = self.tail_index();
        proof {
            lemma_parts(head);
            lemma_parts(tail_index);
            lemma_lap_space();
        }

        // Calculate the offset of the index into the block.
        let offset = offset(head);

        let mut new_head = step(head);

        if !hinted(new_head) {
            let tail = padded_get(&self.tail).index;

            // If the tail equals the head, that means the queue is empty.
            if same_position(head, tail) {
                return None;
            }

            // If head and tail are not in the same block, set the hint in head.
            if !same_lap(head, tail) {
                new_head = with_hint(new_head);
            }
        }

        // If the end of the block is reached, the head moves to the next one,
        // with its hint set if that block has a successor too.
        if offset + 1 == BLOCK_CAP {
            proof {
                let chain = self.chain();
                assert(chain.len() >= 2);
                assert(chain[1].link() == link_of(chain.len() as int, head, 1));
            }
            new_head = skip(without_hint(new_head));
            if self.blocks[1].next().is_some() {
                new_head = with_hint(new_head);
            }
        }
        Some(self.take_front(new_head))
    }

    /// Returns `true` if the queue is empty.
    pub fn is_empty(&self) -> (empty: bool)
        requires
            self.wf(),
        ensures
            empty == (self@.len() == 0),
    {
        let head = padded_get(&self.head).index;
        let tail = padded_get(&self.tail).index;
        proof {
            lemma_parts(head);
            lemma_parts(tail);
        }
        same_position(head, tail)
    }

    /// Returns the number of values in the queue.
    pub fn len(&self) -> (n: usize)
        requires
            self.wf(),
        ensures
            n == self@.len(),
    {
        let tail = padded_get(&self.tail).index;
        let head = padded_get(&self.head).index;
        distance(head, tail)
    }

    /// Turns the queue into an iterator over its values, oldest first.
    pub fn into_iter(self) -> (iter: IntoIter<T>)
        requires
            self.wf(),
        ensures
            iter.wf(),
            iter@ == self@,
    {
        IntoIter { value: self }
    }
}

impl<T> Default for SegQueue<T> {
    /// An empty queue.
    fn default() -> (queue: SegQueue<T>)
        ensures
            queue.wf(),
            queue@ == Seq::<T>::empty(),
            queue.head_index() == 0,
            queue.tail_index() == 0,
            queue.head_block() is None,
            queue.tail_block() is None,
            queue.chain().len() == 0,
    {
        SegQueue::new()
    }
}

/// Hands out the values of a queue that it owns, oldest first.
pub struct IntoIter<T> {
    value: SegQueue<T>,
}

impl<T> View for IntoIter<T> {
    type V = Seq<T>;

    /// The values still to come, in order.
    closed spec fn view(&self) -> Seq<T> {
        self.value@
    }
}

impl<T> IntoIter<T> {
    /// The iterator's invariant: indices and blocks of its queue agree. The
    /// head's hint is never read here and left as it is.
    pub closed spec fn wf(self) -> bool {
        self.value.sound()
    }

    /// Returns the next value, or `None` once the queue is drained, and then
    /// changes nothing.
    pub fn next(&mut self) -> (item: Option<T>)
        requires
            old(self).wf(),
        ensures
            final(self).wf(),
            item == pop_result(old(self)@),
            final(self)@ == after_pop(old(self)@),
            old(self)@.len() == 0 ==> *final(self) == *old(self),
    {
        let head = padded_get(&self.value.head).index;
        let tail = padded_get(&self.value.tail).index;
        proof {
            lemma_parts(head);
            lemma_parts(tail);
        }
        if same_position(head, tail) {
            None
        } else {
            let offset = offset(head);
            let next = if offset + 1 == BLOCK_CAP {
                // The last position of a block holds nothing, so skip it.
                skip(step(head))
            } else {
                step(head)
            };
            Some(self.value.take_front(next))
        }
    }

    /// Drains the queue into a vector, oldest value first.
    pub fn into_vec(self) -> (values: Vec<T>)
        requires
            self.wf(),
        ensures
            values@ == self@,
    {
        let mut iter = self;
        let mut values: Vec<T> = Vec::new();
        loop
            invariant
                iter.wf(),
                values@ + iter@ == self@,
            ensures
                values@ == self@,
            decreases iter@.len(),
        {
            match iter.next() {
                Some(item) => {
                    let ghost before = values@;
                    values.push(item);
                    assert(values@ + iter@ =~= self@) by {
                        assert(values@ + iter@ =~= before + (seq![item] + iter@));
                    }
                },
                None => {
                    assert(values@ =~= values@ + iter@);
                    break ;
                },
            }
        }
        values
    }
}

} // verus!
