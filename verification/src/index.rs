//! Encoded queue indices.
//!
//! An index is one machine word. Its lowest bit is a hint that only the
//! consumer uses; the bits above it count sequence numbers. A sequence number
//! names a position: `LAP` consecutive positions make up one lap, which one
//! block covers. The first `BLOCK_CAP` positions of a lap are slots, the last
//! one is the boundary: it holds no value and is stepped over. Sequence
//! numbers go round, so a later position may have the smaller number.

use vstd::prelude::*;

verus! {

/// Bit of a slot's state that is set once a value has been written into it.
pub const WRITE: usize = 1;

/// Positions covered by one block.
pub const LAP: usize = 32;

/// Values that one block can hold.
pub const BLOCK_CAP: usize = LAP - 1;

/// Low bits of an index that are reserved for metadata.
pub const SHIFT: usize = 1;

/// Metadata bit of a head index: the head's block is not the last one.
pub const HAS_NEXT: usize = 1;

/// How many laps there are before sequence numbers start again at zero.
pub open spec fn lap_space() -> int {
    (usize::MAX as int + 1) / 64
}

/// The lap that an index points into.
#[verifier::opaque]
pub open spec fn lap_of(index: usize) -> int {
    (index as int / 2) / 32
}

/// The position within its lap that an index points at.
#[verifier::opaque]
pub open spec fn offset_of(index: usize) -> int {
    (index as int / 2) % 32
}

/// The hint bit of an index, as a number.
#[verifier::opaque]
pub open spec fn hint_of(index: usize) -> int {
    index as int % 2
}

/// Whether the hint bit of an index is set.
pub open spec fn has_next(index: usize) -> bool {
    hint_of(index) == 1
}

/// The lap that follows `lap`, going round at the end of the index space.
pub open spec fn next_lap(lap: int) -> int {
    if lap + 1 == lap_space() {
        0
    } else {
        lap + 1
    }
}

/// The lap that lies `k` laps after `lap`, going round at the end of the
/// index space.
pub open spec fn lap_after(lap: int, k: int) -> int {
    if lap + k >= lap_space() {
        lap + k - lap_space()
    } else {
        lap + k
    }
}

/// Whether `next` points at the slot after the one that `index` points at:
/// the next slot of the same lap, or the first slot of the following lap
/// where `index` points at the last slot of its own.
pub open spec fn follows(index: usize, next: usize) -> bool {
    if offset_of(index) < 30 {
        lap_of(next) == lap_of(index) && offset_of(next) == offset_of(index) + 1
    } else {
        lap_of(next) == next_lap(lap_of(index)) && offset_of(next) == 0
    }
}

/// The lap of the slot an index stands for: an index on a boundary stands for
/// the first slot of the following lap.
pub open spec fn settled_lap(index: usize) -> int {
    if offset_of(index) == 31 {
        next_lap(lap_of(index))
    } else {
        lap_of(index)
    }
}

/// The offset of the slot an index stands for.
pub open spec fn settled_offset(index: usize) -> int {
    if offset_of(index) == 31 {
        0
    } else {
        offset_of(index)
    }
}

/// How many laps the tail is ahead of the head, counted forwards.
pub open spec fn laps_ahead(head: usize, tail: usize) -> int {
    let d = settled_lap(tail) - settled_lap(head);
    if d >= 0 {
        d
    } else {
        d + lap_space()
    }
}

/// How many slots lie between the head (included) and the tail (excluded).
pub open spec fn count_between(head: usize, tail: usize) -> int {
    31 * laps_ahead(head, tail) + settled_offset(tail) - settled_offset(head)
}

/// The index space has a whole number of laps, for either width of `usize`.
pub proof fn lemma_lap_space()
    ensures
        lap_space() * 64 == usize::MAX + 1,
        lap_space() >= 0x400_0000,
{
}

/// An index is made of its lap, its offset and its hint bit.
pub proof fn lemma_parts(index: usize)
    ensures
        index == 64 * lap_of(index) + 2 * offset_of(index) + hint_of(index),
        0 <= lap_of(index) < lap_space(),
        0 <= offset_of(index) < 32,
        0 <= hint_of(index) < 2,
{
    reveal(lap_of);
    reveal(offset_of);
    reveal(hint_of);
}

/// A lap, an offset and a hint bit make exactly one index.
pub proof fn lemma_whole(index: usize, lap: int, offset: int, hint: int)
    requires
        index == 64 * lap + 2 * offset + hint,
        0 <= offset < 32,
        0 <= hint < 2,
    ensures
        lap_of(index) == lap,
        offset_of(index) == offset,
        hint_of(index) == hint,
{
    reveal(lap_of);
    reveal(offset_of);
    reveal(hint_of);
}

/// What the bit operations on an index compute.
proof fn lemma_index_bits(x: usize)
    by (bit_vector)
    ensures
        1usize << 1usize == 2,
        x >> 1usize == x / 2,
        x & 1usize == x % 2,
        x | 1usize == (if x % 2 == 0 { x + 1 } else { x as int }),
        x & !1usize == x - x % 2,
{
}

/// Shifting the first sequence number of a lap back into an index doubles it.
proof fn lemma_shift_in(lap: usize, index: usize)
    by (bit_vector)
    requires
        lap == (index >> 1usize) / 32usize,
    ensures
        ((lap * 32) as usize) << 1usize == 64 * lap,
{
}

/// The offset within its lap that `index` points at.
pub fn offset(index: usize) -> (r: usize)
    ensures
        r == offset_of(index),
        r < LAP,
{
    proof {
        lemma_index_bits(index);
        reveal(offset_of);
    }
    (index >> SHIFT) % LAP
}

/// The lap that `index` points into.
pub fn lap(index: usize) -> (r: usize)
    ensures
        r == lap_of(index),
{
    proof {
        lemma_index_bits(index);
        reveal(lap_of);
    }
    (index >> SHIFT) / LAP
}

/// Whether the hint bit of `index` is set.
pub fn hinted(index: usize) -> (r: bool)
    ensures
        r == has_next(index),
{
    proof {
        lemma_index_bits(index);
        reveal(hint_of);
    }
    index & HAS_NEXT != 0
}

/// `index` with its hint bit set.
pub fn with_hint(index: usize) -> (r: usize)
    ensures
        hint_of(r) == 1,
        lap_of(r) == lap_of(index),
        offset_of(r) == offset_of(index),
{
    proof {
        lemma_index_bits(index);
        lemma_parts(index);
        lemma_lap_space();
        reveal(hint_of);
    }
    let r = index | HAS_NEXT;
    proof {
        lemma_whole(r, lap_of(index), offset_of(index), 1);
    }
    r
}

/// `index` with its hint bit cleared.
pub fn without_hint(index: usize) -> (r: usize)
    ensures
        hint_of(r) == 0,
        lap_of(r) == lap_of(index),
        offset_of(r) == offset_of(index),
{
    proof {
        lemma_index_bits(index);
        lemma_parts(index);
        reveal(hint_of);
    }
    let r = index & !HAS_NEXT;
    proof {
        lemma_whole(r, lap_of(index), offset_of(index), 0);
    }
    r
}

/// The index one position after `index`, which points at a slot.
pub fn step(index: usize) -> (r: usize)
    requires
        offset_of(index) <= 30,
    ensures
        r == index + 2,
        lap_of(r) == lap_of(index),
        offset_of(r) == offset_of(index) + 1,
        hint_of(r) == hint_of(index),
{
    proof {
        lemma_index_bits(index);
        lemma_parts(index);
        lemma_lap_space();
    }
    let r = index + (1 << SHIFT);
    proof {
        lemma_whole(r, lap_of(index), offset_of(index) + 1, hint_of(index));
    }
    r
}

/// The index one position after `index`, which points at a boundary: the
/// first slot of the following lap, going round at the end of the index space.
pub fn skip(index: usize) -> (r: usize)
    requires
        offset_of(index) == 31,
    ensures
        lap_of(r) == next_lap(lap_of(index)),
        offset_of(r) == 0,
        hint_of(r) == hint_of(index),
{
    proof {
        lemma_index_bits(index);
        lemma_parts(index);
        lemma_lap_space();
    }
    let r = index.wrapping_add(1 << SHIFT);
    proof {
        lemma_whole(r, next_lap(lap_of(index)), 0, hint_of(index));
    }
    r
}

/// Whether two indices point at the same position, whatever their hint bits.
pub fn same_position(a: usize, b: usize) -> (r: bool)
    ensures
        r == (lap_of(a) == lap_of(b) && offset_of(a) == offset_of(b)),
{
    proof {
        lemma_index_bits(a);
        lemma_index_bits(b);
        lemma_parts(a);
        lemma_parts(b);
        reveal(hint_of);
    }
    a >> SHIFT == b >> SHIFT
}

/// Whether two indices point into the same lap.
pub fn same_lap(a: usize, b: usize) -> (r: bool)
    ensures
        r == (lap_of(a) == lap_of(b)),
{
    proof {
        lemma_index_bits(a);
        lemma_index_bits(b);
        reveal(lap_of);
    }
    (a >> SHIFT) / LAP == (b >> SHIFT) / LAP
}

/// A hint-free index that points at a slot, moved back by the laps before
/// `lap`, is what is left of it within and after that lap.
proof fn lemma_turn(index: usize, lap: int, ahead: int)
    requires
        hint_of(index) == 0,
        offset_of(index) <= 30,
        0 <= lap < lap_space(),
        ahead == (if lap_of(index) >= lap {
            lap_of(index) - lap
        } else {
            lap_of(index) - lap + lap_space()
        }),
    ensures
        64 * lap <= usize::MAX,
        index.wrapping_sub((64 * lap) as usize) == 64 * ahead + 2 * offset_of(index),
{
    lemma_parts(index);
    lemma_lap_space();
}

/// The number of values between a head index and a tail index that were read
/// at one moment.
///
/// Metadata bits are ignored. An index that stands on a boundary counts as the
/// first slot of the following lap. The tail must not lie behind the head.
pub fn distance(head: usize, tail: usize) -> (n: usize)
    requires
        count_between(head, tail) >= 0,
    ensures
        n == count_between(head, tail),
{
    // Erase the lower bits.
    let mut tail = without_hint(tail);
    let mut head = without_hint(head);

    // Fix up indices if they fall onto block ends.
    if offset(tail) == LAP - 1 {
        tail = skip(tail);
    }
    if offset(head) == LAP - 1 {
        head = skip(head);
    }
    let ghost ahead = if lap_of(tail) >= lap_of(head) {
        lap_of(tail) - lap_of(head)
    } else {
        lap_of(tail) - lap_of(head) + lap_space()
    };
    let ghost tail_offset = offset_of(tail);
    let ghost head_offset = offset_of(head);

    // Rotate indices so that head falls into the first block.
    proof {
        lemma_index_bits(head);
        reveal(lap_of);
    }
    let lap = (head >> SHIFT) / LAP;
    proof {
        lemma_shift_in(lap, head);
        lemma_parts(head);
        lemma_turn(tail, lap as int, ahead);
        lemma_turn(head, lap as int, 0);
    }
    let turn = (lap * LAP) << SHIFT;
    tail = tail.wrapping_sub(turn);
    head = head.wrapping_sub(turn);
    assert(tail == 64 * ahead + 2 * tail_offset);
    assert(head == 2 * head_offset);

    // Remove the lower bits.
    proof {
        lemma_index_bits(tail);
        lemma_index_bits(head);
    }
    tail = tail >> SHIFT;
    head = head >> SHIFT;
    assert(tail == 32 * ahead + tail_offset);
    assert(head == head_offset);
    assert(tail / 32 == ahead);

    // The difference, less the boundaries between tail and head.
    tail - head - tail / LAP
}

} // verus!
