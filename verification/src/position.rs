//! The two ends of the queue, each kept on a cache line of its own.

use crossbeam::utils::CachePadded;
use vstd::prelude::*;

verus! {

/// One end of the queue: the encoded index at which it stands and the block
/// that it works on.
#[derive(Clone, Copy)]
pub struct Position {
    /// The index in the queue.
    pub index: usize,
    /// The block in the chain, named by the lap that it covers: `None` only
    /// before the first push.
    pub block: Option<usize>,
}

/// `crossbeam::utils::CachePadded`: a value aligned to, and padded out to, the
/// length of a cache line. Nothing of its layout is visible here.
#[verifier::external_type_specification]
#[verifier::external_body]
#[verifier::reject_recursive_types(T)]
pub struct ExCachePadded<T>(CachePadded<T>);

/// The position that a padded cell holds.
pub uninterp spec fn padded_value(cell: CachePadded<Position>) -> Position;

/// `CachePadded::new`: the new cell holds the value it was made from.
#[verifier::external_body]
pub(crate) fn padded_new(value: Position) -> (cell: CachePadded<Position>)
    ensures
        padded_value(cell) == value,
{
    CachePadded::new(value)
}

/// `CachePadded`'s `deref`: reads the value that the cell holds.
#[verifier::external_body]
pub(crate) fn padded_get(cell: &CachePadded<Position>) -> (value: Position)
    ensures
        value == padded_value(*cell),
{
    **cell
}

/// `CachePadded`'s `deref_mut`, assigned through: afterwards the cell holds
/// `value`.
#[verifier::external_body]
pub(crate) fn padded_set(cell: &mut CachePadded<Position>, value: Position)
    ensures
        padded_value(*final(cell)) == value,
{
    **cell = value;
}

} // verus!
