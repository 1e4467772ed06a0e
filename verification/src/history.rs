//! What holds of every run of pushes and pops.
//!
//! A run is told over the values of the queue alone: a push appends its value,
//! a pop on a queue that holds something takes the first value away, and a pop
//! on an empty queue changes nothing and yields nothing.

use vstd::prelude::*;

verus! {

/// One call on the queue.
pub enum Op<T> {
    /// A push of this value.
    Push(T),
    /// A pop.
    Pop,
}

/// What a run has come to: the values still in the queue, all values that
/// were pushed, and all values that pops have returned, each in order.
pub struct Trace<T> {
    pub queue: Seq<T>,
    pub pushed: Seq<T>,
    pub popped: Seq<T>,
}

/// The values of a queue after `value` has been pushed.
pub open spec fn after_push<T>(queue: Seq<T>, value: T) -> Seq<T> {
    queue.push(value)
}

/// What a pop returns: the oldest value, if there is one.
pub open spec fn pop_result<T>(queue: Seq<T>) -> Option<T> {
    if queue.len() == 0 {
        None
    } else {
        Some(queue[0])
    }
}

/// The values of a queue after a pop.
pub open spec fn after_pop<T>(queue: Seq<T>) -> Seq<T> {
    if queue.len() == 0 {
        queue
    } else {
        queue.drop_first()
    }
}

/// The trace after one more call.
pub open spec fn apply<T>(before: Trace<T>, op: Op<T>) -> Trace<T> {
    match op {
        Op::Push(value) => Trace {
            queue: after_push(before.queue, value),
            pushed: before.pushed.push(value),
            popped: before.popped,
        },
        Op::Pop => Trace {
            queue: after_pop(before.queue),
            pushed: before.pushed,
            popped: match pop_result(before.queue) {
                Some(value) => before.popped.push(value),
                None => before.popped,
            },
        },
    }
}

/// The trace of a run that starts on a new queue.
pub open spec fn run<T>(ops: Seq<Op<T>>) -> Trace<T>
    decreases ops.len(),
{
    if ops.len() == 0 {
        Trace { queue: Seq::empty(), pushed: Seq::empty(), popped: Seq::empty() }
    } else {
        apply(run(ops.drop_last()), ops.last())
    }
}

/// The run that pushes `values` in order.
pub open spec fn pushes<T>(values: Seq<T>) -> Seq<Op<T>> {
    Seq::new(values.len(), |i: int| Op::Push(values[i]))
}

/// The run of `count` pops.
pub open spec fn pops<T>(count: nat) -> Seq<Op<T>> {
    Seq::new(count, |i: int| Op::Pop)
}

/// First in, first out: whatever the order of pushes and pops, the values
/// that pops have returned, followed by the values still in the queue, are
/// the values that were pushed, in the order in which they were pushed.
pub proof fn lemma_fifo<T>(ops: Seq<Op<T>>)
    ensures
        run(ops).popped + run(ops).queue == run(ops).pushed,
    decreases ops.len(),
{
    if ops.len() > 0 {
        let before = run(ops.drop_last());
        lemma_fifo(ops.drop_last());
        match ops.last() {
            Op::Push(value) => {
                assert(before.popped + before.queue.push(value) =~= (before.popped
                    + before.queue).push(value));
            },
            Op::Pop => {
                if before.queue.len() > 0 {
                    assert(before.popped.push(before.queue[0]) + before.queue.drop_first()
                        =~= before.popped + before.queue);
                }
            },
        }
    } else {
        assert(run(ops).popped + run(ops).queue =~= run(ops).pushed);
    }
}

/// Nothing is lost and nothing is made up: the number of values in the queue
/// is the number of pushes less the number of pops that returned a value.
pub proof fn lemma_conservation<T>(ops: Seq<Op<T>>)
    ensures
        run(ops).queue.len() == run(ops).pushed.len() - run(ops).popped.len(),
{
    lemma_fifo(ops);
    assert((run(ops).popped + run(ops).queue).len() == run(ops).popped.len() + run(
        ops,
    ).queue.len());
}

/// The run that pushes `values` leaves exactly these values in the queue.
pub proof fn lemma_pushes<T>(values: Seq<T>)
    ensures
        run(pushes(values)).queue == values,
        run(pushes(values)).pushed == values,
        run(pushes(values)).popped == Seq::<T>::empty(),
    decreases values.len(),
{
    let ops = pushes(values);
    if values.len() > 0 {
        lemma_pushes(values.drop_last());
        assert(ops.drop_last() =~= pushes(values.drop_last()));
        assert(ops.last() == Op::Push(values.last()));
        assert(values.drop_last().push(values.last()) =~= values);
    } else {
        assert(run(ops).queue =~= values);
    }
}

/// After `values` have been pushed and `count` of them popped, the pops have
/// returned the first `count` values in order and the rest is in the queue:
/// the queue then holds as many values as were pushed less those popped.
pub proof fn lemma_pushes_then_pops<T>(values: Seq<T>, count: nat)
    requires
        count <= values.len(),
    ensures
        run(pushes(values) + pops(count)).popped == values.take(count as int),
        run(pushes(values) + pops(count)).queue == values.skip(count as int),
        run(pushes(values) + pops(count)).queue.len() == values.len() - count,
    decreases count,
{
    let ops = pushes(values) + pops::<T>(count);
    if count == 0 {
        lemma_pushes(values);
        assert(ops =~= pushes(values));
        assert(values.take(0) =~= Seq::<T>::empty());
        assert(values.skip(0) =~= values);
    } else {
        let fewer = (count - 1) as nat;
        lemma_pushes_then_pops(values, fewer);
        assert(ops.drop_last() =~= pushes(values) + pops::<T>(fewer));
        assert(ops.last() == Op::<T>::Pop);
        let before = run(ops.drop_last());
        assert(before.queue.len() > 0);
        assert(before.queue[0] == values[count - 1]);
        assert(before.queue.drop_first() =~= values.skip(count as int));
        assert(before.popped.push(before.queue[0]) =~= values.take(count as int));
    }
}

/// The values of a queue after `count` pops.
pub open spec fn after_pops<T>(queue: Seq<T>, count: nat) -> Seq<T>
    decreases count,
{
    if count == 0 {
        queue
    } else {
        after_pop(after_pops(queue, (count - 1) as nat))
    }
}

/// Pops take values from the front, one each, until nothing is left.
pub proof fn lemma_after_pops<T>(queue: Seq<T>, count: nat)
    ensures
        after_pops(queue, count) == (if count <= queue.len() {
            queue.skip(count as int)
        } else {
            Seq::<T>::empty()
        }),
    decreases count,
{
    if count == 0 {
        assert(queue.skip(0) =~= queue);
    } else {
        lemma_after_pops(queue, (count - 1) as nat);
        let before = after_pops(queue, (count - 1) as nat);
        if count <= queue.len() {
            assert(before.drop_first() =~= queue.skip(count as int));
        } else {
            assert(after_pop(before) =~= Seq::<T>::empty());
        }
    }
}

/// A push puts its value behind all that the queue holds. After it the queue
/// holds one value more and is not empty; the next pops return what the queue
/// held before, in order, the pop after them returns the pushed value, and
/// the pop after that returns nothing.
pub proof fn lemma_push_goes_last<T>(queue: Seq<T>, value: T, count: nat)
    ensures
        after_push(queue, value).len() == queue.len() + 1,
        pop_result(after_push(queue, value)) is Some,
        count < queue.len() ==> pop_result(after_pops(after_push(queue, value), count)) == Some(
            queue[count as int],
        ),
        count == queue.len() ==> pop_result(after_pops(after_push(queue, value), count)) == Some(
            value,
        ),
        count > queue.len() ==> pop_result(after_pops(after_push(queue, value), count)) is None,
{
    lemma_after_pops(after_push(queue, value), count);
}

} // verus!
