use coio_core::seg_queue::SegQueue;
use std::cell::Cell;
use std::rc::Rc;

/// Counts how many of its kind have been dropped.
struct Counted {
    id: usize,
    drops: Rc<Cell<usize>>,
}

impl Drop for Counted {
    fn drop(&mut self) {
        self.drops.set(self.drops.get() + 1);
    }
}

fn round_trip(count: usize) {
    let mut q = SegQueue::new();
    for i in 0..count {
        q.push(i);
    }
    assert_eq!(q.len(), count);
    for i in 0..count {
        assert_eq!(q.pop(), Some(i));
    }
    assert_eq!(q.pop(), None);
    assert!(q.is_empty());
    assert_eq!(q.len(), 0);
}

#[test]
fn push_two_chars_pop_in_order() {
    let mut q = SegQueue::new();
    q.push('a');
    q.push('b');
    assert_eq!(q.pop(), Some('a'));
    assert_eq!(q.pop(), Some('b'));
    assert!(q.pop().is_none());
}

#[test]
fn sixty_four_values_come_out_in_order() {
    let mut q = SegQueue::new();
    for i in 0..64 {
        q.push(i);
    }
    let mut seen = Vec::new();
    for _ in 0..64 {
        seen.push(q.pop().unwrap());
    }
    let expected: Vec<i32> = (0..64).collect();
    assert_eq!(seen, expected);
}

#[test]
fn new_queue_is_empty_until_pushed() {
    let mut q = SegQueue::new();
    assert!(q.is_empty());
    q.push(1);
    assert!(!q.is_empty());
    assert_eq!(q.len(), 1);
}

#[test]
fn len_counts_pushes() {
    let mut q = SegQueue::new();
    assert_eq!(q.len(), 0);
    q.push(10);
    assert_eq!(q.len(), 1);
    q.push(20);
    assert_eq!(q.len(), 2);
}

#[test]
fn pop_on_empty_changes_nothing() {
    let mut q: SegQueue<u8> = SegQueue::new();
    assert_eq!(q.pop(), None);
    assert_eq!(q.pop(), None);
    assert_eq!(q.len(), 0);
    q.push(7);
    assert_eq!(q.pop(), Some(7));
    assert_eq!(q.pop(), None);
    assert_eq!(q.len(), 0);
}

#[test]
fn fifo_with_pushes_and_pops_mixed() {
    let mut q = SegQueue::new();
    let mut next_in = 0u32;
    let mut next_out = 0u32;
    for round in 0..200u32 {
        for _ in 0..(round % 7 + 1) {
            q.push(next_in);
            next_in += 1;
        }
        for _ in 0..(round % 5) {
            match q.pop() {
                Some(v) => {
                    assert_eq!(v, next_out);
                    next_out += 1;
                }
                None => assert_eq!(next_in, next_out),
            }
        }
    }
    while let Some(v) = q.pop() {
        assert_eq!(v, next_out);
        next_out += 1;
    }
    assert_eq!(next_in, next_out);
}

#[test]
fn pushes_less_pops_is_len() {
    let mut q = SegQueue::new();
    let mut pushes = 0usize;
    let mut pops = 0usize;
    for round in 0..300usize {
        if round % 3 != 2 {
            q.push(round);
            pushes += 1;
        } else if q.pop().is_some() {
            pops += 1;
        }
        assert_eq!(q.len(), pushes - pops);
        assert_eq!(q.is_empty(), pushes == pops);
    }
    assert_eq!(pushes, 200);
    assert_eq!(pops, 100);
    assert_eq!(q.len(), 100);
}

#[test]
fn a_million_values_pass_through_in_order() {
    let mut q = SegQueue::new();
    let total = 1_000_000u32;
    let mut next_in = 0u32;
    let mut next_out = 0u32;
    while next_out < total {
        let burst = (next_in % 97) + 1;
        for _ in 0..burst {
            if next_in < total {
                q.push(next_in);
                next_in += 1;
            }
        }
        let take = (next_out % 89) + 1;
        for _ in 0..take {
            if let Some(v) = q.pop() {
                assert_eq!(v, next_out);
                next_out += 1;
            }
        }
    }
    assert_eq!(next_in, total);
    assert_eq!(q.pop(), None);
    assert_eq!(q.len(), 0);
}

#[test]
fn thirty_one_values_fill_one_block() {
    round_trip(31);
}

#[test]
fn thirty_two_values_reach_the_second_block() {
    round_trip(32);
}

#[test]
fn sixty_two_values_fill_two_blocks() {
    round_trip(62);
}

#[test]
fn sixty_three_values_reach_the_third_block() {
    round_trip(63);
}

#[test]
fn sixty_four_values_round_trip() {
    round_trip(64);
}

#[test]
fn len_is_exact_at_block_ends() {
    let mut q = SegQueue::new();
    for i in 0..100usize {
        q.push(i);
        assert_eq!(q.len(), i + 1);
    }
    for i in 0..100usize {
        assert_eq!(q.pop(), Some(i));
        assert_eq!(q.len(), 99 - i);
    }
}

#[test]
fn len_after_k_pushes_and_j_pops() {
    for k in [0usize, 1, 30, 31, 32, 61, 62, 63, 64, 200] {
        for j in [0usize, 1, 30, 31, 32, 62, 63, 200] {
            if j <= k {
                let mut q = SegQueue::new();
                for i in 0..k {
                    q.push(i);
                }
                for _ in 0..j {
                    assert!(q.pop().is_some());
                }
                assert_eq!(q.len(), k - j);
            }
        }
    }
}

#[test]
fn head_moves_round_while_the_queue_stays_short() {
    let mut q = SegQueue::new();
    for i in 0..10_000usize {
        q.push(i);
        q.push(i + 1);
        assert_eq!(q.pop(), Some(i));
        assert_eq!(q.pop(), Some(i + 1));
        assert!(q.is_empty());
    }
}

#[test]
fn dropping_the_queue_drops_what_is_left() {
    for left in [0usize, 1, 5, 31, 32, 63, 100] {
        let drops = Rc::new(Cell::new(0));
        let mut q = SegQueue::new();
        for id in 0..(left + 40) {
            q.push(Counted { id, drops: drops.clone() });
        }
        for id in 0..40 {
            let got = q.pop().unwrap();
            assert_eq!(got.id, id);
        }
        assert_eq!(drops.get(), 40);
        assert_eq!(q.len(), left);
        drop(q);
        assert_eq!(drops.get(), 40 + left);
        assert_eq!(Rc::strong_count(&drops), 1);
    }
}

#[test]
fn drained_queue_holds_no_value() {
    let drops = Rc::new(Cell::new(0));
    let mut q = SegQueue::new();
    for id in 0..64 {
        q.push(Counted { id, drops: drops.clone() });
    }
    for _ in 0..64 {
        q.pop();
    }
    assert_eq!(drops.get(), 64);
    assert_eq!(Rc::strong_count(&drops), 1);
}

#[test]
fn default_queue_is_empty() {
    let mut q: SegQueue<i32> = SegQueue::default();
    assert!(q.is_empty());
    assert_eq!(q.len(), 0);
    assert_eq!(q.pop(), None);
}

#[test]
fn into_iter_hands_out_values_in_order() {
    let mut q = SegQueue::new();
    for i in 0..70 {
        q.push(i);
    }
    for i in 0..5 {
        assert_eq!(q.pop(), Some(i));
    }
    let mut iter = q.into_iter();
    for i in 5..70 {
        assert_eq!(iter.next(), Some(i));
    }
    assert_eq!(iter.next(), None);
    assert_eq!(iter.next(), None);
}

#[test]
fn into_iter_on_a_new_queue_is_done() {
    let q: SegQueue<String> = SegQueue::new();
    let mut iter = q.into_iter();
    assert_eq!(iter.next(), None);
}

#[test]
fn into_vec_collects_every_value() {
    for count in [0usize, 1, 31, 32, 95] {
        let mut q = SegQueue::new();
        for i in 0..count {
            q.push(i);
        }
        let expected: Vec<usize> = (0..count).collect();
        assert_eq!(q.into_iter().into_vec(), expected);
    }
}

#[test]
fn dropping_an_iterator_drops_what_it_has_not_handed_out() {
    let drops = Rc::new(Cell::new(0));
    let mut q = SegQueue::new();
    for id in 0..50 {
        q.push(Counted { id, drops: drops.clone() });
    }
    let mut iter = q.into_iter();
    for id in 0..35 {
        assert_eq!(iter.next().unwrap().id, id);
    }
    assert_eq!(drops.get(), 35);
    drop(iter);
    assert_eq!(drops.get(), 50);
}

#[test]
fn capacity_is_what_the_indices_can_tell_apart() {
    assert_eq!(SegQueue::<u8>::capacity(), 31 * (usize::MAX / 64));
    let mut q = SegQueue::new();
    q.push(1u8);
    assert!(q.len() < SegQueue::<u8>::capacity());
}

#[test]
fn a_drained_queue_takes_values_again() {
    let mut q = SegQueue::new();
    for round in 0..5u32 {
        assert_eq!(q.pop(), None);
        for i in 0..40 {
            q.push(round * 100 + i);
        }
        for i in 0..40 {
            assert_eq!(q.pop(), Some(round * 100 + i));
        }
        assert_eq!(q.pop(), None);
        assert!(q.is_empty());
    }
}
