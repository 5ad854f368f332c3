use lf_queue::LF_Queue;
use lf_queue::QueueError;

fn push(queue: &mut LF_Queue<u32>, value: u32) -> bool {
    match queue.get_next_to_write_to() {
        Some(slot) => {
            *slot = value;
        }
        None => return false,
    }
    queue.update_write_index();
    true
}

fn pop(queue: &mut LF_Queue<u32>) -> Option<u32> {
    let value = match queue.get_next_to_read() {
        Some(entry) => *entry,
        None => return None,
    };
    queue.update_read_index();
    Some(value)
}

#[test]
fn test_basic_queue_operations() {
    let mut queue = LF_Queue::<u32>::new(5);
    assert_eq!(queue.size(), 0);

    let elem = queue.get_next_to_write_to().unwrap(); // Get position first
    *elem = 42; // Write to it
    queue.update_write_index(); // Then update the index

    assert_eq!(queue.size(), 1);

    let read_elem = queue.get_next_to_read().unwrap();
    assert_eq!(*read_elem, 42);
    queue.update_read_index();
    assert_eq!(queue.size(), 0);
}

#[test]
fn new_queue_is_empty_with_default_slots() {
    let mut queue = LF_Queue::<u32>::new(4);
    assert_eq!(queue.capacity(), 4);
    assert_eq!(queue.size(), 0);
    assert!(queue.get_next_to_read().is_none());
    assert_eq!(*queue.get_next_to_write_to().unwrap(), 0);
}

#[test]
fn try_new_rejects_zero_capacity() {
    assert_eq!(LF_Queue::<u32>::try_new(0).err(), Some(QueueError::ZeroCapacity));
}

#[test]
fn try_new_accepts_nonzero_capacity() {
    let queue = LF_Queue::<u32>::try_new(7).unwrap();
    assert_eq!(queue.capacity(), 7);
    assert_eq!(queue.size(), 0);
}

#[test]
fn reads_follow_publish_order() {
    let mut queue = LF_Queue::<u32>::new(8);
    let values = vec![31, 4, 15, 9, 26, 5, 35, 8];
    for v in values.iter() {
        assert!(push(&mut queue, *v));
    }
    assert_eq!(queue.size(), 8);
    let mut seen = Vec::new();
    for _ in 0..values.len() {
        seen.push(pop(&mut queue).unwrap());
    }
    assert_eq!(seen, values);
    assert_eq!(queue.size(), 0);
}

#[test]
fn reads_follow_publish_order_below_capacity() {
    let mut queue = LF_Queue::<u32>::new(8);
    assert!(push(&mut queue, 3));
    assert!(push(&mut queue, 1));
    assert!(push(&mut queue, 2));
    assert_eq!(pop(&mut queue), Some(3));
    assert_eq!(pop(&mut queue), Some(1));
    assert_eq!(pop(&mut queue), Some(2));
    assert_eq!(pop(&mut queue), None);
}

#[test]
fn accepts_exactly_capacity_writes() {
    let mut queue = LF_Queue::<u32>::new(4);
    for i in 0..4 {
        assert!(queue.get_next_to_write_to().is_some());
        assert!(push(&mut queue, i));
        assert_eq!(queue.size(), (i + 1) as usize);
    }
    assert!(queue.get_next_to_write_to().is_none());
    assert_eq!(queue.size(), 4);
    assert!(!push(&mut queue, 99));
    assert_eq!(queue.size(), 4);
    assert_eq!(*queue.get_next_to_read().unwrap(), 0);
}

#[test]
fn full_queue_accepts_again_after_one_release() {
    let mut queue = LF_Queue::<u32>::new(2);
    assert!(push(&mut queue, 10));
    assert!(push(&mut queue, 20));
    assert!(!push(&mut queue, 30));
    assert_eq!(pop(&mut queue), Some(10));
    assert!(push(&mut queue, 30));
    assert!(!push(&mut queue, 40));
    assert_eq!(pop(&mut queue), Some(20));
    assert_eq!(pop(&mut queue), Some(30));
    assert_eq!(pop(&mut queue), None);
}

#[test]
fn drained_queue_reports_empty() {
    let mut queue = LF_Queue::<u32>::new(3);
    assert!(push(&mut queue, 1));
    assert!(push(&mut queue, 2));
    queue.update_read_index();
    queue.update_read_index();
    assert_eq!(queue.size(), 0);
    assert!(queue.get_next_to_read().is_none());
}

#[test]
fn round_trip_keeps_the_value() {
    let mut queue = LF_Queue::<u64>::new(2);
    let v: u64 = 0xDEAD_BEEF_0BAD_F00D;
    *queue.get_next_to_write_to().unwrap() = v;
    queue.update_write_index();
    assert_eq!(*queue.get_next_to_read().unwrap(), v);
}

#[test]
fn round_trip_of_an_owned_value() {
    let mut queue = LF_Queue::<String>::new(2);
    assert_eq!(*queue.get_next_to_write_to().unwrap(), String::new());
    *queue.get_next_to_write_to().unwrap() = String::from("entry one");
    queue.update_write_index();
    queue.get_next_to_write_to().unwrap().push_str("entry two");
    queue.update_write_index();
    assert_eq!(queue.get_next_to_read().unwrap().as_str(), "entry one");
    queue.update_read_index();
    assert_eq!(queue.get_next_to_read().unwrap().as_str(), "entry two");
}

#[test]
fn claim_without_publish_changes_nothing_visible() {
    let mut queue = LF_Queue::<u32>::new(3);
    assert!(push(&mut queue, 5));
    *queue.get_next_to_write_to().unwrap() = 77;
    assert_eq!(queue.size(), 1);
    assert_eq!(*queue.get_next_to_read().unwrap(), 5);
    // The same slot is handed out again, with what was left in it.
    assert_eq!(*queue.get_next_to_write_to().unwrap(), 77);
    queue.update_write_index();
    assert_eq!(queue.size(), 2);
    assert_eq!(pop(&mut queue), Some(5));
    assert_eq!(pop(&mut queue), Some(77));
}

#[test]
fn sixth_write_of_capacity_three_reuses_third_slot() {
    let mut queue = LF_Queue::<u32>::new(3);
    for cycle in 0..5u32 {
        assert!(push(&mut queue, 100 + cycle));
        assert_eq!(pop(&mut queue), Some(100 + cycle));
    }
    // Slots 0, 1, 2 were written in cycles (0, 3), (1, 4), (2). The sixth
    // claim lands on slot 5 mod 3 = 2, which still holds the third write.
    assert_eq!(*queue.get_next_to_write_to().unwrap(), 102);
    assert!(push(&mut queue, 105));
    // The seventh lands on slot 0, last written in the fourth cycle.
    assert_eq!(*queue.get_next_to_write_to().unwrap(), 103);
    assert_eq!(pop(&mut queue), Some(105));
}

#[test]
fn wraps_while_partly_filled() {
    let mut queue = LF_Queue::<u32>::new(3);
    assert!(push(&mut queue, 1));
    assert!(push(&mut queue, 2));
    assert_eq!(pop(&mut queue), Some(1));
    assert!(push(&mut queue, 3));
    assert!(push(&mut queue, 4));
    assert!(!push(&mut queue, 5));
    assert_eq!(queue.size(), 3);
    assert_eq!(pop(&mut queue), Some(2));
    assert_eq!(pop(&mut queue), Some(3));
    assert_eq!(pop(&mut queue), Some(4));
    assert_eq!(pop(&mut queue), None);
}

#[test]
fn capacity_one_alternates_full_and_empty() {
    let mut queue = LF_Queue::<u32>::new(1);
    for i in 0..10 {
        assert!(queue.get_next_to_read().is_none());
        assert!(push(&mut queue, i));
        assert_eq!(queue.size(), 1);
        assert!(queue.get_next_to_write_to().is_none());
        assert_eq!(pop(&mut queue), Some(i));
        assert_eq!(queue.size(), 0);
    }
}

#[test]
fn interleaved_producer_and_consumer_keep_sequence() {
    // One producer and one consumer taking turns on a small queue: the
    // producer runs until the queue is full, the consumer until it is empty.
    let mut queue = LF_Queue::<u32>::new(64);
    let total: u32 = 100_000;
    let mut next_in: u32 = 0;
    let mut next_out: u32 = 0;
    while next_out < total {
        while next_in < total && push(&mut queue, next_in) {
            next_in += 1;
        }
        while let Some(v) = pop(&mut queue) {
            assert_eq!(v, next_out);
            next_out += 1;
        }
    }
    assert_eq!(next_in, total);
    assert_eq!(queue.size(), 0);
}

#[test]
fn five_writers_and_five_readers_in_turn() {
    // Five writers and five readers, each with 200 operations, scheduled
    // round-robin on one queue of capacity 1000.
    let mut queue = LF_Queue::<u32>::new(1000);
    let mut written = [0u32; 5];
    let mut read = [0u32; 5];
    let mut progress = true;
    while progress {
        progress = false;
        for w in 0..5 {
            if written[w] < 200 && push(&mut queue, written[w]) {
                written[w] += 1;
                progress = true;
            }
        }
        for r in 0..5 {
            if read[r] < 200 && pop(&mut queue).is_some() {
                read[r] += 1;
                progress = true;
            }
        }
    }
    assert_eq!(written, [200u32; 5]);
    assert_eq!(read, [200u32; 5]);
    assert_eq!(queue.size(), 0);
}
