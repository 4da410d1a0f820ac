use shmem_queue::{Queue, Regions, Ring, QUEUE_SIZE};

#[test]
fn test_default_initialization() {
    let mut regions = Regions::<i32>::new();
    let queue = Queue::new(&mut regions, "test");
    assert!(queue.len_slots(&regions) == QUEUE_SIZE);
    assert_eq!(queue.head(&regions), 0);
    assert_eq!(queue.tail(&regions), 0);
    for i in 0..QUEUE_SIZE {
        let ele = queue.slot(&regions, i);
        assert!(ele == 0);
    }
}

#[test]
fn test_enqueue() {
    let mut regions = Regions::<i32>::new();
    let queue = Queue::new(&mut regions, "test");
    assert!(queue.enqueue(&mut regions, 1));
    assert_eq!(queue.head(&regions), 1);
}

#[test]
fn test_dequeue() {
    let mut regions = Regions::<i32>::new();
    let queue = Queue::new(&mut regions, "test");
    assert!(queue.enqueue(&mut regions, 1));
    assert_eq!(queue.head(&regions), 1);
    assert_eq!(queue.tail(&regions), 0);

    assert_eq!(queue.dequeue(&mut regions), Some(1));
    assert_eq!(queue.head(&regions), 1);
    assert_eq!(queue.tail(&regions), 1);
}

#[test]
fn test_equeue_full() {
    let mut regions = Regions::<i32>::new();
    let queue = Queue::new(&mut regions, "test");
    for i in 0..QUEUE_SIZE - 1 {
        assert!(queue.enqueue(&mut regions, i as i32));
    }
    assert!(queue.tail(&regions) == 0);
    assert!(queue.head(&regions) == QUEUE_SIZE - 1);
    assert!(!queue.enqueue(&mut regions, QUEUE_SIZE as i32));
}

#[test]
fn test_dequeue_empty() {
    let mut regions = Regions::<i32>::new();
    let queue = Queue::new(&mut regions, "test");
    assert_eq!(queue.dequeue(&mut regions), None);
}

#[test]
fn test_two_clients() {
    let mut regions = Regions::<i32>::new();
    let producer = Queue::new(&mut regions, "test");
    let consumer = Queue::new(&mut regions, "test");

    assert!(producer.enqueue(&mut regions, 1));
    assert_eq!(producer.head(&regions), 1);
    assert_eq!(producer.tail(&regions), 0);

    assert_eq!(consumer.dequeue(&mut regions), Some(1));
    assert_eq!(consumer.head(&regions), 1);
    assert_eq!(consumer.tail(&regions), 1);
}

#[test]
fn late_attach_sees_pending_entries() {
    let mut regions = Regions::<u64>::new();
    let producer = Queue::new(&mut regions, "late");
    assert!(producer.enqueue(&mut regions, 10));
    assert!(producer.enqueue(&mut regions, 11));
    let consumer = Queue::new(&mut regions, "late");
    assert_eq!(consumer, producer);
    assert_eq!(consumer.dequeue(&mut regions), Some(10));
    assert_eq!(consumer.dequeue(&mut regions), Some(11));
    assert_eq!(consumer.dequeue(&mut regions), None);
}

#[test]
fn different_names_do_not_share() {
    let mut regions = Regions::<u8>::new();
    let a = Queue::new(&mut regions, "a");
    let b = Queue::new(&mut regions, "b");
    assert!(a != b);
    assert!(a.enqueue(&mut regions, 5));
    assert_eq!(b.dequeue(&mut regions), None);
    assert_eq!(a.dequeue(&mut regions), Some(5));
}

#[test]
fn fresh_queue_is_empty() {
    let mut regions = Regions::<u8>::new();
    let queue = Queue::new(&mut regions, "empty");
    assert_eq!(queue.dequeue(&mut regions), None);
    assert_eq!(queue.head(&regions), 0);
    assert_eq!(queue.tail(&regions), 0);
}

#[test]
fn fifo_order_over_many_wraps() {
    let mut ring = Ring::<u64>::with_capacity(4);
    let mut next_out: u64 = 0;
    for i in 0..100u64 {
        assert!(ring.enqueue(i));
        if i % 2 == 1 {
            assert_eq!(ring.dequeue(), Some(next_out));
            next_out += 1;
            assert_eq!(ring.dequeue(), Some(next_out));
            next_out += 1;
        }
    }
    assert_eq!(ring.dequeue(), None);
    assert_eq!(next_out, 100);
}

#[test]
fn fifo_fill_then_drain() {
    let mut ring = Ring::<i32>::new();
    for i in 0..500 {
        assert!(ring.enqueue(i * 3));
    }
    for i in 0..500 {
        assert_eq!(ring.dequeue(), Some(i * 3));
    }
    assert_eq!(ring.dequeue(), None);
}

#[test]
fn capacity_four_scenario() {
    let mut ring = Ring::<char>::with_capacity(4);
    assert!(ring.enqueue('A'));
    assert!(ring.enqueue('B'));
    assert!(ring.enqueue('C'));
    assert!(!ring.enqueue('D'));
    assert_eq!(ring.head(), 3);
    assert_eq!(ring.tail(), 0);
    assert_eq!(ring.dequeue(), Some('A'));
    assert_eq!(ring.tail(), 1);
    assert!(ring.enqueue('D'));
    assert_eq!(ring.head(), 0);
    assert_eq!(ring.dequeue(), Some('B'));
    assert_eq!(ring.dequeue(), Some('C'));
    assert_eq!(ring.dequeue(), Some('D'));
    assert_eq!(ring.dequeue(), None);
}

#[test]
fn enqueue_writes_slot_at_head_and_dequeue_keeps_slots() {
    let mut ring = Ring::<i32>::with_capacity(3);
    assert!(ring.enqueue(7));
    assert_eq!(ring.slot(0), 7);
    assert_eq!(ring.slot(1), 0);
    assert_eq!(ring.dequeue(), Some(7));
    assert_eq!(ring.slot(0), 7);
}

#[test]
fn failed_enqueue_keeps_cursors() {
    let mut ring = Ring::<i32>::with_capacity(2);
    assert!(ring.enqueue(7));
    assert!(!ring.enqueue(8));
    assert_eq!(ring.head(), 1);
    assert_eq!(ring.tail(), 0);
    assert_eq!(ring.dequeue(), Some(7));
    assert_eq!(ring.dequeue(), None);
    assert_eq!(ring.head(), 1);
    assert_eq!(ring.tail(), 1);
}
