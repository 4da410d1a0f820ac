use shmem_queue::{dequeue_step, enqueue_step, next_index, Layout, QueueError, Receiver, Sender, QUEUE_SIZE};

#[test]
fn next_index_wraps() {
    assert_eq!(next_index(0, 4), 1);
    assert_eq!(next_index(2, 4), 3);
    assert_eq!(next_index(3, 4), 0);
    assert_eq!(next_index(QUEUE_SIZE - 1, QUEUE_SIZE), 0);
}

#[test]
fn steps_on_small_ring() {
    assert_eq!(enqueue_step(0, 0, 4), Some(1));
    assert_eq!(enqueue_step(3, 0, 4), None);
    assert_eq!(enqueue_step(3, 1, 4), Some(0));
    assert_eq!(enqueue_step(1, 2, 4), None);
    assert_eq!(dequeue_step(2, 2, 4), None);
    assert_eq!(dequeue_step(2, 3, 4), Some(0));
    assert_eq!(dequeue_step(1, 0, 4), Some(1));
}

#[test]
fn layout_offsets() {
    let l = Layout::for_slots(4, 8, 1024).unwrap();
    assert_eq!(l.head_offset, 4096);
    assert_eq!(l.tail_offset, 4104);
    assert_eq!(l.size, 4112);
    assert!(Layout::for_slots(usize::MAX / 2, 8, 4).is_none());
    assert!(Layout::for_slots(2, usize::MAX / 2, 1).is_none());
    assert!(Layout::for_slots(1, usize::MAX / 2, 1).is_some());
}

#[test]
fn sender_layout_for_payload() {
    let s = Sender::<u32>::new("queue").unwrap();
    let w = std::mem::size_of::<usize>();
    let l = s.layout();
    assert_eq!(l.head_offset, 4 * QUEUE_SIZE);
    assert_eq!(l.tail_offset, 4 * QUEUE_SIZE + w);
    assert_eq!(l.size, 4 * QUEUE_SIZE + 2 * w);
    assert_eq!(s.c_name().as_bytes(), b"queue");
}

#[test]
fn receiver_matches_sender_layout() {
    let s = Sender::<(u64, u64)>::new("queue").unwrap();
    let r = Receiver::<(u64, u64)>::new("queue").unwrap();
    assert!(s.layout() == r.layout());
    assert_eq!(r.c_name().as_bytes(), b"queue");
}

#[test]
fn name_with_nul_is_refused() {
    assert!(matches!(Sender::<u8>::new("bad\0name"), Err(QueueError::InvalidName)));
    assert!(matches!(Receiver::<u8>::new("\0"), Err(QueueError::InvalidName)));
}

#[test]
fn oversized_payload_is_refused() {
    assert!(matches!(Sender::<[u8; 1usize << 60]>::new("big"), Err(QueueError::LayoutTooLarge)));
    assert!(matches!(Receiver::<[u8; 1usize << 60]>::new("big"), Err(QueueError::LayoutTooLarge)));
}

#[test]
fn fresh_receiver_sees_nothing() {
    let r = Receiver::<i32>::new("empty").unwrap();
    assert_eq!(r.try_recv(0, 0), None);
}

#[test]
fn sender_stops_one_short_of_tail() {
    let s = Sender::<i32>::new("q").unwrap();
    assert_eq!(s.try_send(0, 0), Some(1));
    assert_eq!(s.try_send(QUEUE_SIZE - 1, 0), None);
    assert_eq!(s.try_send(QUEUE_SIZE - 1, 1), Some(0));
    assert_eq!(s.try_send(5, 6), None);
}

#[test]
fn receiver_advances_tail() {
    let r = Receiver::<i32>::new("q").unwrap();
    assert_eq!(r.try_recv(1, 0), Some(1));
    assert_eq!(r.try_recv(0, QUEUE_SIZE - 1), Some(0));
    assert_eq!(r.try_recv(9, 9), None);
}
