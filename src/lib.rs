//! A fixed-capacity single-producer / single-consumer ring buffer meant to
//! live in a named shared-memory region.

mod buffer;
mod handle;
mod laws;
mod layout;
mod queue;
mod ring;

pub use buffer::{after_dequeue, after_enqueue, ring_pos, Ring};
pub use handle::{layout_of, open_result, QueueError, Receiver, Sender};
pub use laws::{
    dequeue_n, enqueue_all, lemma_dequeue_all, lemma_enqueue_all_appends, lemma_fifo,
    lemma_usable_capacity,
};
pub use layout::{region_bytes, slots_bytes, Layout};
pub use queue::{lemma_one_ring_per_name, Queue, Regions};
pub use ring::{cursors_ok, dequeue_step, enqueue_step, lemma_next, next, next_index, unread, QUEUE_SIZE};
