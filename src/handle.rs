//! The producer and consumer handles on a named region. A handle knows the
//! region's name and layout; whoever maps the region loads the cursors,
//! asks the handle which move the protocol allows, and performs it.

use vstd::prelude::*;
use crate::layout::{region_bytes, slots_bytes, Layout};
use crate::ring::{dequeue_step, enqueue_step, next, unread, QUEUE_SIZE};

verus! {

#[verifier::external_type_specification]
#[verifier::external_body]
pub struct ExCString(cstr_core::CString);

#[verifier::external_type_specification]
#[verifier::external_body]
pub struct ExNulError(cstr_core::NulError);

/// Why a handle could not be made.
#[derive(Clone, Copy, PartialEq, Eq, Structural, Debug)]
pub enum QueueError {
    /// The name holds a NUL character and cannot name a region.
    InvalidName,
    /// The region for this payload type would not fit in the address space.
    LayoutTooLarge,
    /// The region could not be created or mapped.
    RegionUnavailable,
}

/// Relies on cstr_core::CString::new: it fails exactly when the given bytes
/// hold a zero byte. A `&str` holds a zero byte exactly where it holds '\0'.
#[verifier::external_body]
fn c_string(name: &str) -> (r: Result<cstr_core::CString, cstr_core::NulError>)
    ensures
        r is Ok <==> !name@.contains('\0'),
{
    cstr_core::CString::new(name)
}

/// The layout every participant computes for payload type `T`.
pub open spec fn layout_of<T>() -> Option<Layout> {
    let slot = vstd::layout::size_of::<T>();
    let index = vstd::layout::size_of::<usize>();
    if region_bytes(slot, index, QUEUE_SIZE as nat) <= usize::MAX {
        Some(
            Layout {
                head_offset: slots_bytes(slot, QUEUE_SIZE as nat) as usize,
                tail_offset: (slots_bytes(slot, QUEUE_SIZE as nat) + index) as usize,
                size: region_bytes(slot, index, QUEUE_SIZE as nat) as usize,
            },
        )
    } else {
        None
    }
}

/// What `new` of either handle returns for `name` and payload type `T`.
pub open spec fn open_result<T>(name: Seq<char>) -> Result<Layout, QueueError> {
    if name.contains('\0') {
        Err(QueueError::InvalidName)
    } else if layout_of::<T>() is None {
        Err(QueueError::LayoutTooLarge)
    } else {
        Ok(layout_of::<T>().unwrap())
    }
}

fn open<T>(name: &str) -> (r: Result<(cstr_core::CString, Layout), QueueError>)
    ensures
        r is Ok <==> open_result::<T>(name@) is Ok,
        r matches Err(e) ==> open_result::<T>(name@) == Err::<Layout, QueueError>(e),
        r matches Ok(p) ==> open_result::<T>(name@) == Ok::<Layout, QueueError>(p.1),
{
    let c_name = match c_string(name) {
        Ok(c) => c,
        Err(_) => return Err(QueueError::InvalidName),
    };
    let slot = core::mem::size_of::<T>();
    let index = core::mem::size_of::<usize>();
    match Layout::for_slots(slot, index, QUEUE_SIZE) {
        Some(l) => Ok((c_name, l)),
        None => Err(QueueError::LayoutTooLarge),
    }
}

/// The producer's handle: it alone moves `head`.
pub struct Sender<T> {
    name: cstr_core::CString,
    layout: Layout,
    payload: core::marker::PhantomData<T>,
}

/// The consumer's handle: it alone moves `tail`.
pub struct Receiver<T> {
    name: cstr_core::CString,
    layout: Layout,
    payload: core::marker::PhantomData<T>,
}

impl<T> Sender<T> {
    pub closed spec fn spec_layout(&self) -> Layout {
        self.layout
    }

    /// A producer handle on the region called `name`.
    pub fn new(name: &str) -> (r: Result<Sender<T>, QueueError>)
        ensures
            r is Ok <==> open_result::<T>(name@) is Ok,
            r matches Err(e) ==> open_result::<T>(name@) == Err::<Layout, QueueError>(e),
            r matches Ok(s) ==> open_result::<T>(name@) == Ok::<Layout, QueueError>(
                s.spec_layout(),
            ),
    {
        match open::<T>(name) {
            Ok((name, layout)) => Ok(Sender { name, layout, payload: core::marker::PhantomData }),
            Err(e) => Err(e),
        }
    }

    /// Where the slots and cursors sit in the region.
    pub fn layout(&self) -> (r: Layout)
        ensures
            r == self.spec_layout(),
    {
        self.layout
    }

    /// The region's name, as the shared-memory facility takes it.
    pub fn c_name(&self) -> &cstr_core::CString {
        &self.name
    }

    /// One attempt to send, given the cursors just loaded from the region:
    /// `Some(next)` means write the message into slot `head`, then publish
    /// `next` as the new head; `None` means the ring is full and nothing is
    /// to be written.
    pub fn try_send(&self, head: usize, tail: usize) -> (r: Option<usize>)
        requires
            head < QUEUE_SIZE,
            tail < QUEUE_SIZE,
        ensures
            r is None <==> next(head as int, QUEUE_SIZE as int) == tail,
            r is None <==> unread(head as int, tail as int, QUEUE_SIZE as int) == QUEUE_SIZE - 1,
            r matches Some(n) ==> n == next(head as int, QUEUE_SIZE as int),
    {
        enqueue_step(head, tail, QUEUE_SIZE)
    }
}

impl<T> Receiver<T> {
    pub closed spec fn spec_layout(&self) -> Layout {
        self.layout
    }

    /// A consumer handle on the region called `name`.
    pub fn new(name: &str) -> (r: Result<Receiver<T>, QueueError>)
        ensures
            r is Ok <==> open_result::<T>(name@) is Ok,
            r matches Err(e) ==> open_result::<T>(name@) == Err::<Layout, QueueError>(e),
            r matches Ok(s) ==> open_result::<T>(name@) == Ok::<Layout, QueueError>(
                s.spec_layout(),
            ),
    {
        match open::<T>(name) {
            Ok((name, layout)) => Ok(Receiver { name, layout, payload: core::marker::PhantomData }),
            Err(e) => Err(e),
        }
    }

    /// Where the slots and cursors sit in the region.
    pub fn layout(&self) -> (r: Layout)
        ensures
            r == self.spec_layout(),
    {
        self.layout
    }

    /// The region's name, as the shared-memory facility takes it.
    pub fn c_name(&self) -> &cstr_core::CString {
        &self.name
    }

    /// One attempt to receive, given the cursors just loaded from the region:
    /// `Some(next)` means read the message in slot `tail`, then publish
    /// `next` as the new tail; `None` means the ring is empty.
    pub fn try_recv(&self, head: usize, tail: usize) -> (r: Option<usize>)
        requires
            head < QUEUE_SIZE,
            tail < QUEUE_SIZE,
        ensures
            r is None <==> head == tail,
            r is None <==> unread(head as int, tail as int, QUEUE_SIZE as int) == 0,
            r matches Some(n) ==> n == next(tail as int, QUEUE_SIZE as int),
    {
        dequeue_step(head, tail, QUEUE_SIZE)
    }
}

} // verus!
