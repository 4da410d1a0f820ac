//! Where the slot array and the two cursors sit inside a shared region.

use vstd::prelude::*;

verus! {

/// Byte offsets inside a region: the slot array from offset 0, then the
/// head cursor, then the tail cursor, and nothing after it.
#[derive(Clone, Copy, PartialEq, Eq, Structural)]
pub struct Layout {
    pub head_offset: usize,
    pub tail_offset: usize,
    pub size: usize,
}

/// Bytes of the slot array.
pub open spec fn slots_bytes(slot_size: nat, capacity: nat) -> nat {
    capacity * slot_size
}

/// Whole region: slots, then two cursors.
pub open spec fn region_bytes(slot_size: nat, index_size: nat, capacity: nat) -> nat {
    slots_bytes(slot_size, capacity) + 2 * index_size
}

impl Layout {
    /// The layout of `capacity` slots of `slot_size` bytes followed by two
    /// cursors of `index_size` bytes; `None` when the region's size does not
    /// fit in `usize`.
    pub fn for_slots(slot_size: usize, index_size: usize, capacity: usize) -> (r: Option<Layout>)
        ensures
            r is Some <==> region_bytes(slot_size as nat, index_size as nat, capacity as nat)
                <= usize::MAX,
            r matches Some(l) ==> {
                &&& l.head_offset == slots_bytes(slot_size as nat, capacity as nat)
                &&& l.tail_offset == slots_bytes(slot_size as nat, capacity as nat) + index_size
                &&& l.size == region_bytes(slot_size as nat, index_size as nat, capacity as nat)
            },
    {
        let slots = match capacity.checked_mul(slot_size) {
            Some(b) => b,
            None => return None,
        };
        let tail_offset = match slots.checked_add(index_size) {
            Some(b) => b,
            None => return None,
        };
        match tail_offset.checked_add(index_size) {
            Some(size) => Some(Layout { head_offset: slots, tail_offset, size }),
            None => None,
        }
    }
}

} // verus!
