//! Validation of untrusted addresses.
//!
//! Every pointer the payload or the host hands to the shim is untrusted: it
//! must not be dereferenced before the shim has checked that the range it
//! names lies entirely outside the Keep's private memory.  [`MemoryMap`]
//! holds the private regions; [`MemoryMap::validate`] turns an
//! [`UntrustedRef`] into a [`Validated`] handle exactly when the check
//! passes.

use vstd::prelude::*;

use crate::block::{Block, UntrustedRef, BLOCK_SIZE, MSG_SIZE};
use crate::span::Line;

verus! {

/// Whether the half-open ranges `[a, b)` and `[c, d)` share an address.
pub open spec fn ranges_overlap(a: int, b: int, c: int, d: int) -> bool {
    (if a > c {
        a
    } else {
        c
    }) < (if b < d {
        b
    } else {
        d
    })
}

/// The Keep's private memory map: the regions the shim must never let the
/// host name.
#[derive(Clone, Debug)]
pub struct MemoryMap {
    /// The Keep-private regions.
    pub private: Vec<Line>,
}

/// A byte range that passed validation: it lies entirely outside the Keep's
/// private memory.
#[derive(Clone, Copy, Debug, PartialEq, Eq, Structural)]
pub struct Validated {
    /// First address of the range.
    pub ptr: usize,
    /// Number of bytes in the range.
    pub count: usize,
}

impl MemoryMap {
    /// Whether `[ptr, ptr + count)` shares no address with any private region.
    pub open spec fn disjoint_from(self, ptr: int, count: int) -> bool {
        forall|i: int|
            0 <= i < self.private@.len() ==> !ranges_overlap(
                ptr,
                ptr + count,
                #[trigger] self.private@[i].start as int,
                self.private@[i].end as int,
            )
    }

    /// Check an untrusted range against the private map.
    ///
    /// Returns a handle exactly when the range does not wrap around the
    /// address space and lies entirely outside every private region.
    pub fn validate(&self, r: UntrustedRef) -> (v: Option<Validated>)
        ensures
            v is Some <==> r.ptr + r.count <= usize::MAX && self.disjoint_from(
                r.ptr as int,
                r.count as int,
            ),
            v is Some ==> v == Some(Validated { ptr: r.ptr, count: r.count }),
    {
        let last = match r.ptr.checked_add(r.count) {
            Some(l) => l,
            None => {
                return None;
            },
        };
        let mut i: usize = 0;
        while i < self.private.len()
            invariant
                i <= self.private@.len(),
                last == r.ptr + r.count,
                forall|j: int|
                    0 <= j < i ==> !ranges_overlap(
                        r.ptr as int,
                        r.ptr + r.count,
                        #[trigger] self.private@[j].start as int,
                        self.private@[j].end as int,
                    ),
            decreases self.private@.len() - i,
        {
            let region = self.private[i];
            let low = if r.ptr > region.start {
                r.ptr
            } else {
                region.start
            };
            let high = if last < region.end {
                last
            } else {
                region.end
            };
            if low < high {
                return None;
            }
            i += 1;
        }
        Some(Validated { ptr: r.ptr, count: r.count })
    }
}

/// Staged buffers validate: a handle that lies inside a block's data area is
/// outside the Keep's private memory, provided the private map is disjoint
/// from the block itself — which holds of every well-formed shim, since the
/// block is shared with the host by design.
pub proof fn lemma_staged_ref_outside_private(map: MemoryMap, block: Block, r: UntrustedRef)
    requires
        map.disjoint_from(block.base as int, BLOCK_SIZE as int),
        block.base + MSG_SIZE <= r.ptr,
        r.ptr + r.count <= block.base + BLOCK_SIZE,
    ensures
        map.disjoint_from(r.ptr as int, r.count as int),
{
}

} // verus!
