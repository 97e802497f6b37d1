//! The cache of the per-primitive data that shaders read.
//!
//! A primitive template keeps a handle to its slot. Asking for the slot
//! hands out a writer only while the slot holds no current data, so however
//! often a template is visited, its data is written once.

use vstd::prelude::*;

verus! {

/// Four numbers of shader input.
#[derive(Clone, Copy, Debug, PartialEq, Eq, Hash, Structural)]
pub struct GpuBlock {
    pub x: i32,
    pub y: i32,
    pub z: i32,
    pub w: i32,
}

/// Where in the cache the data of a template is, once it has a slot.
#[derive(Clone, Copy, Debug, PartialEq, Eq, Hash, Structural)]
pub struct GpuCacheHandle {
    pub location: Option<usize>,
}

/// A run of blocks of the cache.
#[derive(Clone, Copy, Debug, PartialEq, Eq, Hash, Structural)]
pub struct GpuSlot {
    /// The index of the first block.
    pub start: usize,
    /// The number of blocks.
    pub len: usize,
    /// Whether the blocks are still in the cache.
    pub resident: bool,
}

/// The cache: all blocks written so far, and the slots that divide them.
pub struct GpuCache {
    pub blocks: Vec<GpuBlock>,
    pub slots: Vec<GpuSlot>,
}

/// A writer for one slot: the blocks are gathered and then handed to the
/// cache.
pub struct GpuDataRequest {
    pub slot: usize,
    pub blocks: Vec<GpuBlock>,
}

impl GpuCacheHandle {
    pub fn new() -> (h: Self)
        ensures
            h.location is None,
    {
        GpuCacheHandle { location: None }
    }
}

impl GpuDataRequest {
    /// Adds a block to what will be written.
    pub fn push(&mut self, block: GpuBlock)
        ensures
            final(self).slot == old(self).slot,
            final(self).blocks@ == old(self).blocks@.push(block),
    {
        self.blocks.push(block);
    }
}

impl GpuCache {
    /// Each slot lies within the blocks of the cache.
    pub open spec fn well_formed(&self) -> bool {
        forall|i: int|
            0 <= i < self.slots@.len() ==> (#[trigger] self.slots@[i]).start + self.slots@[i].len
                <= self.blocks@.len()
    }

    /// The handle has a slot whose data is still in the cache.
    pub open spec fn is_current(&self, handle: GpuCacheHandle) -> bool {
        handle.location matches Some(i) && i < self.slots@.len() && self.slots@[i as int].resident
    }

    /// The blocks of the slot of `handle`.
    pub open spec fn slot_blocks(&self, handle: GpuCacheHandle) -> Seq<GpuBlock> {
        let slot = self.slots@[handle.location.unwrap() as int];
        self.blocks@.subrange(slot.start as int, slot.start + slot.len)
    }

    pub fn new() -> (c: Self)
        ensures
            c.blocks@.len() == 0,
            c.slots@.len() == 0,
            c.well_formed(),
    {
        GpuCache { blocks: Vec::new(), slots: Vec::new() }
    }

    /// Tests whether each slot lies within the blocks of the cache.
    pub fn is_well_formed(&self) -> (ok: bool)
        ensures
            ok == self.well_formed(),
    {
        let mut i: usize = 0;
        while i < self.slots.len()
            invariant
                i <= self.slots@.len(),
                forall|j: int|
                    0 <= j < i ==> (#[trigger] self.slots@[j]).start + self.slots@[j].len
                        <= self.blocks@.len(),
            decreases self.slots@.len() - i,
        {
            let slot = self.slots[i];
            if slot.start > self.blocks.len() || slot.len > self.blocks.len() - slot.start {
                return false;
            }
            i = i + 1;
        }
        true
    }

    /// Asks for the slot of `handle`. Where the slot holds current data,
    /// nothing is handed out and nothing changes. Otherwise the handle gets
    /// a new, empty slot, and the writer for it is handed out.
    pub fn request(&mut self, handle: &mut GpuCacheHandle) -> (r: Option<GpuDataRequest>)
        requires
            old(self).well_formed(),
        ensures
            final(self).well_formed(),
            final(self).blocks@ == old(self).blocks@,
            old(self).is_current(*old(handle)) ==> {
                &&& r is None
                &&& *final(handle) == *old(handle)
                &&& final(self).slots@ == old(self).slots@
            },
            !old(self).is_current(*old(handle)) ==> {
                &&& r is Some
                &&& r.unwrap().slot == old(self).slots.len()
                &&& r.unwrap().blocks@.len() == 0
                &&& final(handle).location == Some(old(self).slots.len())
                &&& final(self).slots@ == old(self).slots@.push(
                    GpuSlot { start: old(self).blocks.len(), len: 0, resident: false },
                )
            },
    {
        let current = match handle.location {
            Some(i) => i < self.slots.len() && self.slots[i].resident,
            None => false,
        };
        if current {
            return None;
        }
        let slot = self.slots.len();
        self.slots.push(GpuSlot { start: self.blocks.len(), len: 0, resident: false });
        handle.location = Some(slot);
        Some(GpuDataRequest { slot, blocks: Vec::new() })
    }

    /// Takes what was written for a slot into the cache: the blocks are
    /// added at the end, and the slot is current from now on.
    pub fn commit(&mut self, request: GpuDataRequest)
        requires
            old(self).well_formed(),
            request.slot < old(self).slots@.len(),
        ensures
            final(self).well_formed(),
            final(self).blocks@ == old(self).blocks@ + request.blocks@,
            final(self).slots@ == old(self).slots@.update(
                request.slot as int,
                GpuSlot {
                    start: old(self).blocks.len(),
                    len: request.blocks.len(),
                    resident: true,
                },
            ),
    {
        let start = self.blocks.len();
        let len = request.blocks.len();
        let slot = request.slot;
        let mut blocks = request.blocks;
        self.blocks.append(&mut blocks);
        self.slots.set(slot, GpuSlot { start, len, resident: true });
    }

    /// The slots after the data of the slot of `handle` was dropped: the
    /// slot is no longer resident, and all else stays.
    pub open spec fn spec_evict(slots: Seq<GpuSlot>, handle: GpuCacheHandle) -> Seq<GpuSlot> {
        match handle.location {
            Some(i) => if i < slots.len() {
                slots.update(i as int, GpuSlot { resident: false, ..slots[i as int] })
            } else {
                slots
            },
            None => slots,
        }
    }

    /// Drops the data of the slot of `handle` from the cache, so that the
    /// next request for it hands out a writer again.
    pub fn evict(&mut self, handle: &GpuCacheHandle)
        requires
            old(self).well_formed(),
        ensures
            final(self).well_formed(),
            final(self).blocks@ == old(self).blocks@,
            final(self).slots@ == Self::spec_evict(old(self).slots@, *handle),
            !final(self).is_current(*handle),
    {
        match handle.location {
            Some(i) => {
                if i < self.slots.len() {
                    let slot = self.slots[i];
                    self.slots.set(i, GpuSlot { resident: false, ..slot });
                }
            },
            None => {},
        }
    }
}

} // verus!
