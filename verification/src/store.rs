//! A slot store for clip sources. A slot is reused after its entry is
//! removed, and a generation counter in each slot tells a handle that
//! was made for an earlier entry from one made for the present one.

use vstd::prelude::*;
use vstd::pervasive::VecAdditionalExecFns;
use crate::clip::{image_requests, ClipSources, FrameRequests};
use crate::transform::Transform;

verus! {

/// Owns one entry of a store. It is given up to remove the entry.
#[derive(Debug)]
pub struct ClipSourcesHandle {
    index: usize,
    generation: u64,
}

/// Observes one entry of a store without keeping it alive.
#[derive(Clone, Copy, Debug, PartialEq, Eq)]
pub struct ClipSourcesWeakHandle {
    index: usize,
    generation: u64,
}

#[derive(Debug)]
struct Slot {
    generation: u64,
    value: Option<ClipSources>,
}

#[derive(Debug)]
pub struct ClipStore {
    slots: Vec<Slot>,
    free_list: Vec<usize>,
}

impl ClipSourcesHandle {
    /// The slot and the generation that the handle was made for.
    pub closed spec fn key(&self) -> (int, int) {
        (self.index as int, self.generation as int)
    }

    pub fn weak(&self) -> (w: ClipSourcesWeakHandle)
        ensures
            w.key() == self.key(),
    {
        ClipSourcesWeakHandle { index: self.index, generation: self.generation }
    }
}

impl ClipSourcesWeakHandle {
    /// The slot and the generation that the handle was made for.
    pub closed spec fn key(&self) -> (int, int) {
        (self.index as int, self.generation as int)
    }
}

impl ClipStore {
    /// Every free slot exists, is empty and has a generation left to hand
    /// out, none is listed twice, and every entry has a generation below
    /// the last.
    pub closed spec fn wf(&self) -> bool {
        &&& forall|i: int|
            0 <= i < self.free_list@.len() ==> (#[trigger] self.free_list@[i]) < self.slots@.len()
                && self.slots@[self.free_list@[i] as int].value.is_none()
                && self.slots@[self.free_list@[i] as int].generation < u64::MAX
        &&& forall|i: int, j: int|
            0 <= i < j < self.free_list@.len() ==> self.free_list@[i] != self.free_list@[j]
        &&& forall|i: int|
            0 <= i < self.slots@.len() && (#[trigger] self.slots@[i]).value.is_some()
                ==> self.slots@[i].generation < u64::MAX
    }

    /// A handle for the slot `key.0` and the generation `key.1` has been
    /// handed out at some time.
    pub closed spec fn was_issued(&self, key: (int, int)) -> bool {
        &&& 0 <= key.0 < self.slots@.len()
        &&& 0 <= key.1
        &&& key.1 < self.slots@[key.0].generation || (key.1 == self.slots@[key.0].generation
            && self.slots@[key.0].value.is_some())
    }

    /// The slot `key.0` holds an entry, and it is of generation `key.1`.
    pub closed spec fn contains(&self, key: (int, int)) -> bool {
        &&& 0 <= key.0 < self.slots@.len()
        &&& self.slots@[key.0].generation == key.1
        &&& self.slots@[key.0].value.is_some()
    }

    /// The entry in the slot `key.0`.
    pub closed spec fn entry(&self, key: (int, int)) -> ClipSources {
        self.slots@[key.0].value.unwrap()
    }

    /// The handle of every entry has been handed out.
    pub proof fn lemma_entry_was_issued(&self, key: (int, int))
        requires
            self.contains(key),
        ensures
            self.was_issued(key),
    {
    }

    pub fn new() -> (store: ClipStore)
        ensures
            store.wf(),
            forall|key: (int, int)| !store.contains(key),
            forall|key: (int, int)| !store.was_issued(key),
    {
        ClipStore { slots: Vec::new(), free_list: Vec::new() }
    }

    /// Stores `sources` in a free slot, or in a new one, and hands out the
    /// handle that owns it. No handle made earlier reaches the new entry.
    pub fn insert(&mut self, sources: ClipSources) -> (handle: ClipSourcesHandle)
        requires
            old(self).wf(),
        ensures
            final(self).wf(),
            !old(self).was_issued(handle.key()),
            forall|key: (int, int)| #[trigger] old(self).contains(key) ==> key.0 != handle.key().0,
            final(self).contains(handle.key()),
            final(self).entry(handle.key()) == sources,
            forall|key: (int, int)|
                #[trigger] final(self).was_issued(key) == (old(self).was_issued(key) || key
                    == handle.key()),
            forall|key: (int, int)|
                key != handle.key() ==> #[trigger] final(self).contains(key) == old(self).contains(key),
            forall|key: (int, int)|
                old(self).contains(key) ==> #[trigger] final(self).entry(key) == old(self).entry(key),
    {
        match self.free_list.pop() {
            Some(index) => {
                let generation: u64 = self.slots[index].generation;
                self.slots.set(index, Slot { generation, value: Some(sources) });
                ClipSourcesHandle { index, generation }
            },
            None => {
                let index: usize = self.slots.len();
                self.slots.push(Slot { generation: 0, value: Some(sources) });
                ClipSourcesHandle { index, generation: 0 }
            },
        }
    }

    pub fn get(&self, handle: &ClipSourcesHandle) -> (sources: &ClipSources)
        requires
            self.contains(handle.key()),
        ensures
            *sources == self.entry(handle.key()),
    {
        self.slots[handle.index].value.as_ref().unwrap()
    }

    /// The entry that the handle was made for, unless it has been removed.
    pub fn get_opt(&self, handle: &ClipSourcesWeakHandle) -> (sources: Option<&ClipSources>)
        ensures
            sources.is_some() == self.contains(handle.key()),
            sources.is_some() ==> *sources.unwrap() == self.entry(handle.key()),
    {
        if handle.index < self.slots.len() && self.slots[handle.index].generation
            == handle.generation {
            self.slots[handle.index].value.as_ref()
        } else {
            None
        }
    }

    /// Removes the entry of `handle` and frees its slot for a later entry.
    pub fn free(&mut self, handle: ClipSourcesHandle) -> (sources: ClipSources)
        requires
            old(self).wf(),
            old(self).contains(handle.key()),
        ensures
            final(self).wf(),
            sources == old(self).entry(handle.key()),
            forall|key: (int, int)| #[trigger] final(self).was_issued(key) == old(self).was_issued(key),
            forall|key: (int, int)|
                #[trigger] final(self).contains(key) == (old(self).contains(key) && key.0
                    != handle.key().0),
            forall|key: (int, int)|
                final(self).contains(key) ==> #[trigger] final(self).entry(key) == old(self).entry(key),
    {
        let index: usize = handle.index;
        let next: u64 = handle.generation + 1;
        let retired: bool = next == u64::MAX;
        let mut slot = Slot { generation: next, value: None };
        self.slots.set_and_swap(index, &mut slot);
        proof {
            assert forall|i: int| 0 <= i < self.free_list@.len() implies (
            #[trigger] self.free_list@[i]) != index by {
                assert(old(self).slots@[old(self).free_list@[i] as int].value.is_none());
            }
        }
        if !retired {
            self.free_list.push(index);
        }
        slot.value.unwrap()
    }

    /// Refreshes the entry that the handle was made for. Where the entry
    /// has been removed nothing happens and nothing is asked for.
    pub fn update(
        &mut self,
        handle: &ClipSourcesWeakHandle,
        transform: &Transform,
        device_pixel_ratio: u32,
    ) -> (requests: Option<FrameRequests>)
        requires
            old(self).wf(),
        ensures
            final(self).wf(),
            requests.is_some() == old(self).contains(handle.key()),
            forall|key: (int, int)| #[trigger] final(self).was_issued(key) == old(self).was_issued(key),
            forall|key: (int, int)| #[trigger] final(self).contains(key) == old(self).contains(key),
            forall|key: (int, int)|
                old(self).contains(key) && key.0 != handle.key().0 ==> #[trigger] final(self).entry(key)
                    == old(self).entry(key),
            !old(self).contains(handle.key()) ==> *final(self) == *old(self),
            old(self).contains(handle.key()) ==> {
                let before = old(self).entry(handle.key());
                let after = final(self).entry(handle.key());
                &&& after.sources() == before.sources()
                &&& after.cached_bounds() == before.refreshed_bounds(*transform, device_pixel_ratio)
                &&& requests.unwrap().rebuild_mask == (before.sources().len() > 0)
                &&& requests.unwrap().images@ == if before.sources().len() > 0 {
                    image_requests(before.sources())
                } else {
                    Seq::empty()
                }
            },
    {
        let index: usize = handle.index;
        if index >= self.slots.len() {
            return None;
        }
        if self.slots[index].generation != handle.generation || self.slots[index].value.is_none() {
            return None;
        }
        let mut slot = Slot { generation: handle.generation, value: None };
        self.slots.set_and_swap(index, &mut slot);
        let mut sources = slot.value.unwrap();
        let requests = sources.update(transform, device_pixel_ratio);
        self.slots.set(index, Slot { generation: handle.generation, value: Some(sources) });
        Some(requests)
    }
}

} // verus!
