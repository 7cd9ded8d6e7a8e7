//! A forward-only frame allocator over the usable regions of a memory-map
//! snapshot.
//!
//! The allocator is modelled by the sequence `map_frames(map)` of every frame
//! the snapshot offers, regions in map order and ascending within a region,
//! together with the number of frames issued so far: each call hands out the
//! next element of that sequence.

use vstd::prelude::*;
use crate::memory::{is_terminator, region_bytes, usable_type, MemoryDescriptor, PAGE_SIZE, PHYS_LIMIT};

verus! {

/// A physical frame, named by its start address.
#[derive(Clone, Copy, PartialEq, Eq, Structural, Debug)]
pub struct Frame {
    pub start_address: usize,
}

/// Whether the allocator draws frames from this descriptor.
pub open spec fn supplies_frames(d: MemoryDescriptor) -> bool {
    usable_type(d.memory_type) && !is_terminator(d)
}

/// The frames one descriptor supplies, in ascending order.
pub open spec fn region_frames(d: MemoryDescriptor) -> Seq<int> {
    if supplies_frames(d) {
        Seq::new(d.size as nat, |k: int| d.physical_address + k * PAGE_SIZE)
    } else {
        Seq::empty()
    }
}

/// Every frame a map offers: regions in map order, each in ascending order.
pub open spec fn map_frames(map: Seq<MemoryDescriptor>) -> Seq<int>
    decreases map.len(),
{
    if map.len() == 0 {
        Seq::empty()
    } else {
        map_frames(map.drop_last()) + region_frames(map.last())
    }
}

/// Every usable region ends inside the machine's address range and below
/// the physical-address limit of 2^52.
pub open spec fn regions_fit(map: Seq<MemoryDescriptor>) -> bool {
    forall|i: int|
        0 <= i < map.len() && supplies_frames(#[trigger] map[i]) ==> map[i].physical_address
            + region_bytes(map[i]) <= usize::MAX + 1 && map[i].physical_address + region_bytes(
            map[i],
        ) <= PHYS_LIMIT
}

/// Number of frames needed to hold `size` bytes.
pub open spec fn pages_for(size: nat) -> nat {
    if size % (PAGE_SIZE as nat) == 0 {
        size / (PAGE_SIZE as nat)
    } else {
        size / (PAGE_SIZE as nat) + 1
    }
}

pub proof fn lemma_map_frames_concat(a: Seq<MemoryDescriptor>, b: Seq<MemoryDescriptor>)
    ensures
        map_frames(a + b) == map_frames(a) + map_frames(b),
    decreases b.len(),
{
    if b.len() == 0 {
        assert(a + b =~= a);
        assert(map_frames(a) + map_frames(b) =~= map_frames(a));
    } else {
        lemma_map_frames_concat(a, b.drop_last());
        assert((a + b).drop_last() =~= a + b.drop_last());
        assert((a + b).last() == b.last());
        assert(map_frames(a + b) =~= map_frames(a) + map_frames(b));
    }
}

/// The frames of a map, split around its `i`-th descriptor.
pub proof fn lemma_map_frames_split(map: Seq<MemoryDescriptor>, i: int)
    requires
        0 <= i < map.len(),
    ensures
        map_frames(map) == map_frames(map.take(i)) + region_frames(map[i]) + map_frames(
            map.skip(i + 1),
        ),
        map_frames(map.take(i + 1)) == map_frames(map.take(i)) + region_frames(map[i]),
{
    assert(map.take(i + 1).drop_last() =~= map.take(i));
    assert(map =~= map.take(i + 1) + map.skip(i + 1));
    lemma_map_frames_concat(map.take(i + 1), map.skip(i + 1));
}

/// Allocator of 4096-byte physical frames over a memory-map snapshot.
pub struct FrameAllocator<'a> {
    memory_map: &'a [MemoryDescriptor],
    /// Index of the descriptor the cursor stands in.
    desc: usize,
    /// Index of the next page within that descriptor.
    page: usize,
    issued: Ghost<nat>,
}

impl<'a> FrameAllocator<'a> {
    /// The snapshot the allocator draws from.
    pub closed spec fn map(&self) -> Seq<MemoryDescriptor> {
        self.memory_map@
    }

    /// How many frames have been handed out so far.
    pub closed spec fn issued_count(&self) -> nat {
        self.issued@
    }

    /// All frames the snapshot offers, in issue order.
    pub open spec fn frames(&self) -> Seq<int> {
        map_frames(self.map())
    }

    /// The frames not yet handed out, in the order they will be.
    pub open spec fn remaining(&self) -> Seq<int> {
        self.frames().skip(self.issued_count() as int)
    }

    pub closed spec fn wf(&self) -> bool {
        &&& regions_fit(self.memory_map@)
        &&& self.desc <= self.memory_map@.len()
        &&& self.desc < self.memory_map@.len() ==> self.page <= region_frames(
            self.memory_map@[self.desc as int],
        ).len()
        &&& self.desc == self.memory_map@.len() ==> self.page == 0
        &&& self.issued@ == map_frames(self.memory_map@.take(self.desc as int)).len() + self.page
        &&& self.issued@ <= map_frames(self.memory_map@).len()
    }

    /// An allocator that has issued nothing yet.
    pub fn new(memory_map: &'a [MemoryDescriptor]) -> (r: FrameAllocator<'a>)
        requires
            regions_fit(memory_map@),
        ensures
            r.wf(),
            r.map() == memory_map@,
            r.issued_count() == 0,
    {
        let r = FrameAllocator { memory_map, desc: 0, page: 0, issued: Ghost(0) };
        assert(r.memory_map@.take(0) =~= Seq::<MemoryDescriptor>::empty());
        r
    }

    /// An allocator over `memory_map`, or `None` when a usable region of it
    /// runs past the end of the address range or past 2^52.
    pub fn try_new(memory_map: &'a [MemoryDescriptor]) -> (r: Option<FrameAllocator<'a>>)
        ensures
            r is Some <==> regions_fit(memory_map@),
            r is Some ==> r->Some_0.wf() && r->Some_0.map() == memory_map@
                && r->Some_0.issued_count() == 0,
    {
        let mut i: usize = 0;
        while i < memory_map.len()
            invariant
                i <= memory_map@.len(),
                forall|j: int|
                    0 <= j < i && supplies_frames(#[trigger] memory_map@[j])
                        ==> memory_map@[j].physical_address + region_bytes(memory_map@[j])
                        <= usize::MAX + 1 && memory_map@[j].physical_address + region_bytes(
                        memory_map@[j],
                    ) <= PHYS_LIMIT,
            decreases memory_map@.len() - i,
        {
            let d = memory_map[i];
            if d.memory_type.is_usable() && !d.is_terminator() {
                let end = (d.physical_address as u128) + (d.size as u128) * 4096;
                if end > (usize::MAX as u128) + 1 || end > PHYS_LIMIT as u128 {
                    return None;
                }
            }
            i = i + 1;
        }
        Some(FrameAllocator::new(memory_map))
    }

    /// A fresh allocator over the same snapshot: it hands out the whole
    /// frame sequence again from its start.
    pub fn usable_frames(&self) -> (r: FrameAllocator<'a>)
        requires
            self.wf(),
        ensures
            r.wf(),
            r.map() == self.map(),
            r.issued_count() == 0,
    {
        FrameAllocator::new(self.memory_map)
    }

    /// Hands out the next frame, or `None` once the usable memory is used up.
    pub fn next_frame(&mut self) -> (r: Option<Frame>)
        requires
            old(self).wf(),
        ensures
            final(self).wf(),
            final(self).map() == old(self).map(),
            old(self).remaining().len() == 0 ==> r is None && final(self).issued_count()
                == old(self).issued_count(),
            old(self).remaining().len() > 0 ==> r is Some && r->Some_0.start_address == old(self).remaining()[0] && final(self).issued_count() == old(self).issued_count() + 1,
            r is Some ==> r->Some_0.start_address < PHYS_LIMIT,
    {
        loop
            invariant
                self.wf(),
                self.map() == old(self).map(),
                self.issued_count() == old(self).issued_count(),
            decreases self.memory_map@.len() - self.desc,
        {
            let ghost map = self.memory_map@;
            if self.desc >= self.memory_map.len() {
                assert(map.take(map.len() as int) =~= map);
                return None;
            }
            let d = self.memory_map[self.desc];
            proof {
                lemma_map_frames_split(map, self.desc as int);
            }
            if d.memory_type.is_usable() && !d.is_terminator() && self.page < d.size {
                let page = self.page;
                assert(page * 4096 + 4096 <= d.size * 4096) by (nonlinear_arith)
                    requires
                        page < d.size,
                ;
                assert(region_bytes(map[self.desc as int]) == d.size * 4096);
                let addr = d.physical_address + page * PAGE_SIZE;
                self.page = page + 1;
                self.issued = Ghost(self.issued@ + 1);
                return Some(Frame { start_address: addr });
            }
            self.desc = self.desc + 1;
            self.page = 0;
        }
    }

    /// Hands out enough frames for `size` bytes and returns the first of
    /// them with their count. When the usable memory runs out part way, the
    /// frames drawn so far stay consumed and the result is `None`.
    pub fn allocate_size(&mut self, size: usize) -> (r: Option<(Frame, usize)>)
        requires
            old(self).wf(),
        ensures
            final(self).wf(),
            final(self).map() == old(self).map(),
            old(self).remaining().len() >= pages_for(size as nat) ==> {
                &&& r is Some
                &&& r->Some_0.1 == pages_for(size as nat)
                &&& final(self).issued_count() == old(self).issued_count() + pages_for(
                    size as nat,
                )
                &&& pages_for(size as nat) > 0 ==> r->Some_0.0.start_address == old(self).remaining()[0]
                &&& pages_for(size as nat) == 0 ==> r->Some_0.0.start_address == 0
            },
            old(self).remaining().len() < pages_for(size as nat) ==> r is None && final(self).issued_count() == old(self).frames().len(),
    {
        let n: usize = if size % PAGE_SIZE == 0 {
            size / PAGE_SIZE
        } else {
            size / PAGE_SIZE + 1
        };
        let mut first = Frame { start_address: 0 };
        let mut i: usize = 0;
        while i < n
            invariant
                self.wf(),
                self.map() == old(self).map(),
                n == pages_for(size as nat),
                i <= n,
                self.issued_count() == old(self).issued_count() + i,
                old(self).remaining().len() >= i,
                i == 0 ==> first.start_address == 0,
                i > 0 ==> first.start_address == old(self).remaining()[0],
            decreases n - i,
        {
            match self.next_frame() {
                Some(f) => {
                    if i == 0 {
                        first = f;
                    }
                },
                None => {
                    return None;
                },
            }
            i = i + 1;
        }
        Some((first, n))
    }
}

} // verus!
