//! What holds of every frame sequence an allocator hands out.

use vstd::prelude::*;
use vstd::arithmetic::div_mod::{
    lemma_div_multiples_vanish,
    lemma_mod_multiples_basic,
    lemma_mod_multiples_vanish,
};
use crate::frame::{
    lemma_map_frames_concat,
    lemma_map_frames_split,
    map_frames,
    pages_for,
    region_frames,
    supplies_frames,
    FrameAllocator,
};
use crate::memory::{is_terminator, region_bytes, MemoryDescriptor, PAGE_SIZE};

verus! {

/// Every usable region starts on a page boundary.
pub open spec fn regions_page_aligned(map: Seq<MemoryDescriptor>) -> bool {
    forall|i: int|
        0 <= i < map.len() && supplies_frames(#[trigger] map[i]) ==> map[i].physical_address as int
            % 4096 == 0
}

/// No two usable regions overlap.
pub open spec fn regions_disjoint(map: Seq<MemoryDescriptor>) -> bool {
    forall|i: int, j: int|
        0 <= i < map.len() && 0 <= j < map.len() && i != j && supplies_frames(#[trigger] map[i])
            && supplies_frames(#[trigger] map[j]) ==> map[i].physical_address + region_bytes(map[i])
            <= map[j].physical_address || map[j].physical_address + region_bytes(map[j])
            <= map[i].physical_address as int
}

/// Bytes of usable memory the map reports.
pub open spec fn usable_bytes(map: Seq<MemoryDescriptor>) -> nat
    decreases map.len(),
{
    if map.len() == 0 {
        0
    } else {
        usable_bytes(map.drop_last()) + if supplies_frames(map.last()) {
            region_bytes(map.last())
        } else {
            0
        }
    }
}

proof fn lemma_page_below_end(k: int, size: int)
    requires
        0 <= k < size,
    ensures
        k * 4096 + 4096 <= size * 4096,
{
    assert(k * 4096 + 4096 <= size * 4096) by (nonlinear_arith)
        requires
            0 <= k < size,
    ;
}

/// The region and page index each frame of a map comes from.
proof fn lemma_frame_origin(map: Seq<MemoryDescriptor>, j: int) -> (r: (int, int))
    requires
        0 <= j < map_frames(map).len(),
    ensures
        0 <= r.0 < map.len(),
        supplies_frames(map[r.0]),
        0 <= r.1 < map[r.0].size,
        map_frames(map)[j] == map[r.0].physical_address + r.1 * 4096,
    decreases map.len(),
{
    let init = map.drop_last();
    let n = map_frames(init).len() as int;
    if j < n {
        let (i, k) = lemma_frame_origin(init, j);
        assert(map[i] == init[i]);
        (i, k)
    } else {
        (map.len() - 1, j - n)
    }
}

/// Every frame an allocator over `map` can hand out lies inside a usable
/// region of `map`; when those regions start on page boundaries, every
/// frame is a multiple of 4096.
pub proof fn lemma_frames_in_usable_regions(map: Seq<MemoryDescriptor>, j: int)
    requires
        regions_page_aligned(map),
        0 <= j < map_frames(map).len(),
    ensures
        exists|i: int|
            0 <= i < map.len() && supplies_frames(#[trigger] map[i]) && map[i].physical_address as int
                <= map_frames(map)[j] < map[i].physical_address + region_bytes(map[i]),
        map_frames(map)[j] % 4096 == 0,
{
    let (i, k) = lemma_frame_origin(map, j);
    lemma_page_below_end(k, map[i].size as int);
    let a = map[i].physical_address as int;
    lemma_mod_multiples_vanish(k, a, 4096);
    assert(4096 * k == k * 4096) by (nonlinear_arith);
    assert(map_frames(map)[j] % 4096 == a % 4096);
}

/// When the usable regions of `map` do not overlap, no frame occurs twice
/// in its frame sequence; since each call of `next_frame` takes the next
/// position of that sequence, no two calls return the same frame.
pub proof fn lemma_frames_distinct(map: Seq<MemoryDescriptor>)
    requires
        regions_disjoint(map),
    ensures
        forall|i: int, j: int|
            0 <= i < j < map_frames(map).len() ==> map_frames(map)[i] != map_frames(map)[j],
    decreases map.len(),
{
    if map.len() > 0 {
        let init = map.drop_last();
        let last = map.len() - 1;
        assert forall|i: int, j: int|
            0 <= i < init.len() && 0 <= j < init.len() && i != j && supplies_frames(
                #[trigger] init[i],
            ) && supplies_frames(#[trigger] init[j]) implies init[i].physical_address
            + region_bytes(init[i]) <= init[j].physical_address || init[j].physical_address
            + region_bytes(init[j]) <= init[i].physical_address by {
            assert(init[i] == map[i]);
            assert(init[j] == map[j]);
        }
        lemma_frames_distinct(init);
        let n = map_frames(init).len() as int;
        let fs = map_frames(map);
        assert forall|i: int, j: int| 0 <= i < j < fs.len() implies fs[i] != fs[j] by {
            if j < n {
                assert(fs[i] == map_frames(init)[i]);
                assert(fs[j] == map_frames(init)[j]);
            } else if i >= n {
                assert(fs[i] == map[last].physical_address + (i - n) * 4096);
                assert(fs[j] == map[last].physical_address + (j - n) * 4096);
            } else {
                let (ri, k) = lemma_frame_origin(init, i);
                assert(init[ri] == map[ri]);
                assert(fs[i] == map_frames(init)[i]);
                lemma_page_below_end(k, map[ri].size as int);
                lemma_page_below_end(j - n, map[last].size as int);
                assert(supplies_frames(map[last]));
                assert(fs[j] == map[last].physical_address + (j - n) * 4096);
            }
        }
    }
}

/// When the next `n` frames of an allocator all come from its `i`-th
/// descriptor, a request of `n * 4096` bytes takes exactly `n` frames, and
/// those frames, the ones `n` single-frame calls would return, are the
/// consecutive pages that follow the first.
pub proof fn lemma_region_allocation_contiguous(a: FrameAllocator<'_>, n: nat, i: int)
    requires
        n >= 1,
        0 <= i < a.map().len(),
        map_frames(a.map().take(i)).len() <= a.issued_count(),
        a.issued_count() + n <= map_frames(a.map().take(i)).len() + region_frames(
            a.map()[i],
        ).len(),
    ensures
        pages_for(n * 4096) == n,
        a.remaining().len() >= n,
        forall|j: int| 0 <= j < n ==> #[trigger] a.remaining()[j] == a.remaining()[0] + j * 4096,
{
    lemma_map_frames_split(a.map(), i);
    lemma_mod_multiples_basic(n as int, 4096);
    lemma_div_multiples_vanish(n as int, 4096);
    assert(4096 * n == n * 4096) by (nonlinear_arith);
    let before = map_frames(a.map().take(i)).len() as int;
    let d = a.map()[i];
    assert(supplies_frames(d));
    assert forall|j: int| 0 <= j < n implies #[trigger] a.remaining()[j] == a.remaining()[0] + j * 4096 by {
        let p = a.issued_count() - before;
        assert(a.remaining()[j] == d.physical_address + (p + j) * 4096);
        assert(a.remaining()[0] == d.physical_address + p * 4096);
        assert((p + j) * 4096 == p * 4096 + j * 4096) by (nonlinear_arith);
    }
}

/// The frames of a map cover exactly its usable bytes: a fresh allocator
/// runs dry once it has handed out that many bytes, and a request for one
/// page more than that cannot be met.
pub proof fn lemma_usable_bytes_exhaust(map: Seq<MemoryDescriptor>)
    ensures
        usable_bytes(map) == map_frames(map).len() * 4096,
        pages_for(usable_bytes(map)) == map_frames(map).len(),
        pages_for(usable_bytes(map) + 4096) == map_frames(map).len() + 1,
    decreases map.len(),
{
    if map.len() > 0 {
        lemma_usable_bytes_exhaust(map.drop_last());
        let m = map_frames(map.drop_last()).len();
        let s = if supplies_frames(map.last()) { map.last().size as nat } else { 0 };
        assert(map_frames(map).len() == m + s);
        assert(m * 4096 + s * 4096 == (m + s) * 4096) by (nonlinear_arith);
    }
    let f = map_frames(map).len() as int;
    lemma_mod_multiples_basic(f, 4096);
    lemma_div_multiples_vanish(f, 4096);
    lemma_mod_multiples_basic(f + 1, 4096);
    lemma_div_multiples_vanish(f + 1, 4096);
    assert(4096 * f == f * 4096) by (nonlinear_arith);
    assert(4096 * (f + 1) == f * 4096 + 4096) by (nonlinear_arith);
}

/// A terminator entry contributes no frame, wherever it stands in the map.
pub proof fn lemma_terminator_contributes_nothing(
    map: Seq<MemoryDescriptor>,
    j: int,
    t: MemoryDescriptor,
)
    requires
        is_terminator(t),
        0 <= j <= map.len(),
    ensures
        region_frames(t).len() == 0,
        map_frames(map.insert(j, t)) == map_frames(map),
{
    let single = seq![t];
    assert(single.drop_last() =~= Seq::<MemoryDescriptor>::empty());
    assert(map_frames(Seq::<MemoryDescriptor>::empty()) =~= Seq::<int>::empty());
    assert(single.last() == t);
    assert(region_frames(t) =~= Seq::<int>::empty());
    assert(map_frames(single) =~= Seq::<int>::empty());
    assert(map.insert(j, t) =~= (map.take(j) + single) + map.skip(j));
    assert(map =~= map.take(j) + map.skip(j));
    lemma_map_frames_concat(map.take(j), single);
    lemma_map_frames_concat(map.take(j) + single, map.skip(j));
    lemma_map_frames_concat(map.take(j), map.skip(j));
    assert(map_frames(map.take(j)) + map_frames(single) =~= map_frames(map.take(j)));
}

/// The map with every terminator entry taken out, the other entries in
/// their order.
pub open spec fn without_terminators(map: Seq<MemoryDescriptor>) -> Seq<MemoryDescriptor> {
    map.filter(|d: MemoryDescriptor| !is_terminator(d))
}

/// However many terminator entries a map holds, and wherever they stand,
/// they contribute no frame: the map yields the same frames as the map with
/// every terminator taken out. So two maps that differ only in their
/// terminators give allocators with the same frame sequence.
pub proof fn lemma_terminators_contribute_nothing(map: Seq<MemoryDescriptor>)
    ensures
        map_frames(map) == map_frames(without_terminators(map)),
    decreases map.len(),
{
    reveal(Seq::filter);
    if map.len() > 0 {
        let init = map.drop_last();
        let last = map.last();
        lemma_terminators_contribute_nothing(init);
        let kept = without_terminators(init);
        if is_terminator(last) {
            assert(without_terminators(map) == kept);
            assert(region_frames(last) =~= Seq::<int>::empty());
            assert(map_frames(map) =~= map_frames(init));
        } else {
            assert(without_terminators(map) == kept.push(last));
            assert(kept.push(last).drop_last() =~= kept);
            assert(kept.push(last).last() == last);
        }
    }
}

} // verus!
