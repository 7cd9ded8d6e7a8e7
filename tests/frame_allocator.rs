use bootmem::frame::{Frame, FrameAllocator};
use bootmem::memory::{MemoryDescriptor, MemoryType};

fn region(memory_type: MemoryType, physical_address: usize, size: usize) -> MemoryDescriptor {
    MemoryDescriptor {
        memory_type,
        physical_address,
        virtual_address: 0,
        size,
        attributes: 0,
    }
}

fn terminator() -> MemoryDescriptor {
    region(MemoryType::Reserved, 0, 0)
}

fn drain(a: &mut FrameAllocator<'_>) -> Vec<usize> {
    let mut out = Vec::new();
    while let Some(f) = a.next_frame() {
        out.push(f.start_address);
    }
    out
}

#[test]
fn reserved_region_never_appears() {
    let map = vec![
        region(MemoryType::Conventional, 0x100000, 4),
        region(MemoryType::Reserved, 0x200000, 10),
    ];
    let mut a = FrameAllocator::new(&map);
    assert_eq!(a.next_frame(), Some(Frame { start_address: 0x100000 }));
    assert_eq!(a.next_frame(), Some(Frame { start_address: 0x101000 }));
    assert_eq!(a.next_frame(), Some(Frame { start_address: 0x102000 }));
    assert_eq!(a.next_frame(), Some(Frame { start_address: 0x103000 }));
    assert_eq!(a.next_frame(), None);
    assert_eq!(a.next_frame(), None);
}

#[test]
fn two_pages_from_single_region() {
    let map = vec![region(MemoryType::Conventional, 0x100000, 10)];
    let mut a = FrameAllocator::new(&map);
    assert_eq!(a.allocate_size(8192), Some((Frame { start_address: 0x100000 }, 2)));
    assert_eq!(a.next_frame(), Some(Frame { start_address: 0x102000 }));
}

fn mixed_map() -> Vec<MemoryDescriptor> {
    vec![
        region(MemoryType::LoaderCode, 0x1000, 3),
        region(MemoryType::BootServicesCode, 0x8000, 2),
        region(MemoryType::BootServicesData, 0x20000, 5),
        region(MemoryType::Conventional, 0x40000, 3),
        terminator(),
        region(MemoryType::PersistentMemory, 0x90000, 4),
        region(MemoryType::Conventional, 0x70000, 1),
    ]
}

#[test]
fn frames_lie_in_usable_regions_and_are_aligned() {
    let map = mixed_map();
    let mut a = FrameAllocator::new(&map);
    let frames = drain(&mut a);
    assert_eq!(frames.len(), 6);
    for f in frames {
        assert_eq!(f % 4096, 0);
        assert!(map.iter().any(|d| d.memory_type.is_usable()
            && d.physical_address <= f
            && f < d.physical_address + d.size * 4096));
    }
}

#[test]
fn regions_visited_in_map_order() {
    let map = mixed_map();
    let mut a = FrameAllocator::new(&map);
    assert_eq!(
        drain(&mut a),
        vec![0x8000, 0x9000, 0x40000, 0x41000, 0x42000, 0x70000]
    );
}

#[test]
fn no_frame_issued_twice() {
    let map = mixed_map();
    let mut a = FrameAllocator::new(&map);
    let frames = drain(&mut a);
    for i in 0..frames.len() {
        for j in (i + 1)..frames.len() {
            assert_ne!(frames[i], frames[j]);
        }
    }
}

#[test]
fn region_allocation_matches_single_frames() {
    for n in 1..=3usize {
        let map = vec![
            region(MemoryType::Conventional, 0x300000, 2),
            region(MemoryType::Conventional, 0x500000, 6),
        ];
        let mut single = FrameAllocator::new(&map);
        let mut bulk = FrameAllocator::new(&map);
        // move both past the first region
        single.allocate_size(8192);
        bulk.allocate_size(8192);
        let (first, count) = bulk.allocate_size(n * 4096).unwrap();
        assert_eq!(count, n);
        for k in 0..n {
            let f = single.next_frame().unwrap();
            assert_eq!(f.start_address, first.start_address + k * 4096);
        }
        assert_eq!(single.next_frame(), bulk.next_frame());
    }
}

#[test]
fn usable_bytes_exhaust_the_allocator() {
    let map = mixed_map();
    let total: usize = 6 * 4096;
    let mut a = FrameAllocator::new(&map);
    assert_eq!(a.allocate_size(total), Some((Frame { start_address: 0x8000 }, 6)));
    assert_eq!(a.next_frame(), None);

    let mut b = FrameAllocator::new(&map);
    assert_eq!(b.allocate_size(total + 4096), None);
    assert_eq!(b.next_frame(), None);
}

#[test]
fn terminator_contributes_nothing_anywhere() {
    let base = vec![
        region(MemoryType::Conventional, 0x10000, 2),
        region(MemoryType::BootServicesCode, 0x30000, 1),
    ];
    let mut plain = FrameAllocator::new(&base);
    let expected = drain(&mut plain);
    for pos in 0..=base.len() {
        let mut map = base.clone();
        map.insert(pos, terminator());
        let mut a = FrameAllocator::new(&map);
        assert_eq!(drain(&mut a), expected);
    }
}

#[test]
fn conventional_terminator_contributes_nothing() {
    let map = vec![
        region(MemoryType::Conventional, 0, 0),
        region(MemoryType::Conventional, 0x4000, 1),
    ];
    let mut a = FrameAllocator::new(&map);
    assert_eq!(drain(&mut a), vec![0x4000]);
}

#[test]
fn partial_page_rounds_up() {
    let map = vec![region(MemoryType::Conventional, 0x100000, 10)];
    let mut a = FrameAllocator::new(&map);
    assert_eq!(a.allocate_size(4097), Some((Frame { start_address: 0x100000 }, 2)));
    assert_eq!(a.allocate_size(1), Some((Frame { start_address: 0x102000 }, 1)));
    assert_eq!(a.next_frame(), Some(Frame { start_address: 0x103000 }));
}

#[test]
fn zero_size_takes_nothing() {
    let map = vec![region(MemoryType::Conventional, 0x100000, 1)];
    let mut a = FrameAllocator::new(&map);
    assert_eq!(a.allocate_size(0), Some((Frame { start_address: 0 }, 0)));
    assert_eq!(a.next_frame(), Some(Frame { start_address: 0x100000 }));
}

#[test]
fn failed_request_consumes_what_is_left() {
    let map = vec![
        region(MemoryType::Conventional, 0x100000, 2),
        region(MemoryType::Conventional, 0x200000, 1),
    ];
    let mut a = FrameAllocator::new(&map);
    assert_eq!(a.next_frame(), Some(Frame { start_address: 0x100000 }));
    assert_eq!(a.allocate_size(3 * 4096), None);
    assert_eq!(a.next_frame(), None);
}

#[test]
fn empty_map_has_no_frames() {
    let mut a = FrameAllocator::new(&[]);
    assert_eq!(a.next_frame(), None);
    assert_eq!(a.allocate_size(4096), None);
}

#[test]
fn region_frames_cross_boundaries_in_map_order() {
    let map = vec![
        region(MemoryType::Conventional, 0x900000, 1),
        region(MemoryType::Conventional, 0x100000, 2),
    ];
    let mut a = FrameAllocator::new(&map);
    assert_eq!(a.allocate_size(3 * 4096), Some((Frame { start_address: 0x900000 }, 3)));
    assert_eq!(a.next_frame(), None);
}

#[test]
fn region_past_the_address_range_is_refused() {
    let overflowing = vec![region(MemoryType::Conventional, usize::MAX - 4095, 2)];
    assert!(FrameAllocator::try_new(&overflowing).is_none());
    let past_physical = vec![region(MemoryType::Conventional, 0x10_0000_0000_0000 - 4096, 2)];
    assert!(FrameAllocator::try_new(&past_physical).is_none());
    let above_physical = vec![region(MemoryType::Conventional, usize::MAX - 4095, 1)];
    assert!(FrameAllocator::try_new(&above_physical).is_none());
    let last_page = vec![region(MemoryType::Conventional, 0x10_0000_0000_0000 - 4096, 1)];
    let mut a = FrameAllocator::try_new(&last_page).unwrap();
    assert_eq!(a.next_frame(), Some(Frame { start_address: 0x10_0000_0000_0000 - 4096 }));
    assert_eq!(a.next_frame(), None);
    // unusable regions are never walked, so their size does not matter
    let reserved = vec![region(MemoryType::Reserved, usize::MAX - 4095, 100)];
    assert!(FrameAllocator::try_new(&reserved).is_some());
}

#[test]
fn usable_frames_restarts_the_sequence() {
    let map = mixed_map();
    let mut a = FrameAllocator::new(&map);
    let first_pass = drain(&mut a);
    let mut again = a.usable_frames();
    assert_eq!(drain(&mut again), first_pass);
    assert_eq!(a.next_frame(), None);
}

#[test]
fn many_terminators_contribute_nothing() {
    let base = vec![
        region(MemoryType::Conventional, 0x10000, 2),
        region(MemoryType::BootServicesCode, 0x30000, 1),
    ];
    let mut plain = FrameAllocator::new(&base);
    let expected = drain(&mut plain);
    let map = vec![
        terminator(),
        base[0],
        terminator(),
        region(MemoryType::Conventional, 0, 0),
        base[1],
        terminator(),
        terminator(),
    ];
    let mut a = FrameAllocator::new(&map);
    assert_eq!(drain(&mut a), expected);
}
