use std::collections::HashSet;
use wally_os::memory::{BootInfoFrameAllocator, Frame, MemoryRegion};

fn region(start: u64, end: u64, usable: bool) -> MemoryRegion {
    MemoryRegion { start, end, usable }
}

#[test]
fn allocates_each_usable_frame_once_then_none() {
    let map = vec![
        region(0x1000, 0x3000, true),
        region(0x3000, 0x5000, false),
        region(0x10000, 0x11000, true),
    ];
    let mut a = BootInfoFrameAllocator::init(map);
    let mut seen = HashSet::new();
    let expected = [0x1000u64, 0x2000, 0x10000];
    for e in expected {
        let f = a.allocate_frame().expect("a usable frame is left");
        assert_eq!(f, Frame { start_address: e });
        assert!(seen.insert(f.start_address));
    }
    for _ in 0..5 {
        assert_eq!(a.allocate_frame(), None);
    }
}

#[test]
fn no_usable_region_gives_nothing() {
    let mut a = BootInfoFrameAllocator::init(vec![region(0x0, 0x10000, false)]);
    assert_eq!(a.allocate_frame(), None);
    let mut b = BootInfoFrameAllocator::init(Vec::new());
    assert_eq!(b.allocate_frame(), None);
}

#[test]
fn empty_usable_region_contributes_nothing() {
    let map = vec![region(0x5000, 0x5000, true), region(0x8000, 0x9000, true)];
    let mut a = BootInfoFrameAllocator::init(map);
    assert_eq!(a.allocate_frame(), Some(Frame { start_address: 0x8000 }));
    assert_eq!(a.allocate_frame(), None);
}

#[test]
fn unaligned_region_yields_containing_frames() {
    let mut a = BootInfoFrameAllocator::init(vec![region(0x1800, 0x2900, true)]);
    assert_eq!(a.allocate_frame(), Some(Frame { start_address: 0x1000 }));
    assert_eq!(a.allocate_frame(), Some(Frame { start_address: 0x2000 }));
    assert_eq!(a.allocate_frame(), None);
}

#[test]
fn many_frames_are_distinct() {
    let map = vec![region(0x100000, 0x200000, true), region(0x400000, 0x480000, true)];
    let mut a = BootInfoFrameAllocator::init(map);
    let mut seen = HashSet::new();
    while let Some(f) = a.allocate_frame() {
        assert_eq!(f.start_address % 4096, 0);
        assert!(seen.insert(f.start_address));
    }
    assert_eq!(seen.len(), 256 + 128);
}
