use wally_os::paging::{phys_to_virt, translate_addr, PhysicalMemory, Translation, WalkCursor, WalkStep};

const ROOT: u64 = 0x1000;

/// Tables at 0x1000 (top), 0x2000, 0x3000 and 0x4000 (leaf); the leaf maps
/// the text buffer's page 0xb8000 to itself.
fn tables() -> Vec<u64> {
    let mut words = vec![0u64; 0x5000 / 8];
    words[0x1000 / 8] = 0x2000 | 0x3;
    words[0x2000 / 8] = 0x3000 | 0x3;
    words[0x3000 / 8] = 0x4000 | 0x3;
    words[0x4000 / 8 + 0xb8] = 0xb8000 | 0x3;
    // a large page at the middle level, index 1
    words[0x3000 / 8 + 1] = 0x0060_0000 | 0x83;
    words
}

#[test]
fn translates_text_buffer_identity_mapping() {
    let mem = PhysicalMemory::new(tables());
    assert_eq!(translate_addr(&mem, ROOT, 0xb8000), Translation::Mapped(0xb8000));
    assert_eq!(translate_addr(&mem, ROOT, 0xb8123), Translation::Mapped(0xb8123));
}

#[test]
fn unused_top_level_entry_is_not_present() {
    let mem = PhysicalMemory::new(tables());
    assert_eq!(translate_addr(&mem, ROOT, 1u64 << 39), Translation::NotPresent);
    assert_eq!(
        translate_addr(&mem, ROOT, 0xffff_8000_0000_0000),
        Translation::NotPresent
    );
}

#[test]
fn unmapped_leaf_is_not_present() {
    let mem = PhysicalMemory::new(tables());
    assert_eq!(translate_addr(&mem, ROOT, 0xb9000), Translation::NotPresent);
}

#[test]
fn huge_page_is_reported() {
    let mem = PhysicalMemory::new(tables());
    assert_eq!(translate_addr(&mem, ROOT, 0x0020_0000), Translation::HugePage);
}

#[test]
fn root_register_flags_are_ignored() {
    let mem = PhysicalMemory::new(tables());
    assert_eq!(translate_addr(&mem, ROOT | 0x18, 0xb8010), Translation::Mapped(0xb8010));
}

#[test]
fn empty_memory_translates_nothing() {
    let mem = PhysicalMemory::new(Vec::new());
    assert_eq!(translate_addr(&mem, 0, 0xb8000), Translation::NotPresent);
}

#[test]
fn stepper_walks_level_by_level() {
    let c = WalkCursor::start(ROOT);
    assert_eq!(c, WalkCursor { level: 4, table: 0x1000 });
    assert_eq!(c.entry_address(0xb8000), 0x1000);
    assert_eq!(
        c.step(0xb8000, 0x2003),
        WalkStep::Next(WalkCursor { level: 3, table: 0x2000 })
    );
    let leaf = WalkCursor { level: 1, table: 0x4000 };
    assert_eq!(leaf.entry_address(0xb8000), 0x4000 + 0xb8 * 8);
    assert_eq!(
        leaf.step(0xb8abc, 0xb8003),
        WalkStep::Done(Translation::Mapped(0xb8abc))
    );
    assert_eq!(leaf.step(0xb8abc, 0xb8002), WalkStep::Done(Translation::NotPresent));
}

#[test]
fn entry_address_uses_each_level_index() {
    // indices 1, 2, 3, 4 at levels 4, 3, 2, 1
    let addr: u64 = (1 << 39) | (2 << 30) | (3 << 21) | (4 << 12) | 0x5;
    assert_eq!(WalkCursor { level: 4, table: 0 }.entry_address(addr), 8);
    assert_eq!(WalkCursor { level: 3, table: 0 }.entry_address(addr), 16);
    assert_eq!(WalkCursor { level: 2, table: 0 }.entry_address(addr), 24);
    assert_eq!(WalkCursor { level: 1, table: 0 }.entry_address(addr), 32);
}

#[test]
fn physical_to_virtual_offset() {
    assert_eq!(phys_to_virt(0x1000_0000_0000, 0xb8000), Some(0x1000_000b_8000));
    assert_eq!(phys_to_virt(u64::MAX, 1), None);
}

#[test]
fn memory_reads_words() {
    let mem = PhysicalMemory::new(vec![7, 9]);
    assert_eq!(mem.read_u64(0), 7);
    assert_eq!(mem.read_u64(8), 9);
    assert_eq!(mem.read_u64(12), 9);
    assert_eq!(mem.read_u64(16), 0);
}
