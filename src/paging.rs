//! The four-level page-table walk that translates a virtual address.
use vstd::prelude::*;

verus! {

/// Size of a page and of a frame, in bytes.
pub const PAGE_SIZE: u64 = 4096;

/// The bits of a page-table entry (and of the top-level table register) that
/// hold a frame's physical address.
pub const ENTRY_ADDRESS_MASK: u64 = 0x000f_ffff_ffff_f000;

/// Entry flag: the entry maps something.
pub const PRESENT: u64 = 0x1;

/// Entry flag: above the leaf level, the entry maps a large page itself.
pub const HUGE_PAGE: u64 = 0x80;

/// The index into the table of `level` (4 is the top) that `addr` selects.
pub open spec fn table_index(addr: u64, level: u8) -> u64 {
    if level == 4 {
        (addr >> 39u64) & 0x1ff
    } else if level == 3 {
        (addr >> 30u64) & 0x1ff
    } else if level == 2 {
        (addr >> 21u64) & 0x1ff
    } else {
        (addr >> 12u64) & 0x1ff
    }
}

/// The offset of `addr` inside its page.
pub open spec fn page_offset(addr: u64) -> u64 {
    addr & 0xfff
}

/// The physical address that an entry points to.
pub open spec fn entry_frame(entry: u64) -> u64 {
    entry & ENTRY_ADDRESS_MASK
}

/// The outcome of translating a virtual address.
#[derive(Debug, Clone, Copy, PartialEq, Eq, Structural)]
pub enum Translation {
    /// The address maps to this physical address.
    Mapped(u64),
    /// Some entry on the way is not present: the address is unmapped.
    NotPresent,
    /// An entry above the leaf maps a large page, which the walk does not
    /// support; the caller treats this as a fatal configuration error.
    HugePage,
}

/// Where a walk stands: the level it reads next and that table's physical
/// address.
#[derive(Debug, Clone, Copy, PartialEq, Eq, Structural)]
pub struct WalkCursor {
    pub level: u8,
    pub table: u64,
}

/// What the walk does with the entry it has read.
#[derive(Debug, Clone, Copy, PartialEq, Eq, Structural)]
pub enum WalkStep {
    /// Go on to the next lower table.
    Next(WalkCursor),
    /// The walk is over.
    Done(Translation),
}

impl WalkCursor {
    pub open spec fn wf(&self) -> bool {
        1 <= self.level <= 4 && self.table <= ENTRY_ADDRESS_MASK
    }

    /// Physical address of the entry that this step reads.
    pub open spec fn entry_address_spec(&self, addr: u64) -> int {
        self.table + table_index(addr, self.level) * 8
    }

    pub open spec fn step_spec(&self, addr: u64, entry: u64) -> WalkStep {
        if entry & PRESENT == 0 {
            WalkStep::Done(Translation::NotPresent)
        } else if self.level > 1 && entry & HUGE_PAGE != 0 {
            WalkStep::Done(Translation::HugePage)
        } else if self.level == 1 {
            WalkStep::Done(Translation::Mapped((entry_frame(entry) + page_offset(addr)) as u64))
        } else {
            WalkStep::Next(WalkCursor { level: (self.level - 1) as u8, table: entry_frame(entry) })
        }
    }

    /// The walk's start: the top-level table whose frame the control
    /// register `root` names.
    pub fn start(root: u64) -> (c: WalkCursor)
        ensures
            c.wf(),
            c == (WalkCursor { level: 4, table: root & ENTRY_ADDRESS_MASK }),
    {
        assert(root & 0x000f_ffff_ffff_f000u64 <= 0x000f_ffff_ffff_f000u64) by (bit_vector);
        WalkCursor { level: 4, table: root & ENTRY_ADDRESS_MASK }
    }

    /// Physical address of the entry that this step reads for `addr`.
    pub fn entry_address(&self, addr: u64) -> (r: u64)
        requires
            self.wf(),
        ensures
            r == self.entry_address_spec(addr),
    {
        let index = if self.level == 4 {
            (addr >> 39u64) & 0x1ff
        } else if self.level == 3 {
            (addr >> 30u64) & 0x1ff
        } else if self.level == 2 {
            (addr >> 21u64) & 0x1ff
        } else {
            (addr >> 12u64) & 0x1ff
        };
        assert(index == table_index(addr, self.level));
        assert(((addr >> 39u64) & 0x1ffu64) <= 0x1ffu64) by (bit_vector);
        assert(((addr >> 30u64) & 0x1ffu64) <= 0x1ffu64) by (bit_vector);
        assert(((addr >> 21u64) & 0x1ffu64) <= 0x1ffu64) by (bit_vector);
        assert(((addr >> 12u64) & 0x1ffu64) <= 0x1ffu64) by (bit_vector);
        self.table + index * 8
    }

    /// Decides the step on the entry read at `entry_address`.
    pub fn step(&self, addr: u64, entry: u64) -> (r: WalkStep)
        requires
            self.wf(),
        ensures
            r == self.step_spec(addr, entry),
            r matches WalkStep::Next(n) ==> n.wf() && n.level == self.level - 1,
    {
        let frame = entry & ENTRY_ADDRESS_MASK;
        assert(entry & 0x000f_ffff_ffff_f000u64 <= 0x000f_ffff_ffff_f000u64) by (bit_vector);
        assert(addr & 0xfffu64 <= 0xfffu64) by (bit_vector);
        if entry & PRESENT == 0 {
            WalkStep::Done(Translation::NotPresent)
        } else if self.level > 1 && entry & HUGE_PAGE != 0 {
            WalkStep::Done(Translation::HugePage)
        } else if self.level == 1 {
            WalkStep::Done(Translation::Mapped(frame + (addr & 0xfff)))
        } else {
            WalkStep::Next(WalkCursor { level: self.level - 1, table: frame })
        }
    }
}

/// The 64-bit word at physical address `phys` of a memory whose words are
/// `words`, word `i` at address `8 * i`; memory past its end reads as zero.
pub open spec fn read_word(words: Seq<u64>, phys: int) -> u64 {
    if 0 <= phys / 8 < words.len() {
        words[phys / 8]
    } else {
        0
    }
}

/// The rest of a walk from `c`, reading entries out of `words`.
pub open spec fn walk(words: Seq<u64>, c: WalkCursor, addr: u64) -> Translation
    decreases c.level,
{
    match c.step_spec(addr, read_word(words, c.entry_address_spec(addr))) {
        WalkStep::Done(t) => t,
        WalkStep::Next(n) => if n.level < c.level {
            walk(words, n, addr)
        } else {
            Translation::NotPresent
        },
    }
}

/// The translation of `addr` when the top-level table register holds `root`.
pub open spec fn translation(words: Seq<u64>, root: u64, addr: u64) -> Translation {
    walk(words, WalkCursor { level: 4, table: root & ENTRY_ADDRESS_MASK }, addr)
}

/// A snapshot of physical memory, as words from address zero up.
pub struct PhysicalMemory {
    words: Vec<u64>,
}

impl View for PhysicalMemory {
    type V = Seq<u64>;

    closed spec fn view(&self) -> Seq<u64> {
        self.words@
    }
}

impl PhysicalMemory {
    pub fn new(words: Vec<u64>) -> (m: PhysicalMemory)
        ensures
            m@ == words@,
    {
        PhysicalMemory { words }
    }

    /// The word at physical address `phys`, rounded down to a word boundary.
    pub fn read_u64(&self, phys: u64) -> (r: u64)
        ensures
            r == read_word(self@, phys as int),
    {
        let i = phys / 8;
        if (i as usize) < self.words.len() && i <= usize::MAX as u64 {
            self.words[i as usize]
        } else {
            0
        }
    }
}

/// Translates `addr` by walking the tables held in `mem`, starting from the
/// top-level table that `root` names. The walk only reads.
pub fn translate_addr(mem: &PhysicalMemory, root: u64, addr: u64) -> (r: Translation)
    ensures
        r == translation(mem@, root, addr),
{
    let mut c = WalkCursor::start(root);
    loop
        invariant
            c.wf(),
            walk(mem@, c, addr) == translation(mem@, root, addr),
        decreases c.level,
    {
        let entry = mem.read_u64(c.entry_address(addr));
        match c.step(addr, entry) {
            WalkStep::Done(t) => {
                return t;
            },
            WalkStep::Next(n) => {
                c = n;
            },
        }
    }
}

/// The virtual address at which physical address `phys` is reachable when
/// all physical memory is mapped from `physical_memory_offset` on; `None`
/// where the sum leaves the address space.
pub fn phys_to_virt(physical_memory_offset: u64, phys: u64) -> (r: Option<u64>)
    ensures
        r == (if physical_memory_offset + phys <= u64::MAX {
            Some((physical_memory_offset + phys) as u64)
        } else {
            None
        }),
{
    physical_memory_offset.checked_add(phys)
}

/// The entry that the table at physical address `table` holds for `addr`
/// at `level`.
pub open spec fn entry_for(words: Seq<u64>, table: u64, addr: u64, level: u8) -> u64 {
    read_word(words, table + table_index(addr, level) * 8)
}

/// A present entry that points to a table, not to a large page.
pub open spec fn leads_on(entry: u64) -> bool {
    entry & PRESENT != 0 && entry & HUGE_PAGE == 0
}

/// The leaf entry on `addr`'s walk, where the three entries above it lead on.
pub open spec fn leaf_entry(words: Seq<u64>, root: u64, addr: u64) -> Option<u64> {
    let e4 = entry_for(words, root & ENTRY_ADDRESS_MASK, addr, 4);
    let e3 = entry_for(words, entry_frame(e4), addr, 3);
    let e2 = entry_for(words, entry_frame(e3), addr, 2);
    if leads_on(e4) && leads_on(e3) && leads_on(e2) {
        Some(entry_for(words, entry_frame(e2), addr, 1))
    } else {
        None
    }
}

/// A mapped page translates through its frame: where the walk for `addr`
/// leads on through three tables to a present leaf entry, the result is
/// that entry's frame plus `addr`'s offset in its page. So an address in a
/// page mapped to the frame at the same address, as the text buffer at
/// `0xb8000` is, translates to itself.
pub proof fn lemma_mapped_page_translates(words: Seq<u64>, root: u64, addr: u64)
    requires
        leaf_entry(words, root, addr) matches Some(e1) && e1 & PRESENT != 0,
    ensures
        translation(words, root, addr) == Translation::Mapped(
            (entry_frame(leaf_entry(words, root, addr)->Some_0) + page_offset(addr)) as u64,
        ),
        entry_frame(leaf_entry(words, root, addr)->Some_0) + page_offset(addr) == addr
            ==> translation(words, root, addr) == Translation::Mapped(addr),
{
    let c4 = WalkCursor { level: 4, table: root & ENTRY_ADDRESS_MASK };
    let e4 = entry_for(words, c4.table, addr, 4);
    let c3 = WalkCursor { level: 3, table: entry_frame(e4) };
    let e3 = entry_for(words, c3.table, addr, 3);
    let c2 = WalkCursor { level: 2, table: entry_frame(e3) };
    let e2 = entry_for(words, c2.table, addr, 2);
    let c1 = WalkCursor { level: 1, table: entry_frame(e2) };
    let e1 = entry_for(words, c1.table, addr, 1);
    assert(c4.step_spec(addr, e4) == WalkStep::Next(c3));
    assert(c3.step_spec(addr, e3) == WalkStep::Next(c2));
    assert(c2.step_spec(addr, e2) == WalkStep::Next(c1));
    assert(entry_frame(e1) <= ENTRY_ADDRESS_MASK) by {
        assert(e1 & 0x000f_ffff_ffff_f000u64 <= 0x000f_ffff_ffff_f000u64) by (bit_vector);
    }
    assert(page_offset(addr) <= 0xfff) by {
        assert(addr & 0xfffu64 <= 0xfffu64) by (bit_vector);
    }
    assert(walk(words, c1, addr) == Translation::Mapped((entry_frame(e1) + page_offset(addr)) as u64));
    assert(walk(words, c2, addr) == walk(words, c1, addr));
    assert(walk(words, c3, addr) == walk(words, c2, addr));
    assert(walk(words, c4, addr) == walk(words, c3, addr));
}

/// An address whose top-level entry is unused translates to "not present".
pub proof fn lemma_unused_top_entry_not_present(words: Seq<u64>, root: u64, addr: u64)
    requires
        read_word(words, (root & ENTRY_ADDRESS_MASK) + table_index(addr, 4) * 8) == 0,
    ensures
        translation(words, root, addr) == Translation::NotPresent,
{
    assert(0u64 & PRESENT == 0) by (bit_vector);
}

} // verus!
