//! The boot-time frame allocator, fed by the firmware's memory map.
use vstd::prelude::*;
use crate::paging::PAGE_SIZE;
use vstd::arithmetic::div_mod::{lemma_fundamental_div_mod, lemma_mod_multiples_vanish};

verus! {

/// One region of the firmware's memory map: the physical addresses from
/// `start` up to `end` (exclusive), and whether the kernel may use them.
#[derive(Debug, Clone, Copy, PartialEq, Eq, Structural)]
pub struct MemoryRegion {
    pub start: u64,
    pub end: u64,
    pub usable: bool,
}

/// A 4 KiB physical frame, by its start address.
#[derive(Debug, Clone, Copy, PartialEq, Eq, Structural)]
pub struct Frame {
    pub start_address: u64,
}

/// The start of the frame that holds `addr`.
pub open spec fn align_down(addr: int) -> int {
    addr - addr % PAGE_SIZE as int
}

/// How many frame-sized steps from `start` stay below `end`.
pub open spec fn region_frame_count(r: MemoryRegion) -> nat {
    if r.end > r.start {
        let d = (r.end - r.start) as nat;
        d / PAGE_SIZE as nat + if d % PAGE_SIZE as nat != 0 {
            1nat
        } else {
            0nat
        }
    } else {
        0
    }
}

/// The frames that a region contributes: for a usable one, the frame of each
/// address `start`, `start + 4096`, ... below `end`; none for another.
pub open spec fn region_frames(r: MemoryRegion) -> Seq<u64> {
    if r.usable {
        Seq::new(region_frame_count(r), |k: int| align_down(r.start + k * PAGE_SIZE) as u64)
    } else {
        Seq::empty()
    }
}

/// The usable frames of a memory map, region after region.
pub open spec fn usable_frames(regions: Seq<MemoryRegion>) -> Seq<u64>
    decreases regions.len(),
{
    if regions.len() == 0 {
        Seq::empty()
    } else {
        usable_frames(regions.drop_last()) + region_frames(regions.last())
    }
}

/// The frame that the allocator hands out when its cursor stands at `k`.
pub open spec fn nth_frame(regions: Seq<MemoryRegion>, k: int) -> Option<Frame> {
    if 0 <= k < usable_frames(regions).len() {
        Some(Frame { start_address: usable_frames(regions)[k] })
    } else {
        None
    }
}

/// The frames of the first `j` regions come first among all of them.
proof fn lemma_usable_frames_prefix(regions: Seq<MemoryRegion>, j: int)
    requires
        0 <= j <= regions.len(),
    ensures
        usable_frames(regions.take(j)).len() <= usable_frames(regions).len(),
        forall|k: int|
            0 <= k < usable_frames(regions.take(j)).len() ==> #[trigger] usable_frames(
                regions.take(j),
            )[k] == usable_frames(regions)[k],
    decreases regions.len(),
{
    if j == regions.len() {
        assert(regions.take(j) =~= regions);
    } else {
        let init = regions.drop_last();
        assert(init.take(j) =~= regions.take(j));
        lemma_usable_frames_prefix(init, j);
    }
}

/// The usable regions of the map start on a frame boundary, and no two
/// usable regions share an address.
pub open spec fn regions_disjoint(regions: Seq<MemoryRegion>) -> bool {
    &&& forall|i: int|
        0 <= i < regions.len() && (#[trigger] regions[i]).usable ==> regions[i].start % PAGE_SIZE == 0
    &&& forall|i: int, j: int|
        0 <= i < j < regions.len() && (#[trigger] regions[i]).usable && (#[trigger] regions[j]).usable
            ==> !(regions[i].start < regions[i].end && regions[j].start < regions[j].end
            && regions[i].start < regions[j].end && regions[j].start < regions[i].end)
}

/// In a usable region that starts on a frame boundary, frame `k` starts
/// `k` frames after the region, inside it.
proof fn lemma_region_frame(r: MemoryRegion, k: int)
    requires
        r.usable,
        r.start % PAGE_SIZE == 0,
        0 <= k < region_frame_count(r),
    ensures
        region_frames(r)[k] == r.start + k * PAGE_SIZE,
        r.start <= region_frames(r)[k] < r.end,
        region_frames(r)[k] % PAGE_SIZE == 0,
{
    let d = r.end - r.start;
    lemma_fundamental_div_mod(d, 4096);
    let q = d / 4096;
    let m = d % 4096;
    assert(k * 4096 < d) by (nonlinear_arith)
        requires
            d == 4096 * q + m,
            0 <= m < 4096,
            0 <= k < q + if m != 0 {
                1int
            } else {
                0int
            },
    ;
    lemma_mod_multiples_vanish(k, r.start as int, 4096);
    assert((4096 * k + r.start) % 4096 == 0);
    assert(r.start + k * 4096 == 4096 * k + r.start);
}

/// Every usable frame lies in a usable region, and is frame-aligned.
proof fn lemma_frames_in_regions(regions: Seq<MemoryRegion>)
    requires
        regions_disjoint(regions),
    ensures
        forall|k: int|
            0 <= k < usable_frames(regions).len() ==> {
                &&& #[trigger] usable_frames(regions)[k] % PAGE_SIZE == 0
                &&& exists|j: int|
                    0 <= j < regions.len() && regions[j].usable && regions[j].start
                        <= usable_frames(regions)[k] < regions[j].end
            },
    decreases regions.len(),
{
    if regions.len() > 0 {
        let init = regions.drop_last();
        let last = regions.last();
        assert(regions_disjoint(init)) by {
            assert forall|i: int, j: int|
                0 <= i < j < init.len() && (#[trigger] init[i]).usable && (#[trigger] init[j]).usable
                    implies !(init[i].start < init[i].end && init[j].start < init[j].end
                && init[i].start < init[j].end && init[j].start < init[i].end) by {
                assert(init[i] == regions[i] && init[j] == regions[j]);
            }
        }
        lemma_frames_in_regions(init);
        let n = usable_frames(init).len();
        assert forall|k: int| 0 <= k < usable_frames(regions).len() implies {
            &&& #[trigger] usable_frames(regions)[k] % PAGE_SIZE == 0
            &&& exists|j: int|
                0 <= j < regions.len() && regions[j].usable && regions[j].start
                    <= usable_frames(regions)[k] < regions[j].end
        } by {
            if k < n {
                assert(usable_frames(regions)[k] == usable_frames(init)[k]);
                let j = choose|j: int|
                    0 <= j < init.len() && init[j].usable && init[j].start
                        <= usable_frames(init)[k] < init[j].end;
                assert(regions[j] == init[j]);
            } else {
                assert(regions[regions.len() - 1] == last);
                lemma_region_frame(last, k - n);
            }
        }
    }
}

/// On a memory map whose usable regions are frame-aligned and disjoint, no
/// usable frame appears twice.
proof fn lemma_usable_frames_distinct(regions: Seq<MemoryRegion>)
    requires
        regions_disjoint(regions),
    ensures
        forall|i: int, j: int|
            0 <= i < j < usable_frames(regions).len() ==> #[trigger] usable_frames(regions)[i]
                != #[trigger] usable_frames(regions)[j],
    decreases regions.len(),
{
    if regions.len() > 0 {
        let init = regions.drop_last();
        let last = regions.last();
        let li = regions.len() - 1;
        assert(regions[li] == last);
        assert(regions_disjoint(init)) by {
            assert forall|i: int, j: int|
                0 <= i < j < init.len() && (#[trigger] init[i]).usable && (#[trigger] init[j]).usable
                    implies !(init[i].start < init[i].end && init[j].start < init[j].end
                && init[i].start < init[j].end && init[j].start < init[i].end) by {
                assert(init[i] == regions[i] && init[j] == regions[j]);
            }
        }
        lemma_usable_frames_distinct(init);
        lemma_frames_in_regions(init);
        let n = usable_frames(init).len();
        let all = usable_frames(regions);
        assert forall|i: int, j: int| 0 <= i < j < all.len() implies #[trigger] all[i]
            != #[trigger] all[j] by {
            if j < n {
                assert(all[i] == usable_frames(init)[i]);
                assert(all[j] == usable_frames(init)[j]);
            } else if i >= n {
                lemma_region_frame(last, i - n);
                lemma_region_frame(last, j - n);
            } else {
                assert(all[i] == usable_frames(init)[i]);
                lemma_region_frame(last, j - n);
                let jr = choose|jr: int|
                    0 <= jr < init.len() && init[jr].usable && init[jr].start
                        <= usable_frames(init)[i] < init[jr].end;
                assert(regions[jr] == init[jr]);
            }
        }
    }
}

/// Frames come from usable memory only. On a memory map whose usable
/// regions are frame-aligned and disjoint, a frame that the allocator hands
/// out is frame-aligned and starts inside a usable region; where that
/// region also ends on a frame boundary, the whole frame lies inside it.
pub proof fn lemma_allocated_frame_in_usable_region(regions: Seq<MemoryRegion>, k: int)
    requires
        regions_disjoint(regions),
        nth_frame(regions, k) is Some,
    ensures
        ({
            let f = nth_frame(regions, k)->Some_0.start_address;
            &&& f % PAGE_SIZE == 0
            &&& exists|j: int|
                0 <= j < regions.len() && (#[trigger] regions[j]).usable && regions[j].start <= f
                    < regions[j].end && (regions[j].end % PAGE_SIZE == 0 ==> f + PAGE_SIZE
                    <= regions[j].end)
        }),
{
    lemma_frames_in_regions(regions);
    let f = usable_frames(regions)[k];
    assert(f % PAGE_SIZE == 0);
    let j = choose|j: int|
        0 <= j < regions.len() && regions[j].usable && regions[j].start <= f < regions[j].end;
    let e = regions[j].end;
    if e % PAGE_SIZE == 0 {
        lemma_fundamental_div_mod(f as int, 4096);
        lemma_fundamental_div_mod(e as int, 4096);
        let a = f as int / 4096;
        let b = e as int / 4096;
        assert(f + 4096 <= e) by (nonlinear_arith)
            requires
                f == 4096 * a,
                e == 4096 * b,
                f < e,
        ;
    }
    assert(0 <= j < regions.len() && regions[j].usable && regions[j].start <= f < regions[j].end
        && (regions[j].end % PAGE_SIZE == 0 ==> f + PAGE_SIZE <= regions[j].end));
}

/// Frames never repeat. On a memory map whose usable regions are
/// frame-aligned and disjoint, with `K` usable frames, an allocator that
/// starts at cursor zero hands out, call after call, `K` frames that are
/// frame-aligned and pairwise distinct, hence never overlap; from call `K`
/// on, every call yields `None`.
pub proof fn lemma_allocations_never_repeat(regions: Seq<MemoryRegion>, i: int, j: int)
    requires
        regions_disjoint(regions),
        0 <= i < j,
    ensures
        nth_frame(regions, i) is Some <==> i < usable_frames(regions).len(),
        nth_frame(regions, j) is Some <==> j < usable_frames(regions).len(),
        nth_frame(regions, i) matches Some(f) ==> f.start_address % PAGE_SIZE == 0,
        nth_frame(regions, j) is Some ==> nth_frame(regions, i) != nth_frame(regions, j),
{
    lemma_usable_frames_distinct(regions);
    lemma_frames_in_regions(regions);
    if j < usable_frames(regions).len() {
        assert(usable_frames(regions)[i] != usable_frames(regions)[j]);
    }
}

/// Hands out the usable frames of a memory map one by one, in order. The
/// map never changes; the cursor counts the frames handed out so far and
/// only moves forward, so no frame is handed out twice.
pub struct BootInfoFrameAllocator {
    memory_map: Vec<MemoryRegion>,
    next: usize,
}

impl BootInfoFrameAllocator {
    /// The memory map that the allocator was made with.
    pub closed spec fn regions(&self) -> Seq<MemoryRegion> {
        self.memory_map@
    }

    /// How many times a frame has been asked for; it passes the count of
    /// usable frames once they run out.
    pub closed spec fn cursor(&self) -> nat {
        self.next as nat
    }

    /// An allocator over `memory_map` that has handed out nothing.
    pub fn init(memory_map: Vec<MemoryRegion>) -> (a: BootInfoFrameAllocator)
        ensures
            a.regions() == memory_map@,
            a.cursor() == 0,
    {
        BootInfoFrameAllocator { memory_map, next: 0 }
    }

    /// The `n`-th usable frame's start address, if there are that many.
    fn nth_usable_frame(&self, n: usize) -> (r: Option<u64>)
        ensures
            r == (if n < usable_frames(self.regions()).len() {
                Some(usable_frames(self.regions())[n as int])
            } else {
                None::<u64>
            }),
    {
        let ghost rs = self.memory_map@;
        let mut i: usize = 0;
        let mut remaining: u64 = n as u64;
        while i < self.memory_map.len()
            invariant
                i <= rs.len(),
                rs == self.memory_map@,
                usable_frames(rs.take(i as int)).len() + remaining == n,
            decreases rs.len() - i,
        {
            let r = self.memory_map[i];
            proof {
                assert(rs.take(i + 1).drop_last() =~= rs.take(i as int));
                assert(rs.take(i + 1).last() == r);
            }
            if r.usable {
                let count: u64 = if r.end > r.start {
                    let d = r.end - r.start;
                    d / PAGE_SIZE + if d % PAGE_SIZE != 0 {
                        1
                    } else {
                        0
                    }
                } else {
                    0
                };
                assert(count == region_frame_count(r));
                if remaining < count {
                    let d = r.end - r.start;
                    proof {
                        let q = d / 4096;
                        let m = d % 4096;
                        assert(d == 4096 * q + m);
                        assert(remaining * 4096 < d) by (nonlinear_arith)
                            requires
                                d == 4096 * q + m,
                                0 <= m < 4096,
                                remaining < q + if m != 0 {
                                    1int
                                } else {
                                    0int
                                },
                        ;
                        lemma_usable_frames_prefix(rs, i + 1);
                        let pre = usable_frames(rs.take(i as int));
                        let upto = usable_frames(rs.take(i + 1));
                        assert(upto == pre + region_frames(r));
                        assert(upto[n as int] == region_frames(r)[remaining as int]);
                        assert(upto[n as int] == usable_frames(rs)[n as int]);
                    }
                    let a = r.start + remaining * PAGE_SIZE;
                    return Some(a - a % PAGE_SIZE);
                }
                remaining = remaining - count;
            }
            i = i + 1;
        }
        proof {
            assert(rs.take(rs.len() as int) =~= rs);
        }
        None
    }

    /// Hands out the frame at the cursor, `None` once the cursor has passed
    /// the last usable frame, and advances the cursor by one on every call;
    /// only at `usize::MAX` does it stay, and yield `None`. The cursor never
    /// goes back, so no frame is handed out twice.
    pub fn allocate_frame(&mut self) -> (r: Option<Frame>)
        ensures
            final(self).regions() == old(self).regions(),
            r == if old(self).cursor() < usize::MAX {
                nth_frame(old(self).regions(), old(self).cursor() as int)
            } else {
                None
            },
            final(self).cursor() == if old(self).cursor() < usize::MAX {
                old(self).cursor() + 1
            } else {
                old(self).cursor()
            },
    {
        if self.next == usize::MAX {
            return None;
        }
        let frame = self.nth_usable_frame(self.next);
        self.next = self.next + 1;
        match frame {
            Some(a) => Some(Frame { start_address: a }),
            None => None,
        }
    }
}

} // verus!
