//! Physical frames: which frames the memory map offers, the allocator
//! that hands them out in order, and the test that a run of frames is
//! contiguous.

use arrayvec::ArrayVec;
use vstd::prelude::*;

verus! {

/// Size of a frame in bytes.
pub const FRAME_SIZE: u64 = 4096;

/// Number of frames that the allocator fetches from the memory map at a
/// time.
pub const BUFFER_SIZE_ADVANCE: usize = 32;

/// `arrayvec::ArrayVec`, a vector of fixed capacity. Nothing is known of
/// a buffer but what the functions below say of it.
#[verifier::external_type_specification]
#[verifier::external_body]
#[verifier::reject_recursive_types(T)]
pub struct ExArrayVec<T, const CAP: usize>(ArrayVec<T, CAP>);

/// The frame addresses that a buffer holds, the one that leaves next
/// last.
pub uninterp spec fn held(buf: ArrayVec<u64, 32>) -> Seq<u64>;

/// `ArrayVec::new`: an empty buffer.
#[verifier::external_body]
fn buf_new() -> (buf: ArrayVec<u64, 32>)
    ensures
        held(buf) == Seq::<u64>::empty(),
{
    ArrayVec::new()
}

/// `ArrayVec::len`: the number of values in the buffer.
#[verifier::external_body]
fn buf_len(buf: &ArrayVec<u64, 32>) -> (n: usize)
    ensures
        n == held(*buf).len(),
        n <= 32,
{
    buf.len()
}

/// `ArrayVec::push`: the value goes to the end. The outside function
/// panics on a full buffer.
#[verifier::external_body]
fn buf_push(buf: &mut ArrayVec<u64, 32>, value: u64)
    requires
        held(*old(buf)).len() < 32,
    ensures
        held(*final(buf)) == held(*old(buf)).push(value),
{
    buf.push(value)
}

/// `ArrayVec::pop`: the value at the end leaves the buffer, if there is
/// one.
#[verifier::external_body]
fn buf_pop(buf: &mut ArrayVec<u64, 32>) -> (r: Option<u64>)
    ensures
        r is Some == (held(*old(buf)).len() != 0),
        r is Some ==> r->0 == held(*old(buf)).last() && held(*final(buf)) == held(
            *old(buf),
        ).drop_last(),
        r is None ==> held(*final(buf)) == held(*old(buf)),
{
    buf.pop()
}

/// The slice method `reverse` on the values of an `ArrayVec`: the order
/// of the values is turned round.
#[verifier::external_body]
fn buf_reverse(buf: &mut ArrayVec<u64, 32>)
    ensures
        held(*final(buf)) == held(*old(buf)).reverse(),
{
    buf.reverse()
}

/// What a region of physical memory is used for.
#[derive(Clone, Copy, Debug, PartialEq, Eq, Structural)]
pub enum MemoryRegionKind {
    /// Free for the kernel to use.
    Usable,
    /// In use by the bootloader.
    Bootloader,
    /// Of a kind that the UEFI firmware reported.
    UnknownUefi(u32),
    /// Of a kind that the BIOS reported.
    UnknownBios(u32),
}

/// A region of physical memory: from `start` up to, not including, `end`.
#[derive(Clone, Copy, Debug, PartialEq, Eq, Structural)]
pub struct MemoryRegion {
    pub start: u64,
    pub end: u64,
    pub kind: MemoryRegionKind,
}

/// Number of frames that a region offers: one for every 4096 bytes from
/// its start, the last one possibly cut short by its end. A region that
/// is not usable offers none.
pub open spec fn frames_in(r: MemoryRegion) -> int {
    if r.kind == MemoryRegionKind::Usable && r.end > r.start {
        (r.end - r.start + 4095) / 4096
    } else {
        0
    }
}

/// The start of the frame that holds address `addr`.
pub open spec fn frame_of(addr: int) -> int {
    addr - addr % 4096
}

/// The `k`-th frame that the memory map offers, counting from zero
/// through the usable regions in map order.
pub open spec fn frame_at(regions: Seq<MemoryRegion>, k: int) -> Option<u64>
    decreases regions.len(),
{
    if regions.len() == 0 || k < 0 {
        None
    } else if k < frames_in(regions[0]) {
        Some(frame_of(regions[0].start + 4096 * k) as u64)
    } else {
        frame_at(regions.skip(1), k - frames_in(regions[0]))
    }
}

/// The `k`-th frame that the memory map offers.
pub fn nth_frame(regions: &Vec<MemoryRegion>, k: usize) -> (r: Option<u64>)
    ensures
        r == frame_at(regions@, k as int),
{
    let mut left: u64 = k as u64;
    let mut i: usize = 0;
    proof {
        assert(regions@.skip(0) =~= regions@);
    }
    while i < regions.len()
        invariant
            i <= regions@.len(),
            frame_at(regions@, k as int) == frame_at(regions@.skip(i as int), left as int),
        decreases regions@.len() - i,
    {
        let r: MemoryRegion = regions[i];
        proof {
            assert(regions@.skip(i as int)[0] == r);
            assert(regions@.skip(i as int).skip(1) =~= regions@.skip(i + 1));
        }
        let count: u64 = match r.kind {
            MemoryRegionKind::Usable => if r.end > r.start {
                (r.end - r.start - 1) / 4096 + 1
            } else {
                0
            },
            _ => 0,
        };
        assert(count == frames_in(r));
        if left < count {
            let addr: u64 = r.start + 4096 * left;
            return Some(addr - addr % 4096);
        }
        left = left - count;
        i += 1;
    }
    proof {
        assert(regions@.skip(i as int).len() == 0);
    }
    None
}

/// Hands out the usable frames of the memory map, in map order, each
/// once. Frames are fetched from the map 32 at a time.
pub struct BootInfoFrameAllocator {
    memory_map: Vec<MemoryRegion>,
    next: usize,
    taken: usize,
    buf: ArrayVec<u64, 32>,
}

impl BootInfoFrameAllocator {
    /// The memory map.
    pub closed spec fn regions(&self) -> Seq<MemoryRegion> {
        self.memory_map@
    }

    /// Number of frames handed out so far.
    pub closed spec fn handed_out(&self) -> int {
        self.taken as int
    }

    /// The buffer holds the frames that come next, and the place up to
    /// which the map has been read lies behind them.
    pub closed spec fn wf(&self) -> bool {
        let len = held(self.buf).len();
        &&& len <= 32
        &&& self.next >= 1
        &&& self.next - 1 >= self.taken + len
        &&& (self.next - 1 == self.taken + len || frame_at(self.memory_map@, self.taken + len)
            is None)
        &&& forall|j: int|
            0 <= j < len ==> frame_at(self.memory_map@, self.taken + j) == Some(
                #[trigger] held(self.buf)[len - 1 - j],
            )
    }

    /// An allocator that has handed out nothing of the given memory map.
    pub fn init(memory_map: Vec<MemoryRegion>) -> (r: Self)
        ensures
            r.wf(),
            r.regions() == memory_map@,
            r.handed_out() == 0,
    {
        BootInfoFrameAllocator { memory_map, next: 1, taken: 0, buf: buf_new() }
    }

    /// Number of frames handed out so far.
    pub fn frames_taken(&self) -> (n: usize)
        ensures
            n == self.handed_out(),
    {
        self.taken
    }

    /// Whether the allocator can count another frame.
    pub fn has_headroom(&self) -> (r: bool)
        requires
            self.wf(),
        ensures
            r == (self.handed_out() + 80 <= usize::MAX),
    {
        self.taken <= usize::MAX - 80
    }

    /// Hands out the next frame of the memory map, if there is one.
    pub fn allocate_frame(&mut self) -> (r: Option<u64>)
        requires
            old(self).wf(),
            old(self).handed_out() + 80 <= usize::MAX,
        ensures
            final(self).wf(),
            final(self).regions() == old(self).regions(),
            r == frame_at(old(self).regions(), old(self).handed_out()),
            r is Some ==> final(self).handed_out() == old(self).handed_out() + 1,
            r is None ==> final(self).handed_out() == old(self).handed_out(),
    {
        if buf_len(&self.buf) == 0 {
            if self.next - 1 != self.taken {
                return None;
            }
            let mut fetched: usize = 0;
            let mut exhausted: bool = false;
            while fetched < BUFFER_SIZE_ADVANCE && !exhausted
                invariant
                    fetched <= 32,
                    self.memory_map == old(self).memory_map,
                    self.taken == old(self).taken,
                    self.next == old(self).next,
                    self.next - 1 == self.taken,
                    self.taken + 80 <= usize::MAX,
                    held(self.buf).len() == fetched,
                    exhausted ==> frame_at(self.memory_map@, self.taken + fetched) is None,
                    forall|j: int|
                        0 <= j < fetched ==> frame_at(self.memory_map@, self.taken + j) == Some(
                            #[trigger] held(self.buf)[j],
                        ),
                decreases 32 - fetched + if exhausted { 0int } else { 1int },
            {
                match nth_frame(&self.memory_map, self.next - 1 + fetched) {
                    Some(frame) => {
                        buf_push(&mut self.buf, frame);
                        fetched += 1;
                    },
                    None => {
                        exhausted = true;
                    },
                }
            }
            let ghost forwards = held(self.buf);
            buf_reverse(&mut self.buf);
            self.next += BUFFER_SIZE_ADVANCE;
            proof {
                let len = forwards.len() as int;
                assert(len == fetched);
                assert(held(self.buf).len() == len);
                assert forall|j: int| 0 <= j < len implies frame_at(
                    self.memory_map@,
                    self.taken + j,
                ) == Some(#[trigger] held(self.buf)[len - 1 - j]) by {
                    assert(held(self.buf)[len - 1 - j] == forwards[j]);
                }
                if fetched < 32 {
                    assert(frame_at(self.memory_map@, self.taken + len) is None);
                }
            }
        }
        let ghost before = held(self.buf);
        let r = buf_pop(&mut self.buf);
        proof {
            let len = before.len() as int;
            if len > 0 {
                assert(frame_at(self.memory_map@, self.taken + 0) == Some(before[len - 1 - 0]));
                assert forall|j: int| 0 <= j < len - 1 implies frame_at(
                    self.memory_map@,
                    self.taken + 1 + j,
                ) == Some(#[trigger] held(self.buf)[len - 1 - 1 - j]) by {
                    assert(held(self.buf)[len - 2 - j] == before[len - 1 - (j + 1)]);
                }
            }
        }
        if r.is_some() {
            self.taken += 1;
        }
        r
    }
}

/// The frames from number `from` on form a run of `count` frames that
/// starts at address `first`, each frame 4096 bytes after the one before.
pub open spec fn is_run(regions: Seq<MemoryRegion>, from: int, count: int, first: u64) -> bool {
    forall|i: int|
        0 <= i < count ==> #[trigger] frame_at(regions, from + i) == Some(
            (first + 4096 * i) as u64,
        ) && first + 4096 * i <= u64::MAX
}

impl BootInfoFrameAllocator {
    /// The allocator has a frame left, and the next `pages` frames that it
    /// hands out lie one after the other.
    pub open spec fn next_frames_run(&self, pages: int) -> bool {
        &&& frame_at(self.regions(), self.handed_out()) is Some
        &&& is_run(
            self.regions(),
            self.handed_out(),
            pages,
            frame_at(self.regions(), self.handed_out())->0,
        )
    }

    /// Looks at the next `pages` frames without taking any, and returns
    /// the number, counted from zero, of the first that is missing or does
    /// not lie 4096 bytes after the one before it. Number zero means that
    /// no frame is left. Returns nothing if the frames form a run.
    pub fn first_gap(&self, pages: usize) -> (r: Option<usize>)
        requires
            self.handed_out() + pages <= usize::MAX,
        ensures
            r is None <==> self.next_frames_run(pages as int),
            r is Some ==> {
                let k = r->0;
                let first = frame_at(self.regions(), self.handed_out());
                &&& k == 0 || k < pages
                &&& k == 0 <==> first is None
                &&& k > 0 ==> is_run(self.regions(), self.handed_out(), k as int, first->0)
                &&& k > 0 ==> !(frame_at(self.regions(), self.handed_out() + k) == Some(
                    (first->0 + 4096 * k) as u64,
                ) && first->0 + 4096 * k <= u64::MAX)
            },
    {
        let first: u64 = match nth_frame(&self.memory_map, self.taken) {
            Some(frame) => frame,
            None => {
                return Some(0);
            },
        };
        let mut i: usize = 1;
        while i < pages
            invariant
                1 <= i,
                i <= pages || pages == 0,
                self.handed_out() + pages <= usize::MAX,
                frame_at(self.regions(), self.handed_out()) == Some(first),
                is_run(
                    self.regions(),
                    self.handed_out(),
                    if pages == 0 {
                        0
                    } else {
                        i as int
                    },
                    first,
                ),
            decreases pages - i,
        {
            let fits: bool = match nth_frame(&self.memory_map, self.taken + i) {
                Some(frame) => match (i as u64).checked_mul(4096) {
                    Some(step) => match first.checked_add(step) {
                        Some(expected) => expected == frame,
                        None => false,
                    },
                    None => false,
                },
                None => false,
            };
            if !fits {
                return Some(i);
            }
            proof {
                assert(frame_at(self.regions(), self.handed_out() + i) == Some(
                    (first + 4096 * i) as u64,
                ));
            }
            i += 1;
        }
        proof {
            if pages > 0 {
                assert(frame_at(self.regions(), self.handed_out() + 0) == Some(
                    (first + 4096 * 0) as u64,
                ));
            }
        }
        None
    }
}

/// Reserves `pages` frames that lie one after the other, and returns the
/// address of the first. One frame is taken even when `pages` is zero.
pub fn reserve_contiguous(alloc: &mut BootInfoFrameAllocator, pages: usize) -> (first: u64)
    requires
        old(alloc).wf(),
        old(alloc).handed_out() + pages + 80 <= usize::MAX,
        old(alloc).next_frames_run(pages as int),
    ensures
        final(alloc).wf(),
        final(alloc).regions() == old(alloc).regions(),
        Some(first) == frame_at(old(alloc).regions(), old(alloc).handed_out()),
        is_run(old(alloc).regions(), old(alloc).handed_out(), pages as int, first),
        final(alloc).handed_out() == old(alloc).handed_out() + if pages == 0 {
            1int
        } else {
            pages as int
        },
{
    let first: u64 = alloc.allocate_frame().unwrap();
    let mut i: usize = 1;
    while i < pages
        invariant
            1 <= i,
            i <= pages || pages == 0,
            pages == 0 ==> i == 1,
            alloc.wf(),
            alloc.regions() == old(alloc).regions(),
            alloc.handed_out() == old(alloc).handed_out() + i,
            old(alloc).handed_out() + pages + 80 <= usize::MAX,
            is_run(old(alloc).regions(), old(alloc).handed_out(), pages as int, first),
        decreases pages - i,
    {
        let frame: Option<u64> = alloc.allocate_frame();
        assert(frame == frame_at(old(alloc).regions(), old(alloc).handed_out() + i));
        i += 1;
    }
    first
}

/// Where the kernel heap starts.
pub const HEAP_START: u64 = 0x4444_4444_0000;

/// Size of the kernel heap in bytes.
pub const HEAP_SIZE: u64 = 128 * 1024 * 1024;

/// Where the pages begin that are handed out for mapping frames away
/// from their own address.
pub const OTHER_VIRT_START: u64 = 0x5000_0000_0000;

/// The first page of the heap and the number of pages that it takes.
pub fn heap_pages() -> (r: (u64, u64))
    ensures
        r.0 == 0x4444_4444_0000,
        r.1 == 32768,
        r.0 % 4096 == 0,
        r.0 + r.1 * 4096 == 0x4444_4444_0000 + 128 * 1024 * 1024,
{
    let first: u64 = HEAP_START - HEAP_START % FRAME_SIZE;
    let last: u64 = (HEAP_START + HEAP_SIZE - 1) - (HEAP_START + HEAP_SIZE - 1) % FRAME_SIZE;
    (first, (last - first) / FRAME_SIZE + 1)
}

/// The virtual address that stands for the 64-bit number `v`, if there is
/// one. Bits 47 to 63 of an address are all equal. A number whose bits 48
/// to 63 are zero and whose bit 47 is set stands for the address with
/// those bits set; a number with any other mixture stands for none.
pub open spec fn virt_of(v: u64) -> Option<u64> {
    let top = v / 0x8000_0000_0000;
    if top == 0 || top == 0x1_ffff {
        Some(v)
    } else if top == 1 {
        Some((v + 0xffff_0000_0000_0000) as u64)
    } else {
        None
    }
}

/// The virtual address at which physical address `addr` is found when
/// physical memory is mapped at `offset`, if the sum is an address.
pub fn phys_to_virt(offset: u64, addr: u64) -> (r: Option<u64>)
    ensures
        offset + addr > u64::MAX ==> r is None,
        offset + addr <= u64::MAX ==> r == virt_of((offset + addr) as u64),
{
    match offset.checked_add(addr) {
        None => None,
        Some(v) => {
            let top: u64 = v / 0x8000_0000_0000;
            if top == 0 || top == 0x1_ffff {
                Some(v)
            } else if top == 1 {
                Some(v + 0xffff_0000_0000_0000)
            } else {
                None
            }
        },
    }
}

/// Hands out pages for mapping frames away from their own address, one
/// after the other.
pub struct VirtCursor {
    next: u64,
}

impl VirtCursor {
    /// The page that will be handed out next.
    pub closed spec fn upcoming(&self) -> u64 {
        self.next
    }

    /// A cursor at the start of the range.
    pub fn new() -> (r: Self)
        ensures
            r.upcoming() == 0x5000_0000_0000,
    {
        VirtCursor { next: OTHER_VIRT_START }
    }

    /// Hands out the next page.
    pub fn take(&mut self) -> (page: u64)
        ensures
            page == old(self).upcoming(),
            final(self).upcoming() == (old(self).upcoming() + 4096) % 0x1_0000_0000_0000_0000,
    {
        let page: u64 = self.next;
        self.next = page.wrapping_add(FRAME_SIZE);
        page
    }
}

} // verus!
