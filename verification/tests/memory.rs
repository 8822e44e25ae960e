use kernel_core::memory::{
    heap_pages, nth_frame, phys_to_virt, reserve_contiguous, BootInfoFrameAllocator, MemoryRegion,
    MemoryRegionKind, VirtCursor,
};

fn usable(start: u64, end: u64) -> MemoryRegion {
    MemoryRegion { start, end, kind: MemoryRegionKind::Usable }
}

fn map() -> Vec<MemoryRegion> {
    vec![
        usable(0x1000, 0x4000),
        MemoryRegion { start: 0x4000, end: 0x9000, kind: MemoryRegionKind::Bootloader },
        usable(0x9000, 0x9000),
        usable(0xa000, 0xc001),
        MemoryRegion { start: 0xd000, end: 0xf000, kind: MemoryRegionKind::UnknownUefi(7) },
        usable(0x10_0800, 0x10_2000),
    ]
}

#[test]
fn frames_of_the_map_in_order() {
    let m = map();
    let frames: Vec<Option<u64>> = (0..9).map(|k| nth_frame(&m, k)).collect();
    assert_eq!(
        frames,
        vec![
            Some(0x1000),
            Some(0x2000),
            Some(0x3000),
            Some(0xa000),
            Some(0xb000),
            Some(0xc000),
            Some(0x10_0000),
            Some(0x10_1000),
            None,
        ]
    );
    assert_eq!(nth_frame(&m, usize::MAX), None);
    assert_eq!(nth_frame(&vec![], 0), None);
}

#[test]
fn allocator_hands_out_every_frame_once() {
    let mut alloc = BootInfoFrameAllocator::init(map());
    assert!(alloc.has_headroom());
    let mut got = Vec::new();
    while let Some(f) = alloc.allocate_frame() {
        got.push(f);
    }
    assert_eq!(got, vec![0x1000, 0x2000, 0x3000, 0xa000, 0xb000, 0xc000, 0x10_0000, 0x10_1000]);
    assert_eq!(alloc.frames_taken(), 8);
    assert_eq!(alloc.allocate_frame(), None);
    assert_eq!(alloc.allocate_frame(), None);
    assert_eq!(alloc.frames_taken(), 8);
}

#[test]
fn allocator_refills_its_buffer() {
    let mut alloc = BootInfoFrameAllocator::init(vec![usable(0x10_0000, 0x10_0000 + 100 * 4096)]);
    for k in 0..100u64 {
        assert_eq!(alloc.allocate_frame(), Some(0x10_0000 + k * 4096));
    }
    assert_eq!(alloc.allocate_frame(), None);
    assert_eq!(alloc.frames_taken(), 100);
}

#[test]
fn contiguous_run_is_reserved() {
    let mut alloc = BootInfoFrameAllocator::init(map());
    assert_eq!(alloc.first_gap(3), None);
    assert_eq!(reserve_contiguous(&mut alloc, 3), 0x1000);
    assert_eq!(alloc.frames_taken(), 3);
    assert_eq!(alloc.first_gap(1), None);
    assert_eq!(reserve_contiguous(&mut alloc, 1), 0xa000);
    assert_eq!(alloc.first_gap(0), None);
    assert_eq!(reserve_contiguous(&mut alloc, 0), 0xb000);
    assert_eq!(alloc.frames_taken(), 5);
    assert_eq!(alloc.allocate_frame(), Some(0xc000));
}

#[test]
fn gap_in_the_run_is_found_with_its_index() {
    let mut alloc = BootInfoFrameAllocator::init(map());
    assert_eq!(alloc.first_gap(5), Some(3));
    assert_eq!(alloc.first_gap(4), Some(3));
    assert_eq!(alloc.first_gap(3), None);
    assert_eq!(alloc.frames_taken(), 0);
    alloc.allocate_frame();
    alloc.allocate_frame();
    assert_eq!(alloc.first_gap(2), Some(1));
    assert_eq!(alloc.first_gap(1), None);
    assert_eq!(alloc.frames_taken(), 2);
}

#[test]
fn missing_frames_are_found() {
    let alloc = BootInfoFrameAllocator::init(vec![usable(0, 0x3000)]);
    assert_eq!(alloc.first_gap(3), None);
    assert_eq!(alloc.first_gap(4), Some(3));
    let mut alloc = BootInfoFrameAllocator::init(vec![usable(0, 0x1000)]);
    alloc.allocate_frame();
    assert_eq!(alloc.first_gap(1), Some(0));
    assert_eq!(alloc.first_gap(0), Some(0));
    let alloc = BootInfoFrameAllocator::init(vec![]);
    assert_eq!(alloc.first_gap(0), Some(0));
    assert_eq!(alloc.first_gap(7), Some(0));
}

#[test]
fn heap_covers_its_pages() {
    assert_eq!(heap_pages(), (0x4444_4444_0000, 32768));
}

#[test]
fn physical_addresses_map_at_the_offset() {
    assert_eq!(phys_to_virt(0x1000_0000_0000, 0xfee0_0000), Some(0x1000_fee0_0000));
    assert_eq!(phys_to_virt(0, 0), Some(0));
    assert_eq!(phys_to_virt(0x7fff_ffff_f000, 0xfff), Some(0x7fff_ffff_ffff));
    assert_eq!(phys_to_virt(0x7fff_ffff_f000, 0x1000), Some(0xffff_8000_0000_0000));
    assert_eq!(phys_to_virt(0xffff_8000_0000_0000, 0x1000), Some(0xffff_8000_0000_1000));
    assert_eq!(phys_to_virt(0x0001_0000_0000_0000, 0), None);
    assert_eq!(phys_to_virt(0xffff_7fff_ffff_ffff, 0), None);
    assert_eq!(phys_to_virt(u64::MAX, 1), None);
}

#[test]
fn pages_away_from_home_count_up() {
    let mut cursor = VirtCursor::new();
    assert_eq!(cursor.take(), 0x5000_0000_0000);
    assert_eq!(cursor.take(), 0x5000_0000_1000);
    assert_eq!(cursor.take(), 0x5000_0000_2000);
}
