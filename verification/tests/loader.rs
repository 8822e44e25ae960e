use kernel_core::app::{
    image_extent, image_size, is_in_loaded, lay_out, load, name_is_rela_dyn, parse_header,
    parse_relocations, parse_segments, patch, relocate, run_frame, App, Context, ElfHeader,
    LoadError, PidAllocator, Rela64, Segment,
};
use kernel_core::bytes::{push_u32, push_u64, push_words, read_u16, read_u32, read_u64};
use kernel_core::globals::{Input, KeyState};

fn put(file: &mut Vec<u8>, at: usize, bytes: &[u8]) {
    if file.len() < at + bytes.len() {
        file.resize(at + bytes.len(), 0);
    }
    file[at..at + bytes.len()].copy_from_slice(bytes);
}

fn program_header(kind: u32, offset: u64, vaddr: u64, filesz: u64, memsz: u64) -> Vec<u8> {
    let mut h = Vec::new();
    h.extend_from_slice(&kind.to_le_bytes());
    h.extend_from_slice(&5u32.to_le_bytes());
    h.extend_from_slice(&offset.to_le_bytes());
    h.extend_from_slice(&vaddr.to_le_bytes());
    h.extend_from_slice(&vaddr.to_le_bytes());
    h.extend_from_slice(&filesz.to_le_bytes());
    h.extend_from_slice(&memsz.to_le_bytes());
    h.extend_from_slice(&0x1000u64.to_le_bytes());
    h
}

fn section_header(name: u32, kind: u32, offset: u64, size: u64) -> Vec<u8> {
    let mut h = Vec::new();
    h.extend_from_slice(&name.to_le_bytes());
    h.extend_from_slice(&kind.to_le_bytes());
    h.extend_from_slice(&0u64.to_le_bytes());
    h.extend_from_slice(&0u64.to_le_bytes());
    h.extend_from_slice(&offset.to_le_bytes());
    h.extend_from_slice(&size.to_le_bytes());
    h.extend_from_slice(&0u32.to_le_bytes());
    h.extend_from_slice(&0u32.to_le_bytes());
    h.extend_from_slice(&8u64.to_le_bytes());
    h.extend_from_slice(&0u64.to_le_bytes());
    h
}

fn rela(offset: u64, kind: u32, addend: u64) -> Vec<u8> {
    let mut r = Vec::new();
    r.extend_from_slice(&offset.to_le_bytes());
    r.extend_from_slice(&(kind as u64 | (3u64 << 32)).to_le_bytes());
    r.extend_from_slice(&addend.to_le_bytes());
    r
}

fn elf_with(entry: u64, segments: &[Vec<u8>], relas: &[Vec<u8>]) -> Vec<u8> {
    let mut f = vec![0u8; 64];
    f[..4].copy_from_slice(&[0x7f, b'E', b'L', b'F']);
    f[4] = 2;
    f[5] = 1;
    f[6] = 1;
    put(&mut f, 16, &3u16.to_le_bytes());
    put(&mut f, 18, &62u16.to_le_bytes());
    put(&mut f, 24, &entry.to_le_bytes());
    put(&mut f, 32, &64u64.to_le_bytes());
    put(&mut f, 40, &0x400u64.to_le_bytes());
    put(&mut f, 52, &64u16.to_le_bytes());
    put(&mut f, 54, &56u16.to_le_bytes());
    put(&mut f, 56, &(segments.len() as u16).to_le_bytes());
    put(&mut f, 58, &64u16.to_le_bytes());
    put(&mut f, 60, &3u16.to_le_bytes());
    put(&mut f, 62, &2u16.to_le_bytes());
    for (i, s) in segments.iter().enumerate() {
        put(&mut f, 64 + 56 * i, s);
    }
    let code: Vec<u8> = (0..0x200u32).map(|i| (i % 251) as u8 + 1).collect();
    put(&mut f, 0x200, &code);
    put(&mut f, 0x400, &section_header(0, 0, 0, 0));
    put(&mut f, 0x440, &section_header(1, 4, 0x600, 24 * relas.len() as u64));
    put(&mut f, 0x480, &section_header(11, 3, 0x700, 21));
    for (i, r) in relas.iter().enumerate() {
        put(&mut f, 0x600 + 24 * i, r);
    }
    put(&mut f, 0x700, b"\0.rela.dyn\0.shstrtab\0");
    f
}

fn sample() -> Vec<u8> {
    elf_with(0x10, &[program_header(1, 0x200, 0, 0x200, 0x300)], &[rela(0x100, 8, 0x40)])
}

#[test]
fn little_endian_writers() {
    let mut buf = vec![0xee];
    push_u32(&mut buf, 0x4433_2211);
    push_u64(&mut buf, 0x8877_6655_4433_2211);
    push_words(&mut buf, &[1, 0x0200]);
    push_words(&mut buf, &[]);
    assert_eq!(
        buf,
        vec![
            0xee, 0x11, 0x22, 0x33, 0x44, 0x11, 0x22, 0x33, 0x44, 0x55, 0x66, 0x77, 0x88, 1, 0, 0,
            0, 0, 2, 0, 0
        ]
    );
}

#[test]
fn little_endian_readers() {
    let b = [0x11u8, 0x22, 0x33, 0x44, 0x55, 0x66, 0x77, 0x88, 0x99];
    assert_eq!(read_u16(&b, 0), 0x2211);
    assert_eq!(read_u16(&b, 7), 0x9988);
    assert_eq!(read_u32(&b, 1), 0x5544_3322);
    assert_eq!(read_u64(&b, 0), 0x8877_6655_4433_2211);
    assert_eq!(read_u64(&b, 1), 0x9988_7766_5544_3322);
}

#[test]
fn header_fields() {
    let f = sample();
    assert_eq!(
        parse_header(&f),
        Ok(ElfHeader {
            entry: 0x10,
            ph_offset: 64,
            sh_offset: 0x400,
            ph_entry_size: 56,
            ph_count: 1,
            sh_entry_size: 64,
            sh_count: 3,
            sh_str_index: 2,
        })
    );
}

#[test]
fn header_errors() {
    let f = sample();
    assert_eq!(parse_header(&f[..63]), Err(LoadError::TooShort));
    assert_eq!(parse_header(&[]), Err(LoadError::TooShort));
    let mut g = f.clone();
    g[1] = b'e';
    assert_eq!(parse_header(&g), Err(LoadError::BadMagic));
    let mut g = f.clone();
    g[4] = 1;
    assert_eq!(parse_header(&g), Err(LoadError::BadClass));
    assert_eq!(load(&g, 0), Err(LoadError::BadClass));
}

#[test]
fn segments_are_read_in_order() {
    let f = elf_with(
        0,
        &[program_header(6, 64, 0x40, 56, 56), program_header(1, 0x200, 0, 0x200, 0x300)],
        &[],
    );
    let h = parse_header(&f).unwrap();
    assert_eq!(
        parse_segments(&f, &h),
        Ok(vec![
            Segment { kind: 6, offset: 64, virtual_addr: 0x40, file_size: 56, mem_size: 56 },
            Segment { kind: 1, offset: 0x200, virtual_addr: 0, file_size: 0x200, mem_size: 0x300 },
        ])
    );
}

#[test]
fn segment_table_errors() {
    let f = sample();
    let mut h = parse_header(&f).unwrap();
    h.ph_offset = f.len() as u64 - 55;
    assert_eq!(parse_segments(&f, &h), Err(LoadError::BadProgramHeaders));
    h.ph_offset = u64::MAX;
    assert_eq!(parse_segments(&f, &h), Err(LoadError::BadProgramHeaders));
    h.ph_offset = 64;
    h.ph_entry_size = 55;
    assert_eq!(parse_segments(&f, &h), Err(LoadError::BadProgramHeaders));
    h.ph_entry_size = 0;
    assert_eq!(parse_segments(&f, &h), Ok(vec![]));
    h.ph_entry_size = 56;
    h.ph_count = 0;
    assert_eq!(parse_segments(&f, &h), Ok(vec![]));
    h.ph_count = 1;
    h.ph_offset = 0;
    assert_eq!(parse_segments(&f, &h), Ok(vec![]));
}

#[test]
fn relocation_section_is_found_by_name() {
    let f = elf_with(
        0,
        &[program_header(1, 0x200, 0, 0x200, 0x300)],
        &[rela(0x100, 8, 0x40), rela(0x20, 1, 7)],
    );
    let h = parse_header(&f).unwrap();
    assert_eq!(
        parse_relocations(&f, &h),
        Ok(vec![
            Rela64 { offset: 0x100, info: 8 | (3 << 32), addend: 0x40 },
            Rela64 { offset: 0x20, info: 1 | (3 << 32), addend: 7 },
        ])
    );
    assert_eq!(Rela64 { offset: 0, info: 8 | (3 << 32), addend: 0 }.get_type(), 8);
    assert!(name_is_rela_dyn(&f, 0x701));
    assert!(!name_is_rela_dyn(&f, 0x700));
    assert!(!name_is_rela_dyn(&f, 0x70b));
    assert!(!name_is_rela_dyn(&f, f.len() as u64 - 9));
    assert!(!name_is_rela_dyn(&f, u64::MAX));
}

#[test]
fn file_without_relocation_section() {
    let mut f = sample();
    put(&mut f, 0x701, b".rel4.dyn");
    let h = parse_header(&f).unwrap();
    assert_eq!(parse_relocations(&f, &h), Ok(vec![]));
    let mut f = sample();
    put(&mut f, 0x444, &1u32.to_le_bytes());
    let h = parse_header(&f).unwrap();
    assert_eq!(parse_relocations(&f, &h), Ok(vec![]));
    let mut h = parse_header(&sample()).unwrap();
    h.sh_count = 0;
    assert_eq!(parse_relocations(&sample(), &h), Ok(vec![]));
}

#[test]
fn section_errors() {
    let f = sample();
    let mut h = parse_header(&f).unwrap();
    h.sh_str_index = 3;
    assert_eq!(parse_relocations(&f, &h), Err(LoadError::BadSections));
    h.sh_str_index = 2;
    h.sh_entry_size = 63;
    assert_eq!(parse_relocations(&f, &h), Err(LoadError::BadSections));
    h.sh_entry_size = 64;
    h.sh_offset = f.len() as u64;
    assert_eq!(parse_relocations(&f, &h), Err(LoadError::BadSections));
    let mut g = sample();
    put(&mut g, 0x440 + 32, &25u64.to_le_bytes());
    assert_eq!(load(&g, 0), Err(LoadError::BadSections));
    let mut g = sample();
    let end = g.len() as u64;
    put(&mut g, 0x440 + 24, &end.to_le_bytes());
    assert_eq!(load(&g, 0), Err(LoadError::BadSections));
}

#[test]
fn app_relocation() {
    let f = sample();
    let base = 0x4444_4444_0000u64;
    let mut pids = PidAllocator::new();
    let app: App<u32> = App::new(&f, base, &mut pids).unwrap();
    assert_eq!(app.code.len(), 0x300);
    assert_eq!(read_u64(&app.code, 0x100), base + 0x40);
    assert_eq!(app.func, base + 0x10);
    assert_eq!(app.base, base);
    assert_eq!(app.pid, 0);
    assert!(app.store.is_none());
    assert_eq!(&app.code[..0x100], &f[0x200..0x300]);
    assert_eq!(&app.code[0x108..0x200], &f[0x308..0x400]);
    assert!(app.code[0x200..].iter().all(|b| *b == 0));
    let second: App<u32> = App::new(&f, base, &mut pids).unwrap();
    assert_eq!(second.pid, 1);
    assert_eq!(pids.next_pid(), 2);
}

#[test]
fn reloading_changes_only_relocation_targets() {
    let f = elf_with(
        0x10,
        &[program_header(1, 0x200, 0, 0x200, 0x300)],
        &[rela(0x100, 8, 0x40), rela(0x180, 8, 0xffff_ffff_ffff_fff0), rela(0x40, 7, 1)],
    );
    let (a, entry_a) = load(&f, 0x1000).unwrap();
    let (b, entry_b) = load(&f, 0x9000_0000).unwrap();
    let (c, _) = load(&f, 0x1000).unwrap();
    assert_eq!(a, c);
    assert_eq!(entry_a, entry_b);
    assert_eq!(a.len(), b.len());
    for i in 0..a.len() {
        let touched = (0x100..0x108).contains(&i) || (0x180..0x188).contains(&i);
        if !touched {
            assert_eq!(a[i], b[i]);
        }
    }
    assert_eq!(read_u64(&a, 0x100), 0x1040);
    assert_eq!(read_u64(&b, 0x100), 0x9000_0040);
    assert_eq!(read_u64(&a, 0x180), 0x0ff0);
    assert_eq!(read_u64(&b, 0x180), 0x8fff_fff0);
    assert_eq!(&a[0x40..0x48], &f[0x240..0x248]);
}

#[test]
fn relocations_outside_loaded_segments_are_ignored() {
    let f = elf_with(
        0,
        &[program_header(1, 0x200, 0, 0x100, 0x100), program_header(6, 0x300, 0x200, 0x10, 0x100)],
        &[rela(0x280, 8, 0x40), rela(0x10, 8, 1)],
    );
    let (image, _) = load(&f, 0x5000).unwrap();
    assert_eq!(image.len(), 0x300);
    assert!(image[0x100..].iter().all(|b| *b == 0));
    assert_eq!(read_u64(&image, 0x10), 0x5001);
}

#[test]
fn load_errors() {
    let seg = |offset, vaddr, filesz, memsz| program_header(1, offset, vaddr, filesz, memsz);
    let f = elf_with(0, &[seg(0x200, 0, 0x1000, 0x1000)], &[]);
    assert_eq!(load(&f, 0), Err(LoadError::SegmentOutsideFile));
    let f = elf_with(0, &[seg(0x200, 0, 0x200, 0x100)], &[]);
    assert_eq!(load(&f, 0), Err(LoadError::SegmentOutsideImage));
    let f = elf_with(0, &[seg(0x200, 0, 0x200, 128 * 1024 * 1024 + 1)], &[]);
    assert_eq!(load(&f, 0), Err(LoadError::TooLarge));
    assert_eq!(image_size(&f), Err(LoadError::TooLarge));
    let f = elf_with(0, &[seg(0x200, u64::MAX, 0, 2)], &[]);
    assert_eq!(load(&f, 0), Err(LoadError::TooLarge));
    let f = elf_with(0, &[seg(0x200, 0, 0x200, 0x204)], &[rela(0x200, 8, 0)]);
    assert_eq!(load(&f, 0), Err(LoadError::RelocationOutsideImage));
    let f = elf_with(0x300, &[seg(0x200, 0, 0x200, 0x300)], &[]);
    assert_eq!(load(&f, 0), Err(LoadError::EntryOutsideImage));
    let mut pids = PidAllocator::new();
    assert!(matches!(
        App::<u8>::new(&f, 0, &mut pids),
        Err(LoadError::EntryOutsideImage)
    ));
    assert_eq!(pids.next_pid(), 0);
    let f = elf_with(0, &[], &[]);
    assert_eq!(load(&f, 0), Err(LoadError::EntryOutsideImage));
    assert_eq!(image_size(&f), Ok(0));
    assert_eq!(image_size(&sample()), Ok(0x300));
    assert_eq!(image_size(&[1, 2, 3]), Err(LoadError::TooShort));
}

#[test]
fn layout_and_relocation_steps() {
    let segs = vec![
        Segment { kind: 1, offset: 0, virtual_addr: 4, file_size: 2, mem_size: 8 },
        Segment { kind: 2, offset: 0, virtual_addr: 100, file_size: 0, mem_size: 0 },
        Segment { kind: 1, offset: 2, virtual_addr: 5, file_size: 2, mem_size: 2 },
    ];
    assert_eq!(image_extent(&segs), Some(12));
    assert_eq!(image_extent(&vec![]), Some(0));
    let code = [0xa1u8, 0xa2, 0xb1, 0xb2];
    assert_eq!(
        lay_out(&code, &segs, 12),
        Ok(vec![0, 0, 0, 0, 0xa1, 0xb1, 0xb2, 0, 0, 0, 0, 0])
    );
    assert!(is_in_loaded(&segs, 4));
    assert!(is_in_loaded(&segs, 11));
    assert!(!is_in_loaded(&segs, 12));
    assert!(!is_in_loaded(&segs, 3));
    assert!(!is_in_loaded(&segs, 100));
    let relas = vec![
        Rela64 { offset: 4, info: 8, addend: 0x0102_0304_0506_0708 },
        Rela64 { offset: 0, info: 8, addend: 1 },
        Rela64 { offset: 4, info: 9, addend: 1 },
    ];
    assert_eq!(
        relocate(vec![0xee; 12], &segs, &relas, 0x10),
        Ok(vec![0xee, 0xee, 0xee, 0xee, 0x18, 7, 6, 5, 4, 3, 2, 1])
    );
    assert_eq!(
        relocate(vec![0; 11], &segs, &relas, 0),
        Err(LoadError::RelocationOutsideImage)
    );
    let mut image = vec![0u8; 10];
    patch(&mut image, 1, 0x8877_6655_4433_2211);
    assert_eq!(image, vec![0, 0x11, 0x22, 0x33, 0x44, 0x55, 0x66, 0x77, 0x88, 0]);
}

#[test]
fn call_hands_the_store_in_and_takes_it_back() {
    let mut pids = PidAllocator::new();
    pids.next_pid();
    let mut app: App<Vec<u8>> = App::new(&sample(), 0x1000, &mut pids).unwrap();
    assert_eq!(app.pid, 1);
    let input = Input::new();
    let ctx = Context::new(77, input);
    assert_eq!((ctx.version, ctx.start_time, ctx.pid), (1, 77, 0));
    assert!(ctx.store.is_none());
    let (back, res) = app.call(ctx, |mut c: Context<Vec<u8>>| {
        assert_eq!(c.pid, 1);
        assert_eq!(c.start_time, 77);
        assert!(c.store.is_none());
        c.store = Some(vec![1, 2, 3]);
        (c, 5)
    });
    assert_eq!(res, 5);
    assert!(back.store.is_none());
    assert_eq!(app.store, Some(vec![1, 2, 3]));
    let (_, res) = app.call(Context::new(78, input), |mut c: Context<Vec<u8>>| {
        let mut s = c.store.take().unwrap();
        s.push(4);
        c.store = Some(s);
        (c, -1)
    });
    assert_eq!(res, -1);
    assert_eq!(app.store, Some(vec![1, 2, 3, 4]));
    let (_, _) = app.call(Context::new(79, input), |mut c: Context<Vec<u8>>| {
        c.store = None;
        (c, 0)
    });
    assert!(app.store.is_none());
}

#[test]
fn frame_calls_every_app_then_steps_input() {
    let mut pids = PidAllocator::new();
    let mut apps: Vec<App<u64>> = vec![
        App::new(&sample(), 0x1000, &mut pids).unwrap(),
        App::new(&sample(), 0x2000, &mut pids).unwrap(),
        App::new(&sample(), 0x3000, &mut pids).unwrap(),
    ];
    let mut input = Input::new();
    input.handle_incoming_state(30, true);
    input.handle_incoming_state(31, true);
    input.handle_incoming_state(31, false);
    let entry = |pid: u64, mut c: Context<u64>| {
        assert_eq!(c.pid, pid);
        assert_eq!(c.input.keys[30], KeyState::OnFromOff);
        assert_eq!(c.input.keys[31], KeyState::OffTransientOn);
        let n = c.store.take().unwrap_or(0);
        c.store = Some(n + c.start_time);
        (c, pid as i32 * 10)
    };
    assert_eq!(run_frame(&mut apps, &mut input, 5, &entry), vec![0, 10, 20]);
    assert_eq!(input.keys[30], KeyState::On);
    assert_eq!(input.keys[31], KeyState::Off);
    assert_eq!(input.history_last_index, 3);
    let later = |pid: u64, mut c: Context<u64>| {
        assert_eq!(c.input.keys[30], KeyState::On);
        assert_eq!(c.input.keys[31], KeyState::Off);
        let n = c.store.take().unwrap_or(0);
        c.store = Some(n + c.start_time);
        (c, pid as i32 + 1)
    };
    assert_eq!(run_frame(&mut apps, &mut input, 7, &later), vec![1, 2, 3]);
    assert!(apps.iter().all(|a| a.store == Some(12)));
    let mut none: Vec<App<u64>> = Vec::new();
    assert!(run_frame(&mut none, &mut input, 0, &later).is_empty());
}
