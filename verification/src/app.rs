//! The application loader: reads an ELF64 image, lays its segments out in
//! one contiguous buffer, applies the relative relocations of `.rela.dyn`,
//! and keeps what the kernel needs to call the application every frame.

use crate::bytes::{le_byte, le_bytes, le_u16, le_u32, le_u64, lemma_le_round_trip, read_u16, read_u32, read_u64};
use crate::globals::Input;
use vstd::prelude::*;

verus! {

/// Why an image cannot be loaded.
#[derive(Clone, Copy, Debug, PartialEq, Eq, Structural)]
pub enum LoadError {
    /// The file is shorter than an ELF64 header.
    TooShort,
    /// The file does not start with the ELF magic number.
    BadMagic,
    /// The file is not of the 64-bit class.
    BadClass,
    /// The program header table does not lie inside the file, or its
    /// entries are too small.
    BadProgramHeaders,
    /// The section header table, the section name table or the
    /// relocation section does not lie inside the file, or is malformed.
    BadSections,
    /// The segments need more memory than an image may take.
    TooLarge,
    /// A loadable segment reaches beyond the end of the file.
    SegmentOutsideFile,
    /// A loadable segment has more bytes in the file than in memory.
    SegmentOutsideImage,
    /// A relocation target does not lie wholly inside the image.
    RelocationOutsideImage,
    /// The entry point does not lie inside the image.
    EntryOutsideImage,
}

/// Size of an ELF64 file header.
pub const HEADER_SIZE: usize = 64;

/// Size of an ELF64 program header.
pub const PROGRAM_HEADER_SIZE: usize = 56;

/// Size of an ELF64 section header.
pub const SECTION_HEADER_SIZE: usize = 64;

/// Size of a relocation entry with addend.
pub const RELA_SIZE: usize = 24;

/// Program header type of a loadable segment.
pub const PT_LOAD: u32 = 1;

/// Section type of a null section.
pub const SHT_NULL: u32 = 0;

/// Section type of a table of relocations with addends.
pub const SHT_RELA: u32 = 4;

/// Relocation type: the image base plus the addend.
pub const R_X86_64_RELATIVE: u32 = 8;

/// Most bytes an image may take: the size of the kernel heap.
pub const MAX_IMAGE_SIZE: u64 = 128 * 1024 * 1024;

/// The fields of the file header that the loader reads.
#[derive(Clone, Copy, Debug, PartialEq, Eq, Structural)]
pub struct ElfHeader {
    pub entry: u64,
    pub ph_offset: u64,
    pub sh_offset: u64,
    pub ph_entry_size: u16,
    pub ph_count: u16,
    pub sh_entry_size: u16,
    pub sh_count: u16,
    pub sh_str_index: u16,
}

/// What the first 64 bytes of a file say, if they are an ELF64 header.
pub open spec fn header_of(bytes: Seq<u8>) -> Result<ElfHeader, LoadError> {
    if bytes.len() < 64 {
        Err(LoadError::TooShort)
    } else if !(bytes[0] == 0x7f && bytes[1] == 0x45 && bytes[2] == 0x4c && bytes[3] == 0x46) {
        Err(LoadError::BadMagic)
    } else if bytes[4] != 2 {
        Err(LoadError::BadClass)
    } else {
        Ok(
            ElfHeader {
                entry: le_u64(bytes, 24) as u64,
                ph_offset: le_u64(bytes, 32) as u64,
                sh_offset: le_u64(bytes, 40) as u64,
                ph_entry_size: le_u16(bytes, 54) as u16,
                ph_count: le_u16(bytes, 56) as u16,
                sh_entry_size: le_u16(bytes, 58) as u16,
                sh_count: le_u16(bytes, 60) as u16,
                sh_str_index: le_u16(bytes, 62) as u16,
            },
        )
    }
}

/// Reads the file header.
pub fn parse_header(code: &[u8]) -> (r: Result<ElfHeader, LoadError>)
    ensures
        r == header_of(code@),
{
    if code.len() < HEADER_SIZE {
        return Err(LoadError::TooShort);
    }
    if !(code[0] == 0x7f && code[1] == 0x45 && code[2] == 0x4c && code[3] == 0x46) {
        return Err(LoadError::BadMagic);
    }
    if code[4] != 2 {
        return Err(LoadError::BadClass);
    }
    Ok(
        ElfHeader {
            entry: read_u64(code, 24),
            ph_offset: read_u64(code, 32),
            sh_offset: read_u64(code, 40),
            ph_entry_size: read_u16(code, 54),
            ph_count: read_u16(code, 56),
            sh_entry_size: read_u16(code, 58),
            sh_count: read_u16(code, 60),
            sh_str_index: read_u16(code, 62),
        },
    )
}

/// One program header: a region of the file and where it goes in memory.
#[derive(Clone, Copy, Debug, PartialEq, Eq, Structural)]
pub struct Segment {
    pub kind: u32,
    pub offset: u64,
    pub virtual_addr: u64,
    pub file_size: u64,
    pub mem_size: u64,
}

/// The program header that starts at `at`.
pub open spec fn segment_at(bytes: Seq<u8>, at: int) -> Segment {
    Segment {
        kind: le_u32(bytes, at) as u32,
        offset: le_u64(bytes, at + 8) as u64,
        virtual_addr: le_u64(bytes, at + 16) as u64,
        file_size: le_u64(bytes, at + 32) as u64,
        mem_size: le_u64(bytes, at + 40) as u64,
    }
}

/// The file has no program headers to read: the header announces none,
/// or gives no place or no size for them.
pub open spec fn no_table(offset: u64, entry_size: u16, count: u16) -> bool {
    count == 0 || offset == 0 || entry_size == 0
}

/// A table of `count` entries of `entry_size` bytes at `offset`, each at
/// least `least` bytes, lies inside a file of `len` bytes.
pub open spec fn table_fits(len: nat, offset: u64, entry_size: u16, count: u16, least: int) -> bool {
    entry_size >= least && offset + entry_size * count <= len
}

/// The program headers of a file with header `h`, in table order.
pub open spec fn segments_of(bytes: Seq<u8>, h: ElfHeader) -> Result<Seq<Segment>, LoadError> {
    if no_table(h.ph_offset, h.ph_entry_size, h.ph_count) {
        Ok(Seq::empty())
    } else if !table_fits(bytes.len(), h.ph_offset, h.ph_entry_size, h.ph_count, 56) {
        Err(LoadError::BadProgramHeaders)
    } else {
        Ok(
            Seq::new(
                h.ph_count as nat,
                |i: int| segment_at(bytes, h.ph_offset + i * h.ph_entry_size),
            ),
        )
    }
}

/// Whether a table of `count` entries of `entry_size` bytes at `offset`
/// lies inside a file of `len` bytes.
pub fn check_table(len: usize, offset: u64, entry_size: u16, count: u16, least: u16) -> (ok: bool)
    ensures
        ok == table_fits(len as nat, offset, entry_size, count, least as int),
{
    if entry_size < least {
        return false;
    }
    assert(entry_size as u64 * count as u64 <= 0xffff * 0xffff) by (nonlinear_arith)
        requires
            entry_size <= 0xffff,
            count <= 0xffff,
    ;
    let total: u64 = (entry_size as u64) * (count as u64);
    match offset.checked_add(total) {
        Some(end) => end <= len as u64,
        None => false,
    }
}

/// Reads the program headers.
pub fn parse_segments(code: &[u8], h: &ElfHeader) -> (r: Result<Vec<Segment>, LoadError>)
    ensures
        match segments_of(code@, *h) {
            Ok(segs) => r is Ok && (r->Ok_0)@ == segs,
            Err(e) => r == Err::<Vec<Segment>, LoadError>(e),
        },
{
    let mut segs: Vec<Segment> = Vec::new();
    if h.ph_count == 0 || h.ph_offset == 0 || h.ph_entry_size == 0 {
        assert(segs@ =~= Seq::empty());
        return Ok(segs);
    }
    if !check_table(code.len(), h.ph_offset, h.ph_entry_size, h.ph_count, 56) {
        return Err(LoadError::BadProgramHeaders);
    }
    let mut i: usize = 0;
    while i < h.ph_count as usize
        invariant
            i <= h.ph_count,
            table_fits(code@.len(), h.ph_offset, h.ph_entry_size, h.ph_count, 56),
            segs@.len() == i,
            forall|k: int|
                0 <= k < i ==> segs@[k] == segment_at(code@, h.ph_offset + k * h.ph_entry_size),
        decreases h.ph_count - i,
    {
        assert(i * h.ph_entry_size + h.ph_entry_size <= h.ph_entry_size * h.ph_count && 0 <= i
            * h.ph_entry_size) by (nonlinear_arith)
            requires
                0 <= i < h.ph_count,
        ;
        let _len: usize = code.len();
        let at: usize = (h.ph_offset + (i as u64) * (h.ph_entry_size as u64)) as usize;
        segs.push(
            Segment {
                kind: read_u32(code, at),
                offset: read_u64(code, at + 8),
                virtual_addr: read_u64(code, at + 16),
                file_size: read_u64(code, at + 32),
                mem_size: read_u64(code, at + 40),
            },
        );
        i += 1;
    }
    assert(segs@ =~= Seq::new(
        h.ph_count as nat,
        |i: int| segment_at(code@, h.ph_offset + i * h.ph_entry_size),
    ));
    Ok(segs)
}

/// One relocation entry with addend.
#[derive(Clone, Copy, Debug, PartialEq, Eq, Structural)]
pub struct Rela64 {
    pub offset: u64,
    pub info: u64,
    pub addend: u64,
}

impl Rela64 {
    /// The relocation type: the low half of `info`.
    pub open spec fn kind(self) -> int {
        self.info as int % 0x1_0000_0000
    }

    /// The relocation type.
    pub fn get_type(&self) -> (r: u32)
        ensures
            r == self.kind(),
    {
        (self.info % 0x1_0000_0000) as u32
    }
}

/// The relocation entry that starts at `at`.
pub open spec fn rela_at(bytes: Seq<u8>, at: int) -> Rela64 {
    Rela64 {
        offset: le_u64(bytes, at) as u64,
        info: le_u64(bytes, at + 8) as u64,
        addend: le_u64(bytes, at + 16) as u64,
    }
}

/// The name of the relocation section, with the zero byte that ends it.
pub open spec fn rela_dyn_name() -> Seq<u8> {
    seq![0x2eu8, 0x72u8, 0x65u8, 0x6cu8, 0x61u8, 0x2eu8, 0x64u8, 0x79u8, 0x6eu8, 0u8]
}

/// The string at `at` is `.rela.dyn`.
pub open spec fn is_rela_dyn(bytes: Seq<u8>, at: int) -> bool {
    at + 10 <= bytes.len() && bytes.subrange(at, at + 10) == rela_dyn_name()
}

/// Where section header `i` starts.
pub open spec fn section_header_at(h: ElfHeader, i: int) -> int {
    h.sh_offset + i * h.sh_entry_size
}

/// Section `i` is not a null section and is called `.rela.dyn`, its name
/// being looked up in the name table that starts at `names`.
pub open spec fn section_matches(bytes: Seq<u8>, h: ElfHeader, names: u64, i: int) -> bool {
    let at = section_header_at(h, i);
    le_u32(bytes, at + 4) != 0 && is_rela_dyn(bytes, names + le_u32(bytes, at))
}

/// The first section from `from` on that is called `.rela.dyn`.
pub open spec fn find_rela_dyn(bytes: Seq<u8>, h: ElfHeader, names: u64, from: int) -> Option<int>
    decreases h.sh_count - from,
{
    if from >= h.sh_count {
        None
    } else if section_matches(bytes, h, names, from) {
        Some(from)
    } else {
        find_rela_dyn(bytes, h, names, from + 1)
    }
}

/// The entries of the section whose header starts at `at`, if it is a
/// relocation table; no entries if it is some other kind of section.
pub open spec fn entries_of(bytes: Seq<u8>, at: int) -> Result<Seq<Rela64>, LoadError> {
    let offset = le_u64(bytes, at + 24);
    let size = le_u64(bytes, at + 32);
    if le_u32(bytes, at + 4) != 4 {
        Ok(Seq::empty())
    } else if offset + size > bytes.len() || size % 24 != 0 {
        Err(LoadError::BadSections)
    } else {
        Ok(Seq::new((size / 24) as nat, |k: int| rela_at(bytes, offset + 24 * k)))
    }
}

/// The relocations of a file with header `h`: the entries of the first
/// section called `.rela.dyn`, none if there is no such section.
pub open spec fn relocations_of(bytes: Seq<u8>, h: ElfHeader) -> Result<Seq<Rela64>, LoadError> {
    if no_table(h.sh_offset, h.sh_entry_size, h.sh_count) {
        Ok(Seq::empty())
    } else if !table_fits(bytes.len(), h.sh_offset, h.sh_entry_size, h.sh_count, 64)
        || h.sh_str_index >= h.sh_count {
        Err(LoadError::BadSections)
    } else {
        let names = le_u64(bytes, section_header_at(h, h.sh_str_index as int) + 24) as u64;
        match find_rela_dyn(bytes, h, names, 0) {
            None => Ok(Seq::empty()),
            Some(i) => entries_of(bytes, section_header_at(h, i)),
        }
    }
}

/// Whether the string at `at` is `.rela.dyn`.
pub fn name_is_rela_dyn(code: &[u8], at: u64) -> (r: bool)
    ensures
        r == is_rela_dyn(code@, at as int),
{
    let len: usize = code.len();
    if at > (len as u64) || (len as u64) - at < 10 {
        return false;
    }
    let a: usize = at as usize;
    let r: bool = code[a] == 0x2e && code[a + 1] == 0x72 && code[a + 2] == 0x65 && code[a + 3]
        == 0x6c && code[a + 4] == 0x61 && code[a + 5] == 0x2e && code[a + 6] == 0x64 && code[a
        + 7] == 0x79 && code[a + 8] == 0x6e && code[a + 9] == 0;
    proof {
        let sub = code@.subrange(at as int, at + 10);
        if r {
            assert(sub =~= rela_dyn_name());
        } else {
            assert(rela_dyn_name()[0] == 0x2e && rela_dyn_name()[1] == 0x72 && rela_dyn_name()[2]
                == 0x65 && rela_dyn_name()[3] == 0x6c && rela_dyn_name()[4] == 0x61
                && rela_dyn_name()[5] == 0x2e && rela_dyn_name()[6] == 0x64 && rela_dyn_name()[7]
                == 0x79 && rela_dyn_name()[8] == 0x6e && rela_dyn_name()[9] == 0);
            assert(sub[0] == code@[a as int] && sub[1] == code@[a + 1] && sub[2] == code@[a + 2]
                && sub[3] == code@[a + 3] && sub[4] == code@[a + 4] && sub[5] == code@[a + 5]
                && sub[6] == code@[a + 6] && sub[7] == code@[a + 7] && sub[8] == code@[a + 8]
                && sub[9] == code@[a + 9]);
        }
    }
    r
}

/// Reads the entries of the section whose header starts at `at`.
pub fn parse_entries(code: &[u8], at: usize) -> (r: Result<Vec<Rela64>, LoadError>)
    requires
        at + 64 <= code@.len(),
    ensures
        match entries_of(code@, at as int) {
            Ok(relas) => r is Ok && (r->Ok_0)@ == relas,
            Err(e) => r == Err::<Vec<Rela64>, LoadError>(e),
        },
{
    let len: usize = code.len();
    let mut relas: Vec<Rela64> = Vec::new();
    if read_u32(code, at + 4) != SHT_RELA {
        assert(relas@ =~= Seq::empty());
        return Ok(relas);
    }
    let offset: u64 = read_u64(code, at + 24);
    let size: u64 = read_u64(code, at + 32);
    if offset > (len as u64) || size > (len as u64) - offset || size % 24 != 0 {
        return Err(LoadError::BadSections);
    }
    let count: u64 = size / 24;
    let mut k: u64 = 0;
    while k < count
        invariant
            k <= count,
            count == size / 24,
            size % 24 == 0,
            offset + size <= code@.len(),
            len == code@.len(),
            relas@.len() == k,
            forall|j: int| 0 <= j < k ==> relas@[j] == rela_at(code@, offset + 24 * j),
        decreases count - k,
    {
        let entry: usize = (offset + 24 * k) as usize;
        relas.push(
            Rela64 {
                offset: read_u64(code, entry),
                info: read_u64(code, entry + 8),
                addend: read_u64(code, entry + 16),
            },
        );
        k += 1;
    }
    assert(relas@ =~= Seq::new((size / 24) as nat, |k: int| rela_at(code@, offset + 24 * k)));
    Ok(relas)
}

/// Reads the relocations of `.rela.dyn`.
pub fn parse_relocations(code: &[u8], h: &ElfHeader) -> (r: Result<Vec<Rela64>, LoadError>)
    ensures
        match relocations_of(code@, *h) {
            Ok(relas) => r is Ok && (r->Ok_0)@ == relas,
            Err(e) => r == Err::<Vec<Rela64>, LoadError>(e),
        },
{
    let len: usize = code.len();
    if h.sh_count == 0 || h.sh_offset == 0 || h.sh_entry_size == 0 {
        let relas: Vec<Rela64> = Vec::new();
        assert(relas@ =~= Seq::empty());
        return Ok(relas);
    }
    if !check_table(len, h.sh_offset, h.sh_entry_size, h.sh_count, 64) || h.sh_str_index
        >= h.sh_count {
        return Err(LoadError::BadSections);
    }
    assert(h.sh_str_index * h.sh_entry_size + h.sh_entry_size <= h.sh_entry_size * h.sh_count && 0
        <= h.sh_str_index * h.sh_entry_size) by (nonlinear_arith)
        requires
            0 <= h.sh_str_index < h.sh_count,
    ;
    let names_header: usize = (h.sh_offset + (h.sh_str_index as u64) * (h.sh_entry_size as u64))
        as usize;
    let names: u64 = read_u64(code, names_header + 24);
    let mut i: u16 = 0;
    while i < h.sh_count
        invariant
            i <= h.sh_count,
            len == code@.len(),
            table_fits(code@.len(), h.sh_offset, h.sh_entry_size, h.sh_count, 64),
            find_rela_dyn(code@, *h, names, 0) == find_rela_dyn(code@, *h, names, i as int),
            names == le_u64(code@, section_header_at(*h, h.sh_str_index as int) + 24),
            !no_table(h.sh_offset, h.sh_entry_size, h.sh_count),
            h.sh_str_index < h.sh_count,
        decreases h.sh_count - i,
    {
        assert(i * h.sh_entry_size + h.sh_entry_size <= h.sh_entry_size * h.sh_count && 0 <= i
            * h.sh_entry_size) by (nonlinear_arith)
            requires
                0 <= i < h.sh_count,
        ;
        let at: usize = (h.sh_offset + (i as u64) * (h.sh_entry_size as u64)) as usize;
        let kind: u32 = read_u32(code, at + 4);
        let name: u32 = read_u32(code, at);
        let found: bool = kind != SHT_NULL && match names.checked_add(name as u64) {
            Some(name_at) => name_is_rela_dyn(code, name_at),
            None => false,
        };
        assert(at == section_header_at(*h, i as int));
        assert(found == section_matches(code@, *h, names, i as int));
        if found {
            assert(find_rela_dyn(code@, *h, names, i as int) == Some(i as int));
            return parse_entries(code, at);
        }
        i += 1;
    }
    let relas: Vec<Rela64> = Vec::new();
    assert(relas@ =~= Seq::empty());
    Ok(relas)
}

/// The number of bytes the segments need: the highest end in memory of a
/// segment that takes memory at all. The image starts at address zero.
pub open spec fn extent(segs: Seq<Segment>) -> int
    decreases segs.len(),
{
    if segs.len() == 0 {
        0
    } else {
        let rest = extent(segs.drop_last());
        let s = segs.last();
        if s.mem_size > 0 && s.virtual_addr + s.mem_size > rest {
            s.virtual_addr + s.mem_size
        } else {
            rest
        }
    }
}

/// `image` with the file bytes of segment `s` copied to its place.
pub open spec fn placed(code: Seq<u8>, image: Seq<u8>, s: Segment) -> Seq<u8> {
    Seq::new(
        image.len(),
        |i: int|
            if s.virtual_addr <= i < s.virtual_addr + s.file_size {
                code[s.offset + i - s.virtual_addr]
            } else {
                image[i]
            },
    )
}

/// An image of `size` zero bytes with the file bytes of every loadable
/// segment copied to its place, in table order. A loadable segment must
/// lie inside the file and its file bytes inside the image.
pub open spec fn laid_out(code: Seq<u8>, segs: Seq<Segment>, size: nat) -> Result<
    Seq<u8>,
    LoadError,
>
    decreases segs.len(),
{
    if segs.len() == 0 {
        Ok(Seq::new(size, |i: int| 0u8))
    } else {
        match laid_out(code, segs.drop_last(), size) {
            Err(e) => Err(e),
            Ok(image) => {
                let s = segs.last();
                if s.kind != 1 {
                    Ok(image)
                } else if s.offset + s.file_size > code.len() {
                    Err(LoadError::SegmentOutsideFile)
                } else if s.virtual_addr + s.file_size > size {
                    Err(LoadError::SegmentOutsideImage)
                } else {
                    Ok(placed(code, image, s))
                }
            },
        }
    }
}

/// Address `at` lies in the memory of a loadable segment.
pub open spec fn in_loaded(segs: Seq<Segment>, at: u64) -> bool {
    exists|k: int|
        0 <= k < segs.len() && (#[trigger] segs[k]).kind == 1 && segs[k].virtual_addr <= at
            < segs[k].virtual_addr + segs[k].mem_size
}

/// The relocation is one the loader applies: of the relative type, with
/// its target in a loadable segment.
pub open spec fn applies(segs: Seq<Segment>, r: Rela64) -> bool {
    r.kind() == 8 && in_loaded(segs, r.offset)
}

/// The value a relative relocation writes: the base address of the image
/// plus the addend, modulo 2^64.
pub open spec fn target(r: Rela64, base: u64) -> u64 {
    ((r.addend + base) % 0x1_0000_0000_0000_0000) as u64
}

/// `image` with the eight bytes at `at` replaced by `value`, least
/// significant byte first.
pub open spec fn patched(image: Seq<u8>, at: int, value: u64) -> Seq<u8> {
    Seq::new(
        image.len(),
        |i: int|
            if at <= i < at + 8 {
                le_byte(value, i - at)
            } else {
                image[i]
            },
    )
}

/// `image` with every applicable relocation written, in table order. The
/// eight bytes of each target must lie inside the image.
pub open spec fn relocated(image: Seq<u8>, segs: Seq<Segment>, relas: Seq<Rela64>, base: u64)
    -> Result<Seq<u8>, LoadError>
    decreases relas.len(),
{
    if relas.len() == 0 {
        Ok(image)
    } else {
        match relocated(image, segs, relas.drop_last(), base) {
            Err(e) => Err(e),
            Ok(before) => {
                let r = relas.last();
                if !applies(segs, r) {
                    Ok(before)
                } else if r.offset + 8 > before.len() {
                    Err(LoadError::RelocationOutsideImage)
                } else {
                    Ok(patched(before, r.offset as int, target(r, base)))
                }
            },
        }
    }
}

/// The number of bytes the segments need, if it fits in 64 bits.
pub fn image_extent(segs: &Vec<Segment>) -> (r: Option<u64>)
    ensures
        match r {
            Some(size) => size == extent(segs@),
            None => extent(segs@) > u64::MAX,
        },
{
    let mut size: u64 = 0;
    let mut i: usize = 0;
    while i < segs.len()
        invariant
            i <= segs@.len(),
            size == extent(segs@.take(i as int)),
        decreases segs@.len() - i,
    {
        assert(segs@.take(i + 1).drop_last() =~= segs@.take(i as int));
        let s: Segment = segs[i];
        if s.mem_size > 0 {
            match s.virtual_addr.checked_add(s.mem_size) {
                Some(end) => {
                    if end > size {
                        size = end;
                    }
                },
                None => {
                    proof {
                        lemma_extent_grows(segs@, i + 1);
                    }
                    return None;
                },
            }
        }
        i += 1;
    }
    assert(segs@.take(i as int) =~= segs@);
    Some(size)
}

/// The extent of a segment table is at least that of any of its prefixes.
pub proof fn lemma_extent_grows(segs: Seq<Segment>, n: int)
    requires
        0 <= n <= segs.len(),
    ensures
        extent(segs.take(n)) <= extent(segs),
    decreases segs.len() - n,
{
    if n < segs.len() {
        assert(segs.take(n + 1).drop_last() =~= segs.take(n));
        lemma_extent_grows(segs, n + 1);
    } else {
        assert(segs.take(n) =~= segs);
    }
}

/// An image of `size` zero bytes.
pub fn zeroed(size: usize) -> (image: Vec<u8>)
    ensures
        image@ == Seq::new(size as nat, |i: int| 0u8),
{
    let mut image: Vec<u8> = Vec::with_capacity(size);
    let mut i: usize = 0;
    while i < size
        invariant
            i <= size,
            image@ == Seq::new(i as nat, |k: int| 0u8),
        decreases size - i,
    {
        image.push(0);
        i += 1;
        assert(image@ =~= Seq::new(i as nat, |k: int| 0u8));
    }
    image
}

/// Copies the file bytes of segment `s` to their place in the image.
pub fn place(code: &[u8], image: &mut Vec<u8>, s: &Segment)
    requires
        s.offset + s.file_size <= code@.len(),
        s.virtual_addr + s.file_size <= old(image)@.len(),
    ensures
        final(image)@ == placed(code@, old(image)@, *s),
{
    let _len: usize = code.len();
    let _size: usize = image.len();
    let count: usize = s.file_size as usize;
    let from: usize = s.offset as usize;
    let to: usize = s.virtual_addr as usize;
    let mut j: usize = 0;
    while j < count
        invariant
            j <= count,
            count == s.file_size,
            from == s.offset,
            to == s.virtual_addr,
            from + count <= code@.len() <= usize::MAX,
            to + count <= image@.len() <= usize::MAX,
            image@.len() == old(image)@.len(),
            forall|i: int|
                0 <= i < image@.len() ==> image@[i] == if to <= i < to + j {
                    code@[from + i - to]
                } else {
                    old(image)@[i]
                },
        decreases count - j,
    {
        image.set(to + j, code[from + j]);
        j += 1;
    }
    assert(image@ =~= placed(code@, old(image)@, *s));
}

/// Builds the image before relocation: `size` zero bytes with every
/// loadable segment copied in.
pub fn lay_out(code: &[u8], segs: &Vec<Segment>, size: usize) -> (r: Result<Vec<u8>, LoadError>)
    ensures
        match laid_out(code@, segs@, size as nat) {
            Ok(image) => r is Ok && (r->Ok_0)@ == image,
            Err(e) => r == Err::<Vec<u8>, LoadError>(e),
        },
        r is Ok ==> (r->Ok_0)@.len() == size,
{
    let len: usize = code.len();
    let mut image: Vec<u8> = zeroed(size);
    let mut i: usize = 0;
    while i < segs.len()
        invariant
            i <= segs@.len(),
            len == code@.len(),
            image@.len() == size,
            laid_out(code@, segs@.take(i as int), size as nat) == Ok::<Seq<u8>, LoadError>(image@),
        decreases segs@.len() - i,
    {
        assert(segs@.take(i + 1).drop_last() =~= segs@.take(i as int));
        let s: Segment = segs[i];
        if s.kind == PT_LOAD {
            if s.offset > (len as u64) || s.file_size > (len as u64) - s.offset {
                proof {
                    lemma_laid_out_fails(code@, segs@, size as nat, i + 1);
                }
                return Err(LoadError::SegmentOutsideFile);
            }
            if s.virtual_addr > (size as u64) || s.file_size > (size as u64) - s.virtual_addr {
                proof {
                    lemma_laid_out_fails(code@, segs@, size as nat, i + 1);
                }
                return Err(LoadError::SegmentOutsideImage);
            }
            place(code, &mut image, &s);
        }
        i += 1;
    }
    assert(segs@.take(i as int) =~= segs@);
    Ok(image)
}

/// Once a prefix of the segment table cannot be laid out, neither can
/// the table, for the same reason.
pub proof fn lemma_laid_out_fails(code: Seq<u8>, segs: Seq<Segment>, size: nat, n: int)
    requires
        0 <= n <= segs.len(),
        laid_out(code, segs.take(n), size) is Err,
    ensures
        laid_out(code, segs, size) == laid_out(code, segs.take(n), size),
    decreases segs.len() - n,
{
    if n < segs.len() {
        assert(segs.take(n + 1).drop_last() =~= segs.take(n));
        lemma_laid_out_fails(code, segs, size, n + 1);
    } else {
        assert(segs.take(n) =~= segs);
    }
}

/// Whether address `at` lies in the memory of a loadable segment.
pub fn is_in_loaded(segs: &Vec<Segment>, at: u64) -> (r: bool)
    ensures
        r == in_loaded(segs@, at),
{
    let mut i: usize = 0;
    while i < segs.len()
        invariant
            i <= segs@.len(),
            forall|k: int|
                0 <= k < i ==> !((#[trigger] segs@[k]).kind == 1 && segs@[k].virtual_addr <= at
                    < segs@[k].virtual_addr + segs@[k].mem_size),
        decreases segs@.len() - i,
    {
        let s: Segment = segs[i];
        if s.kind == PT_LOAD && s.virtual_addr <= at && at - s.virtual_addr < s.mem_size {
            return true;
        }
        i += 1;
    }
    false
}

/// Writes `value` to the eight bytes at `at`, least significant first.
pub fn patch(image: &mut Vec<u8>, at: usize, value: u64)
    requires
        at + 8 <= old(image)@.len(),
    ensures
        final(image)@ == patched(old(image)@, at as int, value),
{
    let _size: usize = image.len();
    image.set(at, (value % 0x100) as u8);
    image.set(at + 1, (value / 0x100 % 0x100) as u8);
    image.set(at + 2, (value / 0x1_0000 % 0x100) as u8);
    image.set(at + 3, (value / 0x100_0000 % 0x100) as u8);
    image.set(at + 4, (value / 0x1_0000_0000 % 0x100) as u8);
    image.set(at + 5, (value / 0x100_0000_0000 % 0x100) as u8);
    image.set(at + 6, (value / 0x1_0000_0000_0000 % 0x100) as u8);
    image.set(at + 7, (value / 0x100_0000_0000_0000 % 0x100) as u8);
    assert(image@ =~= patched(old(image)@, at as int, value));
}

/// Applies the relocations to an image that is to run at address `base`.
pub fn relocate(plain: Vec<u8>, segs: &Vec<Segment>, relas: &Vec<Rela64>, base: u64) -> (r: Result<
    Vec<u8>,
    LoadError,
>)
    ensures
        match relocated(plain@, segs@, relas@, base) {
            Ok(done) => r is Ok && (r->Ok_0)@ == done,
            Err(e) => r == Err::<Vec<u8>, LoadError>(e),
        },
        r is Ok ==> (r->Ok_0)@.len() == plain@.len(),
{
    let ghost start = plain@;
    let mut image: Vec<u8> = plain;
    let mut i: usize = 0;
    while i < relas.len()
        invariant
            i <= relas@.len(),
            image@.len() == start.len(),
            start == plain@,
            relocated(start, segs@, relas@.take(i as int), base) == Ok::<Seq<u8>, LoadError>(
                image@,
            ),
        decreases relas@.len() - i,
    {
        assert(relas@.take(i + 1).drop_last() =~= relas@.take(i as int));
        let r: Rela64 = relas[i];
        if r.get_type() == R_X86_64_RELATIVE && is_in_loaded(segs, r.offset) {
            let size: usize = image.len();
            if r.offset > (size as u64) || (size as u64) - r.offset < 8 {
                proof {
                    assert(relas@.take(i + 1).last() == r);
                    assert(relocated(start, segs@, relas@.take(i + 1), base) == Err::<
                        Seq<u8>,
                        LoadError,
                    >(LoadError::RelocationOutsideImage));
                    lemma_relocated_fails(start, segs@, relas@, base, i + 1);
                }
                return Err(LoadError::RelocationOutsideImage);
            }
            patch(&mut image, r.offset as usize, r.addend.wrapping_add(base));
        }
        i += 1;
    }
    assert(relas@.take(i as int) =~= relas@);
    Ok(image)
}

/// Once a prefix of the relocation table cannot be applied, neither can
/// the table, for the same reason.
pub proof fn lemma_relocated_fails(
    image: Seq<u8>,
    segs: Seq<Segment>,
    relas: Seq<Rela64>,
    base: u64,
    n: int,
)
    requires
        0 <= n <= relas.len(),
        relocated(image, segs, relas.take(n), base) is Err,
    ensures
        relocated(image, segs, relas, base) == relocated(image, segs, relas.take(n), base),
    decreases relas.len() - n,
{
    if n < relas.len() {
        assert(relas.take(n + 1).drop_last() =~= relas.take(n));
        lemma_relocated_fails(image, segs, relas, base, n + 1);
    } else {
        assert(relas.take(n) =~= relas);
    }
}

/// The image of a file that is to run at address `base`, and the offset
/// of its entry point in the image. The image starts at virtual address
/// zero and ends where the last segment ends; its loadable segments hold
/// their file bytes, everything else is zero, and the relocations of
/// `.rela.dyn` are applied.
#[verifier::opaque]
pub open spec fn loaded(code: Seq<u8>, base: u64) -> Result<(Seq<u8>, u64), LoadError> {
    match header_of(code) {
        Err(e) => Err(e),
        Ok(h) => match segments_of(code, h) {
            Err(e) => Err(e),
            Ok(segs) => match relocations_of(code, h) {
                Err(e) => Err(e),
                Ok(relas) => if extent(segs) > MAX_IMAGE_SIZE {
                    Err(LoadError::TooLarge)
                } else {
                    match laid_out(code, segs, extent(segs) as nat) {
                        Err(e) => Err(e),
                        Ok(plain) => match relocated(plain, segs, relas, base) {
                            Err(e) => Err(e),
                            Ok(image) => if h.entry >= extent(segs) {
                                Err(LoadError::EntryOutsideImage)
                            } else {
                                Ok((image, h.entry))
                            },
                        },
                    }
                },
            },
        },
    }
}

/// Loads a file into an image that is to run at address `base`. Returns
/// the image and the offset of the entry point in it.
pub fn load(code: &[u8], base: u64) -> (r: Result<(Vec<u8>, u64), LoadError>)
    ensures
        match loaded(code@, base) {
            Ok((image, entry)) => r is Ok && (r->Ok_0).0@ == image && (r->Ok_0).1 == entry,
            Err(e) => r == Err::<(Vec<u8>, u64), LoadError>(e),
        },
{
    reveal(loaded);
    let h: ElfHeader = match parse_header(code) {
        Ok(h) => h,
        Err(e) => {
            return Err(e);
        },
    };
    let segs: Vec<Segment> = match parse_segments(code, &h) {
        Ok(segs) => segs,
        Err(e) => {
            return Err(e);
        },
    };
    let relas: Vec<Rela64> = match parse_relocations(code, &h) {
        Ok(relas) => relas,
        Err(e) => {
            return Err(e);
        },
    };
    let size: u64 = match image_extent(&segs) {
        Some(size) => size,
        None => {
            return Err(LoadError::TooLarge);
        },
    };
    if size > MAX_IMAGE_SIZE {
        return Err(LoadError::TooLarge);
    }
    let plain: Vec<u8> = match lay_out(code, &segs, size as usize) {
        Ok(plain) => plain,
        Err(e) => {
            return Err(e);
        },
    };
    let image: Vec<u8> = match relocate(plain, &segs, &relas, base) {
        Ok(image) => image,
        Err(e) => {
            return Err(e);
        },
    };
    if h.entry >= size {
        return Err(LoadError::EntryOutsideImage);
    }
    Ok((image, h.entry))
}

/// The number of bytes the image of a file takes, so that memory for it
/// can be found before it is loaded.
pub fn image_size(code: &[u8]) -> (r: Result<u64, LoadError>)
    ensures
        match header_of(code@) {
            Err(e) => r == Err::<u64, LoadError>(e),
            Ok(h) => match segments_of(code@, h) {
                Err(e) => r == Err::<u64, LoadError>(e),
                Ok(segs) => if extent(segs) > MAX_IMAGE_SIZE {
                    r == Err::<u64, LoadError>(LoadError::TooLarge)
                } else {
                    r == Ok::<u64, LoadError>(extent(segs) as u64)
                },
            },
        },
{
    let h: ElfHeader = match parse_header(code) {
        Ok(h) => h,
        Err(e) => {
            return Err(e);
        },
    };
    let segs: Vec<Segment> = match parse_segments(code, &h) {
        Ok(segs) => segs,
        Err(e) => {
            return Err(e);
        },
    };
    match image_extent(&segs) {
        Some(size) => if size > MAX_IMAGE_SIZE {
            Err(LoadError::TooLarge)
        } else {
            Ok(size)
        },
        None => Err(LoadError::TooLarge),
    }
}

/// Writing a number and reading it back gives the number.
pub proof fn lemma_patch_reads_back(image: Seq<u8>, at: int, value: u64)
    requires
        0 <= at,
        at + 8 <= image.len(),
    ensures
        le_u64(patched(image, at, value), at) == value,
{
    let p = patched(image, at, value);
    let b = le_bytes(value);
    assert(p[at] == b[0] && p[at + 1] == b[1] && p[at + 2] == b[2] && p[at + 3] == b[3] && p[at
        + 4] == b[4] && p[at + 5] == b[5] && p[at + 6] == b[6] && p[at + 7] == b[7]);
    lemma_le_round_trip(value);
}

/// Writing a number leaves a number that does not overlap it as it was.
pub proof fn lemma_patch_elsewhere(image: Seq<u8>, at: int, value: u64, other: int)
    requires
        0 <= at,
        at + 8 <= image.len(),
        0 <= other,
        other + 8 <= image.len(),
        other + 8 <= at || at + 8 <= other,
    ensures
        le_u64(patched(image, at, value), other) == le_u64(image, other),
{
    let p = patched(image, at, value);
    assert(p[other] == image[other] && p[other + 1] == image[other + 1] && p[other + 2]
        == image[other + 2] && p[other + 3] == image[other + 3] && p[other + 4] == image[other
        + 4] && p[other + 5] == image[other + 5] && p[other + 6] == image[other + 6] && p[other
        + 7] == image[other + 7]);
}

/// Relocation keeps the size of the image, and every relocation that
/// was applied lies inside it.
pub proof fn lemma_relocated_len(image: Seq<u8>, segs: Seq<Segment>, relas: Seq<Rela64>, base: u64)
    requires
        relocated(image, segs, relas, base) is Ok,
    ensures
        (relocated(image, segs, relas, base)->Ok_0).len() == image.len(),
        forall|k: int|
            0 <= k < relas.len() && applies(segs, #[trigger] relas[k]) ==> relas[k].offset + 8
                <= image.len(),
    decreases relas.len(),
{
    if relas.len() > 0 {
        lemma_relocated_len(image, segs, relas.drop_last(), base);
        assert forall|k: int| 0 <= k < relas.len() && applies(segs, #[trigger] relas[k]) implies
            relas[k].offset + 8 <= image.len() by {
            if k < relas.len() - 1 {
                assert(relas.drop_last()[k] == relas[k]);
            }
        }
    }
}

/// After relocation, the image holds at the target of every applied
/// relocation the base address plus the addend, provided that no later
/// applied relocation overlaps the target.
pub proof fn lemma_relocation_holds(
    image: Seq<u8>,
    segs: Seq<Segment>,
    relas: Seq<Rela64>,
    base: u64,
    k: int,
)
    requires
        relocated(image, segs, relas, base) is Ok,
        0 <= k < relas.len(),
        applies(segs, relas[k]),
        forall|j: int|
            k < j < relas.len() && applies(segs, #[trigger] relas[j]) ==> relas[j].offset + 8
                <= relas[k].offset || relas[k].offset + 8 <= relas[j].offset,
    ensures
        le_u64(relocated(image, segs, relas, base)->Ok_0, relas[k].offset as int) == target(
            relas[k],
            base,
        ),
    decreases relas.len(),
{
    let front = relas.drop_last();
    let before = relocated(image, segs, front, base)->Ok_0;
    lemma_relocated_len(image, segs, relas, base);
    lemma_relocated_len(image, segs, front, base);
    let last = relas.last();
    if k == relas.len() - 1 {
        lemma_patch_reads_back(before, last.offset as int, target(last, base));
    } else {
        assert(front[k] == relas[k]);
        assert forall|j: int| k < j < front.len() && applies(segs, #[trigger] front[j]) implies
            front[j].offset + 8 <= front[k].offset || front[k].offset + 8 <= front[j].offset by {
            assert(front[j] == relas[j]);
        }
        lemma_relocation_holds(image, segs, front, base, k);
        if applies(segs, last) {
            assert(relas[relas.len() - 1] == last);
            lemma_patch_elsewhere(
                before,
                last.offset as int,
                target(last, base),
                relas[k].offset as int,
            );
        }
    }
}

/// Byte `i` of the image belongs to the target of an applied relocation.
pub open spec fn touched(segs: Seq<Segment>, relas: Seq<Rela64>, i: int) -> bool {
    exists|k: int|
        0 <= k < relas.len() && applies(segs, #[trigger] relas[k]) && relas[k].offset <= i
            < relas[k].offset + 8
}

/// Relocating for another base address succeeds or fails alike, and
/// changes the image only inside the targets of applied relocations.
pub proof fn lemma_rebase(
    image: Seq<u8>,
    segs: Seq<Segment>,
    relas: Seq<Rela64>,
    base: u64,
    other: u64,
)
    ensures
        relocated(image, segs, relas, base) is Ok <==> relocated(image, segs, relas, other) is Ok,
        relocated(image, segs, relas, base) is Err ==> relocated(image, segs, relas, base)->Err_0
            == relocated(image, segs, relas, other)->Err_0,
        relocated(image, segs, relas, base) is Ok ==> {
            let a = relocated(image, segs, relas, base)->Ok_0;
            let b = relocated(image, segs, relas, other)->Ok_0;
            &&& a.len() == image.len()
            &&& b.len() == image.len()
            &&& forall|i: int| 0 <= i < a.len() && !touched(segs, relas, i) ==> a[i] == b[i]
        },
    decreases relas.len(),
{
    if relas.len() > 0 {
        let front = relas.drop_last();
        let last = relas.last();
        lemma_rebase(image, segs, front, base, other);
        if relocated(image, segs, relas, base) is Ok {
            let a = relocated(image, segs, relas, base)->Ok_0;
            let b = relocated(image, segs, relas, other)->Ok_0;
            let a0 = relocated(image, segs, front, base)->Ok_0;
            let b0 = relocated(image, segs, front, other)->Ok_0;
            assert forall|i: int| 0 <= i < a.len() && !touched(segs, relas, i) implies a[i]
                == b[i] by {
                if touched(segs, front, i) {
                    let k = choose|k: int|
                        0 <= k < front.len() && applies(segs, #[trigger] front[k])
                            && front[k].offset <= i < front[k].offset + 8;
                    assert(relas[k] == front[k]);
                }
                if applies(segs, last) {
                    assert(relas[relas.len() - 1] == last);
                }
            }
        }
    }
}

/// Loading the same file for another base address succeeds or fails
/// alike, gives an image of the same size with the same entry offset,
/// and the two images agree in every byte outside the targets of the
/// applied relocations.
pub proof fn lemma_reload(code: Seq<u8>, base: u64, other: u64)
    ensures
        loaded(code, base) is Ok <==> loaded(code, other) is Ok,
        loaded(code, base) is Err ==> loaded(code, base)->Err_0 == loaded(code, other)->Err_0,
        loaded(code, base) is Ok ==> {
            let a = loaded(code, base)->Ok_0;
            let b = loaded(code, other)->Ok_0;
            let h = header_of(code)->Ok_0;
            let segs = segments_of(code, h)->Ok_0;
            let relas = relocations_of(code, h)->Ok_0;
            &&& a.0.len() == b.0.len()
            &&& a.1 == b.1
            &&& forall|i: int| 0 <= i < a.0.len() && !touched(segs, relas, i) ==> a.0[i] == b.0[i]
        },
{
    reveal(loaded);
    if header_of(code) is Ok {
        let h = header_of(code)->Ok_0;
        if segments_of(code, h) is Ok && relocations_of(code, h) is Ok {
            let segs = segments_of(code, h)->Ok_0;
            let relas = relocations_of(code, h)->Ok_0;
            if extent(segs) <= MAX_IMAGE_SIZE && laid_out(code, segs, extent(segs) as nat) is Ok {
                let plain = laid_out(code, segs, extent(segs) as nat)->Ok_0;
                lemma_rebase(plain, segs, relas, base, other);
            }
        }
    }
}

/// After loading, the image holds at the target of every applied
/// relocation the base address plus the addend, provided that no later
/// applied relocation overlaps the target.
pub proof fn lemma_loaded_relocations(code: Seq<u8>, base: u64, k: int)
    requires
        loaded(code, base) is Ok,
        ({
            let h = header_of(code)->Ok_0;
            let segs = segments_of(code, h)->Ok_0;
            let relas = relocations_of(code, h)->Ok_0;
            &&& 0 <= k < relas.len()
            &&& applies(segs, relas[k])
            &&& forall|j: int|
                k < j < relas.len() && applies(segs, #[trigger] relas[j]) ==> relas[j].offset + 8
                    <= relas[k].offset || relas[k].offset + 8 <= relas[j].offset
        }),
    ensures
        ({
            let h = header_of(code)->Ok_0;
            let relas = relocations_of(code, h)->Ok_0;
            le_u64((loaded(code, base)->Ok_0).0, relas[k].offset as int) == target(relas[k], base)
        }),
{
    reveal(loaded);
    let h = header_of(code)->Ok_0;
    let segs = segments_of(code, h)->Ok_0;
    let relas = relocations_of(code, h)->Ok_0;
    let plain = laid_out(code, segs, extent(segs) as nat)->Ok_0;
    lemma_relocation_holds(plain, segs, relas, base, k);
}

/// Hands out process ids, each one higher than the last.
pub struct PidAllocator {
    next: u64,
}

impl PidAllocator {
    /// The id that will be handed out next.
    pub closed spec fn upcoming(&self) -> u64 {
        self.next
    }

    /// An allocator whose first id is zero.
    pub fn new() -> (r: Self)
        ensures
            r.upcoming() == 0,
    {
        PidAllocator { next: 0 }
    }

    /// Hands out the next id.
    pub fn next_pid(&mut self) -> (pid: u64)
        ensures
            pid == old(self).upcoming(),
            final(self).upcoming() == (old(self).upcoming() + 1) % 0x1_0000_0000_0000_0000,
    {
        let pid: u64 = self.next;
        self.next = pid.wrapping_add(1);
        pid
    }
}

/// Version of the record that the kernel hands to applications.
pub const CONTEXT_VERSION: u8 = 1;

/// What the kernel hands to an application on every call: the time, the
/// application's process id, its store and the input snapshot.
pub struct Context<S> {
    pub version: u8,
    pub start_time: u64,
    pub pid: u64,
    pub store: Option<S>,
    pub input: Input,
}

impl<S> Context<S> {
    /// A record for a call at time `start_time` with the given input
    /// snapshot, not yet made out to any application.
    pub fn new(start_time: u64, input: Input) -> (r: Self)
        ensures
            r.version == 1,
            r.start_time == start_time,
            r.pid == 0,
            r.store is None,
            r.input == input,
    {
        Context { version: CONTEXT_VERSION, start_time, pid: 0, store: None, input }
    }
}

/// A loaded application: its relocated image, where the image runs, the
/// address of its entry point, its process id, and the store it left
/// behind at its last call.
pub struct App<S> {
    pub code: Vec<u8>,
    pub base: u64,
    pub func: u64,
    pub pid: u64,
    pub store: Option<S>,
}

impl<S> App<S> {
    /// Loads the application in `code` to run at address `base`. The
    /// entry point is `base` plus the entry offset, the process id is the
    /// next one of `pids`, and the store is empty. If the file cannot
    /// be loaded, no process id is used up.
    pub fn new(code: &[u8], base: u64, pids: &mut PidAllocator) -> (r: Result<Self, LoadError>)
        ensures
            match loaded(code@, base) {
                Ok((image, entry)) => {
                    &&& r is Ok
                    &&& (r->Ok_0).code@ == image
                    &&& (r->Ok_0).base == base
                    &&& (r->Ok_0).func == (base + entry) % 0x1_0000_0000_0000_0000
                    &&& (r->Ok_0).pid == old(pids).upcoming()
                    &&& (r->Ok_0).store is None
                    &&& final(pids).upcoming() == (old(pids).upcoming() + 1)
                        % 0x1_0000_0000_0000_0000
                },
                Err(e) => r is Err && r->Err_0 == e && final(pids).upcoming() == old(pids).upcoming(),
            },
    {
        match load(code, base) {
            Ok((image, entry)) => {
                let pid: u64 = pids.next_pid();
                Ok(App { code: image, base, func: base.wrapping_add(entry), pid, store: None })
            },
            Err(e) => Err(e),
        }
    }

    /// The record as the application sees it at a call: made out to this
    /// application, and holding its store.
    pub open spec fn handed_in(&self, arg: Context<S>) -> Context<S> {
        Context { pid: self.pid, store: self.store, ..arg }
    }

    /// Calls the application. `entry` stands for the application's entry
    /// point: it receives the record with the application's process id
    /// and store in it, and returns the record and the result. The store
    /// that it leaves in the record goes back to the application, and the
    /// record comes back without a store.
    pub fn call<F: FnOnce(Context<S>) -> (Context<S>, i32)>(&mut self, arg: Context<S>, entry: F)
        -> (r: (Context<S>, i32))
        requires
            entry.requires((old(self).handed_in(arg),)),
        ensures
            entry.ensures(
                (old(self).handed_in(arg),),
                (Context { store: final(self).store, ..r.0 }, r.1),
            ),
            r.0.store is None,
            final(self).code == old(self).code,
            final(self).base == old(self).base,
            final(self).func == old(self).func,
            final(self).pid == old(self).pid,
    {
        let mut arg: Context<S> = arg;
        arg.pid = self.pid;
        arg.store = self.store.take();
        let (mut back, res): (Context<S>, i32) = entry(arg);
        self.store = back.store.take();
        (back, res)
    }
}

/// `after` and `result` are what a call of the application `before`
/// leaves behind: the entry point got the record for time `now` and
/// input `input`, made out to the application and holding its store,
/// and the store it left in the record is now the application's.
pub open spec fn was_called<S, F: Fn(u64, Context<S>) -> (Context<S>, i32)>(
    entry: &F,
    before: App<S>,
    after: App<S>,
    now: u64,
    input: Input,
    result: i32,
) -> bool {
    &&& after.pid == before.pid
    &&& after.code == before.code
    &&& after.base == before.base
    &&& after.func == before.func
    &&& exists|back: Context<S>|
        left_behind(entry, before, now, input, back, result) && after.store == back.store
}

/// The entry point, called for the application `before` at time `now`
/// with input `input`, can return the record `back` and `result`.
pub open spec fn left_behind<S, F: Fn(u64, Context<S>) -> (Context<S>, i32)>(
    entry: &F,
    before: App<S>,
    now: u64,
    input: Input,
    back: Context<S>,
    result: i32,
) -> bool {
    entry.ensures(
        (
            before.pid,
            Context { version: 1, start_time: now, pid: before.pid, store: before.store, input },
        ),
        (back, result),
    )
}

/// Runs one frame: calls every application in turn, each with a fresh
/// record for time `now` and the input snapshot as it was when the
/// frame began, and then ends the frame for the input state. `entry`
/// stands for the entry points: it gets the process id of the
/// application and the record. Returns what each application returned.
pub fn run_frame<S, F: Fn(u64, Context<S>) -> (Context<S>, i32)>(
    apps: &mut Vec<App<S>>,
    input: &mut Input,
    now: u64,
    entry: &F,
) -> (results: Vec<i32>)
    requires
        forall|pid: u64, ctx: Context<S>| entry.requires((pid, ctx)),
    ensures
        results@.len() == old(apps)@.len(),
        final(apps)@.len() == old(apps)@.len(),
        forall|i: int|
            0 <= i < old(apps)@.len() ==> #[trigger] was_called(
                entry,
                old(apps)@[i],
                final(apps)@[i],
                now,
                *old(input),
                results@[i],
            ),
        forall|k: int| 0 <= k < 1024 ==> final(input).keys[k] == old(input).keys[k].after_step(),
        forall|k: int| 0 <= k < 1024 ==> final(input).keys[k].is_settled(),
        final(input).mouse_x == old(input).mouse_x,
        final(input).mouse_y == old(input).mouse_y,
        final(input).history_last_index == old(input).history_last_index,
        final(input).history_ring == old(input).history_ring,
{
    let snapshot: Input = *input;
    let mut results: Vec<i32> = Vec::with_capacity(apps.len());
    let mut i: usize = 0;
    while i < apps.len()
        invariant
            i <= apps@.len(),
            apps@.len() == old(apps)@.len(),
            results@.len() == i,
            snapshot == *old(input),
            *input == *old(input),
            forall|pid: u64, ctx: Context<S>| entry.requires((pid, ctx)),
            forall|j: int| i <= j < apps@.len() ==> apps@[j] == old(apps)@[j],
            forall|j: int|
                0 <= j < i ==> #[trigger] was_called(
                    entry,
                    old(apps)@[j],
                    apps@[j],
                    now,
                    *old(input),
                    results@[j],
                ),
        decreases apps@.len() - i,
    {
        let pid: u64 = apps[i].pid;
        let arg: Context<S> = Context::new(now, snapshot);
        let run = |ctx: Context<S>| -> (r: (Context<S>, i32))
            requires
                entry.requires((pid, ctx)),
            ensures
                entry.ensures((pid, ctx), r),
            { entry(pid, ctx) };
        let ghost before = apps@;
        let ghost earlier = results@;
        let ghost handed = apps@[i as int].handed_in(arg);
        let (back, res): (Context<S>, i32) = apps[i].call(arg, run);
        results.push(res);
        proof {
            let witness = Context { store: apps@[i as int].store, ..back };
            assert(run.ensures((handed,), (witness, res)));
            assert(entry.ensures((pid, handed), (witness, res)));
            assert(handed == Context {
                version: 1,
                start_time: now,
                pid: old(apps)@[i as int].pid,
                store: old(apps)@[i as int].store,
                input: *old(input),
            });
            assert(left_behind(entry, old(apps)@[i as int], now, *old(input), witness, res));
            assert(was_called(
                entry,
                old(apps)@[i as int],
                apps@[i as int],
                now,
                *old(input),
                results@[i as int],
            ));
            assert forall|j: int| 0 <= j < i implies #[trigger] was_called(
                entry,
                old(apps)@[j],
                apps@[j],
                now,
                *old(input),
                results@[j],
            ) by {
                assert(apps@[j] == before[j]);
                assert(results@[j] == earlier[j]);
                assert(was_called(entry, old(apps)@[j], before[j], now, *old(input), earlier[j]));
            }
        }
        i += 1;
    }
    input.step();
    results
}

} // verus!
