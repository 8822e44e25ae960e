//! PCI configuration space: addressing, little-endian field access on a
//! snapshot of a function's 256 bytes, BAR decoding and bus enumeration.

use vstd::prelude::*;

verus! {

/// Standard registers of the PCI configuration header.
#[derive(Clone, Copy, Debug, PartialEq, Eq, Structural)]
pub enum PCIConfigRegisters {
    PCIDeviceID,
    PCIVendorID,
    PCIStatus,
    PCICommand,
    PCIClassCode,
    PCISubclass,
    PCIProgIF,
    PCIRevisionID,
    PCIBIST,
    PCIHeaderType,
    PCILatencyTimer,
    PCICacheLineSize,
    PCIBAR0,
    PCIBAR1,
    PCIBAR2,
    PCIBAR3,
    PCIBAR4,
    PCIBAR5,
    PCICardbusCISPointer,
    PCISubsystemID,
    PCISubsystemVendorID,
    PCIExpansionROMBaseAddress,
    PCICapabilitiesPointer,
    PCIMaxLatency,
    PCIMinGrant,
    PCIInterruptPIN,
    PCIInterruptLine,
}

impl PCIConfigRegisters {
    /// Byte offset of the register in configuration space.
    pub open spec fn spec_offset(self) -> u8 {
        match self {
            PCIConfigRegisters::PCIDeviceID => 0x2,
            PCIConfigRegisters::PCIVendorID => 0x0,
            PCIConfigRegisters::PCIStatus => 0x6,
            PCIConfigRegisters::PCICommand => 0x4,
            PCIConfigRegisters::PCIClassCode => 0xB,
            PCIConfigRegisters::PCISubclass => 0xA,
            PCIConfigRegisters::PCIProgIF => 0x9,
            PCIConfigRegisters::PCIRevisionID => 0x8,
            PCIConfigRegisters::PCIBIST => 0xF,
            PCIConfigRegisters::PCIHeaderType => 0xE,
            PCIConfigRegisters::PCILatencyTimer => 0xD,
            PCIConfigRegisters::PCICacheLineSize => 0xC,
            PCIConfigRegisters::PCIBAR0 => 0x10,
            PCIConfigRegisters::PCIBAR1 => 0x14,
            PCIConfigRegisters::PCIBAR2 => 0x18,
            PCIConfigRegisters::PCIBAR3 => 0x1C,
            PCIConfigRegisters::PCIBAR4 => 0x20,
            PCIConfigRegisters::PCIBAR5 => 0x24,
            PCIConfigRegisters::PCICardbusCISPointer => 0x28,
            PCIConfigRegisters::PCISubsystemID => 0x2E,
            PCIConfigRegisters::PCISubsystemVendorID => 0x2C,
            PCIConfigRegisters::PCIExpansionROMBaseAddress => 0x30,
            PCIConfigRegisters::PCICapabilitiesPointer => 0x34,
            PCIConfigRegisters::PCIMaxLatency => 0x3F,
            PCIConfigRegisters::PCIMinGrant => 0x3E,
            PCIConfigRegisters::PCIInterruptPIN => 0x3D,
            PCIConfigRegisters::PCIInterruptLine => 0x3C,
        }
    }

    /// Byte offset of the register in configuration space.
    #[verifier::when_used_as_spec(spec_offset)]
    pub fn offset(self) -> (r: u8)
        ensures
            r == self.spec_offset(),
    {
        match self {
            PCIConfigRegisters::PCIDeviceID => 0x2,
            PCIConfigRegisters::PCIVendorID => 0x0,
            PCIConfigRegisters::PCIStatus => 0x6,
            PCIConfigRegisters::PCICommand => 0x4,
            PCIConfigRegisters::PCIClassCode => 0xB,
            PCIConfigRegisters::PCISubclass => 0xA,
            PCIConfigRegisters::PCIProgIF => 0x9,
            PCIConfigRegisters::PCIRevisionID => 0x8,
            PCIConfigRegisters::PCIBIST => 0xF,
            PCIConfigRegisters::PCIHeaderType => 0xE,
            PCIConfigRegisters::PCILatencyTimer => 0xD,
            PCIConfigRegisters::PCICacheLineSize => 0xC,
            PCIConfigRegisters::PCIBAR0 => 0x10,
            PCIConfigRegisters::PCIBAR1 => 0x14,
            PCIConfigRegisters::PCIBAR2 => 0x18,
            PCIConfigRegisters::PCIBAR3 => 0x1C,
            PCIConfigRegisters::PCIBAR4 => 0x20,
            PCIConfigRegisters::PCIBAR5 => 0x24,
            PCIConfigRegisters::PCICardbusCISPointer => 0x28,
            PCIConfigRegisters::PCISubsystemID => 0x2E,
            PCIConfigRegisters::PCISubsystemVendorID => 0x2C,
            PCIConfigRegisters::PCIExpansionROMBaseAddress => 0x30,
            PCIConfigRegisters::PCICapabilitiesPointer => 0x34,
            PCIConfigRegisters::PCIMaxLatency => 0x3F,
            PCIConfigRegisters::PCIMinGrant => 0x3E,
            PCIConfigRegisters::PCIInterruptPIN => 0x3D,
            PCIConfigRegisters::PCIInterruptLine => 0x3C,
        }
    }
}

/// I/O port that selects a configuration dword.
pub const CONFIG_ADDRESS_PORT: u16 = 0xCF8;

/// I/O port through which the selected dword is read and written.
pub const CONFIG_DATA_PORT: u16 = 0xCFC;

/// Byte `i` (0 is the least significant) of a dword.
pub open spec fn byte_of(dword: u32, i: int) -> u8 {
    if i == 0 {
        (dword as int % 0x100) as u8
    } else if i == 1 {
        (dword as int / 0x100 % 0x100) as u8
    } else if i == 2 {
        (dword as int / 0x1_0000 % 0x100) as u8
    } else {
        (dword as int / 0x100_0000 % 0x100) as u8
    }
}

/// The dword whose four bytes, least significant first, are given.
pub open spec fn dword_of(b0: u8, b1: u8, b2: u8, b3: u8) -> int {
    b0 as int + 0x100 * b1 as int + 0x1_0000 * b2 as int + 0x100_0000 * b3 as int
}

/// The word to write to the address port to select the dword that holds
/// byte `off` of function `bus:slot.func`, for a slot below 32 and a
/// function below 8.
pub open spec fn address_word(bus: u8, slot: u8, func: u8, off: u8) -> int {
    0x8000_0000 + 0x1_0000 * bus as int + 0x800 * slot as int + 0x100 * func as int + (off as int
        - off as int % 4)
}

/// The bytes of a dword, written with shifts and masks.
pub proof fn lemma_byte_of(d: u32)
    ensures
        byte_of(d, 0) == d & 0xff,
        byte_of(d, 1) == (d >> 8) & 0xff,
        byte_of(d, 2) == (d >> 16) & 0xff,
        byte_of(d, 3) == (d >> 24) & 0xff,
        d == dword_of(byte_of(d, 0), byte_of(d, 1), byte_of(d, 2), byte_of(d, 3)),
{
    assert(d & 0xff == d % 0x100 && (d >> 8) & 0xff == d / 0x100 % 0x100 && (d >> 16) & 0xff == d
        / 0x1_0000 % 0x100 && (d >> 24) & 0xff == d / 0x100_0000 % 0x100 && d / 0x100_0000 < 0x100)
        by (bit_vector);
}

/// The low bits of an offset, written with masks.
pub proof fn lemma_low_bits(off: u8)
    ensures
        off & 3 == off % 4,
        off & 2 == off % 4 / 2 * 2,
{
    assert(off & 3 == off % 4 && off & 2 == off % 4 / 2 * 2) by (bit_vector);
}

/// Computes the word that selects a configuration dword: the enable bit,
/// then bus, slot and function, then the dword-aligned offset.
pub fn config_address(bus: u8, slot: u8, func: u8, off: u8) -> (address: u32)
    ensures
        slot < 32 && func < 8 ==> address == address_word(bus, slot, func, off),
        address == (((bus as u32) << 16) | ((slot as u32) << 11) | ((func as u32) << 8) | ((
        off as u32) & 0xfc) | 0x8000_0000),
{
    let address: u32 = ((bus as u32) << 16) | ((slot as u32) << 11) | ((func as u32) << 8) | ((
    off as u32) & 0xfc) | 0x8000_0000;
    assert(slot < 32 && func < 8 ==> (((bus as u32) << 16) | ((slot as u32) << 11) | ((
    func as u32) << 8) | ((off as u32) & 0xfc) | 0x8000_0000u32) == 0x8000_0000u32 + 0x1_0000u32
        * (bus as u32) + 0x800u32 * (slot as u32) + 0x100u32 * (func as u32) + ((off as u32) - (
    off as u32) % 4u32)) by (bit_vector);
    address
}

/// The dword read from the data port, as it is.
pub fn config_read_u32(read: u32) -> (r: u32)
    ensures
        r == read,
        r == dword_of(byte_of(read, 0), byte_of(read, 1), byte_of(read, 2), byte_of(read, 3)),
{
    proof {
        lemma_byte_of(read);
    }
    read
}

/// The 16-bit field that holds byte `off`, taken from the dword read from
/// the data port.
pub fn config_read_u16(read: u32, off: u8) -> (r: u16)
    ensures
        r == byte_of(read, (off as int % 4) / 2 * 2) as int + 0x100 * byte_of(
            read,
            (off as int % 4) / 2 * 2 + 1,
        ) as int,
{
    proof {
        lemma_low_bits(off);
    }
    let shift: u32 = ((off & 2) as u32) * 8;
    let r: u32 = (read >> shift) & 0xffff;
    proof {
        lemma_byte_of(read);
        assert(r < 0x1_0000 && (off % 4 / 2 == 0 ==> r == (read & 0xff) + 0x100 * ((read >> 8)
            & 0xff)) && (off % 4 / 2 == 1 ==> r == ((read >> 16) & 0xff) + 0x100 * ((read >> 24)
            & 0xff))) by (bit_vector)
            requires
                shift == ((off & 2) as u32) * 8,
                r == (read >> shift) & 0xffff,
        ;
    }
    r as u16
}

/// Byte `off` of configuration space, taken from the dword read from the
/// data port.
pub fn config_read_u8(read: u32, off: u8) -> (r: u8)
    ensures
        r == byte_of(read, off as int % 4),
{
    proof {
        lemma_low_bits(off);
    }
    let shift: u32 = ((off & 3) as u32) * 8;
    let r: u32 = (read >> shift) & 0xff;
    proof {
        lemma_byte_of(read);
        assert(r < 0x100 && (off % 4 == 0 ==> r == read & 0xff) && (off % 4 == 1 ==> r == (read
            >> 8) & 0xff) && (off % 4 == 2 ==> r == (read >> 16) & 0xff) && (off % 4 == 3 ==> r
            == (read >> 24) & 0xff)) by (bit_vector)
            requires
                shift == ((off & 3) as u32) * 8,
                r == (read >> shift) & 0xff,
        ;
    }
    r as u8
}

/// The dword to write to the data port, as it is.
pub fn config_write_u32(data: u32) -> (r: u32)
    ensures
        r == data,
{
    data
}

/// The dword to write back so that the 16-bit field holding byte `off`
/// becomes `data` and the other half keeps what was read.
pub fn config_write_u16(read: u32, off: u8, data: u16) -> (val: u32)
    ensures
        byte_of(val, (off as int % 4) / 2 * 2) == data % 0x100,
        byte_of(val, (off as int % 4) / 2 * 2 + 1) == data / 0x100,
        byte_of(val, 2 - (off as int % 4) / 2 * 2) == byte_of(read, 2 - (off as int % 4) / 2 * 2),
        byte_of(val, 3 - (off as int % 4) / 2 * 2) == byte_of(read, 3 - (off as int % 4) / 2 * 2),
{
    proof {
        lemma_low_bits(off);
    }
    let shift: u32 = ((off & 2) as u32) * 8;
    let val: u32 = (read & (!(0xFFFFu32 << shift))) | ((data as u32) << shift);
    proof {
        lemma_byte_of(read);
        lemma_byte_of(val);
        let d: u32 = data as u32;
        assert(d < 0x1_0000 ==> (off % 4 / 2 == 0 ==> val & 0xff == d % 0x100 && (val >> 8) & 0xff
            == d / 0x100 && (val >> 16) & 0xff == (read >> 16) & 0xff && (val >> 24) & 0xff == (
        read >> 24) & 0xff) && (off % 4 / 2 == 1 ==> (val >> 16) & 0xff == d % 0x100 && (val >> 24)
            & 0xff == d / 0x100 && val & 0xff == read & 0xff && (val >> 8) & 0xff == (read >> 8)
            & 0xff)) by (bit_vector)
            requires
                shift == ((off & 2) as u32) * 8,
                val == (read & (!(0xFFFFu32 << shift))) | (d << shift),
        ;
    }
    val
}

/// The dword to write back so that byte `off` becomes `data` and the other
/// three bytes keep what was read.
pub fn config_write_u8(read: u32, off: u8, data: u8) -> (val: u32)
    ensures
        byte_of(val, off as int % 4) == data,
        forall|i: int| 0 <= i < 4 && i != off as int % 4 ==> byte_of(val, i) == byte_of(read, i),
{
    proof {
        lemma_low_bits(off);
    }
    let shift: u32 = ((off & 3) as u32) * 8;
    let val: u32 = (read & (!(0xFFu32 << shift))) | ((data as u32) << shift);
    proof {
        lemma_byte_of(read);
        lemma_byte_of(val);
        let d: u32 = data as u32;
        assert(d < 0x100 ==> (if off % 4 == 0 {
            val & 0xff == d
        } else {
            val & 0xff == read & 0xff
        }) && (if off % 4 == 1 {
            (val >> 8) & 0xff == d
        } else {
            (val >> 8) & 0xff == (read >> 8) & 0xff
        }) && (if off % 4 == 2 {
            (val >> 16) & 0xff == d
        } else {
            (val >> 16) & 0xff == (read >> 16) & 0xff
        }) && (if off % 4 == 3 {
            (val >> 24) & 0xff == d
        } else {
            (val >> 24) & 0xff == (read >> 24) & 0xff
        })) by (bit_vector)
            requires
                shift == ((off & 3) as u32) * 8,
                val == (read & (!(0xFFu32 << shift))) | (d << shift),
        ;
    }
    val
}

/// A snapshot of the 256 bytes of one function's configuration space, held
/// as the 64 dwords that the data port delivers.
#[derive(Clone, Copy, Debug)]
pub struct ConfigSpace {
    pub dwords: [u32; 64],
}

impl ConfigSpace {
    /// The snapshot as 256 bytes.
    pub open spec fn bytes(self) -> Seq<u8> {
        Seq::new(256, |i: int| byte_of(self.dwords[i / 4], i % 4))
    }

    /// The 16-bit little-endian field at the even offset `at`.
    pub open spec fn u16_at(self, at: int) -> int {
        self.bytes()[at] as int + 0x100 * self.bytes()[at + 1] as int
    }

    /// The 32-bit little-endian field at the dword-aligned offset `at`.
    pub open spec fn u32_at(self, at: int) -> int {
        dword_of(
            self.bytes()[at],
            self.bytes()[at + 1],
            self.bytes()[at + 2],
            self.bytes()[at + 3],
        )
    }

    /// Every dword of the snapshot is zero.
    pub open spec fn is_blank(self) -> bool {
        forall|j: int| 0 <= j < 64 ==> self.dwords[j] == 0
    }

    /// A snapshot of the given dwords.
    pub fn new(dwords: [u32; 64]) -> (r: Self)
        ensures
            r.dwords == dwords,
    {
        ConfigSpace { dwords }
    }
}

/// A base address register, decoded.
#[derive(Clone, Copy, Debug, PartialEq, Eq, Structural)]
pub enum Bar {
    /// Not implemented, or a memory BAR with no address.
    Absent,
    /// An I/O port range starting at the given port.
    Io(u32),
    /// A memory range starting at the given physical address.
    Mm(u64),
}

/// Offset of the register that holds BAR `idx`; indices above 5 fall on the
/// last BAR.
pub open spec fn bar_offset(idx: u8) -> u8 {
    if idx < 5 {
        (0x10 + 4 * idx) as u8
    } else {
        0x24
    }
}

/// What a BAR register decodes to. `low` is the register itself and `high`
/// the register after it, which supplies the upper half of a 64-bit memory
/// BAR unless the BAR is the last one.
pub open spec fn decode_bar(low: u32, high: u32, idx: u8) -> Bar {
    if low == 0 {
        Bar::Absent
    } else if low % 2 == 1 {
        Bar::Io((low - low % 4) as u32)
    } else {
        let wide = low / 4 % 2 == 1 && idx < 5;
        let full: int = if wide {
            low as int + 0x1_0000_0000 * high as int
        } else {
            low as int
        };
        let masked = full - full % 16;
        if masked == 0 {
            Bar::Absent
        } else {
            Bar::Mm(masked as u64)
        }
    }
}

/// One PCI function: its address on the bus and a snapshot of its
/// configuration space.
#[derive(Clone, Copy, Debug)]
pub struct Pci {
    pub bus: u8,
    pub slot: u8,
    pub func: u8,
    pub config: ConfigSpace,
}

impl Pci {
    /// Position of the function in bus order.
    pub open spec fn index(self) -> int {
        self.bus as int * 256 + self.slot as int * 8 + self.func as int
    }

    /// What BAR `idx` decodes to.
    pub open spec fn bar(self, idx: u8) -> Bar {
        decode_bar(
            self.config.dwords[bar_offset(idx) as int / 4],
            self.config.dwords[(bar_offset(idx) as int / 4 + 1) % 64],
            idx,
        )
    }

    /// The six BARs of the function.
    pub open spec fn bars(self) -> Seq<Bar> {
        Seq::new(6, |i: int| self.bar(i as u8))
    }

    /// The vendor id.
    pub open spec fn vendor_id(self) -> int {
        self.config.u16_at(0)
    }

    /// The device id.
    pub open spec fn device_id(self) -> int {
        self.config.u16_at(2)
    }

    /// Byte `off` of the function's configuration space.
    pub fn config_read_u8(&self, off: u8) -> (r: u8)
        ensures
            r == self.config.bytes()[off as int],
    {
        config_read_u8(self.config.dwords[(off / 4) as usize], off)
    }

    /// Sets byte `off` of the snapshot; the other bytes keep their values.
    pub fn config_write_u8(&mut self, off: u8, val: u8)
        ensures
            final(self).config.bytes() == old(self).config.bytes().update(off as int, val),
            final(self).bus == old(self).bus,
            final(self).slot == old(self).slot,
            final(self).func == old(self).func,
    {
        let at: usize = (off / 4) as usize;
        let merged: u32 = config_write_u8(self.config.dwords[at], off, val);
        self.config.dwords[at] = merged;
        assert(final(self).config.bytes() =~= old(self).config.bytes().update(off as int, val));
    }

    /// The 16-bit field that holds byte `off`, least significant byte first.
    pub fn config_read_u16(&self, off: u8) -> (r: u16)
        ensures
            r == self.config.u16_at(off as int - off as int % 2),
    {
        config_read_u16(self.config.dwords[(off / 4) as usize], off)
    }

    /// Sets the 16-bit field that holds byte `off`; the other bytes keep
    /// their values.
    pub fn config_write_u16(&mut self, off: u8, val: u16)
        ensures
            final(self).config.bytes() == old(self).config.bytes().update(
                off as int - off as int % 2,
                (val % 0x100) as u8,
            ).update(off as int - off as int % 2 + 1, (val / 0x100) as u8),
            final(self).bus == old(self).bus,
            final(self).slot == old(self).slot,
            final(self).func == old(self).func,
    {
        let at: usize = (off / 4) as usize;
        let merged: u32 = config_write_u16(self.config.dwords[at], off, val);
        self.config.dwords[at] = merged;
        assert(final(self).config.bytes() =~= old(self).config.bytes().update(
            off as int - off as int % 2,
            (val % 0x100) as u8,
        ).update(off as int - off as int % 2 + 1, (val / 0x100) as u8));
    }

    /// The dword that holds byte `off`, least significant byte first.
    pub fn config_read_u32(&self, off: u8) -> (r: u32)
        ensures
            r == self.config.u32_at(off as int - off as int % 4),
            r == self.config.dwords[off as int / 4],
    {
        config_read_u32(self.config.dwords[(off / 4) as usize])
    }

    /// Decodes BAR `idx`: nothing, an I/O range, or a 32- or 64-bit memory
    /// range. A 64-bit BAR takes its upper half from the next register.
    pub fn get_bar(&self, idx: u8) -> (bar: Bar)
        ensures
            bar == self.bar(idx),
    {
        let register: PCIConfigRegisters = match idx {
            0 => PCIConfigRegisters::PCIBAR0,
            1 => PCIConfigRegisters::PCIBAR1,
            2 => PCIConfigRegisters::PCIBAR2,
            3 => PCIConfigRegisters::PCIBAR3,
            4 => PCIConfigRegisters::PCIBAR4,
            _ => PCIConfigRegisters::PCIBAR5,
        };
        let low: u32 = self.config_read_u32(register.offset());
        let mut bar: u64 = low as u64;
        if bar == 0 {
            return Bar::Absent;
        }
        assert((low as u64 & 0x1 != 0) == (low % 2 == 1) && ((low as u64) & 0xFFFFFFFFFFFFFFFC)
            as u32 == (low - low % 4) as u32 && (low as u64 & 0x4 != 0) == (low / 4 % 2 == 1))
            by (bit_vector);
        let io: bool = bar & 0x1 != 0;
        if io {
            return Bar::Io((bar & 0xFFFFFFFFFFFFFFFC) as u32);
        }
        let bit64: bool = bar & 0x4 != 0;
        let not_last: bool = idx < 5;
        if bit64 && not_last {
            let high: u32 = self.config_read_u32(PCIConfigRegisters::PCIBAR0.offset() + (idx + 1) * 4);
            assert(((low as u64) | ((high as u64) << 32)) == (low as u64) + 0x1_0000_0000u64 * (
            high as u64)) by (bit_vector);
            bar |= (high as u64) << 32;
        }
        let masked: u64 = bar & 0xFFFFFFFFFFFFFFF0;
        assert(bar & 0xFFFFFFFFFFFFFFF0 == bar - bar % 16) by (bit_vector);
        if masked == 0 {
            return Bar::Absent;
        }
        Bar::Mm(masked)
    }

    /// Decodes all six BARs.
    pub fn get_bars(&self) -> (bars: [Bar; 6])
        ensures
            bars@ == self.bars(),
    {
        let mut bars: [Bar; 6] = [Bar::Absent;6];
        let mut idx: u8 = 0;
        while idx < 6
            invariant
                idx <= 6,
                forall|k: int| 0 <= k < idx ==> bars@[k] == self.bar(k as u8),
            decreases 6 - idx,
        {
            let bar: Bar = self.get_bar(idx);
            bars[idx as usize] = bar;
            idx += 1;
        }
        assert(bars@ =~= self.bars());
        bars
    }

    /// The interrupt line register.
    pub fn get_irq(&self) -> (r: u8)
        ensures
            r == self.config.bytes()[0x3C],
    {
        self.config_read_u8(PCIConfigRegisters::PCIInterruptLine.offset())
    }

    /// The interrupt pin register.
    pub fn get_ipin(&self) -> (r: u8)
        ensures
            r == self.config.bytes()[0x3D],
    {
        self.config_read_u8(PCIConfigRegisters::PCIInterruptPIN.offset())
    }
}

/// Number of function addresses on the bus: 256 buses of 32 slots of 8
/// functions.
pub const FUNCTION_COUNT: usize = 65536;

/// Vendor id read where no function answers.
pub const NO_VENDOR: u16 = 0xFFFF;

/// Whether the function at position `i` answers: its vendor id is not
/// the one read where nothing is.
pub open spec fn present(vendors: Seq<u16>, i: int) -> bool {
    vendors[i] != 0xFFFF
}

/// The positions below `n` at which a function answers, in bus order.
pub open spec fn enumerated(vendors: Seq<u16>, n: int) -> Seq<int>
    decreases n,
{
    if n <= 0 {
        Seq::empty()
    } else if present(vendors, n - 1) {
        enumerated(vendors, n - 1).push(n - 1)
    } else {
        enumerated(vendors, n - 1)
    }
}

/// Enumeration lists exactly the positions at which a function answers,
/// each once, in rising order.
pub proof fn lemma_enumerated(vendors: Seq<u16>, n: int)
    requires
        0 <= n,
    ensures
        forall|i: int|
            0 <= i < n && present(vendors, i) <==> #[trigger] enumerated(vendors, n).contains(i),
        forall|j: int, k: int|
            0 <= j < k < enumerated(vendors, n).len() ==> enumerated(vendors, n)[j] < enumerated(
                vendors,
                n,
            )[k],
        forall|k: int|
            0 <= k < enumerated(vendors, n).len() ==> 0 <= #[trigger] enumerated(vendors, n)[k]
                < n,
    decreases n,
{
    if n > 0 {
        lemma_enumerated(vendors, n - 1);
        let before = enumerated(vendors, n - 1);
        let now = enumerated(vendors, n);
        assert forall|i: int| 0 <= i < n && present(vendors, i) <==> #[trigger] now.contains(
            i,
        ) by {
            if present(vendors, n - 1) {
                assert(now[now.len() - 1] == n - 1);
                if before.contains(i) {
                    let k = choose|k: int| 0 <= k < before.len() && before[k] == i;
                    assert(now[k] == i);
                }
                if now.contains(i) {
                    let k = choose|k: int| 0 <= k < now.len() && now[k] == i;
                    if k < before.len() {
                        assert(before[k] == i);
                    }
                }
            }
        }
    }
}

/// The functions found on the bus.
pub struct Pcis {
    pub devs: Vec<Pci>,
}

impl Pcis {
    /// The positions of the devices, in the order they were found.
    pub open spec fn positions(self) -> Seq<int> {
        self.devs@.map_values(|p: Pci| p.index())
    }

    /// Enumerates the bus from a table with the vendor id read at every
    /// function address, in bus order. Every function whose vendor id is
    /// not 0xFFFF is recorded, once, in bus order, and no other. Each
    /// record starts with an all-zero configuration snapshot.
    pub fn new(vendors: &[u16; 65536]) -> (r: Self)
        ensures
            r.positions() == enumerated(vendors@, 65536),
            forall|i: int|
                0 <= i < 65536 && vendors@[i] != 0xFFFF <==> #[trigger] r.positions().contains(i),
            forall|j: int, k: int|
                0 <= j < k < r.devs.len() ==> r.positions()[j] < r.positions()[k],
            forall|k: int|
                0 <= k < r.devs.len() ==> (#[trigger] r.devs[k]).slot < 32 && r.devs[k].func < 8,
            forall|k: int| 0 <= k < r.devs.len() ==> (#[trigger] r.devs[k]).config.is_blank(),
    {
        let mut devs: Vec<Pci> = Vec::new();
        let mut i: usize = 0;
        while i < 65536
            invariant
                i <= 65536,
                devs@.map_values(|p: Pci| p.index()) == enumerated(vendors@, i as int),
                forall|k: int|
                    0 <= k < devs.len() ==> (#[trigger] devs[k]).slot < 32 && devs[k].func < 8,
                forall|k: int| 0 <= k < devs.len() ==> (#[trigger] devs[k]).config.is_blank(),
            decreases 65536 - i,
        {
            if vendors[i] != NO_VENDOR {
                let pci = Pci {
                    bus: (i / 256) as u8,
                    slot: (i / 8 % 32) as u8,
                    func: (i % 8) as u8,
                    config: ConfigSpace { dwords: [0u32;64] },
                };
                assert(pci.index() == i);
                let ghost before = devs@;
                devs.push(pci);
                assert(devs@.map_values(|p: Pci| p.index()) =~= before.map_values(
                    |p: Pci| p.index(),
                ).push(i as int));
            }
            i += 1;
        }
        proof {
            lemma_enumerated(vendors@, 65536);
        }
        Pcis { devs }
    }
}

} // verus!
