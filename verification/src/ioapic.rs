//! The I/O APIC: its register window and the entries of its redirection
//! table.

use vstd::prelude::*;

verus! {

/// Register that holds the id of the I/O APIC.
pub const IOAPICID: u32 = 0;

/// Register that holds the version of the I/O APIC.
pub const IOAPICVER: u32 = 1;

/// Number of entries of the redirection table that the kernel rewrites.
pub const REDIRECTION_ENTRIES: u32 = 24;

/// One I/O APIC: where its register window is mapped, the first
/// interrupt it serves, and its id.
#[derive(Clone, Copy, Debug, PartialEq, Eq, Structural)]
pub struct IoApic {
    pub virt_address: u64,
    pub global_system_int: u32,
    pub id: u8,
}

/// A 32-bit write to a memory-mapped register.
#[derive(Clone, Copy, Debug, PartialEq, Eq, Structural)]
pub struct RegisterWrite {
    pub addr: u64,
    pub value: u32,
}

impl IoApic {
    /// The I/O APIC with the given id whose registers lie at physical
    /// address `address`, where physical memory is mapped at
    /// `mapping_offset`.
    pub fn init(id: u8, address: u32, global_system_interrupt_base: u32, mapping_offset: u64) -> (r:
        Self)
        requires
            mapping_offset + address + 0x10 <= u64::MAX,
        ensures
            r.id == id,
            r.virt_address == mapping_offset + address,
            r.global_system_int == global_system_interrupt_base,
    {
        IoApic {
            id,
            virt_address: mapping_offset + address as u64,
            global_system_int: global_system_interrupt_base,
        }
    }

    /// The write that selects register `reg`: the register number, to the
    /// start of the window.
    pub fn set_sel(&self, reg: u32) -> (w: RegisterWrite)
        ensures
            w == (RegisterWrite { addr: self.virt_address, value: reg }),
    {
        RegisterWrite { addr: self.virt_address, value: reg }
    }

    /// Where the selected register is read and written: 16 bytes into
    /// the window.
    pub fn data_address(&self) -> (addr: u64)
        requires
            self.virt_address + 0x10 <= u64::MAX,
        ensures
            addr == self.virt_address + 0x10,
    {
        self.virt_address + 0x10
    }

    /// The two registers that hold entry `index` of the redirection
    /// table, the low half first.
    pub fn redtlb_registers(index: u32) -> (regs: (u32, u32))
        requires
            index < 0x7fff_fff0,
        ensures
            regs.0 == 0x10 + 2 * index,
            regs.1 == 0x10 + 2 * index + 1,
    {
        (0x10 + 2 * index, 0x10 + 2 * index + 1)
    }

    /// The entry of the redirection table whose two registers read `low`
    /// and `high`.
    pub fn read_redtlb(low: u32, high: u32) -> (entry: u64)
        ensures
            entry == high as int * 0x1_0000_0000 + low,
    {
        (high as u64) * 0x1_0000_0000 + (low as u64)
    }

    /// What to write to the two registers of an entry of the redirection
    /// table: the low 16 bits of the entry to the first, the high 32 bits
    /// to the second.
    pub fn write_redtlb(redtlb: u64) -> (words: (u32, u32))
        ensures
            words.0 == redtlb % 0x1_0000,
            words.1 == redtlb / 0x1_0000_0000,
    {
        ((redtlb % 0x1_0000) as u32, (redtlb / 0x1_0000_0000) as u32)
    }
}

/// One entry of the redirection table, taken apart.
#[derive(Clone, Copy, Debug, PartialEq, Eq, Structural)]
pub struct RedTbl {
    pub vector: u8,
    pub delivery_mode: u8,
    pub destination_mode: bool,
    pub delivery_status: bool,
    pub pin_polarity: bool,
    pub remote_irr: bool,
    pub trigger_mode: bool,
    pub mask: bool,
    pub destination: u8,
}

/// One if the flag is set, zero if not.
pub open spec fn bit(flag: bool) -> int {
    if flag {
        1
    } else {
        0
    }
}

impl RedTbl {
    /// The entry that the 64-bit value `n` stands for: the vector in bits
    /// 0 to 7, the delivery mode in bits 8 and 9, six flags in bits 10 to
    /// 15, and the destination in bits 56 to 63.
    pub open spec fn decoded(n: u64) -> RedTbl {
        RedTbl {
            vector: (n % 0x100) as u8,
            delivery_mode: (n / 0x100 % 4) as u8,
            destination_mode: n / 0x400 % 2 == 1,
            delivery_status: n / 0x800 % 2 == 1,
            pin_polarity: n / 0x1000 % 2 == 1,
            remote_irr: n / 0x2000 % 2 == 1,
            trigger_mode: n / 0x4000 % 2 == 1,
            mask: n / 0x8000 % 2 == 1,
            destination: (n / 0x100_0000_0000_0000) as u8,
        }
    }

    /// The 64-bit value that stands for the entry: the sum of its fields,
    /// each moved to its place.
    pub open spec fn encoded(self) -> int {
        self.destination as int * 0x100_0000_0000_0000 + self.vector as int
            + self.delivery_mode as int * 0x100 + bit(self.destination_mode) * 0x400 + bit(
            self.delivery_status,
        ) * 0x800 + bit(self.pin_polarity) * 0x1000 + bit(self.remote_irr) * 0x2000 + bit(
            self.trigger_mode,
        ) * 0x4000 + bit(self.mask) * 0x8000
    }

    /// Takes an entry apart.
    pub fn new(n: u64) -> (r: Self)
        ensures
            r == Self::decoded(n),
            r.delivery_mode < 4,
    {
        let mut c: u64 = n;
        let vector: u8 = (c % 0x100) as u8;
        c = c / 0x100;
        let delivery_mode: u8 = (c % 4) as u8;
        c = c / 4;
        let destination_mode: bool = c % 2 != 0;
        c = c / 2;
        let delivery_status: bool = c % 2 != 0;
        c = c / 2;
        let pin_polarity: bool = c % 2 != 0;
        c = c / 2;
        let remote_irr: bool = c % 2 != 0;
        c = c / 2;
        let trigger_mode: bool = c % 2 != 0;
        c = c / 2;
        let mask: bool = c % 2 != 0;
        let destination: u8 = (n / 0x100_0000_0000_0000) as u8;
        Self {
            vector,
            delivery_mode,
            destination_mode,
            delivery_status,
            pin_polarity,
            remote_irr,
            trigger_mode,
            mask,
            destination,
        }
    }

    /// Puts an entry together.
    pub fn store(&self) -> (r: u64)
        ensures
            r == self.encoded(),
    {
        let mut r: u64 = 0;
        r += (self.destination as u64) * 0x100_0000_0000_0000;
        r += self.vector as u64;
        r += (self.delivery_mode as u64) * 0x100;
        r += if self.destination_mode {
            0x400
        } else {
            0
        };
        r += if self.delivery_status {
            0x800
        } else {
            0
        };
        r += if self.pin_polarity {
            0x1000
        } else {
            0
        };
        r += if self.remote_irr {
            0x2000
        } else {
            0
        };
        r += if self.trigger_mode {
            0x4000
        } else {
            0
        };
        r += if self.mask {
            0x8000
        } else {
            0
        };
        r
    }
}

/// The entry for interrupt input `irq` with its vector replaced by
/// `50 + irq`, as the kernel rewrites every entry at boot.
pub fn rewrite_entry(n: u64, irq: u8) -> (r: u64)
    requires
        irq < 24,
    ensures
        r == (RedTbl { vector: (50 + irq) as u8, ..RedTbl::decoded(n) }).encoded(),
        RedTbl::decoded(r).vector == 50 + irq,
{
    let mut red: RedTbl = RedTbl::new(n);
    red.vector = 50 + irq;
    let r: u64 = red.store();
    proof {
        lemma_store_then_new(red);
    }
    r
}

/// Taking apart what was put together gives the entry back, for a
/// delivery mode that fits in its two bits.
pub proof fn lemma_store_then_new(t: RedTbl)
    requires
        t.delivery_mode < 4,
    ensures
        t.encoded() <= u64::MAX,
        RedTbl::decoded(t.encoded() as u64) == t,
{
    let v: u64 = t.vector as u64;
    let dm: u64 = t.delivery_mode as u64;
    let dest: u64 = t.destination as u64;
    let f0: u64 = bit(t.destination_mode) as u64;
    let f1: u64 = bit(t.delivery_status) as u64;
    let f2: u64 = bit(t.pin_polarity) as u64;
    let f3: u64 = bit(t.remote_irr) as u64;
    let f4: u64 = bit(t.trigger_mode) as u64;
    let f5: u64 = bit(t.mask) as u64;
    let n: u64 = t.encoded() as u64;
    assert(n == t.encoded());
    assert(n % 0x100 == v && n / 0x100 % 4 == dm && n / 0x400 % 2 == f0 && n / 0x800 % 2 == f1
        && n / 0x1000 % 2 == f2 && n / 0x2000 % 2 == f3 && n / 0x4000 % 2 == f4 && n / 0x8000 % 2
        == f5 && n / 0x100_0000_0000_0000 == dest) by (bit_vector)
        requires
            v < 0x100,
            dm < 4,
            dest < 0x100,
            f0 < 2,
            f1 < 2,
            f2 < 2,
            f3 < 2,
            f4 < 2,
            f5 < 2,
            n == dest * 0x100_0000_0000_0000 + v + dm * 0x100 + f0 * 0x400 + f1 * 0x800 + f2
                * 0x1000 + f3 * 0x2000 + f4 * 0x4000 + f5 * 0x8000,
    ;
}

} // verus!
