//! The local APIC: its registers, the values that configure its timer,
//! and the sequence of port writes that silences the legacy interrupt
//! controllers.

use crate::ioapic::RegisterWrite;
use vstd::prelude::*;

verus! {

/// Register: the id of the local APIC.
pub const REG_ID: u32 = 0x20;

/// Register: the version of the local APIC.
pub const REG_VERSION: u32 = 0x30;

/// Register: end of interrupt.
pub const REG_EOI: u32 = 0xB0;

/// Register: spurious interrupt vector.
pub const REG_SPURIOUS: u32 = 0xF0;

/// Register: error status.
pub const REG_ESR: u32 = 0x280;

/// Register: low half of the interrupt command.
pub const REG_ICR_LOW: u32 = 0x300;

/// Register: high half of the interrupt command.
pub const REG_ICR_HIGH: u32 = 0x310;

/// Register: local vector table entry of the timer.
pub const REG_LVT_TIMER: u32 = 0x320;

/// Register: local vector table entry of errors.
pub const REG_LVT_ERROR: u32 = 0x370;

/// Register: initial count of the timer.
pub const REG_INIT_COUNT: u32 = 0x380;

/// Register: current count of the timer.
pub const REG_CUR_COUNT: u32 = 0x390;

/// Register: divide configuration of the timer.
pub const REG_DIV_CONF: u32 = 0x3E0;

/// Divide configuration that the kernel sets.
pub const TIMER_DIVIDE: u32 = 0b1011;

/// Timer entry that the kernel sets: periodic mode, vector 48.
pub const TIMER_LVT: u32 = 0x2_0030;

/// Ticks of the timer per second that the kernel aims at.
pub const TIMER_HZ: u32 = 1000;

/// Frequency assumed when the processor does not report one.
pub const DEFAULT_FREQUENCY: u32 = 1_000_000_000;

/// Bit of the low interrupt command register that is set while a
/// command is being delivered.
pub const ICR_PENDING: u32 = 0x1000;

/// The local APIC, by the address at which its registers are mapped.
#[derive(Clone, Copy, Debug, PartialEq, Eq, Structural)]
pub struct LocalApic {
    pub virt_address: u64,
}

impl LocalApic {
    /// The local APIC whose registers lie at physical address
    /// `local_apic_address`, where physical memory is mapped at
    /// `mapping_offset`.
    pub fn init(local_apic_address: u64, mapping_offset: u64) -> (r: Self)
        requires
            mapping_offset + local_apic_address <= u64::MAX,
        ensures
            r.virt_address == mapping_offset + local_apic_address,
    {
        LocalApic { virt_address: mapping_offset + local_apic_address }
    }

    /// The address of register `reg`.
    pub fn register(&self, reg: u32) -> (addr: u64)
        requires
            self.virt_address + reg <= u64::MAX,
        ensures
            addr == self.virt_address + reg,
    {
        self.virt_address + reg as u64
    }

    /// The value to write to the spurious interrupt vector register to
    /// switch the local APIC on: what was read, with the low nine bits
    /// set.
    pub fn enabled(spurious: u32) -> (r: u32)
        ensures
            r == spurious - spurious % 0x200 + 0x1FF,
    {
        spurious - spurious % 0x200 + 0x1FF
    }

    /// The interrupt command from its two registers.
    pub fn icr(low: u32, high: u32) -> (r: u64)
        ensures
            r == high as int * 0x1_0000_0000 + low,
    {
        (high as u64) * 0x1_0000_0000 + (low as u64)
    }

    /// Whether a command is still being delivered, going by the low
    /// interrupt command register.
    pub fn is_pending(low: u32) -> (r: bool)
        ensures
            r == (low / 0x1000 % 2 == 1),
    {
        low / 0x1000 % 2 == 1
    }

    /// The two writes that issue an interrupt command: the high half
    /// first, then the low half, which sends it.
    pub fn set_icr(&self, value: u64) -> (writes: (RegisterWrite, RegisterWrite))
        requires
            self.virt_address + 0x310 <= u64::MAX,
        ensures
            writes.0 == (RegisterWrite {
                addr: (self.virt_address + 0x310) as u64,
                value: (value / 0x1_0000_0000) as u32,
            }),
            writes.1 == (RegisterWrite {
                addr: (self.virt_address + 0x300) as u64,
                value: (value % 0x1_0000_0000) as u32,
            }),
    {
        (
            RegisterWrite {
                addr: self.register(REG_ICR_HIGH),
                value: (value / 0x1_0000_0000) as u32,
            },
            RegisterWrite {
                addr: self.register(REG_ICR_LOW),
                value: (value % 0x1_0000_0000) as u32,
            },
        )
    }

    /// The interrupt command that sends vector 0x40 to the processor with
    /// id `apic_id`.
    pub fn ipi(apic_id: u8) -> (icr: u64)
        ensures
            icr == 0x4040 + apic_id as int * 0x100_0000_0000_0000,
    {
        0x4040 + (apic_id as u64) * 0x100_0000_0000_0000
    }

    /// The interrupt command that sends a non-maskable interrupt to the
    /// processor with id `apic_id`.
    pub fn ipi_nmi(apic_id: u8) -> (icr: u64)
        ensures
            icr == apic_id as int * 0x100_0000_0000_0000 + 0x4000 + 0x400,
    {
        (apic_id as u64) * 0x100_0000_0000_0000 + 0x4000 + 0x400
    }

    /// The write that acknowledges an interrupt.
    pub fn eoi(&self) -> (w: RegisterWrite)
        requires
            self.virt_address + 0xB0 <= u64::MAX,
        ensures
            w == (RegisterWrite { addr: (self.virt_address + 0xB0) as u64, value: 0 }),
    {
        RegisterWrite { addr: self.register(REG_EOI), value: 0 }
    }

    /// The write that sets the timer's entry in the local vector table.
    pub fn set_lvt_timer(&self, value: u32) -> (w: RegisterWrite)
        requires
            self.virt_address + 0x320 <= u64::MAX,
        ensures
            w == (RegisterWrite { addr: (self.virt_address + 0x320) as u64, value }),
    {
        RegisterWrite { addr: self.register(REG_LVT_TIMER), value }
    }

    /// The write that sets the initial count of the timer.
    pub fn set_init_count(&self, initial_count: u32) -> (w: RegisterWrite)
        requires
            self.virt_address + 0x380 <= u64::MAX,
        ensures
            w == (RegisterWrite { addr: (self.virt_address + 0x380) as u64, value: initial_count }),
    {
        RegisterWrite { addr: self.register(REG_INIT_COUNT), value: initial_count }
    }

    /// The write that sets the divide configuration of the timer.
    pub fn set_div_conf(&self, div_conf: u32) -> (w: RegisterWrite)
        requires
            self.virt_address + 0x3E0 <= u64::MAX,
        ensures
            w == (RegisterWrite { addr: (self.virt_address + 0x3E0) as u64, value: div_conf }),
    {
        RegisterWrite { addr: self.register(REG_DIV_CONF), value: div_conf }
    }

    /// The write that sets the error entry in the local vector table.
    pub fn set_lvt_error(&self, lvt_error: u32) -> (w: RegisterWrite)
        requires
            self.virt_address + 0x370 <= u64::MAX,
        ensures
            w == (RegisterWrite { addr: (self.virt_address + 0x370) as u64, value: lvt_error }),
    {
        RegisterWrite { addr: self.register(REG_LVT_ERROR), value: lvt_error }
    }
}

/// The initial count that makes the timer tick about a thousand times a
/// second: a thousandth of the processor's nominal frequency, or of
/// 10^9 if the processor reports none.
pub fn timer_initial_count(nominal_frequency: Option<u32>) -> (count: u32)
    ensures
        count == match nominal_frequency {
            Some(f) => f / 1000,
            None => 1_000_000,
        },
{
    let freq: u32 = match nominal_frequency {
        Some(f) => f,
        None => DEFAULT_FREQUENCY,
    };
    freq / TIMER_HZ
}

/// The three writes that start the timer, in order: divide
/// configuration, timer entry, initial count.
pub fn timer_setup(apic: &LocalApic, nominal_frequency: Option<u32>) -> (writes: [RegisterWrite; 3])
    requires
        apic.virt_address + 0x3E0 <= u64::MAX,
    ensures
        writes@ == seq![
            RegisterWrite { addr: (apic.virt_address + 0x3E0) as u64, value: 0b1011 },
            RegisterWrite { addr: (apic.virt_address + 0x320) as u64, value: 0x2_0030 },
            RegisterWrite {
                addr: (apic.virt_address + 0x380) as u64,
                value: match nominal_frequency {
                    Some(f) => f / 1000,
                    None => 1_000_000u32,
                },
            },
        ],
{
    let writes: [RegisterWrite; 3] = [
        apic.set_div_conf(TIMER_DIVIDE),
        apic.set_lvt_timer(TIMER_LVT),
        apic.set_init_count(timer_initial_count(nominal_frequency)),
    ];
    assert(writes@ =~= seq![
        RegisterWrite { addr: (apic.virt_address + 0x3E0) as u64, value: 0b1011 },
        RegisterWrite { addr: (apic.virt_address + 0x320) as u64, value: 0x2_0030 },
        RegisterWrite {
            addr: (apic.virt_address + 0x380) as u64,
            value: match nominal_frequency {
                Some(f) => f / 1000,
                None => 1_000_000u32,
            },
        },
    ]);
    writes
}

/// A write of one byte to an I/O port.
#[derive(Clone, Copy, Debug, PartialEq, Eq, Structural)]
pub struct PortWrite {
    pub port: u16,
    pub value: u8,
}

/// Command port of the first legacy interrupt controller.
pub const PIC0_COMMAND: u16 = 0x20;

/// Data port of the first legacy interrupt controller.
pub const PIC0_DATA: u16 = 0x21;

/// Command port of the second legacy interrupt controller.
pub const PIC1_COMMAND: u16 = 0xA0;

/// Data port of the second legacy interrupt controller.
pub const PIC1_DATA: u16 = 0xA1;

/// Port that is written to only to let time pass.
pub const WAIT_PORT: u16 = 0x80;

/// The value written in step `step` of silencing the legacy interrupt
/// controllers, and whether it goes to the second controller. The steps
/// are: start initialisation, vector offset, chaining, mode, and a mask
/// that closes every line.
pub open spec fn pic_step(step: int) -> PortWrite {
    if step == 0 {
        PortWrite { port: 0x20, value: 0x11 }
    } else if step == 1 {
        PortWrite { port: 0xA0, value: 0x11 }
    } else if step == 2 {
        PortWrite { port: 0x21, value: 0xf0 }
    } else if step == 3 {
        PortWrite { port: 0xA1, value: 0xf8 }
    } else if step == 4 {
        PortWrite { port: 0x21, value: 0x4 }
    } else if step == 5 {
        PortWrite { port: 0xA1, value: 0x2 }
    } else if step == 6 {
        PortWrite { port: 0x21, value: 0x1 }
    } else if step == 7 {
        PortWrite { port: 0xA1, value: 0x1 }
    } else if step == 8 {
        PortWrite { port: 0x21, value: 0xff }
    } else {
        PortWrite { port: 0xA1, value: 0xff }
    }
}

/// Write `i` of silencing the legacy interrupt controllers: the steps
/// in order, each followed by a write of zero to the wait port.
pub open spec fn pic_write(i: int) -> PortWrite {
    if i % 2 == 0 {
        pic_step(i / 2)
    } else {
        PortWrite { port: 0x80, value: 0 }
    }
}

/// The port writes that silence the two legacy interrupt controllers:
/// ten steps, each followed by a write to the wait port.
pub fn disable_pic() -> (writes: Vec<PortWrite>)
    ensures
        writes@.len() == 20,
        forall|i: int| 0 <= i < 20 ==> writes@[i] == pic_write(i),
{
    let steps: [PortWrite; 10] = [
        PortWrite { port: PIC0_COMMAND, value: 0x11 },
        PortWrite { port: PIC1_COMMAND, value: 0x11 },
        PortWrite { port: PIC0_DATA, value: 0xf0 },
        PortWrite { port: PIC1_DATA, value: 0xf8 },
        PortWrite { port: PIC0_DATA, value: 0x4 },
        PortWrite { port: PIC1_DATA, value: 0x2 },
        PortWrite { port: PIC0_DATA, value: 0x1 },
        PortWrite { port: PIC1_DATA, value: 0x1 },
        PortWrite { port: PIC0_DATA, value: 0xff },
        PortWrite { port: PIC1_DATA, value: 0xff },
    ];
    let mut writes: Vec<PortWrite> = Vec::with_capacity(20);
    let mut k: usize = 0;
    while k < 10
        invariant
            k <= 10,
            writes@.len() == 2 * k,
            forall|j: int| 0 <= j < 10 ==> steps@[j] == pic_step(j),
            forall|i: int| 0 <= i < 2 * k ==> writes@[i] == pic_write(i),
        decreases 10 - k,
    {
        writes.push(steps[k]);
        writes.push(PortWrite { port: WAIT_PORT, value: 0 });
        k += 1;
    }
    writes
}

} // verus!
