use kernel_core::ioapic::{rewrite_entry, IoApic, RedTbl, RegisterWrite};
use kernel_core::local_apic::{disable_pic, timer_initial_count, timer_setup, LocalApic, PortWrite};

#[test]
fn redirection_entry_round_trip() {
    let n = 0xab00_0000_0000_a531u64;
    let t = RedTbl::new(n);
    assert_eq!(
        t,
        RedTbl {
            vector: 0x31,
            delivery_mode: 1,
            destination_mode: true,
            delivery_status: false,
            pin_polarity: false,
            remote_irr: true,
            trigger_mode: false,
            mask: true,
            destination: 0xab,
        }
    );
    assert_eq!(t.store(), n);
    assert_eq!(RedTbl::new(0), RedTbl::new(0x00ff_ffff_ffff_0000));
    assert_eq!(RedTbl::new(0).store(), 0);
    assert_eq!(RedTbl::new(u64::MAX).store(), 0xff00_0000_0000_ffff);
    assert_eq!(RedTbl::new(0x1234_5678_9abc_def0).store(), 0x1200_0000_0000_def0);
}

#[test]
fn redirection_entry_fields_each_have_their_bit() {
    let zero = RedTbl::new(0);
    assert_eq!(RedTbl { vector: 0xff, ..zero }.store(), 0xff);
    assert_eq!(RedTbl { delivery_mode: 3, ..zero }.store(), 0x300);
    assert_eq!(RedTbl { destination_mode: true, ..zero }.store(), 1 << 10);
    assert_eq!(RedTbl { delivery_status: true, ..zero }.store(), 1 << 11);
    assert_eq!(RedTbl { pin_polarity: true, ..zero }.store(), 1 << 12);
    assert_eq!(RedTbl { remote_irr: true, ..zero }.store(), 1 << 13);
    assert_eq!(RedTbl { trigger_mode: true, ..zero }.store(), 1 << 14);
    assert_eq!(RedTbl { mask: true, ..zero }.store(), 1 << 15);
    assert_eq!(RedTbl { destination: 0xff, ..zero }.store(), 0xff << 56);
    assert_eq!(RedTbl { delivery_mode: 0xff, mask: true, ..zero }.store(), 0xff00 + 0x8000);
}

#[test]
fn entries_are_rewritten_to_vector_fifty_plus_irq() {
    assert_eq!(rewrite_entry(0x0100_0000_0001_00ff, 0), 0x0100_0000_0000_0032);
    assert_eq!(rewrite_entry(0x0100_0000_0000_a900, 23), 0x0100_0000_0000_a949);
    for irq in 0..24u8 {
        assert_eq!(RedTbl::new(rewrite_entry(0xdead_beef, irq)).vector, 50 + irq);
    }
}

#[test]
fn ioapic_registers() {
    let io = IoApic::init(2, 0xfec0_0000, 24, 0x1_0000_0000_0000);
    assert_eq!(
        io,
        IoApic { virt_address: 0x1_0000_fec0_0000, global_system_int: 24, id: 2 }
    );
    assert_eq!(io.set_sel(0x12), RegisterWrite { addr: 0x1_0000_fec0_0000, value: 0x12 });
    assert_eq!(io.data_address(), 0x1_0000_fec0_0010);
    assert_eq!(IoApic::redtlb_registers(0), (0x10, 0x11));
    assert_eq!(IoApic::redtlb_registers(23), (0x3e, 0x3f));
    assert_eq!(IoApic::read_redtlb(0x89ab_cdef, 0x0123_4567), 0x0123_4567_89ab_cdef);
    assert_eq!(IoApic::write_redtlb(0x0123_4567_89ab_cdef), (0xcdef, 0x0123_4567));
}

#[test]
fn local_apic_registers() {
    let apic = LocalApic::init(0xfee0_0000, 0x2000_0000_0000);
    assert_eq!(apic.virt_address, 0x2000_fee0_0000);
    assert_eq!(apic.register(0x320), 0x2000_fee0_0320);
    assert_eq!(apic.eoi(), RegisterWrite { addr: 0x2000_fee0_00b0, value: 0 });
    assert_eq!(apic.set_lvt_error(49), RegisterWrite { addr: 0x2000_fee0_0370, value: 49 });
    assert_eq!(
        apic.set_icr(0x0123_4567_89ab_cdef),
        (
            RegisterWrite { addr: 0x2000_fee0_0310, value: 0x0123_4567 },
            RegisterWrite { addr: 0x2000_fee0_0300, value: 0x89ab_cdef },
        )
    );
    assert_eq!(LocalApic::icr(0x89ab_cdef, 0x0123_4567), 0x0123_4567_89ab_cdef);
    assert_eq!(LocalApic::enabled(0), 0x1ff);
    assert_eq!(LocalApic::enabled(0xffff_fe00), 0xffff_ffff);
    assert_eq!(LocalApic::enabled(0x0000_0a0f), 0x0000_0bff);
    assert!(LocalApic::is_pending(0x1000));
    assert!(LocalApic::is_pending(0xffff_ffff));
    assert!(!LocalApic::is_pending(0xffff_efff));
    assert_eq!(LocalApic::ipi(0), 0x4040);
    assert_eq!(LocalApic::ipi(3), 0x0300_0000_0000_4040);
    assert_eq!(LocalApic::ipi_nmi(3), 0x0300_0000_0000_4400);
}

#[test]
fn timer_is_set_up_for_a_thousand_ticks_a_second() {
    assert_eq!(timer_initial_count(None), 1_000_000);
    assert_eq!(timer_initial_count(Some(24_000_000)), 24_000);
    assert_eq!(timer_initial_count(Some(999)), 0);
    let apic = LocalApic { virt_address: 0x1000 };
    assert_eq!(
        timer_setup(&apic, Some(5_000_000)),
        [
            RegisterWrite { addr: 0x13e0, value: 0b1011 },
            RegisterWrite { addr: 0x1320, value: (1 << 17) + 48 },
            RegisterWrite { addr: 0x1380, value: 5000 },
        ]
    );
}

#[test]
fn legacy_controllers_are_silenced_step_by_step() {
    let writes: Vec<(u16, u8)> = disable_pic().iter().map(|w| (w.port, w.value)).collect();
    let steps = [
        (0x20, 0x11),
        (0xa0, 0x11),
        (0x21, 0xf0),
        (0xa1, 0xf8),
        (0x21, 0x04),
        (0xa1, 0x02),
        (0x21, 0x01),
        (0xa1, 0x01),
        (0x21, 0xff),
        (0xa1, 0xff),
    ];
    let mut expected = Vec::new();
    for s in steps {
        expected.push(s);
        expected.push((0x80, 0));
    }
    assert_eq!(writes, expected);
    assert_eq!(disable_pic()[0], PortWrite { port: 0x20, value: 0x11 });
}
