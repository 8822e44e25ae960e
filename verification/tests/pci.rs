use kernel_core::pci::{
    config_address, config_read_u16, config_read_u32, config_read_u8, config_write_u16,
    config_write_u32, config_write_u8, Bar, ConfigSpace, PCIConfigRegisters, Pci, Pcis,
};

fn blank(bus: u8, slot: u8, func: u8) -> Pci {
    Pci { bus, slot, func, config: ConfigSpace::new([0u32; 64]) }
}

#[test]
fn address_word_packs_bus_slot_function_offset() {
    assert_eq!(config_address(0, 0, 0, 0), 0x8000_0000);
    assert_eq!(config_address(1, 2, 3, 0x10), 0x8001_1310);
    assert_eq!(config_address(255, 31, 7, 0xff), 0x80ff_fffc);
    assert_eq!(config_address(0, 0, 0, 0x35), 0x8000_0034);
}

#[test]
fn register_offsets() {
    assert_eq!(PCIConfigRegisters::PCIVendorID.offset(), 0x0);
    assert_eq!(PCIConfigRegisters::PCIDeviceID.offset(), 0x2);
    assert_eq!(PCIConfigRegisters::PCIHeaderType.offset(), 0xE);
    assert_eq!(PCIConfigRegisters::PCIBAR0.offset(), 0x10);
    assert_eq!(PCIConfigRegisters::PCIBAR5.offset(), 0x24);
    assert_eq!(PCIConfigRegisters::PCICapabilitiesPointer.offset(), 0x34);
    assert_eq!(PCIConfigRegisters::PCIInterruptLine.offset(), 0x3C);
    assert_eq!(PCIConfigRegisters::PCIInterruptPIN.offset(), 0x3D);
}

#[test]
fn fields_of_a_dword() {
    let d = 0x4433_2211u32;
    assert_eq!(config_read_u32(d), d);
    assert_eq!(config_read_u16(d, 0), 0x2211);
    assert_eq!(config_read_u16(d, 1), 0x2211);
    assert_eq!(config_read_u16(d, 2), 0x4433);
    assert_eq!(config_read_u16(d, 0x13), 0x4433);
    assert_eq!(config_read_u8(d, 0), 0x11);
    assert_eq!(config_read_u8(d, 1), 0x22);
    assert_eq!(config_read_u8(d, 2), 0x33);
    assert_eq!(config_read_u8(d, 0x17), 0x44);
}

#[test]
fn merging_into_a_dword() {
    let d = 0x4433_2211u32;
    assert_eq!(config_write_u32(7), 7);
    assert_eq!(config_write_u16(d, 0, 0xaabb), 0x4433_aabb);
    assert_eq!(config_write_u16(d, 2, 0xaabb), 0xaabb_2211);
    assert_eq!(config_write_u16(d, 3, 0xaabb), 0xaabb_2211);
    assert_eq!(config_write_u8(d, 0, 0xee), 0x4433_22ee);
    assert_eq!(config_write_u8(d, 1, 0xee), 0x4433_ee11);
    assert_eq!(config_write_u8(d, 2, 0xee), 0x44ee_2211);
    assert_eq!(config_write_u8(d, 7, 0xee), 0xee33_2211);
}

#[test]
fn snapshot_reads_and_writes() {
    let mut pci = blank(0, 3, 0);
    pci.config_write_u16(0, 0x1af4);
    pci.config_write_u16(2, 0x1050);
    pci.config_write_u8(0x3C, 11);
    pci.config_write_u8(0x3D, 1);
    assert_eq!(pci.config.dwords[0], 0x1050_1af4);
    assert_eq!(pci.config_read_u16(0), 0x1af4);
    assert_eq!(pci.config_read_u16(2), 0x1050);
    assert_eq!(pci.config_read_u32(0), 0x1050_1af4);
    assert_eq!(pci.config_read_u32(3), 0x1050_1af4);
    assert_eq!(pci.config_read_u8(1), 0x1a);
    assert_eq!(pci.get_irq(), 11);
    assert_eq!(pci.get_ipin(), 1);
    assert_eq!((pci.bus, pci.slot, pci.func), (0, 3, 0));
}

#[test]
fn bars_decode() {
    let mut pci = blank(0, 0, 0);
    pci.config.dwords[4] = 0;
    pci.config.dwords[5] = 0x0000_c001;
    pci.config.dwords[6] = 0xfeb0_0000;
    pci.config.dwords[7] = 0xfe00_000c;
    pci.config.dwords[8] = 0x0000_0008;
    pci.config.dwords[9] = 0x0000_0004;
    assert_eq!(pci.get_bar(0), Bar::Absent);
    assert_eq!(pci.get_bar(1), Bar::Io(0xc000));
    assert_eq!(pci.get_bar(2), Bar::Mm(0xfeb0_0000));
    assert_eq!(pci.get_bar(3), Bar::Mm(0x0000_0008_fe00_0000));
    assert_eq!(pci.get_bar(4), Bar::Absent);
    assert_eq!(pci.get_bar(5), Bar::Absent);
    assert_eq!(pci.get_bar(9), Bar::Absent);
    pci.config.dwords[9] = 0x1000_0004;
    pci.config.dwords[10] = 0xffff_ffff;
    assert_eq!(pci.get_bar(5), Bar::Mm(0x1000_0000));
    let bars = pci.get_bars();
    assert_eq!(bars[1], Bar::Io(0xc000));
    assert_eq!(bars[3], Bar::Mm(0x0000_0008_fe00_0000));
    assert_eq!(bars[5], Bar::Mm(0x1000_0000));
}

#[test]
fn wide_bar_with_only_high_half() {
    let mut pci = blank(0, 0, 0);
    pci.config.dwords[4] = 0x0000_0004;
    pci.config.dwords[5] = 0x0000_0001;
    assert_eq!(pci.get_bar(0), Bar::Mm(0x1_0000_0000));
}

#[test]
fn enumeration_lists_present_functions() {
    let mut vendors = vec![0xffffu16; 65536];
    vendors[0] = 0x8086;
    vendors[1] = 0x8086;
    vendors[8] = 0x1af4;
    vendors[9] = 0x1af4;
    vendors[11] = 0x1af4;
    vendors[18] = 0x1234;
    vendors[256 * 3 + 8 * 31 + 7] = 0x1af4;
    vendors[65535] = 0;
    let table: [u16; 65536] = vendors.try_into().unwrap();
    let pcis = Pcis::new(&table);
    let found: Vec<(u8, u8, u8)> = pcis.devs.iter().map(|p| (p.bus, p.slot, p.func)).collect();
    assert_eq!(
        found,
        vec![
            (0, 0, 0),
            (0, 0, 1),
            (0, 1, 0),
            (0, 1, 1),
            (0, 1, 3),
            (0, 2, 2),
            (3, 31, 7),
            (255, 31, 7)
        ]
    );
    assert!(pcis.devs.iter().all(|p| p.config.dwords.iter().all(|d| *d == 0)));
}

#[test]
fn enumeration_of_an_empty_bus() {
    let table = [0xffffu16; 65536];
    assert!(Pcis::new(&table).devs.is_empty());
}

#[test]
fn enumeration_of_a_full_bus() {
    let table = [0x1af4u16; 65536];
    let pcis = Pcis::new(&table);
    assert_eq!(pcis.devs.len(), 65536);
    assert!(pcis
        .devs
        .iter()
        .enumerate()
        .all(|(i, p)| p.bus as usize * 256 + p.slot as usize * 8 + p.func as usize == i));
}
