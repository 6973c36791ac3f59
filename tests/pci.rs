use osboot::pci::{is_single_function_device, ClassCode, PciConfig, PciDevice, PciError, MAX_DEVICES};
use osboot::pci_scan::{PciScanner, ScanStep};

/// A function present in a simulated configuration space.
struct Function {
    bus: u8,
    device: u8,
    function: u8,
    vendor: u16,
    class: (u8, u8, u8),
    header: u8,
    secondary_bus: u8,
}

fn read(space: &[Function], config: PciConfig, register: u8) -> u32 {
    let f = space
        .iter()
        .find(|f| f.bus == config.bus && f.device == config.device && f.function == config.function);
    match (f, register) {
        (None, _) => 0xffff_ffff,
        (Some(f), 0) => 0x1111_0000 | f.vendor as u32,
        (Some(f), 2) => ((f.class.0 as u32) << 24) | ((f.class.1 as u32) << 16) | ((f.class.2 as u32) << 8) | 0x01,
        (Some(f), 3) => (f.header as u32) << 16 | 0x10,
        (Some(f), 6) => (f.secondary_bus as u32) << 8 | 0xff00_0000,
        _ => 0,
    }
}

fn scan(space: &[Function]) -> (Result<(), PciError>, Vec<PciDevice>) {
    let (mut scanner, mut step) = PciScanner::new();
    loop {
        match step {
            ScanStep::Read { config, register } => step = scanner.feed(read(space, config, register)),
            ScanStep::Done(r) => return (r, scanner.devices().iter().copied().collect()),
        }
    }
}

fn func(bus: u8, device: u8, function: u8, vendor: u16, class: (u8, u8, u8), header: u8) -> Function {
    Function { bus, device, function, vendor, class, header, secondary_bus: 0 }
}

#[test]
fn address_selects_bus_device_function_and_register() {
    let c = PciConfig { bus: 1, device: 2, function: 3 };
    assert_eq!(c.make_address(6), 0x8001_1318);
    assert_eq!(PciConfig { bus: 0, device: 0, function: 0 }.make_address(0), 0x8000_0000);
    assert_eq!(PciConfig { bus: 0xff, device: 31, function: 7 }.make_address(63), 0x80ff_fffc);
}

#[test]
fn registers_decode_into_fields() {
    assert_eq!(PciConfig::vendor_id(0x1237_8086), 0x8086);
    assert_eq!(PciConfig::device_id(0x1237_8086), 0x1237);
    assert_eq!(
        PciConfig::class_code(0x0604_0012),
        ClassCode { base: 0x06, sub: 0x04, interface: 0x00 }
    );
    assert_eq!(PciConfig::header_type(0x0081_0000), 0x81);
    assert_eq!(PciConfig::secondary_bus(0x0002_0100), 0x01);
    assert!(PciConfig::is_invalid_vendor_id(0xffff));
    assert!(!PciConfig::is_invalid_vendor_id(0x8086));
    assert!(is_single_function_device(0x00));
    assert!(!is_single_function_device(0x80));
    assert!(ClassCode { base: 6, sub: 4, interface: 1 }.is_pci_bridge());
    assert!(!ClassCode { base: 6, sub: 0, interface: 0 }.is_pci_bridge());
}

#[test]
fn scan_descends_behind_bridges() {
    let mut bridge = func(0, 3, 0, 0x8086, (0x06, 0x04, 0x00), 0x01);
    bridge.secondary_bus = 1;
    let space = vec![
        func(0, 0, 0, 0x8086, (0x06, 0x00, 0x00), 0x00),
        func(0, 2, 0, 0x1234, (0x03, 0x00, 0x00), 0x00),
        bridge,
        func(1, 0, 0, 0x1af4, (0x01, 0x00, 0x00), 0x00),
    ];
    let (result, devices) = scan(&space);
    assert_eq!(result, Ok(()));
    let found: Vec<(u8, u8, u8, u16)> = devices.iter().map(|d| (d.bus, d.device, d.function, d.vendor_id)).collect();
    assert_eq!(found, vec![(0, 0, 0, 0x8086), (0, 2, 0, 0x1234), (0, 3, 0, 0x8086), (1, 0, 0, 0x1af4)]);
    assert_eq!(devices[1].class_code, ClassCode { base: 0x03, sub: 0x00, interface: 0x00 });
    assert_eq!(devices[2].header_type, 0x01);
}

#[test]
fn scan_visits_every_function_of_a_multi_function_device() {
    let space = vec![
        func(0, 0, 0, 0x8086, (0x06, 0x00, 0x00), 0x00),
        func(0, 4, 0, 0x8086, (0x0c, 0x03, 0x00), 0x80),
        func(0, 4, 2, 0x8086, (0x0c, 0x03, 0x20), 0x00),
    ];
    let (result, devices) = scan(&space);
    assert_eq!(result, Ok(()));
    let found: Vec<(u8, u8, u8)> = devices.iter().map(|d| (d.bus, d.device, d.function)).collect();
    assert_eq!(found, vec![(0, 0, 0), (0, 4, 0), (0, 4, 2)]);
}

#[test]
fn scan_of_a_multi_function_host_bridge_walks_its_functions() {
    let space = vec![
        func(0, 0, 0, 0x8086, (0x06, 0x00, 0x00), 0x80),
        func(0, 0, 1, 0x8086, (0x06, 0x00, 0x00), 0x00),
        func(0, 5, 1, 0x10ec, (0x02, 0x00, 0x00), 0x00),
    ];
    let (result, devices) = scan(&space);
    assert_eq!(result, Ok(()));
    let found: Vec<(u8, u8, u8)> = devices.iter().map(|d| (d.bus, d.device, d.function)).collect();
    assert_eq!(found, vec![(0, 0, 1), (0, 5, 1)]);
}

#[test]
fn scan_stops_when_the_list_is_full() {
    let mut space = Vec::new();
    for device in 0..32u8 {
        for function in 0..8u8 {
            space.push(func(0, device, function, 0x1000 + device as u16, (0x02, 0x00, 0x00), 0x80));
        }
    }
    let (result, devices) = scan(&space);
    assert_eq!(result, Err(PciError::Full));
    assert_eq!(devices.len(), MAX_DEVICES);
}

#[test]
fn finished_scanner_stays_finished() {
    let (mut scanner, _) = PciScanner::new();
    let mut step = scanner.feed(0x0000_0000);
    let mut reads = 0;
    while let ScanStep::Read { .. } = step {
        step = scanner.feed(0xffff_ffff);
        reads += 1;
    }
    assert_eq!(reads, 32);
    assert_eq!(step, ScanStep::Done(Ok(())));
    assert_eq!(scanner.feed(0x1234_5678), ScanStep::Done(Ok(())));
    assert_eq!(scanner.devices().len(), 0);
}
