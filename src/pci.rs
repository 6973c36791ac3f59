use vstd::prelude::*;

verus! {

/// I/O port that selects a register of the PCI configuration space.
pub const CONFIG_ADDRESS: u16 = 0xcf8;

/// I/O port through which the selected register is read or written.
pub const CONFIG_DATA: u16 = 0xcfc;

/// Most devices a scan records.
pub const MAX_DEVICES: usize = 32;

/// A function of a device on a PCI bus.
#[derive(Clone, Copy, Debug, PartialEq, Eq, Structural)]
pub struct PciConfig {
    pub bus: u8,
    pub device: u8,
    pub function: u8,
}

/// Base class, sub class and programming interface of a function.
#[derive(Clone, Copy, Debug, PartialEq, Eq, Structural)]
pub struct ClassCode {
    pub base: u8,
    pub sub: u8,
    pub interface: u8,
}

/// What a scan records of each function it finds.
#[derive(Clone, Copy, Debug, PartialEq, Eq, Structural)]
pub struct PciDevice {
    pub bus: u8,
    pub device: u8,
    pub function: u8,
    pub vendor_id: u16,
    pub class_code: ClassCode,
    pub header_type: u8,
}

/// Why a scan stopped.
#[derive(Clone, Copy, Debug, PartialEq, Eq, Structural)]
pub enum PciError {
    /// More than `MAX_DEVICES` functions were found.
    Full,
}

impl PciConfig {
    /// The value written to `CONFIG_ADDRESS` to select register
    /// `register_offset` (counted in 4-byte units) of this function: the enable
    /// bit, then bus, device, function and the register's byte offset.
    pub fn make_address(&self, register_offset: u8) -> (r: u32)
        ensures
            self.device < 32 && self.function < 8 ==> r == 0x8000_0000 + self.bus as int * 0x1_0000
                + self.device as int * 0x800 + self.function as int * 0x100 + (register_offset
                % 64) as int * 4,
            r & 0x8000_0000 == 0x8000_0000,
            r & 0x3 == 0,
    {
        let register_address = ((register_offset as u32) << 2u32) & 0xff;
        let bus = self.bus as u32;
        let device = self.device as u32;
        let function = self.function as u32;
        let r = (1u32 << 31u32) | (bus << 16u32) | (device << 11u32) | (function << 8u32) | (
        register_address & 0xfc);
        let ro = register_offset as u32;
        assert(r & 0x8000_0000 == 0x8000_0000 && r & 0x3 == 0) by (bit_vector)
            requires
                r == (1u32 << 31u32) | (bus << 16u32) | (device << 11u32) | (function << 8u32) | (
                register_address & 0xfc),
        ;
        assert(device < 32 && function < 8 ==> r == 0x8000_0000u32 + bus * 0x1_0000u32 + device
            * 0x800u32 + function * 0x100u32 + (ro % 64u32) * 4u32) by (bit_vector)
            requires
                bus < 256,
                ro < 256,
                register_address == (ro << 2u32) & 0xff,
                r == (1u32 << 31u32) | (bus << 16u32) | (device << 11u32) | (function << 8u32) | (
                register_address & 0xfc),
        ;
        r
    }

    /// The vendor ID in the register at offset 0.
    pub fn vendor_id(data: u32) -> (r: u16)
        ensures
            r == data % 0x1_0000,
    {
        assert(data & 0xffff == data % 0x1_0000) by (bit_vector);
        (data & 0xffff) as u16
    }

    /// The device ID in the register at offset 0.
    pub fn device_id(data: u32) -> (r: u16)
        ensures
            r == data / 0x1_0000,
    {
        assert((data & 0xffff0000) >> 16u32 == data / 0x1_0000) by (bit_vector);
        ((data & 0xffff0000) >> 16) as u16
    }

    /// The class code in the register at offset 2.
    pub fn class_code(data: u32) -> (r: ClassCode)
        ensures
            r.base == data / 0x100_0000,
            r.sub == (data / 0x1_0000) % 0x100,
            r.interface == (data / 0x100) % 0x100,
    {
        assert((data & 0xff00_0000) >> 24u32 == data / 0x100_0000) by (bit_vector);
        assert((data & 0x00ff_0000) >> 16u32 == (data / 0x1_0000) % 0x100) by (bit_vector);
        assert((data & 0x0000_ff00) >> 8u32 == (data / 0x100) % 0x100) by (bit_vector);
        let base = ((data & 0xff00_0000) >> 24) as u8;
        let sub = ((data & 0x00ff_0000) >> 16) as u8;
        let interface = ((data & 0x0000_ff00) >> 8) as u8;
        ClassCode { base, sub, interface }
    }

    /// The header type in the register at offset 3.
    pub fn header_type(data: u32) -> (r: u8)
        ensures
            r == (data / 0x1_0000) % 0x100,
    {
        assert((data & 0x00ff_0000) >> 16u32 == (data / 0x1_0000) % 0x100) by (bit_vector);
        ((data & 0x00ff_0000) >> 16) as u8
    }

    /// The secondary bus number of a bridge, in the register at offset 6.
    pub fn secondary_bus(data: u32) -> (r: u8)
        ensures
            r == (data / 0x100) % 0x100,
    {
        assert((data >> 8u32) & 0xff == (data / 0x100) % 0x100) by (bit_vector);
        ((data >> 8) & 0xff) as u8
    }

    /// No function answers at this address.
    pub fn is_invalid_vendor_id(vendor_id: u16) -> (r: bool)
        ensures
            r == (vendor_id == 0xffff),
    {
        vendor_id == 0xffff
    }

    /// The same function on another device.
    pub fn with_device(&self, device: u8) -> (r: PciConfig)
        ensures
            r == (PciConfig { device, ..*self }),
    {
        PciConfig { device, ..*self }
    }

    /// The same device with another function.
    pub fn with_function(&self, function: u8) -> (r: PciConfig)
        ensures
            r == (PciConfig { function, ..*self }),
    {
        PciConfig { function, ..*self }
    }
}

/// A header type whose multi-function bit is clear.
pub fn is_single_function_device(header_type: u8) -> (r: bool)
    ensures
        r == (header_type < 0x80),
{
    assert((header_type & 0x80 == 0) == (header_type < 0x80)) by (bit_vector);
    (header_type & 0x80) == 0
}

impl ClassCode {
    /// A PCI-to-PCI bridge, behind which another bus lies.
    pub fn is_pci_bridge(&self) -> (r: bool)
        ensures
            r == (self.base == 0x06 && self.sub == 0x04),
    {
        self.base == 0x06 && self.sub == 0x04
    }
}

impl PciDevice {
    /// The record of the function at `config`, from the registers read there.
    pub fn new(config: PciConfig, vendor_id: u16, class_code: ClassCode, header_type: u8) -> (r: PciDevice)
        ensures
            r == (PciDevice {
                bus: config.bus,
                device: config.device,
                function: config.function,
                vendor_id,
                class_code,
                header_type,
            }),
    {
        PciDevice {
            bus: config.bus,
            device: config.device,
            function: config.function,
            vendor_id,
            class_code,
            header_type,
        }
    }
}

} // verus!
