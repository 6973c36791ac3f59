use vstd::prelude::*;

use arrayvec::ArrayVec;

use crate::pci::{is_single_function_device, ClassCode, PciConfig, PciDevice, PciError, MAX_DEVICES};

verus! {

/// The fixed-capacity vector of the `arrayvec` crate; its contents are known
/// through `devices_held` and the wrappers below.
#[verifier::external_type_specification]
#[verifier::external_body]
#[verifier::reject_recursive_types(T)]
pub struct ExArrayVec<T, const CAP: usize>(ArrayVec<T, CAP>);

/// The functions recorded so far.
pub type Devices = ArrayVec<PciDevice, MAX_DEVICES>;

/// The records that a device list holds, in the order they were added.
pub uninterp spec fn devices_held(v: Devices) -> Seq<PciDevice>;

/// Relies on `ArrayVec::new`: an empty list.
#[verifier::external_body]
fn empty_devices() -> (r: Devices)
    ensures
        devices_held(r) == Seq::<PciDevice>::empty(),
{
    ArrayVec::new()
}

/// Relies on `ArrayVec::try_push`: appends where fewer than `MAX_DEVICES`
/// records are held, and fails leaving the list as it was otherwise.
#[verifier::external_body]
fn try_push_device(v: &mut Devices, d: PciDevice) -> (r: bool)
    ensures
        r == (devices_held(*old(v)).len() < MAX_DEVICES),
        r ==> devices_held(*final(v)) == devices_held(*old(v)).push(d),
        !r ==> devices_held(*final(v)) == devices_held(*old(v)),
{
    v.try_push(d).is_ok()
}

/// What the scanner needs next.
#[derive(Clone, Copy, Debug, PartialEq, Eq)]
pub enum ScanStep {
    /// Read register `register` (in 4-byte units) of function `config` and
    /// feed the value back.
    Read { config: PciConfig, register: u8 },
    /// The scan is over.
    Done(Result<(), PciError>),
}

/// The read that the scanner waits for, and what its value is for.
#[derive(Clone, Copy, Debug, PartialEq, Eq)]
pub enum Pending {
    HostHeader,
    HostVendor { config: PciConfig },
    BusVendor { config: PciConfig },
    FunctionClass { config: PciConfig, vendor_id: u16 },
    FunctionHeader { config: PciConfig, vendor_id: u16, class_code: ClassCode },
    BridgeBus { config: PciConfig },
    DeviceHeader { config: PciConfig },
    FunctionVendor { config: PciConfig },
    Finished(Result<(), PciError>),
}

/// Work left for later, innermost last.
#[derive(Clone, Copy, Debug, PartialEq, Eq, Structural)]
enum Task {
    /// Functions `next..8` of the host bridge, each the root of a bus walk.
    HostFunctions { next: u8 },
    /// Devices `next..32` on the bus of `config`.
    BusDevices { config: PciConfig, next: u8 },
    /// The rest of the device at `config` once its first function is done.
    DeviceRest { config: PciConfig },
    /// Functions `next..8` of the device at `config`.
    DeviceFunctions { config: PciConfig, next: u8 },
}

/// The register that a pending read is for.
pub open spec fn pending_read(p: Pending) -> Option<(PciConfig, u8)> {
    match p {
        Pending::HostHeader => Some((PciConfig { bus: 0, device: 0, function: 0 }, 3u8)),
        Pending::HostVendor { config } => Some((config, 0u8)),
        Pending::BusVendor { config } => Some((config, 0u8)),
        Pending::FunctionClass { config, .. } => Some((config, 2u8)),
        Pending::FunctionHeader { config, .. } => Some((config, 3u8)),
        Pending::BridgeBus { config } => Some((config, 6u8)),
        Pending::DeviceHeader { config } => Some((config, 3u8)),
        Pending::FunctionVendor { config } => Some((config, 0u8)),
        Pending::Finished(_) => None,
    }
}

/// The step that announces a pending read, or the end of the scan.
pub open spec fn step_of(p: Pending) -> ScanStep {
    match p {
        Pending::Finished(r) => ScanStep::Done(r),
        _ => ScanStep::Read { config: pending_read(p)->Some_0.0, register: pending_read(p)->Some_0.1 },
    }
}

fn announce(p: Pending) -> (r: ScanStep)
    ensures
        r == step_of(p),
{
    match p {
        Pending::HostHeader => ScanStep::Read { config: PciConfig { bus: 0, device: 0, function: 0 }, register: 3 },
        Pending::HostVendor { config } => ScanStep::Read { config, register: 0 },
        Pending::BusVendor { config } => ScanStep::Read { config, register: 0 },
        Pending::FunctionClass { config, .. } => ScanStep::Read { config, register: 2 },
        Pending::FunctionHeader { config, .. } => ScanStep::Read { config, register: 3 },
        Pending::BridgeBus { config } => ScanStep::Read { config, register: 6 },
        Pending::DeviceHeader { config } => ScanStep::Read { config, register: 3 },
        Pending::FunctionVendor { config } => ScanStep::Read { config, register: 0 },
        Pending::Finished(r) => ScanStep::Done(r),
    }
}

/// Walks the PCI buses depth first from the host bridge, recording every
/// function that answers and descending behind each PCI-to-PCI bridge. Each
/// step asks for one configuration register.
pub struct PciScanner {
    devices: Devices,
    stack: Vec<Task>,
    pending: Pending,
}

impl PciScanner {
    pub closed spec fn devices_spec(&self) -> Seq<PciDevice> {
        devices_held(self.devices)
    }

    pub closed spec fn pending_spec(&self) -> Pending {
        self.pending
    }

    /// A scanner that first reads the host bridge's header type.
    pub fn new() -> (r: (PciScanner, ScanStep))
        ensures
            r.0.devices_spec() == Seq::<PciDevice>::empty(),
            r.0.pending_spec() == Pending::HostHeader,
            r.1 == step_of(Pending::HostHeader),
    {
        let s = PciScanner { devices: empty_devices(), stack: Vec::new(), pending: Pending::HostHeader };
        (s, announce(Pending::HostHeader))
    }

    /// The records of the functions found so far.
    pub fn devices(&self) -> (r: &Devices)
        ensures
            devices_held(*r) == self.devices_spec(),
    {
        &self.devices
    }

    /// Takes the next piece of left-over work and turns it into a read; the
    /// scan is over when none is left.
    fn resume(&mut self)
        ensures
            final(self).devices_spec() == old(self).devices_spec(),
            final(self).pending_spec() is Finished ==> final(self).pending_spec() == Pending::Finished(Ok(())),
    {
        loop
            invariant
                self.devices_spec() == old(self).devices_spec(),
            decreases self.stack@.len(),
        {
            match self.stack.pop() {
                None => {
                    self.pending = Pending::Finished(Ok(()));
                    return;
                },
                Some(Task::HostFunctions { next }) => {
                    if next < 8 {
                        self.stack.push(Task::HostFunctions { next: next + 1 });
                        let config = PciConfig { bus: 0, device: 0, function: next };
                        self.pending = Pending::HostVendor { config };
                        return;
                    }
                },
                Some(Task::BusDevices { config, next }) => {
                    if next < 32 {
                        self.stack.push(Task::BusDevices { config, next: next + 1 });
                        self.pending = Pending::BusVendor { config: config.with_device(next) };
                        return;
                    }
                },
                Some(Task::DeviceRest { config }) => {
                    self.pending = Pending::DeviceHeader { config };
                    return;
                },
                Some(Task::DeviceFunctions { config, next }) => {
                    if next < 8 {
                        self.stack.push(Task::DeviceFunctions { config, next: next + 1 });
                        self.pending = Pending::FunctionVendor { config: config.with_function(next) };
                        return;
                    }
                },
            }
        }
    }

    /// Takes the value of the register asked for last and says what comes
    /// next. A function that answers is recorded once its class code and
    /// header type are read; the scan fails with `Full` when a record does
    /// not fit. A finished scan stays finished.
    pub fn feed(&mut self, data: u32) -> (r: ScanStep)
        ensures
            r == step_of(final(self).pending_spec()),
            old(self).pending_spec() is Finished ==> *final(self) == *old(self),
            old(self).pending_spec() matches Pending::FunctionHeader { config, vendor_id, class_code }
                ==> old(self).devices_spec().len() < MAX_DEVICES ==> final(self).devices_spec()
                == old(self).devices_spec().push(
                PciDevice {
                    bus: config.bus,
                    device: config.device,
                    function: config.function,
                    vendor_id,
                    class_code,
                    header_type: ((data / 0x1_0000) % 0x100) as u8,
                },
            ),
            !(old(self).pending_spec() is Finished) ==> ((old(self).pending_spec() is FunctionHeader
                && old(self).devices_spec().len() >= MAX_DEVICES) <==> final(self).pending_spec() == Pending::Finished(
                Err::<(), PciError>(PciError::Full),
            )),
            !(old(self).pending_spec() is FunctionHeader) ==> final(self).devices_spec()
                == old(self).devices_spec(),
    {
        match self.pending {
            Pending::Finished(_) => {},
            Pending::HostHeader => {
                let host_bridge = PciConfig { bus: 0, device: 0, function: 0 };
                if is_single_function_device(PciConfig::header_type(data)) {
                    self.stack.push(Task::BusDevices { config: host_bridge, next: 0 });
                } else {
                    self.stack.push(Task::HostFunctions { next: 1 });
                }
                self.resume();
            },
            Pending::HostVendor { config } => {
                if !PciConfig::is_invalid_vendor_id(PciConfig::vendor_id(data)) {
                    self.stack.push(Task::BusDevices { config, next: 0 });
                }
                self.resume();
            },
            Pending::BusVendor { config } => {
                let vendor_id = PciConfig::vendor_id(data);
                if PciConfig::is_invalid_vendor_id(vendor_id) {
                    self.resume();
                } else {
                    self.stack.push(Task::DeviceRest { config });
                    self.pending = Pending::FunctionClass { config, vendor_id };
                }
            },
            Pending::FunctionVendor { config } => {
                let vendor_id = PciConfig::vendor_id(data);
                if PciConfig::is_invalid_vendor_id(vendor_id) {
                    self.resume();
                } else {
                    self.pending = Pending::FunctionClass { config, vendor_id };
                }
            },
            Pending::FunctionClass { config, vendor_id } => {
                let class_code = PciConfig::class_code(data);
                self.pending = Pending::FunctionHeader { config, vendor_id, class_code };
            },
            Pending::FunctionHeader { config, vendor_id, class_code } => {
                let header_type = PciConfig::header_type(data);
                let device = PciDevice::new(config, vendor_id, class_code, header_type);
                if !try_push_device(&mut self.devices, device) {
                    self.pending = Pending::Finished(Err(PciError::Full));
                } else if class_code.is_pci_bridge() {
                    self.pending = Pending::BridgeBus { config };
                } else {
                    self.resume();
                }
            },
            Pending::BridgeBus { config } => {
                let secondary = PciConfig { bus: PciConfig::secondary_bus(data), device: 0, function: 0 };
                self.stack.push(Task::BusDevices { config: secondary, next: 0 });
                self.resume();
            },
            Pending::DeviceHeader { config } => {
                if !is_single_function_device(PciConfig::header_type(data)) {
                    self.stack.push(Task::DeviceFunctions { config, next: 1 });
                }
                self.resume();
            },
        }
        announce(self.pending)
    }
}

} // verus!
