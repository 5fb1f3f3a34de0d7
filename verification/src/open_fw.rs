//! Open Firmware device paths, as they are handed to the firmware as boot order hints.

use vstd::prelude::*;
use vstd::string::StringExecFns;

use crate::text::{digits, law_digits_tell_number, write_digits};

verus! {

/// The address of a PCI device.
#[derive(Clone, Copy, Debug, PartialEq, Eq, Structural)]
pub struct PciBdf {
    pub segment: u16,
    pub bus: u8,
    pub device: u8,
    pub function: u8,
}

impl PciBdf {
    /// The address with the given parts.
    pub fn new(segment: u16, bus: u8, device: u8, function: u8) -> (bdf: Self)
        ensures
            bdf == (PciBdf { segment, bus, device, function }),
    {
        PciBdf { segment, bus, device, function }
    }
}

/// The type of a virtio device.
#[derive(Clone, Copy, Debug, PartialEq, Eq, Structural)]
pub enum VirtioDeviceType {
    Net,
    Block,
    Console,
    Rng,
    Balloon,
    Fs9P,
    Gpu,
    Input,
    Vsock,
    Iommu,
    Mem,
    Fs,
    Pmem,
    Watchdog,
    Unknown,
}

/// Why there is no device path for a device.
#[derive(Clone, Copy, Debug, PartialEq, Eq, Structural)]
pub enum OpenFwDevicePathError {
    /// Can't create an Open Firmware device path from a device not attached to a bus.
    NoBusDevice,
    /// Can't create an Open Firmware device path for a non-bootable device.
    DeviceNotBootable,
    /// Currently only PCI devices are supported.
    NoPciDevice,
    /// Device is not connected to the PCI root bus (segment 0, bus 0).
    DeviceNotConnectedToRootBus { segment_id: u16, bus_id: u8 },
    /// Found a PCI device without an address set.
    PciDeviceWithoutBdf,
}

/// An Open Firmware device path.
///
/// QEMU bootorder paths and OVMF's parser use `/pci@i0cf8` for the PCI root associated with
/// I/O port 0xcf8. QEMU uses `scsi` in the Open Firmware paths for its virtio-blk devices.
/// While blk devices are not configured as SCSI here, the same path is reused to stay
/// compatible. A single virtio-blk device is target 0 and logical unit number 0.
#[derive(Debug)]
pub struct OpenFwDevicePath(String);

/// The path of the disk with this device number.
pub open spec fn disk_path(device: u8) -> Seq<char> {
    "/pci@i0cf8/scsi@"@ + digits(device as nat, 16) + "/disk@0,0"@
}

/// The path leads from the PCI root to the first unit of the disk, and tells the device: no two
/// devices have the same path.
pub proof fn law_path_tells_device(a: u8, b: u8)
    ensures
        "/pci@i0cf8/scsi@"@.is_prefix_of(disk_path(a)),
        "/disk@0,0"@.is_suffix_of(disk_path(a)),
        disk_path(a) == disk_path(b) ==> a == b,
{
    let root = "/pci@i0cf8/scsi@"@;
    let unit = "/disk@0,0"@;
    let path = disk_path(a);
    let from = root.len() as int;
    let to = path.len() - unit.len();
    assert(root =~= path.subrange(0, from));
    assert(unit =~= path.subrange(to, path.len() as int));
    assert(path.subrange(from, to) =~= digits(a as nat, 16));
    if path == disk_path(b) {
        assert(path.subrange(from, to) =~= digits(b as nat, 16));
        law_digits_tell_number(a as nat, 16);
        law_digits_tell_number(b as nat, 16);
    }
}

impl OpenFwDevicePath {
    /// The text of the path.
    pub closed spec fn text(self) -> Seq<char> {
        self.0@
    }

    /// Creates an Open Firmware device path for the given device type and PCI address.
    ///
    /// Devices outside PCI segment 0 are rejected: while each PCI segment is exposed as a
    /// separate PCI root complex, OVMF only creates boot-time PCI root-bridge support for
    /// segment 0. The flat PCI topology additionally only supports bus 0.
    pub fn from_bdf_and_device(bdf: PciBdf, device_type: VirtioDeviceType) -> (result: Result<
        Self,
        OpenFwDevicePathError,
    >)
        ensures
            match result {
                Ok(path) => bdf.segment == 0 && bdf.bus == 0 && device_type
                    == VirtioDeviceType::Block && path.text() == disk_path(bdf.device),
                Err(error) => if bdf.segment != 0 || bdf.bus != 0 {
                    error == OpenFwDevicePathError::DeviceNotConnectedToRootBus {
                        segment_id: bdf.segment,
                        bus_id: bdf.bus,
                    }
                } else {
                    device_type != VirtioDeviceType::Block && error
                        == OpenFwDevicePathError::DeviceNotBootable
                },
            },
    {
        if bdf.segment != 0 || bdf.bus != 0 {
            return Err(
                OpenFwDevicePathError::DeviceNotConnectedToRootBus {
                    segment_id: bdf.segment,
                    bus_id: bdf.bus,
                },
            );
        }
        match device_type {
            VirtioDeviceType::Block => {
                let mut path: String = "/pci@i0cf8/scsi@".to_owned();
                let device: String = write_digits(bdf.device as u64, 16);
                path.append(device.as_str());
                path.append("/disk@0,0");
                Ok(OpenFwDevicePath(path))
            },
            _ => Err(OpenFwDevicePathError::DeviceNotBootable),
        }
    }

    /// The text of the path.
    pub fn to_string(&self) -> (text: String)
        ensures
            text@ == self.text(),
    {
        self.0.clone()
    }
}

} // verus!
