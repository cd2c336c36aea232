//! Devices: the interfaces a block, network or timer device offers, and the
//! table that picks the driver of a PCI device.
use vstd::prelude::*;
use crate::pcie::PciId;

verus! {

/// Error type shared between block and network devices
#[derive(Debug, Clone, Copy, PartialEq, Eq, Structural)]
pub enum IoError {
    /// Operation attempted to read or write past the end of the device
    _EndOfBlock,
}

impl IoError {
    /// The message of the error.
    pub fn message(&self) -> (r: &'static str)
        ensures
            r@ == "Operation attempted to read or write past the end of the device"@,
    {
        match self {
            IoError::_EndOfBlock => "Operation attempted to read or write past the end of the device",
        }
    }
}

/// A bus that discovers devices from what it is given to probe.
pub trait Bus<P> {
    fn probe(&self, probe_data: P);
}

/// A device read and written in blocks.
pub trait BlockDevice {
    /// Returns the size of the device in bytes
    fn size(&self) -> usize;

    /// Returns the block size of the device
    fn block_size(&self) -> usize;

    /// Reads `buf.len()` bytes into `buf` starting from the block with the
    /// supplied index.
    fn read(&mut self, buf: &mut [u8], start_block_index: usize) -> Result<(), IoError>;

    /// Writes `buf` starting from the block with the supplied index.
    fn write(&mut self, buf: &[u8], start_block_index: usize) -> Result<(), IoError>;
}

/// A network device.
pub trait NetDevice {

}

/// A timer device.
pub trait Timer {

}

/// A device of one of the kinds the kernel drives.
pub enum Device {
    Block(Box<dyn BlockDevice>),
    Net(Box<dyn NetDevice>),
    Timer(Box<dyn Timer>),
}

impl Device {
    /// The block device this device is. That the reference is the one the
    /// variant holds is not stated: Verus does not relate a reference into a
    /// variant to the variant where the payload is a `Box<dyn ..>`.
    pub fn as_block(&mut self) -> (r: &mut Box<dyn BlockDevice>)
        requires
            *old(self) is Block,
    {
        match self {
            Device::Block(blk) => blk,
            _ => vstd::pervasive::unreached(),
        }
    }
}

/// The bus of PCI Express devices.
pub struct PCIEBus;

/// The ACPI tables, through which the PCI Express bus is found.
pub struct ACPIBus;

/// The drivers of the PCI devices the kernel supports.
#[derive(Debug, Clone, Copy, PartialEq, Eq, Structural)]
pub enum PciDriver {
    VirtioBlock,
    Ich9r,
    Ivshmem,
}

/// The driver of a PCI device: virtio block (1af4:1001), the ICH9R SATA
/// controller (8086:2922) and the inter-VM shared memory device
/// (1af4:1110); `None` for any other device.
pub fn pci_driver(id: PciId) -> (r: Option<PciDriver>)
    ensures
        r == (if id.vendor() == 0x1af4 && id.device() == 0x1001 {
            Some(PciDriver::VirtioBlock)
        } else if id.vendor() == 0x8086 && id.device() == 0x2922 {
            Some(PciDriver::Ich9r)
        } else if id.vendor() == 0x1af4 && id.device() == 0x1110 {
            Some(PciDriver::Ivshmem)
        } else {
            None
        }),
{
    let vendor = id.vendor_id();
    let device = id.device_id();
    if vendor == 0x1af4 && device == 0x1001 {
        Some(PciDriver::VirtioBlock)
    } else if vendor == 0x8086 && device == 0x2922 {
        Some(PciDriver::Ich9r)
    } else if vendor == 0x1af4 && device == 0x1110 {
        Some(PciDriver::Ivshmem)
    } else {
        None
    }
}

} // verus!
