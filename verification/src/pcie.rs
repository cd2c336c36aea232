//! PCI device identification.
use vstd::prelude::*;

verus! {

/// The vendor and device numbers that identify a PCI device.
#[derive(Clone, Copy, Debug, Hash, PartialEq, Eq, Structural)]
pub struct PciId {
    vendor_id: u16,
    device_id: u16,
}

impl PciId {
    pub closed spec fn vendor(self) -> u16 {
        self.vendor_id
    }

    pub closed spec fn device(self) -> u16 {
        self.device_id
    }

    pub fn new(vendor_id: u16, device_id: u16) -> (r: PciId)
        ensures
            r.vendor() == vendor_id,
            r.device() == device_id,
    {
        PciId { vendor_id, device_id }
    }

    pub fn vendor_id(&self) -> (r: u16)
        ensures
            r == self.vendor(),
    {
        self.vendor_id
    }

    pub fn device_id(&self) -> (r: u16)
        ensures
            r == self.device(),
    {
        self.device_id
    }
}

/// Two identifiers are equal exactly when their vendor and device numbers are.
pub proof fn lemma_pci_id_equality(a: PciId, b: PciId)
    ensures
        (a == b) == (a.vendor() == b.vendor() && a.device() == b.device()),
{
}

} // verus!
