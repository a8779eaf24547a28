//! The emulated register bank of one virtio-MMIO device.

use vstd::prelude::*;
use crate::layout::{VIRTIO_MMIO_MAGIC, VIRTIO_MMIO_TRANSPORT_VERSION, VIRTIO_MMIO_VENDOR};

verus! {

/// The kind of virtio device behind an MMIO window.
#[derive(Clone, Copy, Debug, PartialEq, Eq, Structural)]
pub enum VirtioDeviceType {
    Unspecified,
    Net,
    Block,
    Console,
}

impl VirtioDeviceType {
    /// The virtio device id of the kind (0 for no device).
    pub open spec fn id_spec(self) -> u32 {
        match self {
            VirtioDeviceType::Unspecified => 0,
            VirtioDeviceType::Net => 1,
            VirtioDeviceType::Block => 2,
            VirtioDeviceType::Console => 3,
        }
    }

    pub fn id(&self) -> (r: u32)
        ensures
            r == self.id_spec(),
    {
        match self {
            VirtioDeviceType::Unspecified => 0,
            VirtioDeviceType::Net => 1,
            VirtioDeviceType::Block => 2,
            VirtioDeviceType::Console => 3,
        }
    }
}

/// The 32-bit registers of the virtio-MMIO transport.
#[derive(Clone, Copy, Debug, PartialEq, Eq, Structural)]
pub struct VirtMmioRegs {
    pub magic: u32,
    pub version: u32,
    pub device_id: u32,
    pub vendor_id: u32,
    pub dev_feature: u32,
    pub dev_feature_sel: u32,
    pub drv_feature: u32,
    pub drv_feature_sel: u32,
    pub q_sel: u32,
    pub q_num_max: u32,
    pub irt_stat: u32,
    pub irt_ack: u32,
    pub dev_stat: u32,
}

/// The register bank with every register zero.
pub open spec fn regs_zero() -> VirtMmioRegs {
    VirtMmioRegs {
        magic: 0,
        version: 0,
        device_id: 0,
        vendor_id: 0,
        dev_feature: 0,
        dev_feature_sel: 0,
        drv_feature: 0,
        drv_feature_sel: 0,
        q_sel: 0,
        q_num_max: 0,
        irt_stat: 0,
        irt_ack: 0,
        dev_stat: 0,
    }
}

/// The register bank after initialisation for a device kind: the identity
/// registers take their constant values and the negotiation registers are cleared.
pub open spec fn regs_init(r: VirtMmioRegs, kind: VirtioDeviceType) -> VirtMmioRegs {
    VirtMmioRegs {
        magic: VIRTIO_MMIO_MAGIC,
        version: VIRTIO_MMIO_TRANSPORT_VERSION,
        vendor_id: VIRTIO_MMIO_VENDOR,
        device_id: kind.id_spec(),
        dev_feature: 0,
        drv_feature: 0,
        q_sel: 0,
        ..r
    }
}

impl VirtMmioRegs {
    pub fn default() -> (r: VirtMmioRegs)
        ensures
            r == regs_zero(),
    {
        VirtMmioRegs {
            magic: 0,
            version: 0,
            device_id: 0,
            vendor_id: 0,
            dev_feature: 0,
            dev_feature_sel: 0,
            drv_feature: 0,
            drv_feature_sel: 0,
            q_sel: 0,
            q_num_max: 0,
            irt_stat: 0,
            irt_ack: 0,
            dev_stat: 0,
        }
    }

    pub fn init(&mut self, id: VirtioDeviceType)
        ensures
            *final(self) == regs_init(*old(self), id),
    {
        self.magic = VIRTIO_MMIO_MAGIC;
        self.version = VIRTIO_MMIO_TRANSPORT_VERSION;
        self.vendor_id = VIRTIO_MMIO_VENDOR;
        self.device_id = id.id();
        self.dev_feature = 0;
        self.drv_feature = 0;
        self.q_sel = 0;
    }
}

} // verus!
