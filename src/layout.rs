//! Register offsets, flag bits and sizes of the virtio-MMIO transport.

use vstd::prelude::*;

verus! {

pub const VIRTIO_F_VERSION_1: u64 = 1 << 32;

pub const VIRTIO_MMIO_MAGIC_VALUE: u64 = 0x000;
pub const VIRTIO_MMIO_VERSION: u64 = 0x004;
pub const VIRTIO_MMIO_DEVICE_ID: u64 = 0x008;
pub const VIRTIO_MMIO_VENDOR_ID: u64 = 0x00c;
pub const VIRTIO_MMIO_HOST_FEATURES: u64 = 0x010;
pub const VIRTIO_MMIO_HOST_FEATURES_SEL: u64 = 0x014;
pub const VIRTIO_MMIO_GUEST_FEATURES: u64 = 0x020;
pub const VIRTIO_MMIO_GUEST_FEATURES_SEL: u64 = 0x024;
pub const VIRTIO_MMIO_QUEUE_SEL: u64 = 0x030;
pub const VIRTIO_MMIO_QUEUE_NUM_MAX: u64 = 0x034;
pub const VIRTIO_MMIO_QUEUE_NUM: u64 = 0x038;
pub const VIRTIO_MMIO_QUEUE_READY: u64 = 0x044;
pub const VIRTIO_MMIO_QUEUE_NOTIFY: u64 = 0x050;
pub const VIRTIO_MMIO_INTERRUPT_STATUS: u64 = 0x060;
pub const VIRTIO_MMIO_INTERRUPT_ACK: u64 = 0x064;
pub const VIRTIO_MMIO_STATUS: u64 = 0x070;
pub const VIRTIO_MMIO_QUEUE_DESC_LOW: u64 = 0x080;
pub const VIRTIO_MMIO_QUEUE_DESC_HIGH: u64 = 0x084;
pub const VIRTIO_MMIO_QUEUE_AVAIL_LOW: u64 = 0x090;
pub const VIRTIO_MMIO_QUEUE_AVAIL_HIGH: u64 = 0x094;
pub const VIRTIO_MMIO_QUEUE_USED_LOW: u64 = 0x0a0;
pub const VIRTIO_MMIO_QUEUE_USED_HIGH: u64 = 0x0a4;
pub const VIRTIO_MMIO_CONFIG_GENERATION: u64 = 0x0fc;
pub const VIRTIO_MMIO_CONFIG: u64 = 0x100;
pub const VIRTIO_MMIO_CONFIG_LAST: u64 = 0x1ff;

/// Interrupt status bit: the device published used buffers.
pub const VIRTIO_MMIO_INT_VRING: u32 = 1;
/// Interrupt status bit: the configuration space changed.
pub const VIRTIO_MMIO_INT_CONFIG: u32 = 2;

pub const VIRTIO_MMIO_MAGIC: u32 = 0x74726976;
pub const VIRTIO_MMIO_TRANSPORT_VERSION: u32 = 2;
pub const VIRTIO_MMIO_VENDOR: u32 = 0x554d4551;

/// Status bits written by the driver.
pub const VIRTIO_CONFIG_S_ACKNOWLEDGE: u32 = 1;
pub const VIRTIO_CONFIG_S_DRIVER: u32 = 2;
pub const VIRTIO_CONFIG_S_DRIVER_OK: u32 = 4;
pub const VIRTIO_CONFIG_S_FEATURES_OK: u32 = 8;
pub const VIRTIO_CONFIG_S_FAILED: u32 = 128;
/// The status at which the driver has finished initialisation.
pub const VIRTIO_STATUS_LIVE: u32 = 0x0f;

pub const VIRTQ_READY: u32 = 1;
pub const VIRTQ_DESC_F_NEXT: u16 = 1;
pub const VIRTQ_DESC_F_WRITE: u16 = 2;
pub const VIRTQ_DESC_F_INDIRECT: u16 = 4;
pub const VRING_USED_F_NO_NOTIFY: u16 = 1;

/// Largest queue size that a descriptor table may hold.
pub const DESC_QUEUE_SIZE: usize = 512;
/// Bytes in one descriptor.
pub const VRING_DESC_SIZE: u64 = 16;
/// Bytes in one used-ring element.
pub const VRING_USED_ELEM_SIZE: u64 = 8;
/// Bytes before the first entry of the available and used rings.
pub const VRING_HEADER_SIZE: u64 = 4;

} // verus!
