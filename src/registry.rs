//! The table of emulated devices and the trap entry that routes an MMIO
//! fault to the device whose window it hit.

use vstd::prelude::*;
use crate::mmio::{VirtioMmio, VirtioMmioView, MmioAccess, virtio_mmio_access, notify_post,
    access_spec, is_notify, blk_queue_spec};
use crate::regs::{VirtMmioRegs, VirtioDeviceType, regs_zero, regs_init};
use crate::blk::{VirtDev, DevDesc, BlkBackend, VIRTQUEUE_BLK_MAX_SIZE, dev_init_spec};
use crate::ram::{GuestRam, GuestMap};

verus! {

/// The kinds of emulated device a guest can be given.
#[derive(Clone, Copy, Debug, PartialEq, Eq, Structural)]
pub enum EmuDeviceType {
    EmuDeviceTVirtioBlk,
    EmuDeviceTVirtioNet,
    EmuDeviceTVirtioConsole,
}

/// A trapped MMIO access: the guest-physical address, the index of the
/// vCPU register that carries the operand, and the direction.
#[derive(Clone, Copy, Debug, PartialEq, Eq, Structural)]
pub struct EmuContext {
    pub address: u64,
    pub reg: usize,
    pub write: bool,
}

/// Emulated devices by id, with the guest-physical base of each window.
#[derive(Clone, Debug, PartialEq, Eq)]
pub struct VirtioRegistry {
    pub devs: Vec<VirtioMmio>,
    pub bases: Vec<u64>,
}

/// A block device just registered under `id` with `capacity` sectors.
pub open spec fn blk_device_spec(id: usize, capacity: u64) -> VirtioMmioView {
    VirtioMmioView {
        id,
        driver_features: 0,
        driver_status: 0,
        regs: VirtMmioRegs {
            q_num_max: VIRTQUEUE_BLK_MAX_SIZE,
            ..regs_init(regs_zero(), VirtioDeviceType::Block)
        },
        dev: dev_init_spec(
            VirtDev { activated: false, features: 0, generation: 0, desc: DevDesc::Empty },
            VirtioDeviceType::Block,
            capacity,
        ),
        vq: seq![blk_queue_spec()],
    }
}

/// The access reaches a registered device: the id is known and the address
/// lies at or above the device's window base.
pub open spec fn routed(reg: &VirtioRegistry, emu_dev_id: usize, address: u64) -> bool {
    emu_dev_id < reg.devs@.len() && emu_dev_id < reg.bases@.len() && address >= reg.bases@[emu_dev_id as int]
}

impl VirtioRegistry {
    pub fn new() -> (r: VirtioRegistry)
        ensures
            r.devs@.len() == 0,
            r.bases@.len() == 0,
    {
        VirtioRegistry { devs: Vec::new(), bases: Vec::new() }
    }
}

/// Registers device `emu_dev_id` with its window at guest-physical `base`.
/// Ids are handed out in order; only block devices are emulated.
pub fn emu_virtio_mmio_init(
    reg: &mut VirtioRegistry,
    emu_dev_id: usize,
    emu_type: EmuDeviceType,
    base: u64,
    capacity: u64,
) -> (r: bool)
    ensures
        r == (emu_type is EmuDeviceTVirtioBlk && emu_dev_id == old(reg).devs@.len()
            && old(reg).devs@.len() == old(reg).bases@.len()),
        r ==> final(reg).devs@.len() == old(reg).devs@.len() + 1
            && final(reg).devs@.drop_last() == old(reg).devs@
            && final(reg).devs@.last()@ == blk_device_spec(emu_dev_id, capacity)
            && final(reg).bases@ == old(reg).bases@.push(base),
        !r ==> final(reg).devs@ == old(reg).devs@ && final(reg).bases@ == old(reg).bases@,
{
    let kind = match emu_type {
        EmuDeviceType::EmuDeviceTVirtioBlk => VirtioDeviceType::Block,
        _ => return false,
    };
    if emu_dev_id != reg.devs.len() || reg.devs.len() != reg.bases.len() {
        return false;
    }
    let mut mmio = VirtioMmio::new(emu_dev_id);
    mmio.mmio_reg_init(kind);
    mmio.dev_init(kind, capacity);
    mmio.queue_init(kind);
    reg.devs.push(mmio);
    reg.bases.push(base);
    assert(reg.devs@.drop_last() =~= old(reg).devs@);
    true
}

/// Handles an MMIO fault on device `emu_dev_id`. `value` is the low word of
/// the operand register for a write; a read hands its value back for that
/// register. An unknown device or an address below its window fails.
pub fn emu_virtio_mmio_handler<B: BlkBackend>(
    reg: &mut VirtioRegistry,
    emu_dev_id: usize,
    emu_ctx: &EmuContext,
    value: u32,
    ram: &mut GuestRam,
    map: &GuestMap,
    backend: &mut B,
) -> (r: MmioAccess)
    ensures
        final(reg).bases@ == old(reg).bases@,
        !routed(old(reg), emu_dev_id, emu_ctx.address) ==> r == MmioAccess::Failed
            && final(reg).devs@ == old(reg).devs@ && final(ram).bytes@ == old(ram).bytes@,
        routed(old(reg), emu_dev_id, emu_ctx.address) ==> ({
            let i = emu_dev_id as int;
            let offset = (emu_ctx.address - old(reg).bases@[i]) as u64;
            let m0 = old(reg).devs@[i]@;
            let m1 = final(reg).devs@[i]@;
            &&& final(reg).devs@.len() == old(reg).devs@.len()
            &&& forall|j: int| 0 <= j < old(reg).devs@.len() && j != i ==> #[trigger] final(reg).devs@[j] == old(reg).devs@[j]
            &&& is_notify(offset, emu_ctx.write) ==> notify_post(m0, old(ram).bytes@, *map, value, m1, final(ram).bytes@, r)
            &&& !is_notify(offset, emu_ctx.write) ==> (m1, r) == access_spec(m0, offset, emu_ctx.write, value, *map)
                && final(ram).bytes@ == old(ram).bytes@
        }),
{
    if emu_dev_id >= reg.devs.len() || emu_dev_id >= reg.bases.len() {
        return MmioAccess::Failed;
    }
    let base = reg.bases[emu_dev_id];
    if emu_ctx.address < base {
        return MmioAccess::Failed;
    }
    let offset = emu_ctx.address - base;
    virtio_mmio_access(&mut reg.devs[emu_dev_id], offset, emu_ctx.write, value, ram, map, backend)
}

} // verus!
