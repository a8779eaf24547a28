//! One emulated virtio-MMIO device: its register file, status machine,
//! feature negotiation, and the decoder of trapped accesses.

use vstd::prelude::*;
use crate::layout::{VIRTIO_CONFIG_S_FEATURES_OK, VIRTIO_MMIO_CONFIG, VIRTIO_MMIO_CONFIG_GENERATION, VIRTIO_MMIO_CONFIG_LAST, VIRTIO_MMIO_DEVICE_ID, VIRTIO_MMIO_GUEST_FEATURES, VIRTIO_MMIO_GUEST_FEATURES_SEL, VIRTIO_MMIO_HOST_FEATURES, VIRTIO_MMIO_HOST_FEATURES_SEL, VIRTIO_MMIO_INTERRUPT_ACK, VIRTIO_MMIO_INTERRUPT_STATUS, VIRTIO_MMIO_INT_VRING, VIRTIO_MMIO_MAGIC_VALUE, VIRTIO_MMIO_QUEUE_AVAIL_HIGH, VIRTIO_MMIO_QUEUE_AVAIL_LOW, VIRTIO_MMIO_QUEUE_DESC_HIGH, VIRTIO_MMIO_QUEUE_DESC_LOW, VIRTIO_MMIO_QUEUE_NOTIFY, VIRTIO_MMIO_QUEUE_NUM, VIRTIO_MMIO_QUEUE_NUM_MAX, VIRTIO_MMIO_QUEUE_READY, VIRTIO_MMIO_QUEUE_SEL, VIRTIO_MMIO_QUEUE_USED_HIGH, VIRTIO_MMIO_QUEUE_USED_LOW, VIRTIO_MMIO_STATUS, VIRTIO_MMIO_VENDOR_ID, VIRTIO_MMIO_VERSION, VIRTIO_STATUS_LIVE};
use crate::regs::{VirtMmioRegs, VirtioDeviceType, regs_zero, regs_init};
use crate::queue::{Virtq, NotifyHandler, virtq_reset, valid_num};
use crate::blk::{VirtDev, DevDesc, BlkBackend, VIRTQUEUE_BLK_MAX_SIZE, VIRTIO_BLK_FEATURES, blk_config_word, dev_init_spec,
    blk_drain_post};
use crate::ram::{GuestRam, GuestMap};

verus! {

/// Outcome of one trapped access: the value a read returns, a write that
/// took, or a failure reported to the dispatcher.
#[derive(Clone, Copy, Debug, PartialEq, Eq, Structural)]
pub enum MmioAccess {
    Read(u32),
    Written,
    Failed,
}

#[derive(Clone, Debug, PartialEq, Eq)]
pub struct VirtioMmio {
    pub id: usize,
    /// Features the driver accepted, assembled from paged writes.
    pub driver_features: u64,
    /// Mirror of the status register.
    pub driver_status: u32,
    pub regs: VirtMmioRegs,
    pub dev: VirtDev,
    pub vq: Vec<Virtq>,
}

/// The mathematical state of a device.
pub struct VirtioMmioView {
    pub id: usize,
    pub driver_features: u64,
    pub driver_status: u32,
    pub regs: VirtMmioRegs,
    pub dev: VirtDev,
    pub vq: Seq<Virtq>,
}

impl View for VirtioMmio {
    type V = VirtioMmioView;

    open spec fn view(&self) -> VirtioMmioView {
        VirtioMmioView {
            id: self.id,
            driver_features: self.driver_features,
            driver_status: self.driver_status,
            regs: self.regs,
            dev: self.dev,
            vq: self.vq@,
        }
    }
}

/// Every queue returned to its reset state under its own index.
pub open spec fn queues_reset(qs: Seq<Virtq>) -> Seq<Virtq> {
    Seq::new(qs.len(), |i: int| virtq_reset(qs[i], i as usize))
}

/// The host-features word that selector `sel` shows of the mask `f`.
pub open spec fn host_feature_word(f: u64, sel: u32) -> u32 {
    if sel != 0 {
        (f / 0x1_0000_0000) as u32
    } else {
        (f % 0x1_0000_0000) as u32
    }
}

/// The guest-features word `v` placed per selector `sel`.
pub open spec fn guest_feature_bits(v: u32, sel: u32) -> u64 {
    if sel != 0 {
        (v as u64) << 32u64
    } else {
        v as u64
    }
}

/// A write of `v` to the status register: any value is latched, the device
/// is activated exactly when the value is 0x0F, and 0 resets the device.
pub open spec fn status_write(m: VirtioMmioView, v: u32) -> VirtioMmioView {
    let m1 = VirtioMmioView {
        regs: VirtMmioRegs { dev_stat: v, ..m.regs },
        driver_status: v,
        dev: VirtDev { activated: v == VIRTIO_STATUS_LIVE, ..m.dev },
        ..m
    };
    if v == 0 {
        VirtioMmioView { driver_features: 0, vq: queues_reset(m.vq), ..m1 }
    } else {
        m1
    }
}

/// An access to the prologue registers (identity, features, status).
pub open spec fn prologue_spec(m: VirtioMmioView, offset: u64, write: bool, v: u32) -> (VirtioMmioView, MmioAccess) {
    if !write {
        if offset == VIRTIO_MMIO_MAGIC_VALUE {
            (m, MmioAccess::Read(m.regs.magic))
        } else if offset == VIRTIO_MMIO_VERSION {
            (m, MmioAccess::Read(m.regs.version))
        } else if offset == VIRTIO_MMIO_DEVICE_ID {
            (m, MmioAccess::Read(m.regs.device_id))
        } else if offset == VIRTIO_MMIO_VENDOR_ID {
            (m, MmioAccess::Read(m.regs.vendor_id))
        } else if offset == VIRTIO_MMIO_HOST_FEATURES {
            let w = host_feature_word(m.dev.features, m.regs.dev_feature_sel);
            (VirtioMmioView { regs: VirtMmioRegs { dev_feature: w, ..m.regs }, ..m }, MmioAccess::Read(w))
        } else if offset == VIRTIO_MMIO_STATUS {
            (m, MmioAccess::Read(m.regs.dev_stat))
        } else {
            (m, MmioAccess::Failed)
        }
    } else {
        if offset == VIRTIO_MMIO_HOST_FEATURES_SEL {
            (VirtioMmioView { regs: VirtMmioRegs { dev_feature_sel: v, ..m.regs }, ..m }, MmioAccess::Written)
        } else if offset == VIRTIO_MMIO_GUEST_FEATURES {
            if m.regs.dev_stat & VIRTIO_CONFIG_S_FEATURES_OK != 0 {
                (m, MmioAccess::Written)
            } else {
                (VirtioMmioView {
                    regs: VirtMmioRegs { drv_feature: v, ..m.regs },
                    driver_features: m.driver_features | guest_feature_bits(v, m.regs.drv_feature_sel),
                    ..m
                }, MmioAccess::Written)
            }
        } else if offset == VIRTIO_MMIO_GUEST_FEATURES_SEL {
            (VirtioMmioView { regs: VirtMmioRegs { drv_feature_sel: v, ..m.regs }, ..m }, MmioAccess::Written)
        } else if offset == VIRTIO_MMIO_STATUS {
            (status_write(m, v), MmioAccess::Written)
        } else {
            (m, MmioAccess::Failed)
        }
    }
}

/// `a` with its low 32 bits replaced by `v`.
pub open spec fn with_low(a: u64, v: u32) -> u64 {
    (a & 0xffff_ffff_0000_0000u64) | (v as u64)
}

/// `a` with its high 32 bits replaced by `v`.
pub open spec fn with_high(a: u64, v: u32) -> u64 {
    (a & 0xffff_ffffu64) | ((v as u64) << 32u64)
}

/// A write to one of the selected queue's registers, the queue being in range.
pub open spec fn queue_write(q: Virtq, q_num_max: u32, offset: u64, v: u32, map: GuestMap) -> Option<Virtq> {
    if offset == VIRTIO_MMIO_QUEUE_NUM {
        if valid_num(v as usize) && v <= q_num_max {
            Some(Virtq { num: v as usize, ..q })
        } else {
            None
        }
    } else if offset == VIRTIO_MMIO_QUEUE_READY {
        Some(Virtq { ready: v, ..q })
    } else if offset == VIRTIO_MMIO_QUEUE_DESC_LOW {
        Some(Virtq { desc_table_addr: with_low(q.desc_table_addr, v), ..q })
    } else if offset == VIRTIO_MMIO_QUEUE_AVAIL_LOW {
        Some(Virtq { avail_addr: with_low(q.avail_addr, v), ..q })
    } else if offset == VIRTIO_MMIO_QUEUE_USED_LOW {
        Some(Virtq { used_addr: with_low(q.used_addr, v), ..q })
    } else if offset == VIRTIO_MMIO_QUEUE_DESC_HIGH {
        let a = with_high(q.desc_table_addr, v);
        let h = map.translate_spec(a);
        Some(if h == 0 { q } else { Virtq { desc_table_addr: a, desc_table: Some(h), ..q } })
    } else if offset == VIRTIO_MMIO_QUEUE_AVAIL_HIGH {
        let a = with_high(q.avail_addr, v);
        let h = map.translate_spec(a);
        Some(if h == 0 { q } else { Virtq { avail_addr: a, avail: Some(h), ..q } })
    } else if offset == VIRTIO_MMIO_QUEUE_USED_HIGH {
        let a = with_high(q.used_addr, v);
        let h = map.translate_spec(a);
        Some(if h == 0 { q } else { Virtq { used_addr: a, used: Some(h), ..q } })
    } else {
        None
    }
}

/// An access to the queue registers. The queue selector is taken as is; an
/// access through a selector with no queue fails and changes nothing.
pub open spec fn queue_spec(m: VirtioMmioView, offset: u64, write: bool, v: u32, map: GuestMap) -> (VirtioMmioView, MmioAccess) {
    let sel = m.regs.q_sel as int;
    if !write {
        if offset == VIRTIO_MMIO_QUEUE_NUM_MAX {
            (m, MmioAccess::Read(m.regs.q_num_max))
        } else if offset == VIRTIO_MMIO_QUEUE_READY && sel < m.vq.len() {
            (m, MmioAccess::Read(m.vq[sel].ready))
        } else {
            (m, MmioAccess::Failed)
        }
    } else if offset == VIRTIO_MMIO_QUEUE_SEL {
        (VirtioMmioView { regs: VirtMmioRegs { q_sel: v, ..m.regs }, ..m }, MmioAccess::Written)
    } else if sel < m.vq.len() {
        match queue_write(m.vq[sel], m.regs.q_num_max, offset, v, map) {
            Some(q) => (VirtioMmioView { vq: m.vq.update(sel, q), ..m }, MmioAccess::Written),
            None => (m, MmioAccess::Failed),
        }
    } else {
        (m, MmioAccess::Failed)
    }
}

/// An access to the configuration region; it is read-only.
pub open spec fn cfg_spec(m: VirtioMmioView, offset: u64, write: bool) -> MmioAccess {
    if write {
        MmioAccess::Failed
    } else if offset == VIRTIO_MMIO_CONFIG_GENERATION {
        MmioAccess::Read(m.dev.generation)
    } else if VIRTIO_MMIO_CONFIG <= offset <= VIRTIO_MMIO_CONFIG_LAST {
        match m.dev.desc {
            DevDesc::BlkDesc(d) => MmioAccess::Read(blk_config_word(d, (offset - VIRTIO_MMIO_CONFIG) as u64)),
            DevDesc::Empty => MmioAccess::Failed,
        }
    } else {
        MmioAccess::Failed
    }
}

pub open spec fn in_prologue(offset: u64) -> bool {
    offset <= VIRTIO_MMIO_GUEST_FEATURES_SEL || offset == VIRTIO_MMIO_STATUS
}

pub open spec fn in_queue_region(offset: u64) -> bool {
    VIRTIO_MMIO_QUEUE_SEL <= offset <= VIRTIO_MMIO_QUEUE_USED_HIGH
}

pub open spec fn in_cfg_region(offset: u64) -> bool {
    VIRTIO_MMIO_CONFIG_GENERATION <= offset <= VIRTIO_MMIO_CONFIG_LAST
}

pub open spec fn is_notify(offset: u64, write: bool) -> bool {
    offset == VIRTIO_MMIO_QUEUE_NOTIFY && write
}

/// Every access but a queue notification: what it returns and the state it
/// leaves. The interrupt registers are decided first, then the regions.
pub open spec fn access_spec(m: VirtioMmioView, offset: u64, write: bool, v: u32, map: GuestMap) -> (VirtioMmioView, MmioAccess) {
    if offset == VIRTIO_MMIO_INTERRUPT_STATUS && !write {
        (m, MmioAccess::Read(m.regs.irt_stat))
    } else if offset == VIRTIO_MMIO_INTERRUPT_ACK && write {
        (VirtioMmioView { regs: VirtMmioRegs { irt_stat: m.regs.irt_stat & !v, irt_ack: v, ..m.regs }, ..m },
         MmioAccess::Written)
    } else if in_prologue(offset) {
        prologue_spec(m, offset, write, v)
    } else if in_queue_region(offset) {
        queue_spec(m, offset, write, v, map)
    } else if in_cfg_region(offset) {
        (m, cfg_spec(m, offset, write))
    } else {
        (m, MmioAccess::Failed)
    }
}

/// The device part and register file of a block device just registered.
pub open spec fn blk_queue_spec() -> Virtq {
    Virtq { notify_handler: Some(NotifyHandler::Block), ..virtq_reset(Virtq::zero(), 0) }
}

} // verus!

verus! {

/// The state of a device just created under `id`.
pub open spec fn mmio_new_spec(id: usize) -> VirtioMmioView {
    VirtioMmioView {
        id,
        driver_features: 0,
        driver_status: 0,
        regs: regs_zero(),
        dev: VirtDev { activated: false, features: 0, generation: 0, desc: DevDesc::Empty },
        vq: Seq::empty(),
    }
}

/// What a queue notification for queue `idx` guarantees.
pub open spec fn notify_post(m0: VirtioMmioView, s0: Seq<u8>, map: GuestMap, idx: u32, m1: VirtioMmioView, s1: Seq<u8>, r: MmioAccess) -> bool {
    if idx as int >= m0.vq.len() {
        r == MmioAccess::Failed && m1 == m0 && s1 == s0
    } else {
        let q0 = m0.vq[idx as int];
        let q1 = m1.vq[idx as int];
        &&& m1 == (VirtioMmioView {
            regs: VirtMmioRegs { irt_stat: m0.regs.irt_stat | VIRTIO_MMIO_INT_VRING, ..m0.regs },
            vq: m0.vq.update(idx as int, q1),
            ..m0
        })
        &&& !(r is Read)
        &&& match q0.notify_handler {
            None => r == MmioAccess::Failed && q1 == q0 && s1 == s0,
            Some(NotifyHandler::Block) => blk_drain_post(q0, s0, map, q1, s1, r == MmioAccess::Written),
        }
    }
}

impl VirtioMmio {
    pub fn new(id: usize) -> (r: VirtioMmio)
        ensures
            r@ == mmio_new_spec(id),
    {
        VirtioMmio {
            id,
            driver_features: 0,
            driver_status: 0,
            regs: VirtMmioRegs::default(),
            dev: VirtDev::default(),
            vq: Vec::new(),
        }
    }

    pub fn mmio_reg_init(&mut self, dev_type: VirtioDeviceType)
        ensures
            final(self)@ == (VirtioMmioView { regs: regs_init(old(self).regs, dev_type), ..old(self)@ }),
    {
        self.regs.init(dev_type);
    }

    /// Initialises the device part; a block device reports `capacity` sectors.
    pub fn dev_init(&mut self, dev_type: VirtioDeviceType, capacity: u64)
        ensures
            final(self)@ == (VirtioMmioView { dev: dev_init_spec(old(self).dev, dev_type, capacity), ..old(self)@ }),
    {
        self.dev.init(dev_type, capacity);
    }

    pub fn set_irt_stat(&mut self, irt_stat: u32)
        ensures
            final(self)@ == (VirtioMmioView { regs: VirtMmioRegs { irt_stat, ..old(self).regs }, ..old(self)@ }),
    {
        self.regs.irt_stat = irt_stat;
    }

    pub fn set_irt_ack(&mut self, irt_ack: u32)
        ensures
            final(self)@ == (VirtioMmioView { regs: VirtMmioRegs { irt_ack, ..old(self).regs }, ..old(self)@ }),
    {
        self.regs.irt_ack = irt_ack;
    }

    pub fn set_q_sel(&mut self, q_sel: u32)
        ensures
            final(self)@ == (VirtioMmioView { regs: VirtMmioRegs { q_sel, ..old(self).regs }, ..old(self)@ }),
    {
        self.regs.q_sel = q_sel;
    }

    pub fn set_dev_stat(&mut self, dev_stat: u32)
        ensures
            final(self)@ == (VirtioMmioView { regs: VirtMmioRegs { dev_stat, ..old(self).regs }, ..old(self)@ }),
    {
        self.regs.dev_stat = dev_stat;
    }

    pub fn set_q_num_max(&mut self, q_num_max: u32)
        ensures
            final(self)@ == (VirtioMmioView { regs: VirtMmioRegs { q_num_max, ..old(self).regs }, ..old(self)@ }),
    {
        self.regs.q_num_max = q_num_max;
    }

    pub fn set_dev_feature(&mut self, dev_feature: u32)
        ensures
            final(self)@ == (VirtioMmioView { regs: VirtMmioRegs { dev_feature, ..old(self).regs }, ..old(self)@ }),
    {
        self.regs.dev_feature = dev_feature;
    }

    pub fn set_dev_feature_sel(&mut self, dev_feature_sel: u32)
        ensures
            final(self)@ == (VirtioMmioView { regs: VirtMmioRegs { dev_feature_sel, ..old(self).regs }, ..old(self)@ }),
    {
        self.regs.dev_feature_sel = dev_feature_sel;
    }

    pub fn set_drv_feature(&mut self, drv_feature: u32)
        ensures
            final(self)@ == (VirtioMmioView { regs: VirtMmioRegs { drv_feature, ..old(self).regs }, ..old(self)@ }),
    {
        self.regs.drv_feature = drv_feature;
    }

    pub fn set_drv_feature_sel(&mut self, drv_feature_sel: u32)
        ensures
            final(self)@ == (VirtioMmioView { regs: VirtMmioRegs { drv_feature_sel, ..old(self).regs }, ..old(self)@ }),
    {
        self.regs.drv_feature_sel = drv_feature_sel;
    }

    pub fn or_driver_feature(&mut self, driver_features: u64)
        ensures
            final(self)@ == (VirtioMmioView { driver_features: old(self).driver_features | driver_features, ..old(self)@ }),
    {
        self.driver_features = self.driver_features | driver_features;
    }

    pub fn dev(&self) -> (r: VirtDev)
        ensures
            r == self.dev,
    {
        self.dev
    }

    pub fn q_sel(&self) -> (r: u32)
        ensures
            r == self.regs.q_sel,
    {
        self.regs.q_sel
    }

    pub fn magic(&self) -> (r: u32)
        ensures
            r == self.regs.magic,
    {
        self.regs.magic
    }

    pub fn version(&self) -> (r: u32)
        ensures
            r == self.regs.version,
    {
        self.regs.version
    }

    pub fn device_id(&self) -> (r: u32)
        ensures
            r == self.regs.device_id,
    {
        self.regs.device_id
    }

    pub fn vendor_id(&self) -> (r: u32)
        ensures
            r == self.regs.vendor_id,
    {
        self.regs.vendor_id
    }

    pub fn dev_stat(&self) -> (r: u32)
        ensures
            r == self.regs.dev_stat,
    {
        self.regs.dev_stat
    }

    pub fn dev_feature_sel(&self) -> (r: u32)
        ensures
            r == self.regs.dev_feature_sel,
    {
        self.regs.dev_feature_sel
    }

    pub fn drv_feature_sel(&self) -> (r: u32)
        ensures
            r == self.regs.drv_feature_sel,
    {
        self.regs.drv_feature_sel
    }

    pub fn q_num_max(&self) -> (r: u32)
        ensures
            r == self.regs.q_num_max,
    {
        self.regs.q_num_max
    }

    pub fn irt_stat(&self) -> (r: u32)
        ensures
            r == self.regs.irt_stat,
    {
        self.regs.irt_stat
    }

    pub fn driver_features(&self) -> (r: u64)
        ensures
            r == self.driver_features,
    {
        self.driver_features
    }

    /// The queue with index `idx`, or `Err` when the device has none.
    pub fn vq(&self, idx: usize) -> (r: Result<Virtq, ()>)
        ensures
            idx < self.vq@.len() ==> r == Ok::<Virtq, ()>(self.vq@[idx as int]),
            idx >= self.vq@.len() ==> r is Err,
    {
        if idx >= self.vq.len() {
            return Err(());
        }
        Ok(self.vq[idx])
    }

    pub fn id(&self) -> (r: usize)
        ensures
            r == self.id,
    {
        self.id
    }

    /// Runs the notify handler of queue `idx` on the guest's request rings.
    pub fn notify_handler<B: BlkBackend>(&mut self, idx: usize, ram: &mut GuestRam, map: &GuestMap, backend: &mut B) -> (r: bool)
        ensures
            idx >= old(self).vq@.len() ==> !r && final(self)@ == old(self)@ && final(ram).bytes@ == old(ram).bytes@,
            idx < old(self).vq@.len() ==> ({
                let q0 = old(self).vq@[idx as int];
                let q1 = final(self).vq@[idx as int];
                &&& final(self)@ == (VirtioMmioView { vq: old(self).vq@.update(idx as int, q1), ..old(self)@ })
                &&& match q0.notify_handler {
                    None => !r && q1 == q0 && final(ram).bytes@ == old(ram).bytes@,
                    Some(NotifyHandler::Block) => blk_drain_post(q0, old(ram).bytes@, *map, q1, final(ram).bytes@, r),
                }
            }),
    {
        if idx >= self.vq.len() {
            return false;
        }
        let mut q = self.vq[idx];
        let ok = q.call_notify_handler(ram, map, backend);
        self.vq.set(idx, q);
        ok
    }

    /// Creates the queues of a device kind: a block device gets one request
    /// queue of `VIRTQUEUE_BLK_MAX_SIZE` entries. Other kinds get none yet.
    pub fn queue_init(&mut self, dev_type: VirtioDeviceType)
        ensures
            dev_type is Block ==> final(self)@ == (VirtioMmioView {
                regs: VirtMmioRegs { q_num_max: VIRTQUEUE_BLK_MAX_SIZE, ..old(self).regs },
                vq: old(self).vq@.push(blk_queue_spec()),
                ..old(self)@
            }),
            !(dev_type is Block) ==> final(self)@ == old(self)@,
    {
        match dev_type {
            VirtioDeviceType::Block => {
                self.set_q_num_max(VIRTQUEUE_BLK_MAX_SIZE);
                let mut queue = Virtq::default();
                queue.reset(0);
                queue.set_notify_handler(NotifyHandler::Block);
                self.vq.push(queue);
            },
            _ => {},
        }
    }

    /// Returns queue `index` to its reset state.
    pub fn queue_reset(&mut self, index: usize)
        requires
            index < old(self).vq@.len(),
        ensures
            final(self)@ == (VirtioMmioView {
                vq: old(self).vq@.update(index as int, virtq_reset(old(self).vq@[index as int], index)),
                ..old(self)@
            }),
    {
        let mut q = self.vq[index];
        q.reset(index);
        self.vq.set(index, q);
    }

    /// Returns every queue to its reset state.
    fn reset_queues(&mut self)
        ensures
            final(self)@ == (VirtioMmioView { vq: queues_reset(old(self).vq@), ..old(self)@ }),
    {
        let ghost qs = self.vq@;
        let mut i: usize = 0;
        while i < self.vq.len()
            invariant
                i <= qs.len(),
                self.vq@.len() == qs.len(),
                self@ == (VirtioMmioView { vq: self.vq@, ..old(self)@ }),
                forall|j: int| 0 <= j < i ==> #[trigger] self.vq@[j] == virtq_reset(qs[j], j as usize),
                forall|j: int| i <= j < qs.len() ==> #[trigger] self.vq@[j] == qs[j],
            decreases qs.len() - i,
        {
            let mut q = self.vq[i];
            q.reset(i);
            self.vq.set(i, q);
            i = i + 1;
        }
        assert(self.vq@ =~= queues_reset(qs));
    }
}

/// The queue operations a transport offers.
pub trait VirtioQueue {
    spec fn queues(&self) -> Seq<Virtq>;

    /// The queue-size limit the transport reports.
    spec fn q_num_max_of(&self) -> u32;

    /// Creates the queues of a device kind.
    fn virtio_queue_init(&mut self, dev_type: VirtioDeviceType)
        ensures
            dev_type is Block ==> final(self).queues() == old(self).queues().push(blk_queue_spec())
                && final(self).q_num_max_of() == VIRTQUEUE_BLK_MAX_SIZE,
            !(dev_type is Block) ==> final(self).queues() == old(self).queues()
                && final(self).q_num_max_of() == old(self).q_num_max_of();

    /// Returns queue `index` to its reset state.
    fn virtio_queue_reset(&mut self, index: usize)
        requires
            index < old(self).queues().len(),
        ensures
            final(self).queues() == old(self).queues().update(
                index as int,
                virtq_reset(old(self).queues()[index as int], index),
            );
}

impl VirtioQueue for VirtioMmio {
    open spec fn queues(&self) -> Seq<Virtq> {
        self.vq@
    }

    open spec fn q_num_max_of(&self) -> u32 {
        self.regs.q_num_max
    }

    fn virtio_queue_init(&mut self, dev_type: VirtioDeviceType) {
        self.queue_init(dev_type);
    }

    fn virtio_queue_reset(&mut self, index: usize) {
        self.queue_reset(index);
    }
}

} // verus!

verus! {

/// Reads and writes of the prologue registers: identity, features, status.
pub fn virtio_mmio_prologue_access(mmio: &mut VirtioMmio, offset: u64, write: bool, value: u32) -> (r: MmioAccess)
    ensures
        (final(mmio)@, r) == prologue_spec(old(mmio)@, offset, write, value),
{
    if !write {
        let v = if offset == VIRTIO_MMIO_MAGIC_VALUE {
            mmio.magic()
        } else if offset == VIRTIO_MMIO_VERSION {
            mmio.version()
        } else if offset == VIRTIO_MMIO_DEVICE_ID {
            mmio.device_id()
        } else if offset == VIRTIO_MMIO_VENDOR_ID {
            mmio.vendor_id()
        } else if offset == VIRTIO_MMIO_HOST_FEATURES {
            let f = mmio.dev().features();
            let w = if mmio.dev_feature_sel() != 0 {
                (f / 0x1_0000_0000) as u32
            } else {
                (f % 0x1_0000_0000) as u32
            };
            mmio.set_dev_feature(w);
            w
        } else if offset == VIRTIO_MMIO_STATUS {
            mmio.dev_stat()
        } else {
            return MmioAccess::Failed;
        };
        MmioAccess::Read(v)
    } else {
        if offset == VIRTIO_MMIO_HOST_FEATURES_SEL {
            mmio.set_dev_feature_sel(value);
        } else if offset == VIRTIO_MMIO_GUEST_FEATURES {
            if mmio.dev_stat() & VIRTIO_CONFIG_S_FEATURES_OK != 0 {
                return MmioAccess::Written;
            }
            mmio.set_drv_feature(value);
            if mmio.drv_feature_sel() != 0 {
                mmio.or_driver_feature((value as u64) << 32u64);
            } else {
                mmio.or_driver_feature(value as u64);
            }
        } else if offset == VIRTIO_MMIO_GUEST_FEATURES_SEL {
            mmio.set_drv_feature_sel(value);
        } else if offset == VIRTIO_MMIO_STATUS {
            mmio.set_dev_stat(value);
            mmio.driver_status = value;
            mmio.dev.set_activated(value == VIRTIO_STATUS_LIVE);
            if value == 0 {
                mmio.driver_features = 0;
                mmio.reset_queues();
            }
        } else {
            return MmioAccess::Failed;
        }
        MmioAccess::Written
    }
}

/// Installs a ring view from a newly completed base address: the view is
/// kept only when the guest-physical address translates.
fn install_high(q: &mut Virtq, offset: u64, value: u32, map: &GuestMap)
    requires
        offset == VIRTIO_MMIO_QUEUE_DESC_HIGH || offset == VIRTIO_MMIO_QUEUE_AVAIL_HIGH
            || offset == VIRTIO_MMIO_QUEUE_USED_HIGH,
    ensures
        Some(*final(q)) == queue_write(*old(q), 0, offset, value, *map),
{
    let cur = if offset == VIRTIO_MMIO_QUEUE_DESC_HIGH {
        q.desc_table_addr
    } else if offset == VIRTIO_MMIO_QUEUE_AVAIL_HIGH {
        q.avail_addr
    } else {
        q.used_addr
    };
    let a = (cur & 0xffff_ffffu64) | ((value as u64) << 32u64);
    let h = map.ipa2pa(a);
    if h == 0 {
        return;
    }
    if offset == VIRTIO_MMIO_QUEUE_DESC_HIGH {
        q.desc_table_addr = a;
        q.set_desc_table(h);
    } else if offset == VIRTIO_MMIO_QUEUE_AVAIL_HIGH {
        q.avail_addr = a;
        q.set_avail(h);
    } else {
        q.used_addr = a;
        q.set_used(h);
    }
}

/// Reads and writes of the queue registers, through the queue selector.
pub fn virtio_mmio_queue_access(mmio: &mut VirtioMmio, offset: u64, write: bool, value: u32, map: &GuestMap) -> (r: MmioAccess)
    ensures
        (final(mmio)@, r) == queue_spec(old(mmio)@, offset, write, value, *map),
{
    let sel = mmio.q_sel() as usize;
    if !write {
        if offset == VIRTIO_MMIO_QUEUE_NUM_MAX {
            return MmioAccess::Read(mmio.q_num_max());
        }
        if offset == VIRTIO_MMIO_QUEUE_READY {
            return match mmio.vq(sel) {
                Ok(q) => MmioAccess::Read(q.ready()),
                Err(_) => MmioAccess::Failed,
            };
        }
        return MmioAccess::Failed;
    }
    if offset == VIRTIO_MMIO_QUEUE_SEL {
        mmio.set_q_sel(value);
        return MmioAccess::Written;
    }
    let mut q = match mmio.vq(sel) {
        Ok(q) => q,
        Err(_) => return MmioAccess::Failed,
    };
    let ghost q0 = q;
    if offset == VIRTIO_MMIO_QUEUE_NUM {
        if value > mmio.q_num_max() || !q.set_num(value as usize) {
            return MmioAccess::Failed;
        }
    } else if offset == VIRTIO_MMIO_QUEUE_READY {
        q.set_ready(value);
    } else if offset == VIRTIO_MMIO_QUEUE_DESC_LOW {
        q.desc_table_addr = (q.desc_table_addr & 0xffff_ffff_0000_0000u64) | (value as u64);
    } else if offset == VIRTIO_MMIO_QUEUE_AVAIL_LOW {
        q.avail_addr = (q.avail_addr & 0xffff_ffff_0000_0000u64) | (value as u64);
    } else if offset == VIRTIO_MMIO_QUEUE_USED_LOW {
        q.used_addr = (q.used_addr & 0xffff_ffff_0000_0000u64) | (value as u64);
    } else if offset == VIRTIO_MMIO_QUEUE_DESC_HIGH || offset == VIRTIO_MMIO_QUEUE_AVAIL_HIGH
        || offset == VIRTIO_MMIO_QUEUE_USED_HIGH {
        install_high(&mut q, offset, value, map);
    } else {
        return MmioAccess::Failed;
    }
    assert(queue_write(q0, mmio.regs.q_num_max, offset, value, *map) == Some(q));
    mmio.vq.set(sel, q);
    MmioAccess::Written
}

/// Reads of the configuration generation and the device's configuration space.
pub fn virtio_mmio_cfg_access(mmio: &VirtioMmio, offset: u64, write: bool) -> (r: MmioAccess)
    ensures
        r == cfg_spec(mmio@, offset, write),
{
    if write {
        return MmioAccess::Failed;
    }
    if offset == VIRTIO_MMIO_CONFIG_GENERATION {
        return MmioAccess::Read(mmio.dev().generation());
    }
    if VIRTIO_MMIO_CONFIG <= offset && offset <= VIRTIO_MMIO_CONFIG_LAST {
        return match mmio.dev().desc() {
            DevDesc::BlkDesc(d) => MmioAccess::Read(d.offset_data(offset - VIRTIO_MMIO_CONFIG)),
            DevDesc::Empty => MmioAccess::Failed,
        };
    }
    MmioAccess::Failed
}

/// A queue notification: raises the used-buffer interrupt and runs the
/// queue's handler. A queue index with no queue fails and changes nothing.
pub fn virtio_mmio_notify<B: BlkBackend>(mmio: &mut VirtioMmio, value: u32, ram: &mut GuestRam, map: &GuestMap, backend: &mut B) -> (r: MmioAccess)
    ensures
        notify_post(old(mmio)@, old(ram).bytes@, *map, value, final(mmio)@, final(ram).bytes@, r),
{
    let idx = value as usize;
    if idx >= mmio.vq.len() {
        return MmioAccess::Failed;
    }
    let stat = mmio.irt_stat();
    mmio.set_irt_stat(stat | VIRTIO_MMIO_INT_VRING);
    if mmio.notify_handler(idx, ram, map, backend) {
        MmioAccess::Written
    } else {
        MmioAccess::Failed
    }
}

/// Decodes one trapped access at `offset` into the device's window and
/// carries it out; `value` is what a write stores.
pub fn virtio_mmio_access<B: BlkBackend>(
    mmio: &mut VirtioMmio,
    offset: u64,
    write: bool,
    value: u32,
    ram: &mut GuestRam,
    map: &GuestMap,
    backend: &mut B,
) -> (r: MmioAccess)
    ensures
        is_notify(offset, write) ==> notify_post(old(mmio)@, old(ram).bytes@, *map, value, final(mmio)@, final(ram).bytes@, r),
        !is_notify(offset, write) ==> (final(mmio)@, r) == access_spec(old(mmio)@, offset, write, value, *map)
            && final(ram).bytes@ == old(ram).bytes@,
{
    if offset == VIRTIO_MMIO_QUEUE_NOTIFY && write {
        virtio_mmio_notify(mmio, value, ram, map, backend)
    } else if offset == VIRTIO_MMIO_INTERRUPT_STATUS && !write {
        MmioAccess::Read(mmio.irt_stat())
    } else if offset == VIRTIO_MMIO_INTERRUPT_ACK && write {
        let stat = mmio.irt_stat();
        mmio.set_irt_stat(stat & !value);
        mmio.set_irt_ack(value);
        MmioAccess::Written
    } else if offset <= VIRTIO_MMIO_GUEST_FEATURES_SEL || offset == VIRTIO_MMIO_STATUS {
        virtio_mmio_prologue_access(mmio, offset, write, value)
    } else if VIRTIO_MMIO_QUEUE_SEL <= offset && offset <= VIRTIO_MMIO_QUEUE_USED_HIGH {
        virtio_mmio_queue_access(mmio, offset, write, value, map)
    } else if VIRTIO_MMIO_CONFIG_GENERATION <= offset && offset <= VIRTIO_MMIO_CONFIG_LAST {
        virtio_mmio_cfg_access(mmio, offset, write)
    } else {
        MmioAccess::Failed
    }
}

} // verus!

verus! {

/// A register the driver can both write and read gives back what was last
/// written: the status register, and the ready flag of the selected queue.
pub proof fn lemma_register_read_back(m: VirtioMmioView, offset: u64, v: u32, map: GuestMap)
    requires
        offset == VIRTIO_MMIO_STATUS
            || (offset == VIRTIO_MMIO_QUEUE_READY && (m.regs.q_sel as int) < m.vq.len()),
    ensures
        access_spec(m, offset, true, v, map).1 == MmioAccess::Written,
        access_spec(access_spec(m, offset, true, v, map).0, offset, false, 0, map).1 == MmioAccess::Read(v),
{
}

/// Writes to the read-only registers (identity, host features, queue size
/// limit) fail and change nothing.
pub proof fn lemma_read_only_registers(m: VirtioMmioView, offset: u64, v: u32, map: GuestMap)
    requires
        offset == VIRTIO_MMIO_MAGIC_VALUE || offset == VIRTIO_MMIO_VERSION || offset == VIRTIO_MMIO_DEVICE_ID
            || offset == VIRTIO_MMIO_VENDOR_ID || offset == VIRTIO_MMIO_HOST_FEATURES
            || offset == VIRTIO_MMIO_QUEUE_NUM_MAX,
    ensures
        access_spec(m, offset, true, v, map) == (m, MmioAccess::Failed),
{
}

/// Acknowledging interrupts clears exactly the acknowledged bits of the
/// interrupt status, which a later read shows, and latches the ack value.
pub proof fn lemma_irq_ack(m: VirtioMmioView, v: u32, map: GuestMap)
    ensures
        ({
            let (m1, r) = access_spec(m, VIRTIO_MMIO_INTERRUPT_ACK, true, v, map);
            &&& r == MmioAccess::Written
            &&& m1.regs.irt_ack == v
            &&& access_spec(m1, VIRTIO_MMIO_INTERRUPT_STATUS, false, 0, map).1
                == MmioAccess::Read(m.regs.irt_stat & !v)
        }),
{
}

/// Paged feature writes assemble the driver's 64-bit feature word: low word
/// `a` under selector 0, then high word `b` under selector 1, give
/// `(b << 32) | a`, as long as features are not yet sealed by FEATURES_OK.
pub proof fn lemma_feature_paging(m: VirtioMmioView, a: u32, b: u32, map: GuestMap)
    requires
        m.driver_features == 0,
        m.regs.dev_stat & VIRTIO_CONFIG_S_FEATURES_OK == 0,
    ensures
        ({
            let m1 = access_spec(m, VIRTIO_MMIO_GUEST_FEATURES_SEL, true, 0, map).0;
            let m2 = access_spec(m1, VIRTIO_MMIO_GUEST_FEATURES, true, a, map).0;
            let m3 = access_spec(m2, VIRTIO_MMIO_GUEST_FEATURES_SEL, true, 1, map).0;
            let m4 = access_spec(m3, VIRTIO_MMIO_GUEST_FEATURES, true, b, map).0;
            m4.driver_features == ((b as u64) << 32u64) | (a as u64)
        }),
{
    let a64 = a as u64;
    let b64 = b as u64;
    assert((0u64 | a64) | (b64 << 32u64) == (b64 << 32u64) | a64) by (bit_vector);
}

/// Writing 0 to the status register resets the device: it is no longer
/// activated, the driver's features are cleared, and every queue has lost
/// its ring views, its cursors are back at 0, and its generation has moved
/// on, so that requests begun before the reset are dropped.
pub proof fn lemma_status_reset(m: VirtioMmioView, map: GuestMap)
    ensures
        ({
            let (m1, r) = access_spec(m, VIRTIO_MMIO_STATUS, true, 0, map);
            &&& r == MmioAccess::Written
            &&& !m1.dev.activated
            &&& m1.driver_features == 0
            &&& m1.regs.dev_stat == 0
            &&& m1.vq.len() == m.vq.len()
            &&& forall|i: int| 0 <= i < m1.vq.len() ==> {
                &&& (#[trigger] m1.vq[i]).desc_table is None
                &&& m1.vq[i].avail is None
                &&& m1.vq[i].used is None
                &&& m1.vq[i].last_avail_idx == 0
                &&& m1.vq[i].last_used_idx == 0
                &&& m1.vq[i].generation != m.vq[i].generation
            }
        }),
{
}

/// After a write of `v` to the status register the device is activated
/// exactly when `v` is 0x0F.
pub proof fn lemma_status_live(m: VirtioMmioView, v: u32, map: GuestMap)
    ensures
        access_spec(m, VIRTIO_MMIO_STATUS, true, v, map).0.dev.activated == (v == VIRTIO_STATUS_LIVE),
{
}

/// No access changes the identity registers or the queue-size limit:
/// whatever was written before, reads of them give what initialisation set.
pub proof fn lemma_identity_stable(m: VirtioMmioView, offset: u64, write: bool, v: u32, map: GuestMap)
    ensures
        ({
            let m1 = access_spec(m, offset, write, v, map).0;
            &&& m1.regs.magic == m.regs.magic
            &&& m1.regs.version == m.regs.version
            &&& m1.regs.device_id == m.regs.device_id
            &&& m1.regs.vendor_id == m.regs.vendor_id
            &&& m1.regs.q_num_max == m.regs.q_num_max
        }),
{
}

/// A block device offers VIRTIO_F_VERSION_1: under selector 1 the host
/// features word reads with bit 0 set.
pub proof fn lemma_version_1_offered(m: VirtioMmioView, map: GuestMap)
    requires
        m.dev.features == VIRTIO_BLK_FEATURES,
        m.regs.dev_feature_sel == 1,
    ensures
        access_spec(m, VIRTIO_MMIO_HOST_FEATURES, false, 0, map).1 == MmioAccess::Read(1),
{
    assert((1u64 << 32u64) | (1u64 << 2u64) == 0x1_0000_0004u64) by (bit_vector);
}

} // verus!
