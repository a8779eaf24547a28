//! The virtio block binding: feature bits, configuration space, request
//! decoding, and the notify handler that drains a request queue.

use vstd::prelude::*;
use crate::layout::{VIRTIO_F_VERSION_1, VRING_USED_F_NO_NOTIFY};
use crate::ram::{GuestRam, GuestMap, in_ram, le32, le64};
use crate::queue::{Virtq, NotifyHandler, DescSegment, chain_spec, publish_used, used_publishable, valid_num, wrap_inc16,
    avail_pops, avail_head, avail_idx_spec, dist16, lemma_dist16_step, with_used_flags};
use crate::regs::VirtioDeviceType;

verus! {

pub const VIRTIO_BLK_F_SEG_MAX: u64 = 1 << 2;
/// Features the block device offers.
pub const VIRTIO_BLK_FEATURES: u64 = VIRTIO_F_VERSION_1 | VIRTIO_BLK_F_SEG_MAX;
/// Size of the block request queue.
pub const VIRTQUEUE_BLK_MAX_SIZE: u32 = 256;
/// Data segments per request.
pub const BLK_SEG_MAX: u32 = 1;

pub const VIRTIO_BLK_T_IN: u32 = 0;
pub const VIRTIO_BLK_T_OUT: u32 = 1;
pub const VIRTIO_BLK_S_OK: u8 = 0;
pub const VIRTIO_BLK_S_IOERR: u8 = 1;
pub const VIRTIO_BLK_S_UNSUPP: u8 = 2;

/// Configuration space of a block device.
#[derive(Clone, Copy, Debug, PartialEq, Eq, Structural)]
pub struct BlkDesc {
    /// Size in 512-byte sectors.
    pub capacity: u64,
    pub size_max: u32,
    pub seg_max: u32,
}

/// The 32-bit configuration word at byte offset `o` of a block device.
pub open spec fn blk_config_word(d: BlkDesc, o: u64) -> u32 {
    if o == 0 {
        (d.capacity % 0x1_0000_0000) as u32
    } else if o == 4 {
        (d.capacity / 0x1_0000_0000) as u32
    } else if o == 8 {
        d.size_max
    } else if o == 12 {
        d.seg_max
    } else {
        0
    }
}

impl BlkDesc {
    pub fn offset_data(&self, offset: u64) -> (r: u32)
        ensures
            r == blk_config_word(*self, offset),
    {
        if offset == 0 {
            (self.capacity % 0x1_0000_0000) as u32
        } else if offset == 4 {
            (self.capacity / 0x1_0000_0000) as u32
        } else if offset == 8 {
            self.size_max
        } else if offset == 12 {
            self.seg_max
        } else {
            0
        }
    }
}

/// The device-specific part of an emulated device.
#[derive(Clone, Copy, Debug, PartialEq, Eq, Structural)]
pub enum DevDesc {
    Empty,
    BlkDesc(BlkDesc),
}

/// Device-specific state: whether the driver finished initialisation, the
/// offered features, the configuration generation and space.
#[derive(Clone, Copy, Debug, PartialEq, Eq, Structural)]
pub struct VirtDev {
    pub activated: bool,
    pub features: u64,
    pub generation: u32,
    pub desc: DevDesc,
}

/// The device part of a freshly initialised device of kind `kind` whose
/// storage holds `capacity` sectors.
pub open spec fn dev_init_spec(d: VirtDev, kind: VirtioDeviceType, capacity: u64) -> VirtDev {
    match kind {
        VirtioDeviceType::Block => VirtDev {
            features: VIRTIO_BLK_FEATURES,
            desc: DevDesc::BlkDesc(BlkDesc { capacity, size_max: 0, seg_max: BLK_SEG_MAX }),
            ..d
        },
        _ => d,
    }
}

impl VirtDev {
    pub fn default() -> (r: VirtDev)
        ensures
            r == (VirtDev { activated: false, features: 0, generation: 0, desc: DevDesc::Empty }),
    {
        VirtDev { activated: false, features: 0, generation: 0, desc: DevDesc::Empty }
    }

    pub fn init(&mut self, kind: VirtioDeviceType, capacity: u64)
        ensures
            *final(self) == dev_init_spec(*old(self), kind, capacity),
    {
        match kind {
            VirtioDeviceType::Block => {
                self.features = VIRTIO_BLK_FEATURES;
                self.desc = DevDesc::BlkDesc(BlkDesc { capacity, size_max: 0, seg_max: BLK_SEG_MAX });
            },
            _ => {},
        }
    }

    pub fn features(&self) -> (r: u64)
        ensures
            r == self.features,
    {
        self.features
    }

    pub fn generation(&self) -> (r: u32)
        ensures
            r == self.generation,
    {
        self.generation
    }

    pub fn desc(&self) -> (r: DevDesc)
        ensures
            r == self.desc,
    {
        self.desc
    }

    pub fn activated(&self) -> (r: bool)
        ensures
            r == self.activated,
    {
        self.activated
    }

    pub fn set_activated(&mut self, activated: bool)
        ensures
            *final(self) == (VirtDev { activated, ..*old(self) }),
    {
        self.activated = activated;
    }
}

/// Storage behind a block device. A call may block.
pub trait BlkBackend {
    /// Reads `len` bytes from sector `sector` on; `None` on failure.
    fn read(&mut self, sector: u64, len: usize) -> Option<Vec<u8>>;

    /// Writes `data` from sector `sector` on; false on failure.
    fn write(&mut self, sector: u64, data: &Vec<u8>) -> bool;
}

#[derive(Clone, Copy, Debug, PartialEq, Eq, Structural)]
pub enum BlkOp {
    In,
    Out,
    Unsupported,
}

/// A decoded block request: the operation, its first sector, the data
/// buffer (for reads and writes) and the status byte's buffer.
#[derive(Clone, Copy, Debug, PartialEq, Eq, Structural)]
pub struct BlkRequest {
    pub op: BlkOp,
    pub sector: u64,
    pub data: Option<DescSegment>,
    pub status: DescSegment,
}

/// The request that a chain of segments carries, or `None` when the chain
/// is malformed: a read-only header of 16 bytes first, a writable status
/// byte last, and for reads and writes exactly one data buffer between them,
/// writable for reads and read-only for writes.
pub open spec fn blk_parse_spec(s: Seq<u8>, segs: Seq<DescSegment>) -> Option<BlkRequest> {
    if segs.len() < 2 {
        None
    } else {
        let hd = segs[0];
        let st = segs[segs.len() - 1];
        if hd.writable || hd.len < 16 || !in_ram(s, hd.addr as int, 16) || !st.writable || st.len < 1
            || !in_ram(s, st.addr as int, 1) {
            None
        } else {
            let t = le32(s, hd.addr as int);
            let sector = le64(s, hd.addr + 8) as u64;
            if t == VIRTIO_BLK_T_IN || t == VIRTIO_BLK_T_OUT {
                let d = segs[1];
                if segs.len() != 3 || d.writable != (t == VIRTIO_BLK_T_IN) || !in_ram(s, d.addr as int, d.len as int) {
                    None
                } else {
                    Some(BlkRequest {
                        op: if t == VIRTIO_BLK_T_IN { BlkOp::In } else { BlkOp::Out },
                        sector,
                        data: Some(d),
                        status: st,
                    })
                }
            } else {
                Some(BlkRequest { op: BlkOp::Unsupported, sector, data: None, status: st })
            }
        }
    }
}

pub fn blk_parse(ram: &GuestRam, segs: &Vec<DescSegment>) -> (r: Option<BlkRequest>)
    ensures
        r == blk_parse_spec(ram.bytes@, segs@),
{
    if segs.len() < 2 {
        return None;
    }
    let hd = segs[0];
    let st = segs[segs.len() - 1];
    if hd.writable || hd.len < 16 || !ram.contains(hd.addr, 16) || !st.writable || st.len < 1
        || !ram.contains(st.addr, 1) {
        return None;
    }
    let t = ram.read_u32(hd.addr).unwrap();
    let sector = ram.read_u64(hd.addr + 8).unwrap();
    if t == VIRTIO_BLK_T_IN || t == VIRTIO_BLK_T_OUT {
        let d = segs[1];
        if segs.len() != 3 || d.writable != (t == VIRTIO_BLK_T_IN) || !ram.contains(d.addr, d.len as u64) {
            return None;
        }
        Some(BlkRequest {
            op: if t == VIRTIO_BLK_T_IN { BlkOp::In } else { BlkOp::Out },
            sector,
            data: Some(d),
            status: st,
        })
    } else {
        Some(BlkRequest { op: BlkOp::Unsupported, sector, data: None, status: st })
    }
}

/// What the back-end made of a request.
#[derive(Clone, Debug, PartialEq, Eq)]
pub enum BlkIoResult {
    /// The bytes read for a read request.
    Read(Vec<u8>),
    /// A write request was carried out.
    Written,
    Failed,
}

/// The bytes `s` with `data` stored from `a` on.
pub open spec fn write_bytes(s: Seq<u8>, a: int, data: Seq<u8>) -> Seq<u8> {
    Seq::new(s.len(), |i: int| if a <= i < a + data.len() { data[i - a] } else { s[i] })
}

/// The buffers of request `q` lie in guest memory.
pub open spec fn blk_req_fits(s: Seq<u8>, q: BlkRequest) -> bool {
    &&& in_ram(s, q.status.addr as int, 1)
    &&& q.op is In ==> q.data is Some && in_ram(s, q.data->0.addr as int, q.data->0.len as int)
}

/// Guest memory after the outcome `res` of request `req` is stored, and the
/// number of bytes the device wrote for the driver: the read data when a
/// read succeeded, and the status byte (OK, IOERR or UNSUPP). A malformed
/// request (`None`) stores nothing and counts 0.
pub open spec fn blk_apply(s: Seq<u8>, req: Option<BlkRequest>, res: BlkIoResult) -> (Seq<u8>, u32) {
    match req {
        None => (s, 0),
        Some(q) => if !blk_req_fits(s, q) {
            (s, 0)
        } else {
            let st = q.status.addr as int;
            match q.op {
                BlkOp::Unsupported => (s.update(st, VIRTIO_BLK_S_UNSUPP), 1),
                BlkOp::In => match res {
                    BlkIoResult::Read(buf) => if buf@.len() == q.data->0.len && q.data->0.len < u32::MAX {
                        (write_bytes(s, q.data->0.addr as int, buf@).update(st, VIRTIO_BLK_S_OK),
                         (q.data->0.len + 1) as u32)
                    } else {
                        (s.update(st, VIRTIO_BLK_S_IOERR), 1)
                    },
                    _ => (s.update(st, VIRTIO_BLK_S_IOERR), 1),
                },
                BlkOp::Out => match res {
                    BlkIoResult::Written => (s.update(st, VIRTIO_BLK_S_OK), 1),
                    _ => (s.update(st, VIRTIO_BLK_S_IOERR), 1),
                },
            }
        },
    }
}

/// Copies `data` into guest memory from host address `addr` on.
fn copy_to_guest(ram: &mut GuestRam, addr: u64, data: &Vec<u8>)
    requires
        in_ram(old(ram).bytes@, addr as int, data@.len() as int),
    ensures
        final(ram).bytes@ == write_bytes(old(ram).bytes@, addr as int, data@),
{
    let ghost s = ram.bytes@;
    let total = ram.len();
    let mut i: usize = 0;
    while i < data.len()
        invariant
            i <= data@.len(),
            s.len() == total,
            in_ram(s, addr as int, data@.len() as int),
            ram.bytes@ == Seq::new(s.len(), |j: int| if addr <= j < addr + i { data@[j - addr] } else { s[j] }),
        decreases data@.len() - i,
    {
        let ghost before = ram.bytes@;
        ram.write_u8(addr + i as u64, data[i]);
        i = i + 1;
        assert(ram.bytes@ =~= Seq::new(s.len(), |j: int| if addr <= j < addr + i { data@[j - addr] } else { s[j] }));
    }
    assert(ram.bytes@ =~= write_bytes(s, addr as int, data@));
}

/// The `len` bytes of guest memory from host address `addr` on.
fn copy_from_guest(ram: &GuestRam, addr: u64, len: u32) -> (r: Vec<u8>)
    requires
        in_ram(ram.bytes@, addr as int, len as int),
    ensures
        r@ == ram.bytes@.subrange(addr as int, addr + len),
{
    let mut out: Vec<u8> = Vec::new();
    let total = ram.len();
    let mut i: u32 = 0;
    while i < len
        invariant
            i <= len,
            ram.bytes@.len() == total,
            in_ram(ram.bytes@, addr as int, len as int),
            out@ == ram.bytes@.subrange(addr as int, addr + i),
        decreases len - i,
    {
        let b = ram.read_u8(addr + i as u64).unwrap();
        out.push(b);
        i = i + 1;
        assert(out@ =~= ram.bytes@.subrange(addr as int, addr + i));
    }
    out
}

/// Stores the outcome of a request in guest memory and returns the number
/// of bytes written for the driver.
pub fn blk_store_result(ram: &mut GuestRam, req: &Option<BlkRequest>, res: &BlkIoResult) -> (r: u32)
    ensures
        (final(ram).bytes@, r) == blk_apply(old(ram).bytes@, *req, *res),
{
    let q = match req {
        None => return 0,
        Some(q) => *q,
    };
    let st = q.status.addr;
    if !ram.contains(st, 1) {
        return 0;
    }
    match q.op {
        BlkOp::Unsupported => {
            ram.write_u8(st, VIRTIO_BLK_S_UNSUPP);
            1
        },
        BlkOp::In => {
            let d = match q.data {
                Some(d) => d,
                None => return 0,
            };
            if !ram.contains(d.addr, d.len as u64) {
                return 0;
            }
            match res {
                BlkIoResult::Read(buf) => {
                    if buf.len() == d.len as usize && d.len < u32::MAX {
                        copy_to_guest(ram, d.addr, buf);
                        ram.write_u8(st, VIRTIO_BLK_S_OK);
                        d.len + 1
                    } else {
                        ram.write_u8(st, VIRTIO_BLK_S_IOERR);
                        1
                    }
                },
                _ => {
                    ram.write_u8(st, VIRTIO_BLK_S_IOERR);
                    1
                },
            }
        },
        BlkOp::Out => {
            match res {
                BlkIoResult::Written => {
                    ram.write_u8(st, VIRTIO_BLK_S_OK);
                },
                _ => {
                    ram.write_u8(st, VIRTIO_BLK_S_IOERR);
                },
            }
            1
        },
    }
}

/// The request that the chain at `head` carries, `None` when the chain
/// cannot be walked or is malformed.
pub open spec fn blk_request_at(q: Virtq, s: Seq<u8>, map: GuestMap, head: u16) -> Option<BlkRequest> {
    match chain_spec(q, s, map, head) {
        Ok(segs) => blk_parse_spec(s, segs),
        Err(_) => None,
    }
}

/// A request taken from a queue whose outcome is not yet stored. It
/// remembers the queue's generation, so that a reset in between is seen.
#[derive(Clone, Copy, Debug, PartialEq, Eq)]
pub struct BlkInflight {
    pub head: u16,
    pub req: Option<BlkRequest>,
    pub generation: u64,
}

/// Takes the next request from the queue: pops a head as
/// `Virtq::pop_avail_desc_idx` does, then walks and decodes its chain.
pub fn blk_begin(vq: &mut Virtq, ram: &GuestRam, map: &GuestMap, avail_idx: u16) -> (r: Option<BlkInflight>)
    ensures
        avail_pops(*old(vq), ram.bytes@, avail_idx) ==> r is Some
            && r->0.head == avail_head(*old(vq), ram.bytes@)
            && r->0.req == blk_request_at(*old(vq), ram.bytes@, *map, r->0.head)
            && r->0.generation == old(vq).generation
            && *final(vq) == (Virtq { last_avail_idx: wrap_inc16(old(vq).last_avail_idx), ..*old(vq) }),
        !avail_pops(*old(vq), ram.bytes@, avail_idx) ==> r is None && *final(vq) == *old(vq),
{
    let head = match vq.pop_avail_desc_idx(ram, avail_idx) {
        Some(h) => h,
        None => return None,
    };
    let req = match vq.read_desc_chain(ram, map, head) {
        Ok(segs) => blk_parse(ram, &segs),
        Err(_) => None,
    };
    Some(BlkInflight { head, req, generation: vq.generation })
}

/// What finishing `inflight` with outcome `res` on queue `q` and memory `s`
/// leaves: a request begun before a reset changes nothing; otherwise the
/// outcome is stored as `blk_apply` says and the used entry published, when
/// the used ring can take it.
pub open spec fn blk_finish_post(q: Virtq, s: Seq<u8>, inflight: BlkInflight, res: BlkIoResult, q1: Virtq, s1: Seq<u8>, r: bool) -> bool {
    if inflight.generation != q.generation {
        !r && s1 == s && q1 == q
    } else {
        let (sa, n) = blk_apply(s, inflight.req, res);
        &&& r == (q.used is Some && valid_num(q.num) && used_publishable(sa, q.used->0, q.num))
        &&& r ==> s1 == publish_used(sa, q.used->0, q.num, q.used_flags, inflight.head as u32, n)
            && q1 == (Virtq { last_used_idx: wrap_inc16(q.last_used_idx), ..q })
        &&& !r ==> s1 == sa && q1 == q
    }
}

proof fn lemma_step_is(
    qa: Virtq, sa: Seq<u8>, map: GuestMap, snap: u16, inflight: BlkInflight, res: BlkIoResult,
    qb: Virtq, sb: Seq<u8>, published: bool,
)
    requires
        avail_pops(qa, sa, snap),
        inflight.head == avail_head(qa, sa),
        inflight.req == blk_request_at(qa, sa, map, inflight.head),
        inflight.generation == qa.generation,
        blk_outcome_allowed(sa, inflight.req, res),
        blk_finish_post(Virtq { last_avail_idx: wrap_inc16(qa.last_avail_idx), ..qa }, sa, inflight, res, qb, sb, published),
    ensures
        drain_step(qa, sa, map, res) == Some((qb, sb, published)),
{
}

/// Stores the outcome of an in-flight request and publishes its used entry.
/// A request begun before the queue was reset is dropped: nothing changes.
pub fn blk_finish(vq: &mut Virtq, ram: &mut GuestRam, inflight: &BlkInflight, res: &BlkIoResult) -> (r: bool)
    ensures
        blk_finish_post(*old(vq), old(ram).bytes@, *inflight, *res, *final(vq), final(ram).bytes@, r),
{
    if inflight.generation != vq.generation {
        return false;
    }
    let n = blk_store_result(ram, &inflight.req, res);
    vq.update_used_ring(ram, n, inflight.head as u32)
}

/// What a request asks of the back-end.
#[derive(Clone, Debug, PartialEq, Eq)]
pub enum BlkIoArgs {
    /// Read this many bytes from this sector on.
    Read(u64, usize),
    /// Write these bytes from this sector on.
    Write(u64, Vec<u8>),
    /// Nothing: the request is malformed or of an unsupported type.
    Nothing,
}

/// `a` is what request `req` hands the back-end: a read of the data
/// buffer's length, or a write of the data buffer's bytes, from the
/// request's sector on.
pub open spec fn blk_io_args_spec(s: Seq<u8>, req: Option<BlkRequest>, a: BlkIoArgs) -> bool {
    match req {
        Some(q) => match q.data {
            Some(d) => match q.op {
                BlkOp::In => a == BlkIoArgs::Read(q.sector, d.len as usize),
                BlkOp::Out => if in_ram(s, d.addr as int, d.len as int) {
                    match a {
                        BlkIoArgs::Write(sector, data) => sector == q.sector
                            && data@ == s.subrange(d.addr as int, d.addr + d.len),
                        _ => false,
                    }
                } else {
                    a is Nothing
                },
                BlkOp::Unsupported => a is Nothing,
            },
            None => a is Nothing,
        },
        None => a is Nothing,
    }
}

/// The back-end outcomes that the request `req` can come back with: a read
/// gives bytes or fails, a write is done or fails, and a request with
/// nothing to hand on counts as failed.
pub open spec fn blk_outcome_allowed(s: Seq<u8>, req: Option<BlkRequest>, out: BlkIoResult) -> bool {
    match req {
        Some(q) => match q.data {
            Some(d) => match q.op {
                BlkOp::In => out is Read || out is Failed,
                BlkOp::Out => if in_ram(s, d.addr as int, d.len as int) {
                    out is Written || out is Failed
                } else {
                    out is Failed
                },
                BlkOp::Unsupported => out is Failed,
            },
            None => out is Failed,
        },
        None => out is Failed,
    }
}

/// The outcomes a back-end call with `args` can have.
pub open spec fn blk_outcome_fits(args: BlkIoArgs, out: BlkIoResult) -> bool {
    &&& args is Nothing ==> out is Failed
    &&& args is Read ==> out is Read || out is Failed
    &&& args is Write ==> out is Written || out is Failed
}

proof fn lemma_outcome_allowed(s: Seq<u8>, req: Option<BlkRequest>, args: BlkIoArgs, out: BlkIoResult)
    requires
        blk_io_args_spec(s, req, args),
        blk_outcome_fits(args, out),
    ensures
        blk_outcome_allowed(s, req, out),
{
}

/// What request `req` hands the back-end.
pub fn blk_io_args(ram: &GuestRam, req: &Option<BlkRequest>) -> (r: BlkIoArgs)
    ensures
        blk_io_args_spec(ram.bytes@, *req, r),
{
    let q = match req {
        Some(q) => *q,
        None => return BlkIoArgs::Nothing,
    };
    let d = match q.data {
        Some(d) => d,
        None => return BlkIoArgs::Nothing,
    };
    match q.op {
        BlkOp::In => BlkIoArgs::Read(q.sector, d.len as usize),
        BlkOp::Out => {
            if !ram.contains(d.addr, d.len as u64) {
                return BlkIoArgs::Nothing;
            }
            BlkIoArgs::Write(q.sector, copy_from_guest(ram, d.addr, d.len))
        },
        BlkOp::Unsupported => BlkIoArgs::Nothing,
    }
}

/// Hands `args` to the back-end unchanged.
fn blk_io<B: BlkBackend>(backend: &mut B, args: BlkIoArgs) -> (r: BlkIoResult)
    ensures
        blk_outcome_fits(args, r),
{
    match args {
        BlkIoArgs::Read(sector, len) => match backend.read(sector, len) {
            Some(buf) => BlkIoResult::Read(buf),
            None => BlkIoResult::Failed,
        },
        BlkIoArgs::Write(sector, data) => {
            if backend.write(sector, &data) {
                BlkIoResult::Written
            } else {
                BlkIoResult::Failed
            }
        },
        BlkIoArgs::Nothing => BlkIoResult::Failed,
    }
}

/// One step of a drain that takes a head: the request under the cursor is
/// decoded, its back-end outcome `out` stored, and its used entry published.
/// `None` when `out` is not an outcome that request can have. The flag says
/// whether the used entry was published.
pub open spec fn drain_step(q: Virtq, s: Seq<u8>, map: GuestMap, out: BlkIoResult) -> Option<(Virtq, Seq<u8>, bool)> {
    let head = avail_head(q, s);
    let req = blk_request_at(q, s, map, head);
    let q1 = Virtq { last_avail_idx: wrap_inc16(q.last_avail_idx), ..q };
    let (s1, n) = blk_apply(s, req, out);
    if !blk_outcome_allowed(s, req, out) {
        None
    } else if q1.used is Some && valid_num(q1.num) && used_publishable(s1, q1.used->0, q1.num) {
        Some((
            Virtq { last_used_idx: wrap_inc16(q1.last_used_idx), ..q1 },
            publish_used(s1, q1.used->0, q1.num, q1.used_flags, head as u32, n),
            true,
        ))
    } else {
        Some((q1, s1, false))
    }
}

/// Draining a queue up to the driver's index `snap`, the back-end answering
/// the requests in turn with `outs`. The result is the queue, guest memory,
/// and `Some(success)`; `None` when `outs` runs out, or holds an outcome a
/// request cannot have, before the drain ends. A drain ends with success
/// once the cursor reaches `snap`, and fails when no head can be popped or
/// a used entry cannot be published.
pub open spec fn drain_spec(q: Virtq, s: Seq<u8>, map: GuestMap, snap: u16, outs: Seq<BlkIoResult>)
    -> (Virtq, Seq<u8>, Option<bool>)
    decreases outs.len(),
{
    if q.last_avail_idx == snap {
        (q, s, Some(true))
    } else if !avail_pops(q, s, snap) {
        (q, s, Some(false))
    } else if outs.len() == 0 {
        (q, s, None)
    } else {
        match drain_step(q, s, map, outs[0]) {
            None => (q, s, None),
            Some((q1, s1, published)) => if published {
                drain_spec(q1, s1, map, snap, outs.drop_first())
            } else {
                (q1, s1, Some(false))
            },
        }
    }
}

/// Draining from `q0` with the outcomes `outs` so far has reached `q`, `s`:
/// whatever the back-end answers next, the drain from here goes as the drain
/// from the start.
#[verifier::opaque]
pub open spec fn drain_tail(q0: Virtq, s0: Seq<u8>, map: GuestMap, snap: u16, outs: Seq<BlkIoResult>, q: Virtq, s: Seq<u8>) -> bool {
    forall|rest: Seq<BlkIoResult>| #[trigger] drain_spec(q, s, map, snap, rest)
        == drain_spec(q0, s0, map, snap, outs + rest)
}

proof fn lemma_drain_extend(
    q0: Virtq, s0: Seq<u8>, map: GuestMap, snap: u16, outs: Seq<BlkIoResult>,
    qa: Virtq, sa: Seq<u8>, res: BlkIoResult, qb: Virtq, sb: Seq<u8>, published: bool,
)
    requires
        drain_tail(q0, s0, map, snap, outs, qa, sa),
        qa.last_avail_idx != snap,
        avail_pops(qa, sa, snap),
        drain_step(qa, sa, map, res) == Some((qb, sb, published)),
    ensures
        published ==> drain_tail(q0, s0, map, snap, outs.push(res), qb, sb)
            && drain_spec(q0, s0, map, snap, outs.push(res)) == drain_spec(qb, sb, map, snap, Seq::empty()),
        !published ==> drain_spec(q0, s0, map, snap, outs.push(res)) == (qb, sb, Some(false)),
{
    reveal(drain_tail);
    assert forall|rest: Seq<BlkIoResult>| published implies #[trigger] drain_spec(qb, sb, map, snap, rest)
        == drain_spec(q0, s0, map, snap, outs.push(res) + rest) by {
        let r2 = seq![res] + rest;
        assert(r2.drop_first() =~= rest);
        assert(r2[0] == res);
        assert(outs + r2 =~= outs.push(res) + rest);
        assert(drain_spec(qa, sa, map, snap, r2) == drain_spec(q0, s0, map, snap, outs + r2));
    }
    let one = seq![res];
    assert(one.drop_first() =~= Seq::<BlkIoResult>::empty());
    assert(one[0] == res);
    assert(outs + one =~= outs.push(res));
    assert(drain_spec(qa, sa, map, snap, one) == drain_spec(q0, s0, map, snap, outs + one));
    if published {
        assert(outs.push(res) + Seq::<BlkIoResult>::empty() =~= outs.push(res));
    }
}

/// A drain over one new chain (the driver's index one past the cursor)
/// that ends takes exactly one back-end answer, which that chain's request
/// can have. When the used ring can take the entry, the drain succeeds: the
/// cursors advance by one and the used entry `{ head, n }` is published over
/// the memory `blk_apply` leaves, `n` counting the bytes written for the
/// driver (0 for a malformed or unmapped chain).
pub proof fn lemma_drain_single(q: Virtq, s: Seq<u8>, map: GuestMap, outs: Seq<BlkIoResult>)
    requires
        avail_pops(q, s, wrap_inc16(q.last_avail_idx)),
        drain_spec(q, s, map, wrap_inc16(q.last_avail_idx), outs).2 is Some,
    ensures
        ({
            let snap = wrap_inc16(q.last_avail_idx);
            let head = avail_head(q, s);
            let req = blk_request_at(q, s, map, head);
            let (s1, n) = blk_apply(s, req, outs[0]);
            &&& outs.len() >= 1
            &&& blk_outcome_allowed(s, req, outs[0])
            &&& q.used is Some && valid_num(q.num) && used_publishable(s1, q.used->0, q.num) ==>
                drain_spec(q, s, map, snap, outs) == (
                    Virtq { last_avail_idx: snap, last_used_idx: wrap_inc16(q.last_used_idx), ..q },
                    publish_used(s1, q.used->0, q.num, q.used_flags, head as u32, n),
                    Some(true),
                )
        }),
{
    let snap = wrap_inc16(q.last_avail_idx);
    assert(q.last_avail_idx != snap);
    if outs.len() >= 1 {
        match drain_step(q, s, map, outs[0]) {
            Some((q1, s1, p)) => {
                if p {
                    assert(q1.last_avail_idx == snap);
                    assert(drain_spec(q1, s1, map, snap, outs.drop_first()) == (q1, s1, Some(true)));
                }
            },
            None => {},
        }
    }
}

/// The queue `q0` while it is drained: notifications suppressed.
pub open spec fn draining(q0: Virtq) -> Virtq {
    Virtq { used_flags: q0.used_flags | VRING_USED_F_NO_NOTIFY, ..q0 }
}

/// What draining queue `q0` over guest memory `s0` leaves, `q1` and `s1`,
/// when it returns `r`. With no readable available index it fails and
/// changes nothing. Otherwise, for some answers `outs` of the back-end, the
/// queue is drained with notifications suppressed up to the available index
/// read on entry, as `drain_spec` says; then suppression is lifted, in the
/// device and in the guest-visible flags of the used ring.
pub open spec fn blk_drain_post(q0: Virtq, s0: Seq<u8>, map: GuestMap, q1: Virtq, s1: Seq<u8>, r: bool) -> bool {
    match avail_idx_spec(q0, s0) {
        None => !r && q1 == q0 && s1 == s0,
        Some(snap) => exists|outs: Seq<BlkIoResult>|
            #![trigger drain_spec(draining(q0), s0, map, snap, outs)]
            drain_spec(draining(q0), s0, map, snap, outs).2 == Some(r)
            && q1 == (Virtq {
                used_flags: q0.used_flags & !VRING_USED_F_NO_NOTIFY,
                ..drain_spec(draining(q0), s0, map, snap, outs).0
            })
            && s1 == with_used_flags(drain_spec(draining(q0), s0, map, snap, outs).1, q1),
    }
}

/// Drains the block request queue up to the driver's available index as it
/// stood on entry: each chain is decoded, handed to the back-end, its
/// outcome stored and its used entry published, with driver notifications
/// suppressed meanwhile. An empty drain succeeds and changes nothing but the
/// flags; the handler fails only when no available index can be read, a
/// head cannot be popped, or a used entry cannot be published.
#[verifier::rlimit(60)]
pub fn virtio_blk_notify_handler<B: BlkBackend>(vq: &mut Virtq, ram: &mut GuestRam, map: &GuestMap, backend: &mut B) -> (r: bool)
    ensures
        blk_drain_post(*old(vq), old(ram).bytes@, *map, *final(vq), final(ram).bytes@, r),
        avail_idx_spec(*old(vq), old(ram).bytes@) == Some(old(vq).last_avail_idx) ==> r
            && final(ram).bytes@ == with_used_flags(old(ram).bytes@, *final(vq)),
{
    let snap = match vq.avail_idx(ram) {
        Some(i) => i,
        None => return false,
    };
    vq.disable_notify();
    let ghost q0 = *vq;
    let ghost s0 = ram.bytes@;
    let ghost mut outs: Seq<BlkIoResult> = Seq::empty();
    proof {
        reveal(drain_tail);
        assert forall|rest: Seq<BlkIoResult>| #[trigger] drain_spec(*vq, ram.bytes@, *map, snap, rest)
            == drain_spec(q0, s0, *map, snap, outs + rest) by {
            assert(outs + rest =~= rest);
        }
        assert(outs + Seq::<BlkIoResult>::empty() =~= outs);
    }
    let mut ok = true;
    while vq.last_avail_idx != snap
        invariant_except_break
            ok,
            drain_tail(q0, s0, *map, snap, outs, *vq, ram.bytes@),
            drain_spec(q0, s0, *map, snap, outs) == drain_spec(*vq, ram.bytes@, *map, snap, Seq::empty()),
        invariant
            *vq == (Virtq { last_avail_idx: vq.last_avail_idx, last_used_idx: vq.last_used_idx, ..q0 }),
            dist16(q0.last_avail_idx, vq.last_avail_idx) + dist16(vq.last_avail_idx, snap)
                == dist16(q0.last_avail_idx, snap),
        ensures
            drain_spec(q0, s0, *map, snap, outs) == (*vq, ram.bytes@, Some(ok)),
            *vq == (Virtq { last_avail_idx: vq.last_avail_idx, last_used_idx: vq.last_used_idx, ..q0 }),
        decreases dist16(vq.last_avail_idx, snap),
    {
        let ghost qa = *vq;
        let ghost sa = ram.bytes@;
        proof {
            lemma_dist16_step(q0.last_avail_idx, qa.last_avail_idx, snap);
        }
        let inflight = match blk_begin(vq, ram, map, snap) {
            Some(f) => f,
            None => {
                ok = false;
                break;
            },
        };
        let args = blk_io_args(ram, &inflight.req);
        let res = blk_io(backend, args);
        proof {
            lemma_outcome_allowed(sa, inflight.req, args, res);
        }
        let published = blk_finish(vq, ram, &inflight, &res);
        proof {
            lemma_step_is(qa, sa, *map, snap, inflight, res, *vq, ram.bytes@, published);
            lemma_drain_extend(q0, s0, *map, snap, outs, qa, sa, res, *vq, ram.bytes@, published);
            outs = outs.push(res);
        }
        if !published {
            ok = false;
            break;
        }
    }
    let ghost f0 = old(vq).used_flags;
    assert((f0 | 1u16) & !1u16 == f0 & !1u16) by (bit_vector);
    vq.enable_notify();
    vq.sync_used_flags(ram);
    ok
}

impl Virtq {
    /// Runs the queue's notify handler on the guest's rings. A queue with no
    /// handler fails and changes nothing.
    pub fn call_notify_handler<B: BlkBackend>(&mut self, ram: &mut GuestRam, map: &GuestMap, backend: &mut B) -> (r: bool)
        ensures
            match old(self).notify_handler {
                None => !r && *final(self) == *old(self) && final(ram).bytes@ == old(ram).bytes@,
                Some(NotifyHandler::Block) => blk_drain_post(*old(self), old(ram).bytes@, *map, *final(self),
                    final(ram).bytes@, r),
            },
    {
        match self.notify_handler {
            None => false,
            Some(NotifyHandler::Block) => virtio_blk_notify_handler(self, ram, map, backend),
        }
    }
}

} // verus!
