use hv_virtio::blk::{blk_begin, blk_finish, blk_io_args, BlkBackend, BlkIoArgs, BlkIoResult, VIRTIO_BLK_FEATURES};
use hv_virtio::mmio::{MmioAccess, VirtioMmio};
use hv_virtio::queue::Virtq;
use hv_virtio::ram::{GuestMap, GuestRam};
use hv_virtio::registry::{emu_virtio_mmio_handler, emu_virtio_mmio_init, EmuContext, EmuDeviceType, VirtioRegistry};

const BASE: u64 = 0x0a00_0000;
const GPA: u64 = 0x4000_0000;
const HOST: u64 = 0x1000;
const RAM_SIZE: usize = 0x10000;

const DESC_GPA: u64 = GPA + 0x1000;
const AVAIL_GPA: u64 = GPA + 0x3000;
const USED_GPA: u64 = GPA + 0x4000;
const HDR_GPA: u64 = GPA + 0x6000;
const DATA_GPA: u64 = GPA + 0x7000;
const STATUS_GPA: u64 = GPA + 0x8000;

fn host(gpa: u64) -> u64 {
    gpa - GPA + HOST
}

struct MemDisk {
    data: Vec<u8>,
    fail: bool,
}

impl MemDisk {
    fn new(sectors: usize) -> MemDisk {
        let mut data = vec![0u8; sectors * 512];
        for (i, b) in data.iter_mut().enumerate() {
            *b = (i / 512) as u8 ^ (i % 251) as u8;
        }
        MemDisk { data, fail: false }
    }
}

impl BlkBackend for MemDisk {
    fn read(&mut self, sector: u64, len: usize) -> Option<Vec<u8>> {
        let start = sector as usize * 512;
        if self.fail || start + len > self.data.len() {
            return None;
        }
        Some(self.data[start..start + len].to_vec())
    }

    fn write(&mut self, sector: u64, data: &Vec<u8>) -> bool {
        let start = sector as usize * 512;
        if self.fail || start + data.len() > self.data.len() {
            return false;
        }
        self.data[start..start + data.len()].copy_from_slice(data);
        true
    }
}

struct Guest {
    reg: VirtioRegistry,
    ram: GuestRam,
    map: GuestMap,
    disk: MemDisk,
}

impl Guest {
    fn new() -> Guest {
        let mut reg = VirtioRegistry::new();
        assert!(emu_virtio_mmio_init(&mut reg, 0, EmuDeviceType::EmuDeviceTVirtioBlk, BASE, 64));
        let mut map = GuestMap::new();
        map.add_region(GPA, HOST, (RAM_SIZE as u64) - HOST);
        Guest { reg, ram: GuestRam::new(RAM_SIZE), map, disk: MemDisk::new(64) }
    }

    fn access(&mut self, offset: u64, write: bool, value: u32) -> MmioAccess {
        let ctx = EmuContext { address: BASE + offset, reg: 3, write };
        emu_virtio_mmio_handler(&mut self.reg, 0, &ctx, value, &mut self.ram, &self.map, &mut self.disk)
    }

    fn write(&mut self, offset: u64, value: u32) -> MmioAccess {
        self.access(offset, true, value)
    }

    fn read(&mut self, offset: u64) -> MmioAccess {
        self.access(offset, false, 0)
    }

    fn dev(&self) -> &VirtioMmio {
        &self.reg.devs[0]
    }

    fn q(&self) -> Virtq {
        self.reg.devs[0].vq[0]
    }

    fn handshake(&mut self) {
        for s in [1u32, 3, 11, 15] {
            assert_eq!(self.write(0x070, s), MmioAccess::Written);
        }
    }

    fn setup_queue(&mut self, num: u32) {
        assert_eq!(self.write(0x030, 0), MmioAccess::Written);
        assert_eq!(self.write(0x038, num), MmioAccess::Written);
        assert_eq!(self.write(0x080, DESC_GPA as u32), MmioAccess::Written);
        assert_eq!(self.write(0x084, (DESC_GPA >> 32) as u32), MmioAccess::Written);
        assert_eq!(self.write(0x090, AVAIL_GPA as u32), MmioAccess::Written);
        assert_eq!(self.write(0x094, (AVAIL_GPA >> 32) as u32), MmioAccess::Written);
        assert_eq!(self.write(0x0a0, USED_GPA as u32), MmioAccess::Written);
        assert_eq!(self.write(0x0a4, (USED_GPA >> 32) as u32), MmioAccess::Written);
        assert_eq!(self.write(0x044, 1), MmioAccess::Written);
    }

    fn put_desc(&mut self, i: u16, addr: u64, len: u32, flags: u16, next: u16) {
        let e = host(DESC_GPA) + 16 * i as u64;
        assert!(self.ram.write_u32(e, addr as u32));
        assert!(self.ram.write_u32(e + 4, (addr >> 32) as u32));
        assert!(self.ram.write_u32(e + 8, len));
        assert!(self.ram.write_u16(e + 12, flags));
        assert!(self.ram.write_u16(e + 14, next));
    }

    fn put_header(&mut self, kind: u32, sector: u64) {
        let h = host(HDR_GPA);
        assert!(self.ram.write_u32(h, kind));
        assert!(self.ram.write_u32(h + 4, 0));
        assert!(self.ram.write_u32(h + 8, sector as u32));
        assert!(self.ram.write_u32(h + 12, (sector >> 32) as u32));
    }

    /// A three-segment request at descriptors `first..first + 3`.
    fn put_request(&mut self, first: u16, kind: u32, sector: u64, data_len: u32) {
        self.put_header(kind, sector);
        let data_flags = if kind == 0 { 1 | 2 } else { 1 };
        self.put_desc(first, HDR_GPA, 16, 1, first + 1);
        self.put_desc(first + 1, DATA_GPA, data_len, data_flags, first + 2);
        self.put_desc(first + 2, STATUS_GPA, 1, 2, 0);
    }

    fn offer(&mut self, slot: u16, head: u16) {
        assert!(self.ram.write_u16(host(AVAIL_GPA) + 4 + 2 * slot as u64, head));
    }

    fn set_avail_idx(&mut self, idx: u16) {
        assert!(self.ram.write_u16(host(AVAIL_GPA) + 2, idx));
    }

    fn used_idx(&self) -> u16 {
        self.ram.read_u16(host(USED_GPA) + 2).unwrap()
    }

    fn used_elem(&self, slot: u64) -> (u32, u32) {
        let a = host(USED_GPA) + 4 + 8 * slot;
        (self.ram.read_u32(a).unwrap(), self.ram.read_u32(a + 4).unwrap())
    }

    fn status_byte(&self) -> u8 {
        self.ram.read_u8(host(STATUS_GPA)).unwrap()
    }

    fn data(&self, len: usize) -> Vec<u8> {
        let a = host(DATA_GPA) as usize;
        self.ram.bytes[a..a + len].to_vec()
    }
}

#[test]
fn block_read_one_sector() {
    let mut g = Guest::new();
    g.handshake();
    g.setup_queue(256);
    g.put_request(0, 0, 7, 512);
    g.offer(0, 0);
    g.set_avail_idx(1);
    assert_eq!(g.write(0x050, 0), MmioAccess::Written);
    assert_eq!(g.used_elem(0), (0, 513));
    assert_eq!(g.used_idx(), 1);
    assert_eq!(g.dev().regs.irt_stat & 1, 1);
    assert_eq!(g.status_byte(), 0);
    assert_eq!(g.data(512), g.disk.data[7 * 512..8 * 512].to_vec());
    assert_eq!(g.q().last_avail_idx, 1);
    assert_eq!(g.q().last_used_idx, 1);
    assert_eq!(g.q().used_flags & 1, 0);
}

#[test]
fn block_write_one_sector() {
    let mut g = Guest::new();
    g.handshake();
    g.setup_queue(256);
    g.put_request(0, 1, 3, 512);
    let a = host(DATA_GPA);
    for i in 0..512u64 {
        assert!(g.ram.write_u8(a + i, 0xa5));
    }
    g.offer(0, 0);
    g.set_avail_idx(1);
    assert_eq!(g.write(0x050, 0), MmioAccess::Written);
    assert_eq!(g.used_elem(0), (0, 1));
    assert_eq!(g.status_byte(), 0);
    assert!(g.disk.data[3 * 512..4 * 512].iter().all(|b| *b == 0xa5));
}

#[test]
fn block_backend_failure_sets_ioerr() {
    let mut g = Guest::new();
    g.handshake();
    g.setup_queue(256);
    g.disk.fail = true;
    g.put_request(0, 0, 1, 512);
    g.offer(0, 0);
    g.set_avail_idx(1);
    assert_eq!(g.write(0x050, 0), MmioAccess::Written);
    assert_eq!(g.used_elem(0), (0, 1));
    assert_eq!(g.status_byte(), 1);
}

#[test]
fn block_unsupported_request_type() {
    let mut g = Guest::new();
    g.handshake();
    g.setup_queue(256);
    g.put_request(0, 8, 0, 20);
    g.offer(0, 0);
    g.set_avail_idx(1);
    assert_eq!(g.write(0x050, 0), MmioAccess::Written);
    assert_eq!(g.status_byte(), 2);
    assert_eq!(g.used_elem(0), (0, 1));
}

#[test]
fn feature_negotiation() {
    let mut g = Guest::new();
    assert_eq!(g.write(0x014, 0), MmioAccess::Written);
    assert_eq!(g.read(0x010), MmioAccess::Read(VIRTIO_BLK_FEATURES as u32));
    assert_eq!(g.write(0x014, 1), MmioAccess::Written);
    assert_eq!(g.read(0x010), MmioAccess::Read(1));
    assert_eq!(g.write(0x070, 1), MmioAccess::Written);
    assert_eq!(g.write(0x070, 3), MmioAccess::Written);
    assert_eq!(g.write(0x024, 0), MmioAccess::Written);
    assert_eq!(g.write(0x020, VIRTIO_BLK_FEATURES as u32), MmioAccess::Written);
    assert_eq!(g.write(0x024, 1), MmioAccess::Written);
    assert_eq!(g.write(0x020, 1), MmioAccess::Written);
    assert_eq!(g.dev().driver_features, VIRTIO_BLK_FEATURES);
    assert_eq!(g.write(0x070, 11), MmioAccess::Written);
    assert!(!g.dev().dev.activated);
    assert_eq!(g.write(0x070, 15), MmioAccess::Written);
    assert!(g.dev().dev.activated);
    assert_eq!(g.read(0x070), MmioAccess::Read(15));
}

#[test]
fn features_sealed_after_features_ok() {
    let mut g = Guest::new();
    g.handshake();
    let before = g.dev().driver_features;
    assert_eq!(g.write(0x020, 0xffff_ffff), MmioAccess::Written);
    assert_eq!(g.dev().driver_features, before);
}

#[test]
fn feature_paging_round_trip() {
    let mut g = Guest::new();
    assert_eq!(g.write(0x024, 0), MmioAccess::Written);
    assert_eq!(g.write(0x020, 0x1234_5678), MmioAccess::Written);
    assert_eq!(g.write(0x024, 1), MmioAccess::Written);
    assert_eq!(g.write(0x020, 0x9abc_def0), MmioAccess::Written);
    assert_eq!(g.dev().driver_features, 0x9abc_def0_1234_5678);
    assert_eq!(g.dev().regs.drv_feature_sel, 1);
}

#[test]
fn identity_registers() {
    let mut g = Guest::new();
    assert_eq!(g.read(0x000), MmioAccess::Read(0x74726976));
    assert_eq!(g.read(0x004), MmioAccess::Read(2));
    assert_eq!(g.read(0x008), MmioAccess::Read(2));
    assert_eq!(g.read(0x00c), MmioAccess::Read(0x554d4551));
    assert_eq!(g.read(0x034), MmioAccess::Read(256));
    let before = g.reg.clone();
    for off in [0x000u64, 0x004, 0x008, 0x00c, 0x010, 0x034] {
        assert_eq!(g.write(off, 5), MmioAccess::Failed);
    }
    assert_eq!(g.reg, before);
}

#[test]
fn register_read_back() {
    let mut g = Guest::new();
    assert_eq!(g.write(0x070, 3), MmioAccess::Written);
    assert_eq!(g.read(0x070), MmioAccess::Read(3));
    assert_eq!(g.write(0x044, 1), MmioAccess::Written);
    assert_eq!(g.read(0x044), MmioAccess::Read(1));
    assert_eq!(g.write(0x044, 0), MmioAccess::Written);
    assert_eq!(g.read(0x044), MmioAccess::Read(0));
}

#[test]
fn status_reset_clears_queues() {
    let mut g = Guest::new();
    g.handshake();
    g.setup_queue(256);
    g.put_request(0, 0, 2, 512);
    g.offer(0, 0);
    g.set_avail_idx(1);
    assert_eq!(g.write(0x050, 0), MmioAccess::Written);
    assert_eq!(g.write(0x070, 0), MmioAccess::Written);
    let q = g.q();
    assert!(!g.dev().dev.activated);
    assert_eq!(g.dev().driver_features, 0);
    assert_eq!((q.desc_table, q.avail, q.used), (None, None, None));
    assert_eq!((q.last_avail_idx, q.last_used_idx), (0, 0));
    assert_eq!(q.vq_index, 0);
}

#[test]
fn reset_mid_operation() {
    let mut g = Guest::new();
    g.handshake();
    g.setup_queue(256);
    g.put_request(0, 0, 4, 512);
    g.offer(0, 0);
    g.set_avail_idx(1);
    let mut q = g.q();
    let inflight = blk_begin(&mut q, &g.ram, &g.map, 1).unwrap();
    g.reg.devs[0].vq[0] = q;
    assert_eq!(inflight.head, 0);
    // the guest resets the device while the read is with the back-end
    assert_eq!(g.write(0x070, 0), MmioAccess::Written);
    assert!(!g.dev().dev.activated);
    g.handshake();
    g.setup_queue(256);
    assert!(g.q().used.is_some());
    let ram_before = g.ram.clone();
    let mut q = g.q();
    let res = BlkIoResult::Read(g.disk.data[4 * 512..5 * 512].to_vec());
    assert!(!blk_finish(&mut q, &mut g.ram, &inflight, &res));
    assert_eq!(q, g.q());
    assert_eq!(g.ram, ram_before);
}

#[test]
fn malformed_chain_unmapped_buffer() {
    let mut g = Guest::new();
    g.handshake();
    g.setup_queue(256);
    g.put_desc(5, 0x7000_0000, 16, 0, 0);
    g.offer(0, 5);
    g.set_avail_idx(1);
    assert_eq!(g.write(0x050, 0), MmioAccess::Written);
    assert_eq!(g.used_elem(0), (5, 0));
    assert_eq!(g.used_idx(), 1);
    assert_eq!(g.q().last_avail_idx, 1);
}

#[test]
fn indirect_descriptor_is_refused() {
    let mut g = Guest::new();
    g.handshake();
    g.setup_queue(256);
    g.put_desc(0, HDR_GPA, 16, 4, 0);
    g.offer(0, 0);
    g.set_avail_idx(1);
    assert_eq!(g.write(0x050, 0), MmioAccess::Written);
    assert_eq!(g.used_elem(0), (0, 0));
}

#[test]
fn looping_chain_is_cut_at_queue_size() {
    let mut g = Guest::new();
    g.handshake();
    g.setup_queue(4);
    g.put_desc(0, HDR_GPA, 16, 1, 1);
    g.put_desc(1, DATA_GPA, 16, 1, 0);
    g.offer(0, 0);
    g.set_avail_idx(1);
    assert_eq!(g.write(0x050, 0), MmioAccess::Written);
    assert_eq!(g.used_elem(0), (0, 0));
    assert_eq!(g.q().last_avail_idx, 1);
}

#[test]
fn irq_ack_clears_acknowledged_bits() {
    let mut g = Guest::new();
    g.reg.devs[0].set_irt_stat(0b11);
    assert_eq!(g.write(0x064, 0b01), MmioAccess::Written);
    assert_eq!(g.read(0x060), MmioAccess::Read(0b10));
    assert_eq!(g.dev().regs.irt_ack, 0b01);
}

#[test]
fn bad_offset_fails_without_change() {
    let mut g = Guest::new();
    let before = g.reg.clone();
    assert_eq!(g.read(0x028), MmioAccess::Failed);
    assert_eq!(g.write(0x028, 7), MmioAccess::Failed);
    assert_eq!(g.read(0x200), MmioAccess::Failed);
    assert_eq!(g.write(0x100, 7), MmioAccess::Failed);
    assert_eq!(g.reg, before);
}

#[test]
fn notify_out_of_range_queue() {
    let mut g = Guest::new();
    g.handshake();
    g.setup_queue(256);
    let before = g.reg.clone();
    let ram_before = g.ram.clone();
    assert_eq!(g.write(0x050, 1), MmioAccess::Failed);
    assert_eq!(g.reg, before);
    assert_eq!(g.ram, ram_before);
}

#[test]
fn invalid_queue_selector_is_refused() {
    let mut g = Guest::new();
    assert_eq!(g.write(0x030, 3), MmioAccess::Written);
    let before = g.reg.clone();
    assert_eq!(g.write(0x038, 16), MmioAccess::Failed);
    assert_eq!(g.write(0x044, 1), MmioAccess::Failed);
    assert_eq!(g.read(0x044), MmioAccess::Failed);
    assert_eq!(g.write(0x084, 0), MmioAccess::Failed);
    assert_eq!(g.reg, before);
}

#[test]
fn translation_failure_per_ring() {
    for bad in [0x084u64, 0x094, 0x0a4] {
        let mut g = Guest::new();
        assert_eq!(g.write(0x038, 8), MmioAccess::Written);
        for (low, high, gpa) in [(0x080u64, 0x084u64, DESC_GPA), (0x090, 0x094, AVAIL_GPA), (0x0a0, 0x0a4, USED_GPA)] {
            assert_eq!(g.write(low, gpa as u32), MmioAccess::Written);
            let hi = if high == bad { 7 } else { (gpa >> 32) as u32 };
            assert_eq!(g.write(high, hi), MmioAccess::Written);
        }
        let q = g.q();
        assert_eq!(q.desc_table.is_none(), bad == 0x084);
        assert_eq!(q.avail.is_none(), bad == 0x094);
        assert_eq!(q.used.is_none(), bad == 0x0a4);
        assert_eq!(q.desc_table.unwrap_or(host(DESC_GPA)), host(DESC_GPA));
        assert_eq!(q.avail.unwrap_or(host(AVAIL_GPA)), host(AVAIL_GPA));
        assert_eq!(q.used.unwrap_or(host(USED_GPA)), host(USED_GPA));
    }
}

#[test]
fn queue_size_limits() {
    let mut g = Guest::new();
    assert_eq!(g.write(0x038, 0), MmioAccess::Failed);
    assert_eq!(g.write(0x038, 257), MmioAccess::Failed);
    assert_eq!(g.write(0x038, 1), MmioAccess::Written);
    assert_eq!(g.q().num, 1);
    assert_eq!(g.write(0x038, 256), MmioAccess::Written);
    assert_eq!(g.q().num, 256);
}

#[test]
fn queue_of_one_entry_serves_requests() {
    let mut g = Guest::new();
    g.handshake();
    g.setup_queue(1);
    // with one entry every chain is one descriptor long
    g.put_desc(0, HDR_GPA, 16, 0, 0);
    g.offer(0, 0);
    g.set_avail_idx(1);
    assert_eq!(g.write(0x050, 0), MmioAccess::Written);
    assert_eq!(g.used_elem(0), (0, 0));
    g.offer(0, 0);
    g.set_avail_idx(2);
    assert_eq!(g.write(0x050, 0), MmioAccess::Written);
    assert_eq!(g.used_idx(), 2);
    assert_eq!(g.q().last_avail_idx, 2);
}

#[test]
fn chain_as_long_as_queue() {
    let mut g = Guest::new();
    g.handshake();
    g.setup_queue(3);
    g.put_request(0, 0, 9, 512);
    g.offer(0, 0);
    g.set_avail_idx(1);
    assert_eq!(g.write(0x050, 0), MmioAccess::Written);
    assert_eq!(g.used_elem(0), (0, 513));
    assert_eq!(g.data(512), g.disk.data[9 * 512..10 * 512].to_vec());
}

#[test]
fn cursor_wraps_across_u16() {
    let mut g = Guest::new();
    g.handshake();
    g.setup_queue(256);
    g.reg.devs[0].vq[0].last_avail_idx = 0xffff;
    g.reg.devs[0].vq[0].last_used_idx = 0xffff;
    assert!(g.ram.write_u16(host(USED_GPA) + 2, 0xffff));
    g.put_request(0, 0, 1, 512);
    g.put_request(3, 0, 2, 512);
    g.offer(0xffff % 256, 0);
    g.offer(0, 3);
    g.set_avail_idx(1);
    assert_eq!(g.write(0x050, 0), MmioAccess::Written);
    assert_eq!(g.q().last_avail_idx, 1);
    assert_eq!(g.q().last_used_idx, 1);
    assert_eq!(g.used_idx(), 1);
    assert_eq!(g.used_elem(255), (0, 513));
    assert_eq!(g.used_elem(0), (3, 513));
}

#[test]
fn used_entries_follow_consumed_heads() {
    let mut g = Guest::new();
    g.handshake();
    g.setup_queue(256);
    g.put_request(0, 0, 1, 512);
    g.put_request(10, 0, 2, 512);
    g.offer(0, 10);
    g.offer(1, 0);
    g.set_avail_idx(2);
    assert_eq!(g.write(0x050, 0), MmioAccess::Written);
    assert_eq!(g.used_elem(0), (10, 513));
    assert_eq!(g.used_elem(1), (0, 513));
    assert_eq!(g.used_idx(), 2);
}

#[test]
fn cursor_counts_consumed_chains() {
    let mut g = Guest::new();
    g.handshake();
    g.setup_queue(256);
    g.put_request(0, 0, 1, 512);
    for i in 0..3u16 {
        g.offer(i, 0);
    }
    g.set_avail_idx(3);
    assert_eq!(g.write(0x050, 0), MmioAccess::Written);
    assert_eq!(g.q().last_avail_idx, 3);
    // a second notify with nothing new consumes nothing
    assert_eq!(g.write(0x050, 0), MmioAccess::Written);
    assert_eq!(g.q().last_avail_idx, 3);
    for i in 3..5u16 {
        g.offer(i, 0);
    }
    g.set_avail_idx(5);
    assert_eq!(g.write(0x050, 0), MmioAccess::Written);
    assert_eq!(g.q().last_avail_idx, 5);
    assert_eq!(g.q().last_used_idx, 5);
    assert_eq!(g.used_idx(), 5);
}

#[test]
fn write_only_chain_is_malformed() {
    let mut g = Guest::new();
    g.handshake();
    g.setup_queue(256);
    g.put_desc(0, HDR_GPA, 16, 2 | 1, 1);
    g.put_desc(1, STATUS_GPA, 1, 2, 0);
    g.offer(0, 0);
    g.set_avail_idx(1);
    assert_eq!(g.write(0x050, 0), MmioAccess::Written);
    assert_eq!(g.used_elem(0), (0, 0));
}

#[test]
fn read_only_chain_is_malformed() {
    let mut g = Guest::new();
    g.handshake();
    g.setup_queue(256);
    g.put_header(0, 0);
    g.put_desc(0, HDR_GPA, 16, 1, 1);
    g.put_desc(1, STATUS_GPA, 1, 0, 0);
    g.offer(0, 0);
    g.set_avail_idx(1);
    assert_eq!(g.write(0x050, 0), MmioAccess::Written);
    assert_eq!(g.used_elem(0), (0, 0));
}

#[test]
fn config_space_reads() {
    let mut g = Guest::new();
    assert_eq!(g.read(0x100), MmioAccess::Read(64));
    assert_eq!(g.read(0x104), MmioAccess::Read(0));
    assert_eq!(g.read(0x10c), MmioAccess::Read(1));
    assert_eq!(g.read(0x0fc), MmioAccess::Read(0));
    assert_eq!(g.read(0x1f0), MmioAccess::Read(0));
}

#[test]
fn registration_rules() {
    let mut reg = VirtioRegistry::new();
    assert!(!emu_virtio_mmio_init(&mut reg, 0, EmuDeviceType::EmuDeviceTVirtioNet, BASE, 8));
    assert!(!emu_virtio_mmio_init(&mut reg, 1, EmuDeviceType::EmuDeviceTVirtioBlk, BASE, 8));
    assert!(reg.devs.is_empty());
    assert!(emu_virtio_mmio_init(&mut reg, 0, EmuDeviceType::EmuDeviceTVirtioBlk, BASE, 8));
    assert_eq!(reg.devs.len(), 1);
    assert_eq!(reg.devs[0].vq.len(), 1);
    assert_eq!(reg.bases, vec![BASE]);
}

#[test]
fn unknown_device_or_address_fails() {
    let mut g = Guest::new();
    let ctx = EmuContext { address: BASE, reg: 0, write: false };
    assert_eq!(emu_virtio_mmio_handler(&mut g.reg, 1, &ctx, 0, &mut g.ram, &g.map, &mut g.disk), MmioAccess::Failed);
    let low = EmuContext { address: BASE - 4, reg: 0, write: false };
    assert_eq!(emu_virtio_mmio_handler(&mut g.reg, 0, &low, 0, &mut g.ram, &g.map, &mut g.disk), MmioAccess::Failed);
}

#[test]
fn activated_only_at_live_status() {
    let mut g = Guest::new();
    g.handshake();
    assert!(g.dev().dev.activated);
    assert_eq!(g.write(0x070, 0x8f), MmioAccess::Written);
    assert!(!g.dev().dev.activated);
    assert_eq!(g.read(0x070), MmioAccess::Read(0x8f));
}

#[test]
fn used_flags_visible_after_drain() {
    let mut g = Guest::new();
    g.handshake();
    g.setup_queue(256);
    g.put_request(0, 0, 7, 512);
    g.offer(0, 0);
    g.set_avail_idx(1);
    assert_eq!(g.write(0x050, 0), MmioAccess::Written);
    assert_eq!(g.ram.read_u16(host(USED_GPA)), Some(0));
    assert_eq!(g.q().used_flags, 0);
}

#[test]
fn empty_notify_succeeds_without_change() {
    let mut g = Guest::new();
    g.handshake();
    g.setup_queue(256);
    let q = g.q();
    assert_eq!(g.write(0x050, 0), MmioAccess::Written);
    assert_eq!(g.q(), q);
    assert_eq!(g.used_idx(), 0);
}

#[test]
fn write_request_hands_buffer_to_backend() {
    let mut g = Guest::new();
    g.handshake();
    g.setup_queue(256);
    g.put_request(0, 1, 5, 4);
    let a = host(DATA_GPA);
    for (i, b) in [1u8, 2, 3, 4].iter().enumerate() {
        assert!(g.ram.write_u8(a + i as u64, *b));
    }
    g.offer(0, 0);
    g.set_avail_idx(1);
    let mut q = g.q();
    let inflight = blk_begin(&mut q, &g.ram, &g.map, 1).unwrap();
    assert_eq!(blk_io_args(&g.ram, &inflight.req), BlkIoArgs::Write(5, vec![1, 2, 3, 4]));
    g.put_request(0, 0, 6, 8);
    let mut q = g.q();
    let inflight = blk_begin(&mut q, &g.ram, &g.map, 1).unwrap();
    assert_eq!(blk_io_args(&g.ram, &inflight.req), BlkIoArgs::Read(6, 8));
}
