//! Split virtqueues: the device-side cursors and the descriptor, available
//! and used rings that live in guest memory.

use vstd::prelude::*;
use crate::layout::{DESC_QUEUE_SIZE, VRING_USED_F_NO_NOTIFY, VIRTQ_DESC_F_NEXT, VIRTQ_DESC_F_WRITE,
    VIRTQ_DESC_F_INDIRECT};
use crate::ram::{GuestRam, GuestMap, in_ram, le16, le32, le64, put16, put32, lemma_le16_put16,
    lemma_le32_put32};

verus! {

/// The request handler a queue runs when the driver notifies it.
#[derive(Clone, Copy, Debug, PartialEq, Eq, Structural)]
pub enum NotifyHandler {
    Block,
}

/// Device-side state of one split virtqueue. The three ring views hold host
/// addresses, installed once the guest-physical base has been translated.
#[derive(Clone, Copy, Debug, PartialEq, Eq, Structural)]
pub struct Virtq {
    pub ready: u32,
    pub vq_index: usize,
    pub num: usize,
    pub desc_table: Option<u64>,
    pub avail: Option<u64>,
    pub used: Option<u64>,
    pub last_avail_idx: u16,
    pub last_used_idx: u16,
    pub used_flags: u16,
    pub desc_table_addr: u64,
    pub avail_addr: u64,
    pub used_addr: u64,
    pub notify_handler: Option<NotifyHandler>,
    /// Bumped by every reset, so that work begun before a reset can tell.
    pub generation: u64,
}

/// A 16-bit counter advanced by one, wrapping.
pub open spec fn wrap_inc16(x: u16) -> u16 {
    ((x as int + 1) % 0x1_0000) as u16
}

pub fn wrapping_inc16(x: u16) -> (r: u16)
    ensures
        r == wrap_inc16(x),
{
    if x == u16::MAX {
        0
    } else {
        x + 1
    }
}

/// The queue as it stands after a reset to index `index`: the notify handler
/// is kept and the generation moves on.
pub open spec fn virtq_reset(q: Virtq, index: usize) -> Virtq {
    Virtq {
        ready: 0,
        vq_index: index,
        num: 0,
        desc_table: None,
        avail: None,
        used: None,
        last_avail_idx: 0,
        last_used_idx: 0,
        used_flags: 0,
        desc_table_addr: 0,
        avail_addr: 0,
        used_addr: 0,
        notify_handler: q.notify_handler,
        generation: ((q.generation as int + 1) % 0x1_0000_0000_0000_0000) as u64,
    }
}

/// A queue size the descriptor table can hold.
pub open spec fn valid_num(num: usize) -> bool {
    0 < num <= DESC_QUEUE_SIZE
}

/// Host address of the available-ring entry for the device cursor `last`.
pub open spec fn avail_entry_addr(avail: u64, last: u16, num: usize) -> int {
    avail + 4 + 2 * (last as int % num as int)
}

/// A pop with the driver's index `avail_idx` takes a head: the available ring
/// is installed, the device cursor lags behind the driver's index, and the
/// entry under the cursor lies in guest memory.
pub open spec fn avail_pops(q: Virtq, s: Seq<u8>, avail_idx: u16) -> bool {
    q.avail is Some && avail_idx != q.last_avail_idx && valid_num(q.num)
        && in_ram(s, avail_entry_addr(q.avail->0, q.last_avail_idx, q.num), 2)
}

/// The head index in the available-ring entry under the device cursor.
pub open spec fn avail_head(q: Virtq, s: Seq<u8>) -> u16 {
    le16(s, avail_entry_addr(q.avail->0, q.last_avail_idx, q.num)) as u16
}

/// The driver's available index, when the ring is installed and readable.
pub open spec fn avail_idx_spec(q: Virtq, s: Seq<u8>) -> Option<u16> {
    match q.avail {
        Some(a) => if in_ram(s, a as int, 4) { Some(le16(s, a + 2) as u16) } else { None },
        None => None,
    }
}

/// How far a 16-bit cursor must advance, wrapping, to go from `a` to `b`.
pub open spec fn dist16(a: u16, b: u16) -> int {
    (b as int - a as int) % 0x1_0000
}

pub proof fn lemma_dist16_step(c: u16, a: u16, b: u16)
    ensures
        a != b ==> dist16(wrap_inc16(a), b) == dist16(a, b) - 1,
        dist16(c, wrap_inc16(a)) == (dist16(c, a) + 1) % 0x1_0000,
        0 <= dist16(a, b) < 0x1_0000,
        dist16(a, a) == 0,
{
}

/// How many of the pops in `took` took a head.
pub open spec fn count_taken(took: Seq<bool>) -> nat
    decreases took.len(),
{
    if took.len() == 0 {
        0
    } else {
        count_taken(took.drop_last()) + if took.last() { 1nat } else { 0nat }
    }
}

/// Over any run of pops with no reset in between, starting from a reset
/// cursor, the device cursor equals the number of chains taken, modulo
/// 2^16: `cs` are the cursors before and after each pop, `took` whether
/// the pop took a head, which advances the cursor by one (wrapping), as
/// `Virtq::pop_avail_desc_idx` ensures; a pop that takes none leaves it.
pub proof fn lemma_cursor_counts(cs: Seq<u16>, took: Seq<bool>)
    requires
        cs.len() == took.len() + 1,
        cs[0] == 0,
        forall|i: int| 0 <= i < took.len() ==> #[trigger] cs[i + 1] == if took[i] { wrap_inc16(cs[i]) } else { cs[i] },
    ensures
        cs.last() as int == count_taken(took) % 0x1_0000,
    decreases took.len(),
{
    if took.len() > 0 {
        let cs1 = cs.drop_last();
        let t1 = took.drop_last();
        assert forall|i: int| 0 <= i < t1.len() implies #[trigger] cs1[i + 1] == if t1[i] { wrap_inc16(cs1[i]) } else { cs1[i] } by {
            assert(cs[i + 1] == if took[i] { wrap_inc16(cs[i]) } else { cs[i] });
        }
        lemma_cursor_counts(cs1, t1);
        let k = took.len() - 1;
        assert(cs[k + 1] == if took[k] { wrap_inc16(cs[k]) } else { cs[k] });
        assert(cs1.last() == cs[k]);
    }
}

/// Host address of the used-ring slot that used index `idx` names.
pub open spec fn used_slot_addr(used: u64, idx: int, num: usize) -> int {
    used + 4 + 8 * (idx % num as int)
}

/// The used ring at `used` can take one more entry: its header and the slot
/// that its index names lie in guest memory.
pub open spec fn used_publishable(s: Seq<u8>, used: u64, num: usize) -> bool {
    in_ram(s, used as int, 4) && in_ram(s, used_slot_addr(used, le16(s, used + 2), num), 8)
}

/// Guest memory after one used entry `{ id, len }` is published: the slot
/// first, then the ring flags, then the index advanced by one.
pub open spec fn publish_used(s: Seq<u8>, used: u64, num: usize, flags: u16, id: u32, len: u32) -> Seq<u8> {
    let idx = le16(s, used + 2);
    let slot = used_slot_addr(used, idx, num);
    put16(
        put16(put32(put32(s, slot, id as int), slot + 4, len as int), used as int, flags as int),
        used + 2,
        (idx + 1) % 0x1_0000,
    )
}

/// Guest memory with the used ring's flags word showing the device's
/// `used_flags`, when the used ring is installed and in guest memory.
pub open spec fn with_used_flags(s: Seq<u8>, q: Virtq) -> Seq<u8> {
    match q.used {
        Some(u) => if in_ram(s, u as int, 2) { put16(s, u as int, q.used_flags as int) } else { s },
        None => s,
    }
}

/// A segment of a descriptor chain: a host buffer, its length, and whether
/// the device may write it.
#[derive(Clone, Copy, Debug, PartialEq, Eq, Structural)]
pub struct DescSegment {
    pub addr: u64,
    pub len: u32,
    pub writable: bool,
}

/// Why a descriptor chain was abandoned.
#[derive(Clone, Copy, Debug, PartialEq, Eq, Structural)]
pub enum ChainError {
    /// No descriptor table is installed, or the queue size is not valid.
    NoTable,
    /// A descriptor index lies outside the table, or the table outside guest memory.
    BadIndex,
    /// A buffer's guest-physical address is not mapped.
    Unmapped,
    /// An indirect descriptor, which this core does not take.
    Indirect,
    /// The chain is longer than the queue: it loops.
    TooLong,
}

/// Host address of descriptor `i` of the table at `base`.
pub open spec fn desc_entry(base: u64, i: int) -> int {
    base + 16 * i
}

/// The chain from descriptor `idx` on, following at most `fuel` descriptors.
pub open spec fn chain_from(
    s: Seq<u8>,
    map: GuestMap,
    base: u64,
    num: usize,
    idx: int,
    fuel: nat,
) -> Result<Seq<DescSegment>, ChainError>
    decreases fuel,
{
    if fuel == 0 {
        Err(ChainError::TooLong)
    } else if idx >= num || !in_ram(s, desc_entry(base, idx), 16) {
        Err(ChainError::BadIndex)
    } else {
        let e = desc_entry(base, idx);
        let flags = le16(s, e + 12) as u16;
        let host = map.translate_spec(le64(s, e) as u64);
        if flags & VIRTQ_DESC_F_INDIRECT != 0 {
            Err(ChainError::Indirect)
        } else if host == 0 {
            Err(ChainError::Unmapped)
        } else {
            let seg = DescSegment {
                addr: host,
                len: le32(s, e + 8) as u32,
                writable: flags & VIRTQ_DESC_F_WRITE != 0,
            };
            if flags & VIRTQ_DESC_F_NEXT == 0 {
                Ok(seq![seg])
            } else {
                match chain_from(s, map, base, num, le16(s, e + 14), (fuel - 1) as nat) {
                    Ok(rest) => Ok(seq![seg] + rest),
                    Err(e) => Err(e),
                }
            }
        }
    }
}

/// The descriptor chain that starts at `head`, capped at the queue size.
pub open spec fn chain_spec(q: Virtq, s: Seq<u8>, map: GuestMap, head: u16) -> Result<Seq<DescSegment>, ChainError> {
    match q.desc_table {
        None => Err(ChainError::NoTable),
        Some(base) => if valid_num(q.num) {
            chain_from(s, map, base, q.num, head as int, q.num as nat)
        } else {
            Err(ChainError::NoTable)
        },
    }
}

impl Virtq {
    pub open spec fn zero() -> Virtq {
        Virtq {
            ready: 0,
            vq_index: 0,
            num: 0,
            desc_table: None,
            avail: None,
            used: None,
            last_avail_idx: 0,
            last_used_idx: 0,
            used_flags: 0,
            desc_table_addr: 0,
            avail_addr: 0,
            used_addr: 0,
            notify_handler: None,
            generation: 0,
        }
    }

    pub fn default() -> (r: Virtq)
        ensures
            r == Virtq::zero(),
    {
        Virtq {
            ready: 0,
            vq_index: 0,
            num: 0,
            desc_table: None,
            avail: None,
            used: None,
            last_avail_idx: 0,
            last_used_idx: 0,
            used_flags: 0,
            desc_table_addr: 0,
            avail_addr: 0,
            used_addr: 0,
            notify_handler: None,
            generation: 0,
        }
    }

    pub fn reset(&mut self, index: usize)
        ensures
            *final(self) == virtq_reset(*old(self), index),
    {
        self.ready = 0;
        self.vq_index = index;
        self.num = 0;
        self.last_avail_idx = 0;
        self.last_used_idx = 0;
        self.used_flags = 0;
        self.desc_table_addr = 0;
        self.avail_addr = 0;
        self.used_addr = 0;
        self.desc_table = None;
        self.avail = None;
        self.used = None;
        self.generation = if self.generation == u64::MAX {
            0
        } else {
            self.generation + 1
        };
    }

    /// Takes the next head index from the available ring, unless the device
    /// cursor has caught up with the driver's index `avail_idx`.
    pub fn pop_avail_desc_idx(&mut self, ram: &GuestRam, avail_idx: u16) -> (r: Option<u16>)
        ensures
            avail_pops(*old(self), ram.bytes@, avail_idx) ==> r == Some(avail_head(*old(self), ram.bytes@))
                && *final(self) == (Virtq { last_avail_idx: wrap_inc16(old(self).last_avail_idx), ..*old(self) }),
            !avail_pops(*old(self), ram.bytes@, avail_idx) ==> r is None && *final(self) == *old(self),
    {
        let a = match self.avail {
            Some(a) => a,
            None => return None,
        };
        if avail_idx == self.last_avail_idx || self.num == 0 || self.num > DESC_QUEUE_SIZE {
            return None;
        }
        let slot = (self.last_avail_idx as usize % self.num) as u64;
        let e = match ram.addr_at(a, 4 + 2 * slot, 2) {
            Some(e) => e,
            None => return None,
        };
        let head = ram.read_u16(e).unwrap();
        self.last_avail_idx = wrapping_inc16(self.last_avail_idx);
        Some(head)
    }

    pub fn set_notify_handler(&mut self, handler: NotifyHandler)
        ensures
            *final(self) == (Virtq { notify_handler: Some(handler), ..*old(self) }),
    {
        self.notify_handler = Some(handler);
    }

    pub fn set_last_used_idx(&mut self, last_used_idx: u16)
        ensures
            *final(self) == (Virtq { last_used_idx, ..*old(self) }),
    {
        self.last_used_idx = last_used_idx;
    }

    /// Sets the queue size; a size of 0 or above the descriptor-table cap is refused.
    pub fn set_num(&mut self, num: usize) -> (r: bool)
        ensures
            r == valid_num(num),
            *final(self) == (if r { Virtq { num, ..*old(self) } } else { *old(self) }),
    {
        if num == 0 || num > DESC_QUEUE_SIZE {
            return false;
        }
        self.num = num;
        true
    }

    pub fn set_ready(&mut self, ready: u32)
        ensures
            *final(self) == (Virtq { ready, ..*old(self) }),
    {
        self.ready = ready;
    }

    pub fn or_desc_table_addr(&mut self, addr: u64)
        ensures
            *final(self) == (Virtq { desc_table_addr: old(self).desc_table_addr | addr, ..*old(self) }),
    {
        self.desc_table_addr = self.desc_table_addr | addr;
    }

    pub fn or_avail_addr(&mut self, addr: u64)
        ensures
            *final(self) == (Virtq { avail_addr: old(self).avail_addr | addr, ..*old(self) }),
    {
        self.avail_addr = self.avail_addr | addr;
    }

    pub fn or_used_addr(&mut self, addr: u64)
        ensures
            *final(self) == (Virtq { used_addr: old(self).used_addr | addr, ..*old(self) }),
    {
        self.used_addr = self.used_addr | addr;
    }

    /// Installs the descriptor-table view at host address `addr`; 0 is refused.
    pub fn set_desc_table(&mut self, addr: u64) -> (r: bool)
        ensures
            r == (addr != 0),
            *final(self) == (if r { Virtq { desc_table: Some(addr), ..*old(self) } } else { *old(self) }),
    {
        if addr == 0 {
            return false;
        }
        self.desc_table = Some(addr);
        true
    }

    /// Installs the available-ring view at host address `addr`; 0 is refused.
    pub fn set_avail(&mut self, addr: u64) -> (r: bool)
        ensures
            r == (addr != 0),
            *final(self) == (if r { Virtq { avail: Some(addr), ..*old(self) } } else { *old(self) }),
    {
        if addr == 0 {
            return false;
        }
        self.avail = Some(addr);
        true
    }

    /// Installs the used-ring view at host address `addr`; 0 is refused.
    pub fn set_used(&mut self, addr: u64) -> (r: bool)
        ensures
            r == (addr != 0),
            *final(self) == (if r { Virtq { used: Some(addr), ..*old(self) } } else { *old(self) }),
    {
        if addr == 0 {
            return false;
        }
        self.used = Some(addr);
        true
    }

    pub fn last_used_idx(&self) -> (r: u16)
        ensures
            r == self.last_used_idx,
    {
        self.last_used_idx
    }

    pub fn desc_table_addr(&self) -> (r: u64)
        ensures
            r == self.desc_table_addr,
    {
        self.desc_table_addr
    }

    pub fn avail_addr(&self) -> (r: u64)
        ensures
            r == self.avail_addr,
    {
        self.avail_addr
    }

    pub fn used_addr(&self) -> (r: u64)
        ensures
            r == self.used_addr,
    {
        self.used_addr
    }

    /// Host address of the descriptor table, 0 when none is installed.
    pub fn desc_table(&self) -> (r: u64)
        ensures
            r == (match self.desc_table { Some(a) => a, None => 0 }),
    {
        match self.desc_table {
            Some(a) => a,
            None => 0,
        }
    }

    /// Host address of the available ring, 0 when none is installed.
    pub fn avail(&self) -> (r: u64)
        ensures
            r == (match self.avail { Some(a) => a, None => 0 }),
    {
        match self.avail {
            Some(a) => a,
            None => 0,
        }
    }

    /// Host address of the used ring, 0 when none is installed.
    pub fn used(&self) -> (r: u64)
        ensures
            r == (match self.used { Some(a) => a, None => 0 }),
    {
        match self.used {
            Some(a) => a,
            None => 0,
        }
    }

    pub fn ready(&self) -> (r: u32)
        ensures
            r == self.ready,
    {
        self.ready
    }

    pub fn vq_indx(&self) -> (r: usize)
        ensures
            r == self.vq_index,
    {
        self.vq_index
    }

    pub fn num(&self) -> (r: usize)
        ensures
            r == self.num,
    {
        self.num
    }

    pub fn last_avail_idx(&self) -> (r: u16)
        ensures
            r == self.last_avail_idx,
    {
        self.last_avail_idx
    }

    /// Host address of descriptor `idx`, when it is in the table and in guest memory.
    fn desc_entry_addr(&self, ram: &GuestRam, idx: usize) -> (r: Option<u64>)
        ensures
            r == (if self.desc_table is Some && valid_num(self.num) && idx < self.num
                && in_ram(ram.bytes@, desc_entry(self.desc_table->0, idx as int), 16) {
                Some(desc_entry(self.desc_table->0, idx as int) as u64)
            } else {
                None
            }),
            r is Some ==> r->0 == desc_entry(self.desc_table->0, idx as int) && r->0 + 16 <= usize::MAX,
    {
        let base = match self.desc_table {
            Some(b) => b,
            None => return None,
        };
        if self.num == 0 || self.num > DESC_QUEUE_SIZE || idx >= self.num {
            return None;
        }
        ram.addr_at(base, 16 * idx as u64, 16)
    }

    /// Guest-physical buffer address of descriptor `idx`.
    pub fn desc_addr(&self, ram: &GuestRam, idx: usize) -> (r: Option<u64>)
        ensures
            r == (match self.desc_entry_addr_spec(ram.bytes@, idx) {
                Some(e) => Some(le64(ram.bytes@, e) as u64),
                None => None,
            }),
    {
        match self.desc_entry_addr(ram, idx) {
            Some(e) => ram.read_u64(e),
            None => None,
        }
    }

    pub fn desc_len(&self, ram: &GuestRam, idx: usize) -> (r: Option<u32>)
        ensures
            r == (match self.desc_entry_addr_spec(ram.bytes@, idx) {
                Some(e) => Some(le32(ram.bytes@, e + 8) as u32),
                None => None,
            }),
    {
        match self.desc_entry_addr(ram, idx) {
            Some(e) => ram.read_u32(e + 8),
            None => None,
        }
    }

    pub fn desc_flags(&self, ram: &GuestRam, idx: usize) -> (r: Option<u16>)
        ensures
            r == (match self.desc_entry_addr_spec(ram.bytes@, idx) {
                Some(e) => Some(le16(ram.bytes@, e + 12) as u16),
                None => None,
            }),
    {
        match self.desc_entry_addr(ram, idx) {
            Some(e) => ram.read_u16(e + 12),
            None => None,
        }
    }

    pub fn desc_next(&self, ram: &GuestRam, idx: usize) -> (r: Option<u16>)
        ensures
            r == (match self.desc_entry_addr_spec(ram.bytes@, idx) {
                Some(e) => Some(le16(ram.bytes@, e + 14) as u16),
                None => None,
            }),
    {
        match self.desc_entry_addr(ram, idx) {
            Some(e) => ram.read_u16(e + 14),
            None => None,
        }
    }

    /// Host address of descriptor `idx`, when it is in the table and in guest memory.
    pub open spec fn desc_entry_addr_spec(&self, s: Seq<u8>, idx: usize) -> Option<int> {
        if self.desc_table is Some && valid_num(self.num) && idx < self.num
            && in_ram(s, desc_entry(self.desc_table->0, idx as int), 16) {
            Some(desc_entry(self.desc_table->0, idx as int))
        } else {
            None
        }
    }

    pub fn desc_is_writable(&self, ram: &GuestRam, idx: usize) -> (r: Option<bool>)
        ensures
            r == (match self.desc_entry_addr_spec(ram.bytes@, idx) {
                Some(e) => Some(le16(ram.bytes@, e + 12) as u16 & VIRTQ_DESC_F_WRITE != 0),
                None => None,
            }),
    {
        match self.desc_flags(ram, idx) {
            Some(f) => Some(f & VIRTQ_DESC_F_WRITE != 0),
            None => None,
        }
    }

    pub fn desc_has_next(&self, ram: &GuestRam, idx: usize) -> (r: Option<bool>)
        ensures
            r == (match self.desc_entry_addr_spec(ram.bytes@, idx) {
                Some(e) => Some(le16(ram.bytes@, e + 12) as u16 & VIRTQ_DESC_F_NEXT != 0),
                None => None,
            }),
    {
        match self.desc_flags(ram, idx) {
            Some(f) => Some(f & VIRTQ_DESC_F_NEXT != 0),
            None => None,
        }
    }

    /// The driver's flags word of the available ring.
    pub fn avail_flags(&self, ram: &GuestRam) -> (r: Option<u16>)
        ensures
            r == (match self.avail {
                Some(a) => if in_ram(ram.bytes@, a as int, 4) { Some(le16(ram.bytes@, a as int) as u16) } else { None },
                None => None,
            }),
    {
        match self.avail {
            Some(a) => match ram.addr_at(a, 0, 4) {
                Some(e) => ram.read_u16(e),
                None => None,
            },
            None => None,
        }
    }

    /// The driver's index of the available ring.
    pub fn avail_idx(&self, ram: &GuestRam) -> (r: Option<u16>)
        ensures
            r == avail_idx_spec(*self, ram.bytes@),
    {
        match self.avail {
            Some(a) => match ram.addr_at(a, 0, 4) {
                Some(e) => ram.read_u16(e + 2),
                None => None,
            },
            None => None,
        }
    }

    /// The device's index of the used ring, as the driver sees it.
    pub fn used_idx(&self, ram: &GuestRam) -> (r: Option<u16>)
        ensures
            r == (match self.used {
                Some(u) => if in_ram(ram.bytes@, u as int, 4) { Some(le16(ram.bytes@, u + 2) as u16) } else { None },
                None => None,
            }),
    {
        match self.used {
            Some(u) => match ram.addr_at(u, 0, 4) {
                Some(e) => ram.read_u16(e + 2),
                None => None,
            },
            None => None,
        }
    }

    /// Asks the driver not to notify on new available buffers.
    pub fn disable_notify(&mut self)
        ensures
            *final(self) == (Virtq { used_flags: old(self).used_flags | VRING_USED_F_NO_NOTIFY, ..*old(self) }),
    {
        self.used_flags = self.used_flags | VRING_USED_F_NO_NOTIFY;
    }

    /// Shows the device's `used_flags` in the used ring's flags word.
    pub fn sync_used_flags(&self, ram: &mut GuestRam)
        ensures
            final(ram).bytes@ == with_used_flags(old(ram).bytes@, *self),
    {
        match self.used {
            Some(u) => {
                ram.write_u16(u, self.used_flags);
            },
            None => {},
        }
    }

    /// Lets the driver notify on new available buffers again.
    pub fn enable_notify(&mut self)
        ensures
            *final(self) == (Virtq { used_flags: old(self).used_flags & !VRING_USED_F_NO_NOTIFY, ..*old(self) }),
    {
        self.used_flags = self.used_flags & !VRING_USED_F_NO_NOTIFY;
    }

    /// Whether the device cursor has caught up with the driver's index.
    pub fn check_avail_idx(&self, avail_idx: u16) -> (r: bool)
        ensures
            r == (self.last_avail_idx == avail_idx),
    {
        self.last_avail_idx == avail_idx
    }
}


/// Publishing one used entry makes it visible to the driver in the slot that
/// the previous used index names, advances the used index by one (wrapping),
/// shows the device's flags, and leaves every other byte of guest memory,
/// the other used slots among them, as it was.
pub proof fn lemma_publish_used_visible(s: Seq<u8>, used: u64, num: usize, flags: u16, id: u32, len: u32)
    requires
        valid_num(num),
        used_publishable(s, used, num),
    ensures
        ({
            let idx = le16(s, used + 2);
            let slot = used_slot_addr(used, idx, num);
            let p = publish_used(s, used, num, flags, id, len);
            &&& p.len() == s.len()
            &&& le32(p, slot) == id
            &&& le32(p, slot + 4) == len
            &&& le16(p, used as int) == flags
            &&& le16(p, used + 2) == (idx + 1) % 0x1_0000
            &&& forall|b: int| 0 <= b < s.len() && !(used <= b < used + 4) && !(slot <= b < slot + 8)
                ==> #[trigger] p[b] == s[b]
        }),
{
    let idx = le16(s, used + 2);
    let slot = used_slot_addr(used, idx, num);
    let s1 = put32(s, slot, id as int);
    lemma_le32_put32(s, slot, id as int);
    let s2 = put32(s1, slot + 4, len as int);
    lemma_le32_put32(s1, slot + 4, len as int);
    let s3 = put16(s2, used as int, flags as int);
    lemma_le16_put16(s2, used as int, flags as int);
    let s4 = put16(s3, used + 2, (idx + 1) % 0x1_0000);
    lemma_le16_put16(s3, used + 2, (idx + 1) % 0x1_0000);
    assert(s4[slot] == s1[slot] && s4[slot + 1] == s1[slot + 1]);
    assert(s4[slot + 2] == s1[slot + 2] && s4[slot + 3] == s1[slot + 3]);
    assert(s4[slot + 4] == s2[slot + 4] && s4[slot + 5] == s2[slot + 5]);
    assert(s4[slot + 6] == s2[slot + 6] && s4[slot + 7] == s2[slot + 7]);
    assert(s4[used as int] == s3[used as int] && s4[used + 1] == s3[used + 1]);
}

impl Virtq {
    /// Publishes `{ id: desc_chain_head_idx, len }` in the used ring: the slot
    /// is written before the index that makes it visible to the driver.
    pub fn update_used_ring(&mut self, ram: &mut GuestRam, len: u32, desc_chain_head_idx: u32) -> (r: bool)
        ensures
            r == (old(self).used is Some && valid_num(old(self).num)
                && used_publishable(old(ram).bytes@, old(self).used->0, old(self).num)),
            r ==> final(ram).bytes@ == publish_used(old(ram).bytes@, old(self).used->0, old(self).num,
                old(self).used_flags, desc_chain_head_idx, len)
                && *final(self) == (Virtq { last_used_idx: wrap_inc16(old(self).last_used_idx), ..*old(self) }),
            !r ==> final(ram).bytes@ == old(ram).bytes@ && *final(self) == *old(self),
    {
        let u = match self.used {
            Some(u) => u,
            None => return false,
        };
        if self.num == 0 || self.num > DESC_QUEUE_SIZE {
            return false;
        }
        let h = match ram.addr_at(u, 0, 4) {
            Some(h) => h,
            None => return false,
        };
        let idx = ram.read_u16(h + 2).unwrap();
        let slot = (idx as usize % self.num) as u64;
        let sa = match ram.addr_at(u, 4 + 8 * slot, 8) {
            Some(a) => a,
            None => return false,
        };
        ram.write_u32(sa, desc_chain_head_idx);
        ram.write_u32(sa + 4, len);
        ram.write_u16(u, self.used_flags);
        ram.write_u16(u + 2, wrapping_inc16(idx));
        self.last_used_idx = wrapping_inc16(self.last_used_idx);
        true
    }

    /// Walks the descriptor chain that starts at `head`, translating each
    /// buffer; at most `num` descriptors are followed.
    pub fn read_desc_chain(&self, ram: &GuestRam, map: &GuestMap, head: u16) -> (r: Result<Vec<DescSegment>, ChainError>)
        ensures
            match r {
                Ok(v) => chain_spec(*self, ram.bytes@, *map, head) == Ok::<Seq<DescSegment>, ChainError>(v@),
                Err(e) => chain_spec(*self, ram.bytes@, *map, head) == Err::<Seq<DescSegment>, ChainError>(e),
            },
    {
        let base = match self.desc_table {
            Some(b) => b,
            None => return Err(ChainError::NoTable),
        };
        if self.num == 0 || self.num > DESC_QUEUE_SIZE {
            return Err(ChainError::NoTable);
        }
        let ghost s = ram.bytes@;
        let mut segs: Vec<DescSegment> = Vec::new();
        let mut idx: usize = head as usize;
        let mut fuel: usize = self.num;
        loop
            invariant
                fuel <= self.num,
                valid_num(self.num),
                self.desc_table == Some(base),
                s == ram.bytes@,
                chain_spec(*self, s, *map, head) == (match chain_from(s, *map, base, self.num, idx as int, fuel as nat) {
                    Ok(rest) => Ok(segs@ + rest),
                    Err(e) => Err(e),
                }),
            decreases fuel,
        {
            if fuel == 0 {
                return Err(ChainError::TooLong);
            }
            let e = match self.desc_entry_addr(ram, idx) {
                Some(e) => e,
                None => return Err(ChainError::BadIndex),
            };
            let addr = ram.read_u64(e).unwrap();
            let len = ram.read_u32(e + 8).unwrap();
            let flags = ram.read_u16(e + 12).unwrap();
            let next = ram.read_u16(e + 14).unwrap();
            if flags & VIRTQ_DESC_F_INDIRECT != 0 {
                return Err(ChainError::Indirect);
            }
            let host = map.ipa2pa(addr);
            if host == 0 {
                return Err(ChainError::Unmapped);
            }
            let seg = DescSegment { addr: host, len, writable: flags & VIRTQ_DESC_F_WRITE != 0 };
            let ghost before = segs@;
            segs.push(seg);
            if flags & VIRTQ_DESC_F_NEXT == 0 {
                assert(segs@ =~= before + seq![seg]);
                return Ok(segs);
            }
            proof {
                match chain_from(s, *map, base, self.num, next as int, (fuel - 1) as nat) {
                    Ok(rest) => {
                        assert(before + (seq![seg] + rest) =~= segs@ + rest);
                    },
                    Err(_) => {},
                }
            }
            idx = next as usize;
            fuel = fuel - 1;
        }
    }
}

} // verus!
