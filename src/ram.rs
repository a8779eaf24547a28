//! Guest memory as the hypervisor sees it: a byte-addressed host window,
//! little-endian loads and stores, and the guest-physical to host mapping.

use vstd::prelude::*;

verus! {

/// Little-endian 16-bit value of the bytes at `a`.
pub open spec fn le16(s: Seq<u8>, a: int) -> int {
    s[a] as int + 256 * (s[a + 1] as int)
}

/// Little-endian 32-bit value of the bytes at `a`.
pub open spec fn le32(s: Seq<u8>, a: int) -> int {
    le16(s, a) + 65536 * le16(s, a + 2)
}

/// Little-endian 64-bit value of the bytes at `a`.
pub open spec fn le64(s: Seq<u8>, a: int) -> int {
    le32(s, a) + 0x1_0000_0000 * le32(s, a + 4)
}

/// The bytes `s` with the 16-bit value `v` stored little-endian at `a`.
pub open spec fn put16(s: Seq<u8>, a: int, v: int) -> Seq<u8> {
    s.update(a, (v % 256) as u8).update(a + 1, (v / 256) as u8)
}

/// The bytes `s` with the 32-bit value `v` stored little-endian at `a`.
pub open spec fn put32(s: Seq<u8>, a: int, v: int) -> Seq<u8> {
    put16(put16(s, a, v % 65536), a + 2, v / 65536)
}

/// `n` bytes starting at host address `a` lie inside the window.
pub open spec fn in_ram(s: Seq<u8>, a: int, n: int) -> bool {
    0 <= a && a + n <= s.len()
}

pub proof fn lemma_le16_put16(s: Seq<u8>, a: int, v: int)
    requires
        in_ram(s, a, 2),
        0 <= v < 0x1_0000,
    ensures
        le16(put16(s, a, v), a) == v,
        put16(s, a, v).len() == s.len(),
        forall|b: int| 0 <= b < s.len() && b != a && b != a + 1 ==> #[trigger] put16(s, a, v)[b] == s[b],
{
}

pub proof fn lemma_le32_put32(s: Seq<u8>, a: int, v: int)
    requires
        in_ram(s, a, 4),
        0 <= v < 0x1_0000_0000,
    ensures
        le32(put32(s, a, v), a) == v,
        put32(s, a, v).len() == s.len(),
        forall|b: int| 0 <= b < s.len() && !(a <= b < a + 4) ==> #[trigger] put32(s, a, v)[b] == s[b],
{
    let s1 = put16(s, a, v % 65536);
    lemma_le16_put16(s, a, v % 65536);
    lemma_le16_put16(s1, a + 2, v / 65536);
    assert(put32(s, a, v)[a] == s1[a]);
    assert(put32(s, a, v)[a + 1] == s1[a + 1]);
}

/// The host window through which guest memory is reached. A host address is
/// an index into `bytes`.
#[derive(Clone, Debug, PartialEq, Eq)]
pub struct GuestRam {
    pub bytes: Vec<u8>,
}

impl GuestRam {
    /// A window of `size` zero bytes.
    pub fn new(size: usize) -> (r: GuestRam)
        ensures
            r.bytes@ == Seq::new(size as nat, |i: int| 0u8),
    {
        let mut bytes: Vec<u8> = Vec::new();
        let mut i: usize = 0;
        while i < size
            invariant
                i <= size,
                bytes@ == Seq::new(i as nat, |k: int| 0u8),
            decreases size - i,
        {
            bytes.push(0);
            i = i + 1;
            assert(bytes@ =~= Seq::new(i as nat, |k: int| 0u8));
        }
        GuestRam { bytes }
    }

    pub fn len(&self) -> (r: usize)
        ensures
            r == self.bytes@.len(),
    {
        self.bytes.len()
    }

    /// Whether `n` bytes at `addr` lie inside the window.
    pub fn contains(&self, addr: u64, n: u64) -> (r: bool)
        ensures
            r == in_ram(self.bytes@, addr as int, n as int),
            r ==> addr + n <= usize::MAX,
    {
        self.index_of(addr, n).is_some()
    }

    /// The index in `bytes` of host address `addr`, when `n` bytes from it fit.
    fn index_of(&self, addr: u64, n: u64) -> (r: Option<usize>)
        ensures
            r == (if in_ram(self.bytes@, addr as int, n as int) {
                Some(addr as usize)
            } else {
                None
            }),
            r is Some ==> r->0 as int == addr as int && addr + n <= usize::MAX,
    {
        let len = self.bytes.len();
        if addr > len as u64 {
            return None;
        }
        let a = addr as usize;
        if n > (len - a) as u64 {
            return None;
        }
        Some(a)
    }

    /// The host address `base + off`, when `n` bytes from it lie inside the window.
    pub fn addr_at(&self, base: u64, off: u64, n: u64) -> (r: Option<u64>)
        ensures
            r == (if in_ram(self.bytes@, base + off, n as int) {
                Some((base + off) as u64)
            } else {
                None
            }),
            r is Some ==> r->0 == base + off && base + off + n <= usize::MAX,
    {
        if (self.bytes.len() as u64) < n || base > u64::MAX - off {
            return None;
        }
        if self.contains(base + off, n) {
            Some(base + off)
        } else {
            None
        }
    }

    pub fn read_u8(&self, addr: u64) -> (r: Option<u8>)
        ensures
            r == (if in_ram(self.bytes@, addr as int, 1) {
                Some(self.bytes@[addr as int])
            } else {
                None
            }),
    {
        match self.index_of(addr, 1) {
            Some(a) => Some(self.bytes[a]),
            None => None,
        }
    }

    pub fn read_u16(&self, addr: u64) -> (r: Option<u16>)
        ensures
            r == (if in_ram(self.bytes@, addr as int, 2) {
                Some(le16(self.bytes@, addr as int) as u16)
            } else {
                None
            }),
    {
        let a = match self.index_of(addr, 2) {
            Some(a) => a,
            None => return None,
        };
        let b0 = self.bytes[a] as u16;
        let b1 = self.bytes[a + 1] as u16;
        Some(b0 + b1 * 256)
    }

    pub fn read_u32(&self, addr: u64) -> (r: Option<u32>)
        ensures
            r == (if in_ram(self.bytes@, addr as int, 4) {
                Some(le32(self.bytes@, addr as int) as u32)
            } else {
                None
            }),
    {
        if !self.contains(addr, 4) {
            return None;
        }
        let lo = self.read_u16(addr).unwrap() as u32;
        let hi = self.read_u16(addr + 2).unwrap() as u32;
        Some(lo + hi * 65536)
    }

    pub fn read_u64(&self, addr: u64) -> (r: Option<u64>)
        ensures
            r == (if in_ram(self.bytes@, addr as int, 8) {
                Some(le64(self.bytes@, addr as int) as u64)
            } else {
                None
            }),
    {
        if !self.contains(addr, 8) {
            return None;
        }
        let lo = self.read_u32(addr).unwrap() as u64;
        let hi = self.read_u32(addr + 4).unwrap() as u64;
        Some(lo + hi * 0x1_0000_0000)
    }

    pub fn write_u8(&mut self, addr: u64, v: u8) -> (r: bool)
        ensures
            r == in_ram(old(self).bytes@, addr as int, 1),
            final(self).bytes@.len() == old(self).bytes@.len(),
            final(self).bytes@ == (if r {
                old(self).bytes@.update(addr as int, v)
            } else {
                old(self).bytes@
            }),
    {
        let a = match self.index_of(addr, 1) {
            Some(a) => a,
            None => return false,
        };
        self.bytes.set(a, v);
        true
    }

    pub fn write_u16(&mut self, addr: u64, v: u16) -> (r: bool)
        ensures
            r == in_ram(old(self).bytes@, addr as int, 2),
            final(self).bytes@.len() == old(self).bytes@.len(),
            final(self).bytes@ == (if r {
                put16(old(self).bytes@, addr as int, v as int)
            } else {
                old(self).bytes@
            }),
    {
        let a = match self.index_of(addr, 2) {
            Some(a) => a,
            None => return false,
        };
        self.bytes.set(a, (v % 256) as u8);
        self.bytes.set(a + 1, (v / 256) as u8);
        true
    }

    pub fn write_u32(&mut self, addr: u64, v: u32) -> (r: bool)
        ensures
            r == in_ram(old(self).bytes@, addr as int, 4),
            final(self).bytes@.len() == old(self).bytes@.len(),
            final(self).bytes@ == (if r {
                put32(old(self).bytes@, addr as int, v as int)
            } else {
                old(self).bytes@
            }),
    {
        if !self.contains(addr, 4) {
            return false;
        }
        self.write_u16(addr, (v % 65536) as u16);
        self.write_u16(addr + 2, (v / 65536) as u16);
        true
    }
}

/// One contiguous piece of guest-physical memory and where it lives on the host.
#[derive(Clone, Copy, Debug, PartialEq, Eq, Structural)]
pub struct MemRegion {
    pub gpa: u64,
    pub hpa: u64,
    pub size: u64,
}

/// Host address of `gpa` through the regions from index `i` on; 0 when no
/// region maps it.
pub open spec fn translate_from(rs: Seq<MemRegion>, gpa: u64, i: int) -> u64
    decreases rs.len() - i,
{
    if i < 0 || i >= rs.len() {
        0
    } else if rs[i].gpa <= gpa && gpa - rs[i].gpa < rs[i].size
        && rs[i].hpa + (gpa - rs[i].gpa) <= u64::MAX {
        (rs[i].hpa + (gpa - rs[i].gpa)) as u64
    } else {
        translate_from(rs, gpa, i + 1)
    }
}

/// The stage-2 mapping of a guest, as a list of regions searched in order.
#[derive(Clone, Debug, PartialEq, Eq)]
pub struct GuestMap {
    pub regions: Vec<MemRegion>,
}

impl GuestMap {
    /// Host address that guest-physical `gpa` maps to; 0 when it is not mapped.
    pub open spec fn translate_spec(&self, gpa: u64) -> u64 {
        translate_from(self.regions@, gpa, 0)
    }

    pub fn new() -> (r: GuestMap)
        ensures
            r.regions@.len() == 0,
    {
        GuestMap { regions: Vec::new() }
    }

    pub fn add_region(&mut self, gpa: u64, hpa: u64, size: u64)
        ensures
            final(self).regions@ == old(self).regions@.push(MemRegion { gpa, hpa, size }),
    {
        self.regions.push(MemRegion { gpa, hpa, size });
    }

    /// Translates a guest-physical address; 0 denotes "not mapped".
    pub fn ipa2pa(&self, gpa: u64) -> (r: u64)
        ensures
            r == self.translate_spec(gpa),
    {
        let mut i: usize = 0;
        while i < self.regions.len()
            invariant
                i <= self.regions@.len(),
                translate_from(self.regions@, gpa, 0) == translate_from(self.regions@, gpa, i as int),
            decreases self.regions@.len() - i,
        {
            let r = self.regions[i];
            if r.gpa <= gpa && gpa - r.gpa < r.size && gpa - r.gpa <= u64::MAX - r.hpa {
                return r.hpa + (gpa - r.gpa);
            }
            i = i + 1;
        }
        0
    }
}

} // verus!
