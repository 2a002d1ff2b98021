//! Byte-addressed memory and the two primitives the reset path relies on.

use vstd::prelude::*;

verus! {

/// Number of distinct addresses on a 32-bit bus.
pub const ADDRESS_SPACE: u64 = 0x1_0000_0000;

/// A contiguous device of byte-addressed memory (flash or SRAM), mapped at
/// `base`.
pub struct Memory {
    pub base: u32,
    pub bytes: Vec<u8>,
}

impl Memory {
    /// The device fits in the 32-bit address space.
    pub open spec fn wf(&self) -> bool {
        self.base as int + self.bytes@.len() <= ADDRESS_SPACE as int
    }

    /// The first address past the end of the device.
    pub open spec fn end(&self) -> int {
        self.base as int + self.bytes@.len()
    }

    /// `[addr, addr + len)` lies inside the device.
    pub open spec fn holds(&self, addr: int, len: int) -> bool {
        &&& 0 <= len
        &&& self.base <= addr
        &&& addr + len <= self.end()
    }

    /// The byte stored at `addr`.
    pub open spec fn at(&self, addr: int) -> u8 {
        self.bytes@[addr - self.base]
    }

    /// A device of `size` bytes at `base`, every byte set to `fill`.
    pub fn new(base: u32, size: u32, fill: u8) -> (r: Memory)
        requires
            base as int + size as int <= ADDRESS_SPACE as int,
        ensures
            r.wf(),
            r.base == base,
            r.bytes@.len() == size,
            forall|i: int| 0 <= i < size ==> r.bytes@[i] == fill,
    {
        let mut bytes: Vec<u8> = Vec::new();
        let mut i: u32 = 0;
        while i < size
            invariant
                i <= size,
                bytes@.len() == i,
                forall|k: int| 0 <= k < i ==> bytes@[k] == fill,
            decreases size - i,
        {
            bytes.push(fill);
            i = i + 1;
        }
        Memory { base, bytes }
    }

    /// The byte at `addr`, if the device holds it.
    pub fn read_u8(&self, addr: u32) -> (r: Option<u8>)
        requires
            self.wf(),
        ensures
            r == (if self.holds(addr as int, 1) {
                Some(self.at(addr as int))
            } else {
                None::<u8>
            }),
    {
        if addr >= self.base && ((addr - self.base) as usize) < self.bytes.len() {
            Some(self.bytes[(addr - self.base) as usize])
        } else {
            None
        }
    }

    /// The little-endian word at `addr`, if the device holds its four bytes.
    pub fn read_u32(&self, addr: u32) -> (r: Option<u32>)
        requires
            self.wf(),
        ensures
            r == (if self.holds(addr as int, 4) {
                Some(le_word(self, addr as int))
            } else {
                None::<u32>
            }),
    {
        if addr >= self.base && ((addr - self.base) as usize) < self.bytes.len() && self.bytes.len()
            - ((addr - self.base) as usize) >= 4 {
            let i = (addr - self.base) as usize;
            let w = self.bytes[i] as u32 + (self.bytes[i + 1] as u32) * 0x100 + (self.bytes[i
                + 2] as u32) * 0x1_0000 + (self.bytes[i + 3] as u32) * 0x100_0000;
            Some(w)
        } else {
            None
        }
    }
}

/// The 32-bit value whose little-endian bytes start at `addr`.
pub open spec fn le_word(m: &Memory, addr: int) -> u32 {
    (m.at(addr) as int + m.at(addr + 1) as int * 0x100 + m.at(addr + 2) as int * 0x1_0000
        + m.at(addr + 3) as int * 0x100_0000) as u32
}

/// `bytes` with the `len` bytes from offset `d` set to zero.
pub open spec fn cleared(bytes: Seq<u8>, d: int, len: int) -> Seq<u8> {
    Seq::new(bytes.len(), |i: int| if d <= i < d + len { 0u8 } else { bytes[i] })
}

/// `to` with the `len` bytes from offset `d` replaced by those of `from` from
/// offset `s`.
pub open spec fn copied(to: Seq<u8>, d: int, from: Seq<u8>, s: int, len: int) -> Seq<u8> {
    Seq::new(to.len(), |i: int| if d <= i < d + len { from[s + (i - d)] } else { to[i] })
}

/// Copying a region a second time, with the same arguments and between
/// distinct devices, leaves the destination as the first copy left it.
pub proof fn lemma_copy_twice(to: Seq<u8>, d: int, from: Seq<u8>, s: int, len: int)
    ensures
        copied(copied(to, d, from, s, len), d, from, s, len) == copied(to, d, from, s, len),
{
    assert(copied(copied(to, d, from, s, len), d, from, s, len) =~= copied(
        to,
        d,
        from,
        s,
        len,
    ));
}

/// Writes zero to each of the `len` bytes from `dst`, one byte at a time.
/// Every other byte of the device keeps its value; `len == 0` changes nothing.
pub fn r_memclr(mem: &mut Memory, dst: u32, len: u32)
    requires
        old(mem).wf(),
        old(mem).holds(dst as int, len as int),
    ensures
        final(mem).wf(),
        final(mem).base == old(mem).base,
        final(mem).bytes@ == cleared(old(mem).bytes@, dst - old(mem).base, len as int),
{
    let start: usize = (dst - mem.base) as usize;
    let mut k: usize = 0;
    while k < len as usize
        invariant
            mem.wf(),
            mem.base == old(mem).base,
            mem.bytes@.len() == old(mem).bytes@.len(),
            old(mem).holds(dst as int, len as int),
            start == dst - mem.base,
            k <= len,
            forall|i: int|
                0 <= i < mem.bytes@.len() ==> #[trigger] mem.bytes@[i] == (if start <= i < start
                    + k {
                    0u8
                } else {
                    old(mem).bytes@[i]
                }),
        decreases len - k,
    {
        mem.bytes.set(start + k, 0);
        k = k + 1;
    }
    proof {
        assert(mem.bytes@ =~= cleared(old(mem).bytes@, dst - old(mem).base, len as int));
    }
}

/// Copies the `len` bytes from `src` in `from` to `dst` in `to`, one byte at a
/// time. The two devices are distinct, so the regions cannot overlap. Every
/// other byte of `to` keeps its value; `len == 0` changes nothing.
pub fn r_memcpy(to: &mut Memory, dst: u32, from: &Memory, src: u32, len: u32)
    requires
        old(to).wf(),
        from.wf(),
        old(to).holds(dst as int, len as int),
        from.holds(src as int, len as int),
    ensures
        final(to).wf(),
        final(to).base == old(to).base,
        final(to).bytes@ == copied(
            old(to).bytes@,
            dst - old(to).base,
            from.bytes@,
            src - from.base,
            len as int,
        ),
{
    let d: usize = (dst - to.base) as usize;
    let s: usize = (src - from.base) as usize;
    let mut k: usize = 0;
    while k < len as usize
        invariant
            to.wf(),
            from.wf(),
            to.base == old(to).base,
            to.bytes@.len() == old(to).bytes@.len(),
            old(to).holds(dst as int, len as int),
            from.holds(src as int, len as int),
            d == dst - to.base,
            s == src - from.base,
            k <= len,
            forall|i: int|
                0 <= i < to.bytes@.len() ==> #[trigger] to.bytes@[i] == (if d <= i < d + k {
                    from.bytes@[s + (i - d)]
                } else {
                    old(to).bytes@[i]
                }),
        decreases len - k,
    {
        let b = from.bytes[s + k];
        to.bytes.set(d + k, b);
        k = k + 1;
    }
    proof {
        assert(to.bytes@ =~= copied(
            old(to).bytes@,
            dst - old(to).base,
            from.bytes@,
            src - from.base,
            len as int,
        ));
    }
}

} // verus!
