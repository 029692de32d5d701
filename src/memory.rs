use vstd::prelude::*;

verus! {

/// Largest linear memory a 32-bit guest can grow to: 65536 pages of 64 KiB.
pub const MAX_MEMORY_BYTES: u64 = 0x1_0000_0000;

/// The guest's linear memory. Its length can grow between calls, never shrink.
pub struct MemoryView {
    bytes: Vec<u8>,
}

/// `m` with the bytes of `data` written from index `at` on.
pub open spec fn splice(m: Seq<u8>, at: int, data: Seq<u8>) -> Seq<u8> {
    m.take(at) + data + m.skip(at + data.len())
}

/// Little-endian encoding of a 32-bit value, as the guest reads it.
pub open spec fn le_u32(v: u32) -> Seq<u8> {
    seq![(v & 0xff) as u8, ((v >> 8u32) & 0xff) as u8, ((v >> 16u32) & 0xff) as u8, ((v >> 24u32) & 0xff) as u8]
}

/// Little-endian encoding of a 64-bit value.
pub open spec fn le_u64(v: u64) -> Seq<u8> {
    Seq::new(8, |i: int| ((v >> (8 * i) as u64) & 0xff) as u8)
}

impl View for MemoryView {
    type V = Seq<u8>;

    closed spec fn view(&self) -> Seq<u8> {
        self.bytes@
    }
}

impl MemoryView {
    /// The memory is no larger than a 32-bit guest can address.
    pub open spec fn wf(&self) -> bool {
        self@.len() <= MAX_MEMORY_BYTES
    }

    /// A zero-filled memory of `byte_length` bytes.
    pub fn new(byte_length: usize) -> (m: MemoryView)
        requires
            byte_length <= MAX_MEMORY_BYTES,
        ensures
            m.wf(),
            m@ == Seq::new(byte_length as nat, |_i: int| 0u8),
    {
        let mut bytes: Vec<u8> = Vec::new();
        while bytes.len() < byte_length
            invariant
                bytes.len() <= byte_length,
                forall|i: int| 0 <= i < bytes@.len() ==> bytes@[i] == 0u8,
            decreases byte_length - bytes.len(),
        {
            bytes.push(0u8);
        }
        assert(bytes@ =~= Seq::new(byte_length as nat, |_i: int| 0u8));
        MemoryView { bytes }
    }

    /// A memory holding exactly `bytes`.
    pub fn from_bytes(bytes: Vec<u8>) -> (m: MemoryView)
        requires
            bytes@.len() <= MAX_MEMORY_BYTES,
        ensures
            m.wf(),
            m@ == bytes@,
    {
        MemoryView { bytes }
    }

    /// Current length in bytes.
    pub fn byte_length(&self) -> (r: usize)
        ensures
            r == self@.len(),
    {
        self.bytes.len()
    }

    /// The whole content.
    pub fn as_bytes(&self) -> (r: &[u8])
        ensures
            r@ == self@,
    {
        self.bytes.as_slice()
    }

    /// Grows the memory by `additional` zero bytes; refused (with no change)
    /// when the result would exceed `MAX_MEMORY_BYTES` or the host's address
    /// space.
    pub fn grow(&mut self, additional: usize) -> (r: bool)
        ensures
            r == (old(self)@.len() + additional <= MAX_MEMORY_BYTES && old(self)@.len() + additional
                <= usize::MAX),
            r ==> final(self)@ == old(self)@ + Seq::new(additional as nat, |_i: int| 0u8),
            !r ==> final(self)@ == old(self)@,
            old(self).wf() ==> final(self).wf(),
    {
        let target: usize = match self.bytes.len().checked_add(additional) {
            None => return false,
            Some(t) => t,
        };
        if target as u64 > MAX_MEMORY_BYTES {
            return false;
        }
        let ghost start = self.bytes@;
        while self.bytes.len() < target
            invariant
                start.len() <= self.bytes@.len() <= target,
                target == start.len() + additional,
                self.bytes@.take(start.len() as int) == start,
                forall|i: int| start.len() <= i < self.bytes@.len() ==> self.bytes@[i] == 0u8,
            decreases target - self.bytes.len(),
        {
            let ghost before = self.bytes@;
            self.bytes.push(0u8);
            assert(self.bytes@.take(start.len() as int) =~= before.take(start.len() as int));
        }
        assert(self.bytes@ =~= start + Seq::new(additional as nat, |_i: int| 0u8));
        true
    }

    /// The byte at index `at`.
    pub fn read_u8(&self, at: usize) -> (r: u8)
        requires
            at < self@.len(),
        ensures
            r == self@[at as int],
    {
        self.bytes[at]
    }

    /// Writes `data` from index `at` on; the rest is unchanged.
    pub fn write_bytes(&mut self, at: usize, data: &[u8])
        requires
            at + data@.len() <= old(self)@.len(),
        ensures
            final(self)@ == splice(old(self)@, at as int, data@),
    {
        let ghost start = self.bytes@;
        let len: usize = self.bytes.len();
        let mut k: usize = 0;
        while k < data.len()
            invariant
                k <= data@.len(),
                at + data@.len() <= start.len(),
                len == start.len(),
                self.bytes@ == splice(start, at as int, data@.take(k as int)),
                self.bytes@.len() == start.len(),
            decreases data@.len() - k,
        {
            let ghost before = self.bytes@;
            self.bytes.set(at + k, data[k]);
            assert(self.bytes@ =~= splice(start, at as int, data@.take(k + 1)));
            k = k + 1;
        }
        assert(data@.take(data@.len() as int) =~= data@);
    }

    /// The eight bytes of `v`, least significant first.
    pub fn u64_bytes(v: u64) -> (r: Vec<u8>)
        ensures
            r@ == le_u64(v),
    {
        let mut r: Vec<u8> = Vec::new();
        let mut i: u64 = 0;
        while i < 8
            invariant
                i <= 8,
                r@ == le_u64(v).take(i as int),
            decreases 8 - i,
        {
            let shift: u64 = 8 * i;
            assert(((v >> shift) & 0xff) < 256) by (bit_vector);
            r.push(((v >> shift) & 0xff) as u8);
            assert(r@ =~= le_u64(v).take(i + 1));
            i = i + 1;
        }
        assert(r@ =~= le_u64(v));
        r
    }

    /// Writes `v` in little-endian order at index `at`.
    pub fn write_u32(&mut self, at: usize, v: u32)
        requires
            at + 4 <= old(self)@.len(),
        ensures
            final(self)@ == splice(old(self)@, at as int, le_u32(v)),
    {
        let ghost start = self.bytes@;
        let _len: usize = self.bytes.len();
        assert((v & 0xff) < 256 && ((v >> 8u32) & 0xff) < 256 && ((v >> 16u32) & 0xff) < 256
            && ((v >> 24u32) & 0xff) < 256) by (bit_vector);
        self.bytes.set(at, (v & 0xff) as u8);
        self.bytes.set(at + 1, ((v >> 8u32) & 0xff) as u8);
        self.bytes.set(at + 2, ((v >> 16u32) & 0xff) as u8);
        self.bytes.set(at + 3, ((v >> 24u32) & 0xff) as u8);
        assert(self.bytes@ =~= splice(start, at as int, le_u32(v)));
    }
}

} // verus!
