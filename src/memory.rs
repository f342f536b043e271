//! Flat, byte-addressed, big-endian memory.
use vstd::prelude::*;

verus! {

/// True for the access widths the bus knows: a byte, a halfword and a word.
pub open spec fn valid_size(size: int) -> bool {
    size == 1 || size == 2 || size == 4
}

/// The value of `size` bytes read from `m` at `addr`, most significant byte first.
pub open spec fn be_read(m: Seq<u8>, addr: int, size: int) -> u32 {
    if size == 1 {
        m[addr] as u32
    } else if size == 2 {
        (m[addr] * 0x100 + m[addr + 1]) as u32
    } else {
        (m[addr] * 0x100_0000 + m[addr + 1] * 0x1_0000 + m[addr + 2] * 0x100 + m[addr + 3]) as u32
    }
}

/// Byte `i` of `w` counted from the least significant one.
pub open spec fn byte_of(w: u32, i: int) -> u8 {
    ((w as int / pow256(i)) % 0x100) as u8
}

/// 256 to the power `i`, for `i` in `0..4`.
pub open spec fn pow256(i: int) -> int {
    if i == 0 {
        1
    } else if i == 1 {
        0x100
    } else if i == 2 {
        0x1_0000
    } else {
        0x100_0000
    }
}

/// `m` after the low `size` bytes of `w` were stored at `addr`, most significant byte first.
pub open spec fn be_write(m: Seq<u8>, addr: int, w: u32, size: int) -> Seq<u8> {
    if size == 1 {
        m.update(addr, byte_of(w, 0))
    } else if size == 2 {
        m.update(addr, byte_of(w, 1)).update(addr + 1, byte_of(w, 0))
    } else {
        m.update(addr, byte_of(w, 3)).update(addr + 1, byte_of(w, 2)).update(
            addr + 2,
            byte_of(w, 1),
        ).update(addr + 3, byte_of(w, 0))
    }
}

/// The low `size` bytes of `w`.
pub open spec fn truncate(w: u32, size: int) -> u32 {
    if size == 1 {
        (w % 0x100) as u32
    } else if size == 2 {
        (w % 0x1_0000) as u32
    } else {
        w
    }
}

/// A byte array of fixed size.
pub struct Memory {
    data: Vec<u8>,
}

impl View for Memory {
    type V = Seq<u8>;

    closed spec fn view(&self) -> Seq<u8> {
        self.data@
    }
}

impl Memory {
    /// A memory of `size` bytes, all zero.
    pub fn new(size: usize) -> (r: Memory)
        ensures
            r@ == Seq::new(size as nat, |i: int| 0u8),
    {
        let r = Memory { data: vec![0u8; size] };
        assert(r@ =~= Seq::new(size as nat, |i: int| 0u8));
        r
    }

    /// The number of bytes.
    pub fn len(&self) -> (r: usize)
        ensures
            r == self@.len(),
    {
        self.data.len()
    }

    pub fn read_byte(&self, address: usize) -> (r: u32)
        requires
            address < self@.len(),
        ensures
            r == be_read(self@, address as int, 1),
    {
        self.data[address] as u32
    }

    pub fn read_halfword(&self, address: usize) -> (r: u32)
        requires
            address + 2 <= self@.len(),
        ensures
            r == be_read(self@, address as int, 2),
    {
        // The length fits a usize, so the index arithmetic below cannot overflow.
        let _ = self.data.len();
        let b1 = self.data[address] as u32;
        let b2 = self.data[address + 1] as u32;
        b1 * 0x100 + b2
    }

    pub fn read_word(&self, address: usize) -> (r: u32)
        requires
            address + 4 <= self@.len(),
        ensures
            r == be_read(self@, address as int, 4),
    {
        // The length fits a usize, so the index arithmetic below cannot overflow.
        let _ = self.data.len();
        let b1 = self.data[address] as u32;
        let b2 = self.data[address + 1] as u32;
        let b3 = self.data[address + 2] as u32;
        let b4 = self.data[address + 3] as u32;
        b1 * 0x100_0000 + b2 * 0x1_0000 + b3 * 0x100 + b4
    }

    /// Reads `size` bytes at `address` as one big-endian value.
    pub fn read_data(&self, address: u32, size: u8) -> (r: u32)
        requires
            valid_size(size as int),
            address + size <= self@.len(),
        ensures
            r == be_read(self@, address as int, size as int),
    {
        let address = address as usize;
        if size == 1 {
            self.read_byte(address)
        } else if size == 2 {
            self.read_halfword(address)
        } else {
            self.read_word(address)
        }
    }

    pub fn write_byte(&mut self, address: usize, data: u32)
        requires
            address < old(self)@.len(),
        ensures
            final(self)@ == be_write(old(self)@, address as int, data, 1),
    {
        self.data.set(address, (data % 0x100) as u8);
    }

    pub fn write_halfword(&mut self, address: usize, data: u32)
        requires
            address + 2 <= old(self)@.len(),
        ensures
            final(self)@ == be_write(old(self)@, address as int, data, 2),
    {
        // The length fits a usize, so the index arithmetic below cannot overflow.
        let _ = self.data.len();
        self.data.set(address, (data / 0x100 % 0x100) as u8);
        self.data.set(address + 1, (data % 0x100) as u8);
    }

    pub fn write_word(&mut self, address: usize, data: u32)
        requires
            address + 4 <= old(self)@.len(),
        ensures
            final(self)@ == be_write(old(self)@, address as int, data, 4),
    {
        // The length fits a usize, so the index arithmetic below cannot overflow.
        let _ = self.data.len();
        self.data.set(address, (data / 0x100_0000 % 0x100) as u8);
        self.data.set(address + 1, (data / 0x1_0000 % 0x100) as u8);
        self.data.set(address + 2, (data / 0x100 % 0x100) as u8);
        self.data.set(address + 3, (data % 0x100) as u8);
    }

    /// Stores the low `size` bytes of `data` at `address`, most significant byte first.
    pub fn write_data(&mut self, address: u32, data: u32, size: u8)
        requires
            valid_size(size as int),
            address + size <= old(self)@.len(),
        ensures
            final(self)@ == be_write(old(self)@, address as int, data, size as int),
    {
        let address = address as usize;
        if size == 1 {
            self.write_byte(address, data);
        } else if size == 2 {
            self.write_halfword(address, data);
        } else {
            self.write_word(address, data);
        }
    }

    /// `count` consecutive words starting at `start`, four bytes apart.
    pub fn read_words(&self, start: u32, count: usize) -> (r: Vec<u32>)
        requires
            start + 4 * count <= self@.len(),
        ensures
            r@.len() == count,
            forall|i: int| 0 <= i < count ==> #[trigger] r@[i] == be_read(self@, start + 4 * i, 4),
    {
        // The length fits a usize, so the index arithmetic below cannot overflow.
        let _ = self.data.len();
        let mut r: Vec<u32> = Vec::new();
        let mut i: usize = 0;
        while i < count
            invariant
                i <= count,
                start + 4 * count <= self@.len(),
                self@.len() <= usize::MAX,
                r@.len() == i,
                forall|j: int| 0 <= j < i ==> #[trigger] r@[j] == be_read(self@, start + 4 * j, 4),
            decreases count - i,
        {
            let w = self.read_word(start as usize + 4 * i);
            r.push(w);
            i = i + 1;
        }
        r
    }
}

/// Storing a value and reading it back at the same address and width gives the
/// stored value cut to that width.
pub proof fn lemma_write_then_read(m: Seq<u8>, addr: int, w: u32, size: int)
    requires
        valid_size(size),
        0 <= addr,
        addr + size <= m.len(),
    ensures
        be_read(be_write(m, addr, w, size), addr, size) == truncate(w, size),
{
    let m2 = be_write(m, addr, w, size);
    if size == 1 {
        assert(m2[addr] == byte_of(w, 0));
    } else if size == 2 {
        assert(m2[addr] == byte_of(w, 1));
        assert(m2[addr + 1] == byte_of(w, 0));
        assert((w / 0x100) % 0x100 * 0x100 + w % 0x100 == w % 0x1_0000) by (nonlinear_arith);
    } else {
        assert(m2[addr] == byte_of(w, 3));
        assert(m2[addr + 1] == byte_of(w, 2));
        assert(m2[addr + 2] == byte_of(w, 1));
        assert(m2[addr + 3] == byte_of(w, 0));
        assert((w / 0x100_0000) % 0x100 * 0x100_0000 + (w / 0x1_0000) % 0x100 * 0x1_0000 + (w
            / 0x100) % 0x100 * 0x100 + w % 0x100 == w) by (nonlinear_arith);
    }
}

} // verus!
