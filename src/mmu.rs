use vstd::prelude::*;

verus! {

/// Number of addressable byte slots.
pub const MEM_SIZE: usize = 65536;

/// The little-endian 16-bit word stored at `addr` and `addr + 1`.
pub open spec fn word_at(mem: Seq<u8>, addr: int) -> u16 {
    (mem[addr] + mem[addr + 1] * 256) as u16
}

/// `mem` with the little-endian word `v` written at `addr` and `addr + 1`.
pub open spec fn with_word(mem: Seq<u8>, addr: int, v: u16) -> Seq<u8> {
    mem.update(addr, (v % 256) as u8).update(addr + 1, (v / 256) as u8)
}

/// A flat byte store of 65,536 slots with byte and little-endian word access.
pub struct MMU {
    mem: Vec<u8>,
}

impl View for MMU {
    type V = Seq<u8>;

    closed spec fn view(&self) -> Seq<u8> {
        self.mem@
    }
}

impl MMU {
    /// Every slot of the store exists.
    pub open spec fn wf(&self) -> bool {
        self@.len() == MEM_SIZE
    }

    /// A store of 65,536 bytes, all zero.
    pub fn new() -> (r: MMU)
        ensures
            r.wf(),
            forall|i: int| 0 <= i < MEM_SIZE ==> r@[i] == 0,
    {
        MMU { mem: vec![0u8; MEM_SIZE] }
    }

    /// Writes `value` at `address`; `None`, with nothing written, when the
    /// address is outside the store.
    pub fn set_b(&mut self, address: usize, value: u8) -> (r: Option<u8>)
        requires
            old(self).wf(),
        ensures
            final(self).wf(),
            address < MEM_SIZE ==> r == Some(value) && final(self)@ == old(self)@.update(
                address as int,
                value,
            ),
            address >= MEM_SIZE ==> r is None && final(self)@ == old(self)@,
    {
        if address >= self.mem.len() {
            return None;
        }
        self.mem.set(address, value);
        Some(value)
    }

    /// Writes `value` little-endian at `address` and `address + 1`; `None`,
    /// with nothing written, when `address + 1` is outside the store.
    pub fn set_w(&mut self, address: usize, value: u16) -> (r: Option<u16>)
        requires
            old(self).wf(),
        ensures
            final(self).wf(),
            address < MEM_SIZE - 1 ==> r == Some(value) && final(self)@ == with_word(
                old(self)@,
                address as int,
                value,
            ),
            address >= MEM_SIZE - 1 ==> r is None && final(self)@ == old(self)@,
    {
        if address >= self.mem.len() - 1 {
            return None;
        }
        self.mem.set(address, (value % 256) as u8);
        self.mem.set(address + 1, (value / 256) as u8);
        Some(value)
    }

    /// The byte at `address`, or `None` when it is outside the store.
    pub fn get_b(&self, address: usize) -> (r: Option<u8>)
        requires
            self.wf(),
        ensures
            address < MEM_SIZE ==> r == Some(self@[address as int]),
            address >= MEM_SIZE ==> r is None,
    {
        if address >= self.mem.len() {
            return None;
        }
        Some(self.mem[address])
    }

    /// The little-endian word at `address` and `address + 1`, or `None` when
    /// `address + 1` is outside the store.
    pub fn get_w(&self, address: usize) -> (r: Option<u16>)
        requires
            self.wf(),
        ensures
            address < MEM_SIZE - 1 ==> r == Some(word_at(self@, address as int)),
            address >= MEM_SIZE - 1 ==> r is None,
    {
        if address >= self.mem.len() - 1 {
            return None;
        }
        let lo = self.mem[address] as u16;
        let hi = self.mem[address + 1] as u16;
        Some(lo + hi * 256)
    }
}

/// Writing a word and reading it back at the same address gives the word.
pub proof fn lemma_word_round_trip(mem: Seq<u8>, addr: int, v: u16)
    requires
        mem.len() == MEM_SIZE,
        0 <= addr < MEM_SIZE - 1,
    ensures
        word_at(with_word(mem, addr, v), addr) == v,
{
}

} // verus!
