//! A fixed-size, byte-addressable store.
//!
//! The store holds `size` bytes, all zero at construction, and checks every
//! access against the configured size.  Addresses at or past the size are
//! rejected by contract: the callers surface them as run-time faults.

use vstd::prelude::*;

verus! {

/// A byte-addressable memory of a fixed size of at most 65535 bytes.
pub struct Memory {
    data: Vec<u8>,
    size: u16,
}

impl View for Memory {
    type V = Seq<u8>;

    closed spec fn view(&self) -> Seq<u8> {
        self.data@
    }
}

impl Memory {
    /// Well-formed: the backing vector holds exactly `size` bytes.
    pub closed spec fn wf(&self) -> bool {
        self.data@.len() == self.size as nat
    }

    /// Creates a zero-filled memory of `size` bytes.
    pub fn new(size: u16) -> (r: Memory)
        ensures
            r.wf(),
            r@ == Seq::new(size as nat, |i: int| 0u8),
    {
        let mut data: Vec<u8> = Vec::new();
        let mut i: u16 = 0;
        while i < size
            invariant
                i <= size,
                data@ == Seq::new(i as nat, |j: int| 0u8),
            decreases size - i,
        {
            data.push(0);
            proof {
                assert(data@ =~= Seq::new((i + 1) as nat, |j: int| 0u8));
            }
            i = i + 1;
        }
        Memory { data, size }
    }

    /// Creates a zero-padded memory of `size` bytes whose prefix is `bin`.
    pub fn new_from(bin: &Vec<u8>, size: usize) -> (r: Memory)
        requires
            bin@.len() < size,
            size <= 0xffff,
        ensures
            r.wf(),
            r@.len() == size,
            forall|i: int| 0 <= i < bin@.len() ==> r@[i] == bin@[i],
            forall|i: int| bin@.len() <= i < size ==> r@[i] == 0u8,
    {
        let mut mem = Memory::new(size as u16);
        let mut i: usize = 0;
        while i < bin.len()
            invariant
                mem.wf(),
                i <= bin@.len(),
                bin@.len() < size <= 0xffff,
                mem@.len() == size,
                forall|j: int| 0 <= j < i ==> mem@[j] == bin@[j],
                forall|j: int| i <= j < size ==> mem@[j] == 0u8,
            decreases bin@.len() - i,
        {
            mem.write(i as u16, bin[i]);
            i = i + 1;
        }
        mem
    }

    /// The configured size in bytes.
    pub fn size(&self) -> (r: u16)
        requires
            self.wf(),
        ensures
            r as nat == self@.len(),
    {
        self.size
    }

    /// Stores `content` at `addr`; the address must be inside the store.
    pub fn write(&mut self, addr: u16, content: u8)
        requires
            old(self).wf(),
            addr < old(self)@.len(),
        ensures
            final(self).wf(),
            final(self)@ == old(self)@.update(addr as int, content),
    {
        self.data.set(addr as usize, content);
    }

    /// Loads the byte at `addr`; the address must be inside the store.
    pub fn read(&self, addr: u16) -> (r: u8)
        requires
            self.wf(),
            addr < self@.len(),
        ensures
            r == self@[addr as int],
    {
        self.data[addr as usize]
    }
}

} // verus!
