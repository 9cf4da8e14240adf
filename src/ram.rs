use vstd::prelude::*;

verus! {

/// Number of bytes in the address space: every `u16` is a valid address.
pub const MEMORY_SIZE: usize = 0x10000;

/// A flat, zero-initialised 64 KiB byte store.
#[derive(Debug)]
pub struct RAM {
    memory: Vec<u8>,
}

impl RAM {
    /// The bytes of the store, indexed by address.
    pub closed spec fn view(&self) -> Seq<u8> {
        self.memory@
    }

    /// The store covers the whole 16-bit address space.
    pub open spec fn wf(&self) -> bool {
        self@.len() == MEMORY_SIZE
    }

    pub fn init() -> (r: RAM)
        ensures
            r.wf(),
            forall|i: int| 0 <= i < MEMORY_SIZE ==> #[trigger] r@[i] == 0u8,
    {
        RAM { memory: vec![0u8; MEMORY_SIZE] }
    }

    pub fn read_u8(&self, addr: u16) -> (r: u8)
        requires
            self.wf(),
        ensures
            r == self@[addr as int],
    {
        self.memory[addr as usize]
    }

    pub fn write_u8(&mut self, addr: u16, val: u8)
        requires
            old(self).wf(),
        ensures
            final(self)@ == old(self)@.update(addr as int, val),
    {
        self.memory.set(addr as usize, val);
    }
}

} // verus!
