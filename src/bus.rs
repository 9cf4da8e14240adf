use vstd::prelude::*;
use crate::ram::{RAM, MEMORY_SIZE};

verus! {

/// The CPU's view of memory. It owns the RAM and forwards reads and writes;
/// memory-mapped devices would be attached here without the CPU noticing.
#[derive(Debug)]
pub struct BUS {
    ram: RAM,
}

impl BUS {
    /// The byte found at each address.
    pub closed spec fn view(&self) -> Seq<u8> {
        self.ram@
    }

    pub open spec fn wf(&self) -> bool {
        self@.len() == MEMORY_SIZE
    }

    pub fn init() -> (r: BUS)
        ensures
            r.wf(),
            forall|i: int| 0 <= i < MEMORY_SIZE ==> #[trigger] r@[i] == 0u8,
    {
        BUS { ram: RAM::init() }
    }

    pub fn read_memory_byte(&self, addr: u16) -> (r: u8)
        requires
            self.wf(),
        ensures
            r == self@[addr as int],
    {
        self.ram.read_u8(addr)
    }

    pub fn write_memory_byte(&mut self, addr: u16, val: u8)
        requires
            old(self).wf(),
        ensures
            final(self)@ == old(self)@.update(addr as int, val),
    {
        self.ram.write_u8(addr, val)
    }
}

} // verus!
