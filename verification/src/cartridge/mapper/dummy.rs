use vstd::prelude::*;

use crate::cartridge::Mirroring;
use crate::mem::Mem;

verus! {

/// A mapper of plain memory: one bank of thirty-two KiB that the CPU reads
/// and writes at every address; nothing on the PPU side.
pub struct DummyMapper {
    pub bank: Mem<0x8000>,
}

impl Default for DummyMapper {
    fn default() -> (r: Self)
        ensures
            forall|i: int| 0 <= i < 0x8000 ==> r.bank@[i] == 0u8,
    {
        DummyMapper { bank: Mem::default() }
    }
}

impl DummyMapper {
    pub open spec fn spec_cpu_map_read(self, addr: u16) -> Option<u8> {
        Some(self.bank.spec_read(addr))
    }

    pub open spec fn spec_cpu_map_write(self, addr: u16, data: u8) -> (Self, bool) {
        (DummyMapper { bank: self.bank.spec_write(addr, data) }, true)
    }

    pub fn cpu_map_read(&self, addr: u16) -> (r: Option<u8>)
        ensures
            r == self.spec_cpu_map_read(addr),
    {
        Some(self.bank.read(addr))
    }

    pub fn cpu_map_write(&mut self, addr: u16, data: u8) -> (r: bool)
        ensures
            (*final(self), r) == old(self).spec_cpu_map_write(addr, data),
    {
        self.bank.write(addr, data);
        true
    }

    pub fn ppu_map_read(&self, _addr: u16) -> (r: Option<u8>)
        ensures
            r.is_none(),
    {
        None
    }

    pub fn ppu_map_write(&mut self, _addr: u16, _data: u8) -> (r: bool)
        ensures
            !r,
            *final(self) == *old(self),
    {
        false
    }

    pub fn mirroring(&self) -> (r: Option<Mirroring>)
        ensures
            r.is_none(),
    {
        None
    }
}

} // verus!
