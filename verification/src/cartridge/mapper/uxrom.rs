use vstd::prelude::*;

use crate::cartridge::mapper::load_prg_banks;
use crate::cartridge::mapper::Mapper;
use crate::cartridge::CartridgeHeader;
use crate::cartridge::HeaderError;
use crate::cartridge::Mirroring;
use crate::mem::Mem;

verus! {

/// The error, if any, with which building a UxROM mapper ends: the image
/// must hold all the PRG banks that the header announces.
pub open spec fn spec_uxrom_error(header: CartridgeHeader, rom: Seq<u8>, start: int) -> Option<
    HeaderError,
> {
    if rom.len() < start + header.prg_rom_banks * 0x4000 {
        Some(HeaderError::UnexpectedEof)
    } else {
        None
    }
}

/// Builds a UxROM mapper from the image's data, which begins at `start`:
/// the PRG banks come from the image, the pattern memory is RAM, and work
/// RAM is there where the header counts any.
pub fn build_uxrom_mapper(header: &CartridgeHeader, rom: &[u8], start: usize) -> (r: Result<
    Mapper,
    HeaderError,
>)
    requires
        start <= rom@.len(),
    ensures
        match spec_uxrom_error(*header, rom@, start as int) {
            Some(e) => r is Err && r->Err_0 == e,
            None => r.is_ok() && r.unwrap() is Uxrom && r.unwrap()->Uxrom_0.spec_built_from(
                *header,
                rom@,
                start as int,
            ),
        },
{
    let count: usize = header.prg_rom_banks as usize;
    if rom.len() - start < count * 0x4000 {
        return Err(HeaderError::UnexpectedEof);
    }
    let prg_banks = load_prg_banks(rom, start, count);
    let chr_bank = Mem::default();
    let prg_ram_bank = if header.prg_ram_banks > 0 {
        Some(Mem::default())
    } else {
        None
    };
    Ok(Mapper::Uxrom(Uxrom::new(prg_banks, chr_bank, prg_ram_bank)))
}

/// UxROM: a three-bit latch selects the PRG bank seen at 0x8000; the last
/// bank is always seen at 0xC000.
pub struct Uxrom {
    pub prg_banks: Vec<Mem<0x4000>>,
    pub chr_bank: Mem<0x2000>,
    pub vram: Option<Mem<0x2000>>,
    pub bank_select: usize,
}

impl Uxrom {
    /// The mapper as it is built from the image: banks from the image,
    /// zeroed pattern RAM, work RAM by the header, bank zero selected.
    pub open spec fn spec_built_from(self, header: CartridgeHeader, rom: Seq<u8>, start: int) -> bool {
        &&& self.prg_banks@.len() == header.prg_rom_banks
        &&& forall|i: int|
            0 <= i < header.prg_rom_banks ==> (#[trigger] self.prg_banks@[i])@ == rom.subrange(
                start + i * 0x4000,
                start + (i + 1) * 0x4000,
            )
        &&& forall|i: int| 0 <= i < 0x2000 ==> self.chr_bank@[i] == 0u8
        &&& self.vram.is_some() == (header.prg_ram_banks > 0)
        &&& self.bank_select == 0
    }

    pub open spec fn spec_cpu_map_read(self, addr: u16) -> Option<u8> {
        if 0x6000 <= addr <= 0x7FFF {
            match self.vram {
                Some(ram) => Some(ram.spec_read(addr)),
                None => None,
            }
        } else if 0x8000 <= addr <= 0xBFFF {
            if self.bank_select < self.prg_banks@.len() {
                Some(self.prg_banks@[self.bank_select as int].spec_read(addr))
            } else {
                None
            }
        } else if addr >= 0xC000 {
            if self.prg_banks@.len() > 0 {
                Some(self.prg_banks@[self.prg_banks@.len() - 1].spec_read(addr))
            } else {
                None
            }
        } else {
            None
        }
    }

    pub open spec fn spec_cpu_map_write(self, addr: u16, data: u8) -> (Self, bool) {
        if 0x6000 <= addr <= 0x7FFF {
            match self.vram {
                Some(ram) => (Uxrom { vram: Some(ram.spec_write(addr, data)), ..self }, true),
                None => (self, false),
            }
        } else if addr >= 0x8000 {
            (Uxrom { bank_select: (data % 8) as usize, ..self }, true)
        } else {
            (self, false)
        }
    }

    pub open spec fn spec_ppu_map_read(self, addr: u16) -> Option<u8> {
        if addr < 0x2000 {
            Some(self.chr_bank.spec_read(addr))
        } else {
            None
        }
    }

    pub open spec fn spec_ppu_map_write(self, addr: u16, data: u8) -> (Self, bool) {
        if addr < 0x2000 {
            (Uxrom { chr_bank: self.chr_bank.spec_write(addr, data), ..self }, true)
        } else {
            (self, false)
        }
    }

    pub fn new(prg_banks: Vec<Mem<16384>>, chr_bank: Mem<8192>, vram: Option<Mem<8192>>) -> (r:
        Self)
        ensures
            r.prg_banks == prg_banks,
            r.chr_bank == chr_bank,
            r.vram == vram,
            r.bank_select == 0,
    {
        Uxrom { prg_banks, chr_bank, vram, bank_select: 0 }
    }

    pub fn cpu_map_read(&self, addr: u16) -> (r: Option<u8>)
        ensures
            r == self.spec_cpu_map_read(addr),
    {
        if 0x6000 <= addr && addr <= 0x7FFF {
            match &self.vram {
                Some(ram) => Some(ram.read(addr)),
                None => None,
            }
        } else if 0x8000 <= addr && addr <= 0xBFFF {
            if self.bank_select < self.prg_banks.len() {
                Some(self.prg_banks[self.bank_select].read(addr))
            } else {
                None
            }
        } else if addr >= 0xC000 {
            let n: usize = self.prg_banks.len();
            if n > 0 {
                Some(self.prg_banks[n - 1].read(addr))
            } else {
                None
            }
        } else {
            None
        }
    }

    pub fn cpu_map_write(&mut self, addr: u16, data: u8) -> (r: bool)
        ensures
            (*final(self), r) == old(self).spec_cpu_map_write(addr, data),
    {
        if 0x6000 <= addr && addr <= 0x7FFF {
            match &mut self.vram {
                Some(ram) => {
                    ram.write(addr, data);
                    true
                },
                None => false,
            }
        } else if addr >= 0x8000 {
            self.bank_select = (data % 8) as usize;
            true
        } else {
            false
        }
    }

    pub fn ppu_map_read(&self, addr: u16) -> (r: Option<u8>)
        ensures
            r == self.spec_ppu_map_read(addr),
    {
        if addr < 0x2000 {
            Some(self.chr_bank.read(addr))
        } else {
            None
        }
    }

    pub fn ppu_map_write(&mut self, addr: u16, data: u8) -> (r: bool)
        ensures
            (*final(self), r) == old(self).spec_ppu_map_write(addr, data),
    {
        if addr < 0x2000 {
            self.chr_bank.write(addr, data);
            true
        } else {
            false
        }
    }

    pub fn mirroring(&self) -> (r: Option<Mirroring>)
        ensures
            r.is_none(),
    {
        None
    }
}

/// After a write of `data` to the latch, the window at 0x8000 shows bank
/// `data mod 8`, and the window at 0xC000 still shows the last bank.
pub proof fn lemma_uxrom_select(m: Uxrom, at: u16, data: u8, addr: u16)
    requires
        at >= 0x8000,
        addr >= 0x8000,
    ensures
        ({
            let after = m.spec_cpu_map_write(at, data).0;
            &&& after.bank_select == data % 8
            &&& addr < 0xC000 && data % 8 < m.prg_banks@.len() ==> after.spec_cpu_map_read(addr)
                == Some(m.prg_banks@[(data % 8) as int].spec_read(addr))
            &&& addr >= 0xC000 ==> after.spec_cpu_map_read(addr) == m.spec_cpu_map_read(addr)
        }),
{
}

} // verus!
