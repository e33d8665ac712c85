use vstd::prelude::*;

use crate::cartridge::mapper::Mapper;
use crate::cartridge::CartridgeHeader;
use crate::cartridge::HeaderError;
use crate::cartridge::Mirroring;
use crate::mem::Mem;

verus! {

/// The error, if any, with which building an NROM mapper ends: the bank
/// count must be one or two, and the image must hold the PRG data and one
/// CHR bank.
pub open spec fn spec_nrom_error(header: CartridgeHeader, rom: Seq<u8>, start: int) -> Option<
    HeaderError,
> {
    if header.prg_rom_banks == 1 {
        if rom.len() < start + 0x6000 {
            Some(HeaderError::UnexpectedEof)
        } else {
            None
        }
    } else if header.prg_rom_banks == 2 {
        if rom.len() < start + 0xA000 {
            Some(HeaderError::UnexpectedEof)
        } else {
            None
        }
    } else {
        Some(HeaderError::UnsupportedMapper(header.mapper_id))
    }
}

/// Builds the NROM mapper that the header asks for from the image's data,
/// which begins at `start`.
pub fn build_nrom_mapper(header: &CartridgeHeader, rom: &[u8], start: usize) -> (r: Result<
    Mapper,
    HeaderError,
>)
    requires
        start <= rom@.len(),
    ensures
        match spec_nrom_error(*header, rom@, start as int) {
            Some(e) => r is Err && r->Err_0 == e,
            None => r.is_ok() && if header.prg_rom_banks == 1 {
                r.unwrap() is Nrom128 && r.unwrap()->Nrom128_0.spec_read_from(rom@, start as int)
            } else {
                r.unwrap() is Nrom256 && r.unwrap()->Nrom256_0.spec_read_from(rom@, start as int)
            },
        },
{
    let prg_bank_nb = header.prg_rom_banks;
    if prg_bank_nb == 1 {
        if rom.len() - start < 0x6000 {
            Err(HeaderError::UnexpectedEof)
        } else {
            Ok(Mapper::Nrom128(Nrom128::from_reader(rom, start)))
        }
    } else if prg_bank_nb == 2 {
        if rom.len() - start < 0xA000 {
            Err(HeaderError::UnexpectedEof)
        } else {
            Ok(Mapper::Nrom256(Nrom256::from_reader(rom, start)))
        }
    } else {
        Err(HeaderError::UnsupportedMapper(header.mapper_id))
    }
}

/// NROM with one PRG bank of sixteen KiB, seen twice by the CPU, and one
/// CHR bank of eight KiB.
pub struct Nrom128 {
    pub prg_bank: Mem<0x4000>,
    pub chr_bank: Mem<0x2000>,
}

impl Default for Nrom128 {
    fn default() -> (r: Self)
        ensures
            forall|i: int| 0 <= i < 0x4000 ==> r.prg_bank@[i] == 0u8,
            forall|i: int| 0 <= i < 0x2000 ==> r.chr_bank@[i] == 0u8,
    {
        Nrom128 { prg_bank: Mem::default(), chr_bank: Mem::default() }
    }
}

impl Nrom128 {
    /// The banks hold the image's bytes from `start` on: PRG, then CHR.
    pub open spec fn spec_read_from(self, rom: Seq<u8>, start: int) -> bool {
        &&& self.prg_bank@ == rom.subrange(start, start + 0x4000)
        &&& self.chr_bank@ == rom.subrange(start + 0x4000, start + 0x6000)
    }

    pub open spec fn spec_cpu_map_read(self, addr: u16) -> Option<u8> {
        if addr >= 0x8000 {
            Some(self.prg_bank.spec_read(addr))
        } else {
            None
        }
    }

    pub open spec fn spec_ppu_map_read(self, addr: u16) -> Option<u8> {
        if addr < 0x2000 {
            Some(self.chr_bank.spec_read(addr))
        } else {
            None
        }
    }

    /// Takes the PRG bank and then the CHR bank from `bytes`, from `start`
    /// on.
    pub fn from_reader(bytes: &[u8], start: usize) -> (r: Self)
        requires
            start + 0x6000 <= bytes@.len(),
        ensures
            r.spec_read_from(bytes@, start as int),
    {
        let n: usize = bytes.len();
        let prg_rom = Mem::from_slice(bytes, start);
        let chr_rom = Mem::from_slice(bytes, start + 0x4000);
        Nrom128 { prg_bank: prg_rom, chr_bank: chr_rom }
    }

    pub fn cpu_map_read(&self, addr: u16) -> (r: Option<u8>)
        ensures
            r == self.spec_cpu_map_read(addr),
    {
        if addr >= 0x8000 {
            Some(self.prg_bank.read(addr))
        } else {
            None
        }
    }

    /// PRG is read-only: the write is not taken.
    pub fn cpu_map_write(&mut self, _addr: u16, _data: u8) -> (r: bool)
        ensures
            !r,
            *final(self) == *old(self),
    {
        false
    }

    pub fn ppu_map_read(&self, addr: u16) -> (r: Option<u8>)
        ensures
            r == self.spec_ppu_map_read(addr),
    {
        if addr < 0x2000 {
            Some(self.chr_bank.read(addr))
        } else {
            None
        }
    }

    /// CHR is read-only: a write to the pattern range is answered and
    /// dropped.
    pub fn ppu_map_write(&mut self, addr: u16, _data: u8) -> (r: bool)
        ensures
            r == (addr < 0x2000),
            *final(self) == *old(self),
    {
        addr < 0x2000
    }

    pub fn mirroring(&self) -> (r: Option<Mirroring>)
        ensures
            r.is_none(),
    {
        None
    }
}

/// NROM with two PRG banks, thirty-two KiB in all, and one CHR bank.
pub struct Nrom256 {
    pub prg_rom: Mem<0x8000>,
    pub chr_rom: Mem<0x2000>,
}

impl Default for Nrom256 {
    fn default() -> (r: Self)
        ensures
            forall|i: int| 0 <= i < 0x8000 ==> r.prg_rom@[i] == 0u8,
            forall|i: int| 0 <= i < 0x2000 ==> r.chr_rom@[i] == 0u8,
    {
        Nrom256 { prg_rom: Mem::default(), chr_rom: Mem::default() }
    }
}

impl Nrom256 {
    /// The banks hold the image's bytes from `start` on: PRG, then CHR.
    pub open spec fn spec_read_from(self, rom: Seq<u8>, start: int) -> bool {
        &&& self.prg_rom@ == rom.subrange(start, start + 0x8000)
        &&& self.chr_rom@ == rom.subrange(start + 0x8000, start + 0xA000)
    }

    pub open spec fn spec_cpu_map_read(self, addr: u16) -> Option<u8> {
        if addr >= 0x8000 {
            Some(self.prg_rom.spec_read(addr))
        } else {
            None
        }
    }

    pub open spec fn spec_ppu_map_read(self, addr: u16) -> Option<u8> {
        if addr < 0x2000 {
            Some(self.chr_rom.spec_read(addr))
        } else {
            None
        }
    }

    /// Takes both PRG banks and then the CHR bank from `bytes`, from
    /// `start` on.
    pub fn from_reader(bytes: &[u8], start: usize) -> (r: Self)
        requires
            start + 0xA000 <= bytes@.len(),
        ensures
            r.spec_read_from(bytes@, start as int),
    {
        let n: usize = bytes.len();
        let prg_rom = Mem::from_slice(bytes, start);
        let chr_rom = Mem::from_slice(bytes, start + 0x8000);
        Nrom256 { prg_rom, chr_rom }
    }

    pub fn cpu_map_read(&self, addr: u16) -> (r: Option<u8>)
        ensures
            r == self.spec_cpu_map_read(addr),
    {
        if addr >= 0x8000 {
            Some(self.prg_rom.read(addr))
        } else {
            None
        }
    }

    /// PRG is read-only: the write is not taken.
    pub fn cpu_map_write(&mut self, _addr: u16, _data: u8) -> (r: bool)
        ensures
            !r,
            *final(self) == *old(self),
    {
        false
    }

    pub fn ppu_map_read(&self, addr: u16) -> (r: Option<u8>)
        ensures
            r == self.spec_ppu_map_read(addr),
    {
        if addr < 0x2000 {
            Some(self.chr_rom.read(addr))
        } else {
            None
        }
    }

    /// CHR is read-only: a write to the pattern range is answered and
    /// dropped.
    pub fn ppu_map_write(&mut self, addr: u16, _data: u8) -> (r: bool)
        ensures
            r == (addr < 0x2000),
            *final(self) == *old(self),
    {
        addr < 0x2000
    }

    pub fn mirroring(&self) -> (r: Option<Mirroring>)
        ensures
            r.is_none(),
    {
        None
    }
}

/// With one PRG bank, the CPU sees the same byte in both halves of the
/// upper address space.
pub proof fn lemma_nrom128_mirrors(m: Nrom128, addr: u16)
    requires
        0x8000 <= addr < 0xC000,
    ensures
        m.spec_cpu_map_read(addr) == m.spec_cpu_map_read((addr + 0x4000) as u16),
{
}

/// With two PRG banks, the lower half of the upper address space shows the
/// first bank and the upper half the second.
pub proof fn lemma_nrom256_banks(m: Nrom256, addr: u16)
    requires
        addr >= 0x8000,
    ensures
        m.spec_cpu_map_read(addr) == Some(m.prg_rom@[addr - 0x8000]),
{
}

} // verus!
