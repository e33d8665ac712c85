use vstd::prelude::*;

use crate::cartridge::mapper::dummy::DummyMapper;
use crate::cartridge::mapper::mmc1::build_mmc1_mapper;
use crate::cartridge::mapper::mmc1::spec_mmc1_error;
use crate::cartridge::mapper::mmc1::Mmc1;
use crate::cartridge::mapper::nrom::build_nrom_mapper;
use crate::cartridge::mapper::nrom::spec_nrom_error;
use crate::cartridge::mapper::nrom::Nrom128;
use crate::cartridge::mapper::nrom::Nrom256;
use crate::cartridge::mapper::uxrom::build_uxrom_mapper;
use crate::cartridge::mapper::uxrom::spec_uxrom_error;
use crate::cartridge::mapper::uxrom::Uxrom;
use crate::cartridge::CartridgeHeader;
use crate::cartridge::HeaderError;
use crate::cartridge::Mirroring;
use crate::mem::Mem;

pub mod dummy;
pub mod mmc1;
pub mod nrom;
pub mod uxrom;

verus! {

/// The board of a cartridge, which maps CPU and PPU addresses to its banks:
/// one variant for each supported board. A read gives no byte where the board maps nothing; a write says
/// whether the board took it.
pub enum Mapper {
    Dummy(DummyMapper),
    Nrom128(Nrom128),
    Nrom256(Nrom256),
    Uxrom(Uxrom),
    Mmc1(Mmc1),
}

impl Mapper {
    pub open spec fn spec_cpu_map_read(self, addr: u16) -> Option<u8> {
        match self {
            Mapper::Dummy(m) => m.spec_cpu_map_read(addr),
            Mapper::Nrom128(m) => m.spec_cpu_map_read(addr),
            Mapper::Nrom256(m) => m.spec_cpu_map_read(addr),
            Mapper::Uxrom(m) => m.spec_cpu_map_read(addr),
            Mapper::Mmc1(m) => m.spec_cpu_map_read(addr),
        }
    }

    pub open spec fn spec_cpu_map_write(self, addr: u16, data: u8) -> (Self, bool) {
        match self {
            Mapper::Dummy(m) => (
                Mapper::Dummy(m.spec_cpu_map_write(addr, data).0),
                m.spec_cpu_map_write(addr, data).1,
            ),
            Mapper::Nrom128(m) => (self, false),
            Mapper::Nrom256(m) => (self, false),
            Mapper::Uxrom(m) => (
                Mapper::Uxrom(m.spec_cpu_map_write(addr, data).0),
                m.spec_cpu_map_write(addr, data).1,
            ),
            Mapper::Mmc1(m) => (
                Mapper::Mmc1(m.spec_cpu_map_write(addr, data).0),
                m.spec_cpu_map_write(addr, data).1,
            ),
        }
    }

    pub open spec fn spec_ppu_map_read(self, addr: u16) -> Option<u8> {
        match self {
            Mapper::Dummy(m) => None,
            Mapper::Nrom128(m) => m.spec_ppu_map_read(addr),
            Mapper::Nrom256(m) => m.spec_ppu_map_read(addr),
            Mapper::Uxrom(m) => m.spec_ppu_map_read(addr),
            Mapper::Mmc1(m) => m.spec_ppu_map_read(addr),
        }
    }

    pub open spec fn spec_ppu_map_write(self, addr: u16, data: u8) -> (Self, bool) {
        match self {
            Mapper::Dummy(m) => (self, false),
            Mapper::Nrom128(m) => (self, addr < 0x2000),
            Mapper::Nrom256(m) => (self, addr < 0x2000),
            Mapper::Uxrom(m) => (
                Mapper::Uxrom(m.spec_ppu_map_write(addr, data).0),
                m.spec_ppu_map_write(addr, data).1,
            ),
            Mapper::Mmc1(m) => (
                Mapper::Mmc1(m.spec_ppu_map_write(addr, data).0),
                m.spec_ppu_map_write(addr, data).1,
            ),
        }
    }

    /// The mirroring that the board sets, if it sets one.
    pub open spec fn spec_mirroring(self) -> Option<Mirroring> {
        match self {
            Mapper::Mmc1(m) => Some(m.spec_mirroring()),
            _ => None,
        }
    }

    /// The mapper is the one that `header` asks for, with the banks of the
    /// image `rom`, whose data begins at `start`.
    pub open spec fn spec_built_from(self, header: CartridgeHeader, rom: Seq<u8>, start: int) -> bool {
        if header.mapper_id == 0 {
            if header.prg_rom_banks == 1 {
                self is Nrom128 && self->Nrom128_0.spec_read_from(rom, start)
            } else {
                self is Nrom256 && self->Nrom256_0.spec_read_from(rom, start)
            }
        } else if header.mapper_id == 1 {
            self is Mmc1 && self->Mmc1_0.spec_built_from(header, rom, start)
        } else {
            self is Uxrom && self->Uxrom_0.spec_built_from(header, rom, start)
        }
    }

    pub fn cpu_map_read(&self, addr: u16) -> (r: Option<u8>)
        ensures
            r == self.spec_cpu_map_read(addr),
    {
        match self {
            Mapper::Dummy(m) => m.cpu_map_read(addr),
            Mapper::Nrom128(m) => m.cpu_map_read(addr),
            Mapper::Nrom256(m) => m.cpu_map_read(addr),
            Mapper::Uxrom(m) => m.cpu_map_read(addr),
            Mapper::Mmc1(m) => m.cpu_map_read(addr),
        }
    }

    pub fn cpu_map_write(&mut self, addr: u16, data: u8) -> (r: bool)
        ensures
            (*final(self), r) == old(self).spec_cpu_map_write(addr, data),
    {
        match self {
            Mapper::Dummy(m) => m.cpu_map_write(addr, data),
            Mapper::Nrom128(m) => m.cpu_map_write(addr, data),
            Mapper::Nrom256(m) => m.cpu_map_write(addr, data),
            Mapper::Uxrom(m) => m.cpu_map_write(addr, data),
            Mapper::Mmc1(m) => m.cpu_map_write(addr, data),
        }
    }

    pub fn ppu_map_read(&self, addr: u16) -> (r: Option<u8>)
        ensures
            r == self.spec_ppu_map_read(addr),
    {
        match self {
            Mapper::Dummy(m) => m.ppu_map_read(addr),
            Mapper::Nrom128(m) => m.ppu_map_read(addr),
            Mapper::Nrom256(m) => m.ppu_map_read(addr),
            Mapper::Uxrom(m) => m.ppu_map_read(addr),
            Mapper::Mmc1(m) => m.ppu_map_read(addr),
        }
    }

    pub fn ppu_map_write(&mut self, addr: u16, data: u8) -> (r: bool)
        ensures
            (*final(self), r) == old(self).spec_ppu_map_write(addr, data),
    {
        match self {
            Mapper::Dummy(m) => m.ppu_map_write(addr, data),
            Mapper::Nrom128(m) => m.ppu_map_write(addr, data),
            Mapper::Nrom256(m) => m.ppu_map_write(addr, data),
            Mapper::Uxrom(m) => m.ppu_map_write(addr, data),
            Mapper::Mmc1(m) => m.ppu_map_write(addr, data),
        }
    }

    pub fn mirroring(&self) -> (r: Option<Mirroring>)
        ensures
            r == self.spec_mirroring(),
    {
        match self {
            Mapper::Dummy(m) => m.mirroring(),
            Mapper::Nrom128(m) => m.mirroring(),
            Mapper::Nrom256(m) => m.mirroring(),
            Mapper::Uxrom(m) => m.mirroring(),
            Mapper::Mmc1(m) => m.mirroring(),
        }
    }
}

/// The mapper of plain memory, zeroed.
pub fn dummy() -> (r: Mapper)
    ensures
        r is Dummy,
        forall|a: u16| r.spec_cpu_map_read(a) == Some(0u8),
{
    let m = DummyMapper::default();
    assert forall|a: u16| #[trigger] m.spec_cpu_map_read(a) == Some(0u8) by {
        let i = Mem::<0x8000>::slot(a);
        assert(0 <= i < 0x8000);
        assert(m.bank@[i] == 0u8);
    }
    Mapper::Dummy(m)
}

/// Takes `count` PRG banks of sixteen KiB from `rom`, from `start` on.
pub fn load_prg_banks(rom: &[u8], start: usize, count: usize) -> (r: Vec<Mem<0x4000>>)
    requires
        start + count * 0x4000 <= rom@.len(),
    ensures
        r@.len() == count,
        forall|i: int|
            0 <= i < count ==> (#[trigger] r@[i])@ == rom@.subrange(
                start + i * 0x4000,
                start + (i + 1) * 0x4000,
            ),
{
    let n: usize = rom.len();
    let mut banks: Vec<Mem<0x4000>> = Vec::new();
    let mut k: usize = 0;
    while k < count
        invariant
            k <= count,
            n == rom@.len(),
            start + count * 0x4000 <= n,
            banks@.len() == k,
            forall|i: int|
                0 <= i < k ==> (#[trigger] banks@[i])@ == rom@.subrange(
                    start + i * 0x4000,
                    start + (i + 1) * 0x4000,
                ),
        decreases count - k,
    {
        let bank = Mem::from_slice(rom, start + k * 0x4000);
        banks.push(bank);
        k = k + 1;
    }
    banks
}

/// Takes `count` CHR banks of eight KiB from `rom`, from `start` on.
pub fn load_chr_banks(rom: &[u8], start: usize, count: usize) -> (r: Vec<Mem<0x2000>>)
    requires
        start + count * 0x2000 <= rom@.len(),
    ensures
        r@.len() == count,
        forall|i: int|
            0 <= i < count ==> (#[trigger] r@[i])@ == rom@.subrange(
                start + i * 0x2000,
                start + (i + 1) * 0x2000,
            ),
{
    let n: usize = rom.len();
    let mut banks: Vec<Mem<0x2000>> = Vec::new();
    let mut k: usize = 0;
    while k < count
        invariant
            k <= count,
            n == rom@.len(),
            start + count * 0x2000 <= n,
            banks@.len() == k,
            forall|i: int|
                0 <= i < k ==> (#[trigger] banks@[i])@ == rom@.subrange(
                    start + i * 0x2000,
                    start + (i + 1) * 0x2000,
                ),
        decreases count - k,
    {
        let bank = Mem::from_slice(rom, start + k * 0x2000);
        banks.push(bank);
        k = k + 1;
    }
    banks
}

/// The error, if any, with which building the mapper for `header` ends:
/// the mapper id must be 0, 1 or 2, and the image must hold the banks.
pub open spec fn spec_build_error(header: CartridgeHeader, rom: Seq<u8>, start: int) -> Option<
    HeaderError,
> {
    if header.mapper_id == 0 {
        spec_nrom_error(header, rom, start)
    } else if header.mapper_id == 1 {
        spec_mmc1_error(header, rom, start)
    } else if header.mapper_id == 2 {
        spec_uxrom_error(header, rom, start)
    } else {
        Some(HeaderError::UnsupportedMapper(header.mapper_id))
    }
}

/// Builds the mapper that `header` asks for from the image `rom`, whose
/// bank data begins at `start`.
pub fn build_mapper(cartridge: &CartridgeHeader, rom: &[u8], start: usize) -> (r: Result<
    Mapper,
    HeaderError,
>)
    requires
        start <= rom@.len(),
    ensures
        match spec_build_error(*cartridge, rom@, start as int) {
            Some(e) => r is Err && r->Err_0 == e,
            None => r.is_ok() && r.unwrap().spec_built_from(*cartridge, rom@, start as int),
        },
{
    if cartridge.mapper_id == 0x00 {
        build_nrom_mapper(cartridge, rom, start)
    } else if cartridge.mapper_id == 0x01 {
        build_mmc1_mapper(cartridge, rom, start)
    } else if cartridge.mapper_id == 0x02 {
        build_uxrom_mapper(cartridge, rom, start)
    } else {
        Err(HeaderError::UnsupportedMapper(cartridge.mapper_id))
    }
}

} // verus!
