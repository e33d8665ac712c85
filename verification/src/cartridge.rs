use vstd::prelude::*;

use crate::cartridge::mapper::build_mapper;
use crate::cartridge::mapper::spec_build_error;
use crate::cartridge::mapper::Mapper;

pub mod mapper;

verus! {

/// How the four logical name tables fold onto the two physical ones.
#[derive(Debug, Clone, Copy, PartialEq, Eq, Structural)]
pub enum Mirroring {
    Horizontal,
    Vertical,
    OneScreenLo,
    OneScreenHi,
}

impl Default for Mirroring {
    fn default() -> (r: Self)
        ensures
            r == Mirroring::Horizontal,
    {
        Mirroring::Horizontal
    }
}

impl Mirroring {
    /// The two-bit code of a mirroring mode in a mapper's control register.
    pub open spec fn spec_bits(self) -> u8 {
        match self {
            Mirroring::OneScreenLo => 0u8,
            Mirroring::OneScreenHi => 1u8,
            Mirroring::Vertical => 2u8,
            Mirroring::Horizontal => 3u8,
        }
    }

    /// The mirroring mode that a two-bit code stands for; only the value
    /// modulo four counts.
    pub open spec fn spec_from_bits(bits: u8) -> Self {
        if bits % 4 == 0 {
            Mirroring::OneScreenLo
        } else if bits % 4 == 1 {
            Mirroring::OneScreenHi
        } else if bits % 4 == 2 {
            Mirroring::Vertical
        } else {
            Mirroring::Horizontal
        }
    }

    /// Which of the two physical name tables serves a name-table address.
    pub open spec fn spec_bank(self, addr: u16) -> int {
        match self {
            Mirroring::Vertical => (addr as int / 0x400) % 2,
            Mirroring::Horizontal => (addr as int / 0x800) % 2,
            Mirroring::OneScreenLo => 0,
            Mirroring::OneScreenHi => 1,
        }
    }

    pub fn bits(self) -> (r: u8)
        ensures
            r == self.spec_bits(),
            r < 4,
    {
        match self {
            Mirroring::OneScreenLo => 0,
            Mirroring::OneScreenHi => 1,
            Mirroring::Vertical => 2,
            Mirroring::Horizontal => 3,
        }
    }

    pub fn from_bits(bits: u8) -> (r: Self)
        ensures
            r == Self::spec_from_bits(bits),
    {
        let code: u8 = bits % 4;
        if code == 0 {
            Mirroring::OneScreenLo
        } else if code == 1 {
            Mirroring::OneScreenHi
        } else if code == 2 {
            Mirroring::Vertical
        } else {
            Mirroring::Horizontal
        }
    }

    pub fn bank(self, addr: u16) -> (r: usize)
        ensures
            r == self.spec_bank(addr),
            r < 2,
    {
        match self {
            Mirroring::Vertical => ((addr / 0x400) % 2) as usize,
            Mirroring::Horizontal => ((addr / 0x800) % 2) as usize,
            Mirroring::OneScreenLo => 0,
            Mirroring::OneScreenHi => 1,
        }
    }
}

/// A mirroring mode is found again from its own code.
pub proof fn lemma_mirroring_bits_roundtrip(m: Mirroring)
    ensures
        Mirroring::spec_from_bits(m.spec_bits()) == m,
{
}

#[derive(Debug, Clone, Copy, PartialEq, Eq, Structural)]
pub enum ConsoleType {
    Nes,
    VsSystem,
    Playchoice,
    Extended,
}

/// Why a ROM image cannot be loaded.
#[derive(Debug, Clone, Copy, PartialEq, Eq, Structural)]
pub enum HeaderError {
    /// The image ends before the data that its header announces.
    UnexpectedEof,
    /// The header carries the NES 2.0 marker.
    Nes2Unsupported,
    /// No supported mapper has this id with this number of PRG banks.
    UnsupportedMapper(u8),
}

/// The sixteen-byte header of a ROM image, decoded.
#[derive(Debug, Clone, Copy, PartialEq, Eq, Structural)]
pub struct CartridgeHeader {
    pub prg_rom_banks: u8,
    pub prg_ram_banks: u8,
    pub chr_rom_banks: u8,
    pub mapper_id: u8,
    pub four_screen: bool,
    pub trainer: bool,
    pub battery: bool,
    pub console_type: ConsoleType,
    pub mirroring: Mirroring,
}

impl Default for CartridgeHeader {
    fn default() -> (r: Self)
        ensures
            r == CartridgeHeader::spec_default(),
    {
        CartridgeHeader {
            prg_rom_banks: 0,
            prg_ram_banks: 0,
            chr_rom_banks: 0,
            mapper_id: 0,
            four_screen: false,
            trainer: false,
            battery: false,
            console_type: ConsoleType::Nes,
            mirroring: Mirroring::Horizontal,
        }
    }
}

impl CartridgeHeader {
    pub open spec fn spec_default() -> Self {
        CartridgeHeader {
            prg_rom_banks: 0,
            prg_ram_banks: 0,
            chr_rom_banks: 0,
            mapper_id: 0,
            four_screen: false,
            trainer: false,
            battery: false,
            console_type: ConsoleType::Nes,
            mirroring: Mirroring::Horizontal,
        }
    }

    /// Whether header bytes carry the NES 2.0 marker in byte 7.
    pub open spec fn spec_is_nes2(flags: Seq<u8>) -> bool {
        flags[7] & 0x0C == 0x08
    }

    /// The header that sixteen iNES bytes describe.
    pub open spec fn spec_parse_ines(flags: Seq<u8>) -> Self {
        CartridgeHeader {
            prg_rom_banks: flags[4],
            chr_rom_banks: flags[5],
            prg_ram_banks: flags[8],
            mapper_id: ((flags[6] & 0xF0) >> 4) | (flags[7] & 0xF0),
            four_screen: flags[6] & 0x08 != 0,
            trainer: flags[6] & 0x04 != 0,
            battery: flags[6] & 0x02 != 0,
            mirroring: if flags[6] & 0x01 != 0 {
                Mirroring::Vertical
            } else {
                Mirroring::Horizontal
            },
            console_type: if flags[7] & 0x03 == 0x01 {
                ConsoleType::VsSystem
            } else if flags[7] & 0x03 == 0x02 {
                ConsoleType::Playchoice
            } else {
                ConsoleType::Nes
            },
        }
    }

    /// What parsing sixteen header bytes gives.
    pub open spec fn spec_from_bytes(flags: Seq<u8>) -> Result<Self, HeaderError> {
        if Self::spec_is_nes2(flags) {
            Err(HeaderError::Nes2Unsupported)
        } else {
            Ok(Self::spec_parse_ines(flags))
        }
    }

    /// Where the PRG data begins in a ROM image with this header.
    pub open spec fn spec_data_start(self) -> int {
        if self.trainer {
            528
        } else {
            16
        }
    }

    /// The default header with the given mirroring.
    pub fn with_mirroring(mirroring: Mirroring) -> (r: Self)
        ensures
            r == (CartridgeHeader { mirroring, ..Self::spec_default() }),
    {
        let mut h = CartridgeHeader::default();
        h.mirroring = mirroring;
        h
    }

    pub fn from_bytes(bytes: &[u8; 16]) -> (r: Result<Self, HeaderError>)
        ensures
            r == Self::spec_from_bytes(bytes@),
    {
        if bytes[7] & 0x0C == 0x08 {
            Err(HeaderError::Nes2Unsupported)
        } else {
            Ok(Self::parse_ines(bytes))
        }
    }

    fn parse_ines(flags: &[u8; 16]) -> (r: Self)
        ensures
            r == Self::spec_parse_ines(flags@),
    {
        let console: u8 = flags[7] & 0x03;
        CartridgeHeader {
            prg_rom_banks: flags[4],
            chr_rom_banks: flags[5],
            prg_ram_banks: flags[8],
            mapper_id: ((flags[6] & 0xF0) >> 4) | (flags[7] & 0xF0),
            four_screen: flags[6] & 0x08 != 0,
            trainer: flags[6] & 0x04 != 0,
            battery: flags[6] & 0x02 != 0,
            mirroring: if flags[6] & 0x01 != 0 {
                Mirroring::Vertical
            } else {
                Mirroring::Horizontal
            },
            console_type: if console == 0x01 {
                ConsoleType::VsSystem
            } else if console == 0x02 {
                ConsoleType::Playchoice
            } else {
                ConsoleType::Nes
            },
        }
    }
}

/// A cartridge: the decoded header and the mapper that owns the banks.
pub struct Cartridge {
    pub header: CartridgeHeader,
    pub mapper: Mapper,
}

impl Cartridge {
    /// The cartridge after a CPU write.
    pub open spec fn spec_cpu_write(self, addr: u16, data: u8) -> (Self, bool) {
        let (mapper, ack) = self.mapper.spec_cpu_map_write(addr, data);
        (Cartridge { mapper, ..self }, ack)
    }

    /// The cartridge after a PPU write.
    pub open spec fn spec_ppu_write(self, addr: u16, data: u8) -> (Self, bool) {
        let (mapper, ack) = self.mapper.spec_ppu_map_write(addr, data);
        (Cartridge { mapper, ..self }, ack)
    }

    /// The mirroring in force: the mapper's, where it sets one, else the
    /// header's.
    pub open spec fn spec_mirroring(self) -> Mirroring {
        match self.mapper.spec_mirroring() {
            Some(m) => m,
            None => self.header.mirroring,
        }
    }

    /// The error, if any, with which loading a whole ROM image ends.
    pub open spec fn spec_load_error(rom: Seq<u8>) -> Option<HeaderError> {
        if rom.len() < 16 {
            Some(HeaderError::UnexpectedEof)
        } else {
            match CartridgeHeader::spec_from_bytes(rom.subrange(0, 16)) {
                Err(e) => Some(e),
                Ok(header) => if rom.len() < header.spec_data_start() {
                    Some(HeaderError::UnexpectedEof)
                } else {
                    spec_build_error(header, rom, header.spec_data_start())
                },
            }
        }
    }

    /// The cartridge is what the ROM image `rom` describes: its header is
    /// the image's, and its mapper holds the image's banks.
    pub open spec fn spec_loaded_from(self, rom: Seq<u8>) -> bool {
        &&& rom.len() >= 16
        &&& CartridgeHeader::spec_from_bytes(rom.subrange(0, 16)) == Ok::<
            CartridgeHeader,
            HeaderError,
        >(self.header)
        &&& self.mapper.spec_built_from(self.header, rom, self.header.spec_data_start())
    }

    /// A cartridge of plain memory, for trying the console without a ROM:
    /// thirty-two KiB that the CPU can read and write at any address.
    pub fn testing(header: Option<CartridgeHeader>) -> (r: Self)
        ensures
            r.header == match header {
                Some(h) => h,
                None => CartridgeHeader::spec_default(),
            },
            r.mapper is Dummy,
            forall|a: u16| r.mapper.spec_cpu_map_read(a) == Some(0u8),
    {
        let mapper = crate::cartridge::mapper::dummy();
        let header = match header {
            Some(h) => h,
            None => CartridgeHeader::default(),
        };
        Cartridge { header, mapper }
    }

    pub fn mirroring(&self) -> (r: Mirroring)
        ensures
            r == self.spec_mirroring(),
    {
        match self.mapper.mirroring() {
            Some(m) => m,
            None => self.header.mirroring,
        }
    }

    pub fn cpu_read(&self, addr: u16) -> (r: Option<u8>)
        ensures
            r == self.mapper.spec_cpu_map_read(addr),
    {
        self.mapper.cpu_map_read(addr)
    }

    #[must_use]
    pub fn cpu_write(&mut self, addr: u16, data: u8) -> (r: bool)
        ensures
            (*final(self), r) == old(self).spec_cpu_write(addr, data),
    {
        self.mapper.cpu_map_write(addr, data)
    }

    pub fn ppu_read(&self, addr: u16) -> (r: Option<u8>)
        ensures
            r == self.mapper.spec_ppu_map_read(addr),
    {
        self.mapper.ppu_map_read(addr)
    }

    #[must_use]
    pub fn ppu_write(&mut self, addr: u16, data: u8) -> (r: bool)
        ensures
            (*final(self), r) == old(self).spec_ppu_write(addr, data),
    {
        self.mapper.ppu_map_write(addr, data)
    }

    /// Loads a cartridge from a whole ROM image: the header, the trainer
    /// where the header announces one, then the banks.
    pub fn from_rom(rom: &[u8]) -> (r: Result<Self, HeaderError>)
        ensures
            match Self::spec_load_error(rom@) {
                Some(e) => r is Err && r->Err_0 == e,
                None => r.is_ok() && r.unwrap().spec_loaded_from(rom@),
            },
    {
        if rom.len() < 16 {
            return Err(HeaderError::UnexpectedEof);
        }
        let mut flags = [0u8; 16];
        let mut i: usize = 0;
        while i < 16
            invariant
                i <= 16,
                rom@.len() >= 16,
                forall|j: int| 0 <= j < i ==> flags@[j] == rom@[j],
            decreases 16 - i,
        {
            flags[i] = rom[i];
            i = i + 1;
        }
        assert(flags@ =~= rom@.subrange(0, 16));
        match CartridgeHeader::from_bytes(&flags) {
            Err(e) => Err(e),
            Ok(header) => {
                let start: usize = if header.trainer {
                    16 + 512
                } else {
                    16
                };
                if rom.len() < start {
                    return Err(HeaderError::UnexpectedEof);
                }
                match build_mapper(&header, rom, start) {
                    Err(e) => Err(e),
                    Ok(mapper) => Ok(Cartridge { header, mapper }),
                }
            },
        }
    }
}

} // verus!
