use vstd::prelude::*;

use crate::cartridge::mapper::load_chr_banks;
use crate::cartridge::mapper::load_prg_banks;
use crate::cartridge::mapper::Mapper;
use crate::cartridge::CartridgeHeader;
use crate::cartridge::HeaderError;
use crate::cartridge::Mirroring;
use crate::mem::Mem;

verus! {

/// The error, if any, with which building an MMC1 mapper ends: the image
/// must hold all the PRG and CHR banks that the header announces.
pub open spec fn spec_mmc1_error(header: CartridgeHeader, rom: Seq<u8>, start: int) -> Option<
    HeaderError,
> {
    if rom.len() < start + header.prg_rom_banks * 0x4000 + header.chr_rom_banks * 0x2000 {
        Some(HeaderError::UnexpectedEof)
    } else {
        None
    }
}

/// Builds an MMC1 mapper from the image's data, which begins at `start`:
/// the PRG banks, then the CHR banks; with no CHR bank, eight KiB of
/// pattern RAM.
pub fn build_mmc1_mapper(header: &CartridgeHeader, rom: &[u8], start: usize) -> (r: Result<
    Mapper,
    HeaderError,
>)
    requires
        start <= rom@.len(),
    ensures
        match spec_mmc1_error(*header, rom@, start as int) {
            Some(e) => r is Err && r->Err_0 == e,
            None => r.is_ok() && r.unwrap() is Mmc1 && r.unwrap()->Mmc1_0.spec_built_from(
                *header,
                rom@,
                start as int,
            ),
        },
{
    let prg_count: usize = header.prg_rom_banks as usize;
    let chr_count: usize = header.chr_rom_banks as usize;
    if rom.len() - start < prg_count * 0x4000 + chr_count * 0x2000 {
        return Err(HeaderError::UnexpectedEof);
    }
    let prg_banks = load_prg_banks(rom, start, prg_count);
    let chr_banks = load_chr_banks(rom, start + prg_count * 0x4000, chr_count);
    let chr_ram = if header.chr_rom_banks == 0 {
        Some(Mem::default())
    } else {
        None
    };
    Ok(Mapper::Mmc1(Mmc1::new(prg_banks, chr_banks, chr_ram, header.mirroring)))
}

/// The MMC1 control register: mirroring in bits 0 and 1, the PRG mode in
/// bits 2 and 3, the CHR mode in bit 4.
#[derive(Debug, Clone, Copy, PartialEq, Eq, Structural)]
pub struct ControlRegister(pub u8);

impl Default for ControlRegister {
    fn default() -> (r: Self)
        ensures
            r.0 == 0x0C,
    {
        ControlRegister(0x0C)
    }
}

impl ControlRegister {
    #[verifier::allow_in_spec]
    pub fn mirroring(&self) -> u8
        returns
            self.0 % 4,
    {
        self.0 % 4
    }

    #[verifier::allow_in_spec]
    pub fn prg_mode(&self) -> u8
        returns
            (self.0 / 4) % 4,
    {
        (self.0 / 4) % 4
    }

    #[verifier::allow_in_spec]
    pub fn chr_mode(&self) -> u8
        returns
            (self.0 / 16) % 2,
    {
        (self.0 / 16) % 2
    }

    /// Forces the PRG mode to 3 and leaves the other bits.
    pub fn reset(&mut self)
        ensures
            final(self).0 == old(self).0 | 0x0C,
    {
        self.0 = self.0 | 0x0C;
    }
}

/// The shift register after one more bit: the register moves one place
/// down and bit 0 of `data` enters at bit 4.
pub open spec fn spec_shift_in(shift: u8, data: u8) -> u8 {
    (shift >> 1) | ((data & 0x01) << 4)
}

/// The MMC1 board: four internal registers, loaded one bit per CPU write
/// through a five-bit shift register, choose the banks seen by CPU and PPU.
pub struct Mmc1 {
    pub control_register: ControlRegister,
    pub shift_register: u8,
    pub shift_count: u8,
    pub chr_bank_hi: usize,
    pub chr_bank_lo: usize,
    pub prg_bank: usize,
    pub prg_ram: Mem<0x2000>,
    pub chr_ram: Option<Mem<0x2000>>,
    pub prg_banks: Vec<Mem<0x4000>>,
    pub chr_banks: Vec<Mem<0x2000>>,
}

impl Mmc1 {
    /// The mapper as it is built from the image: banks from the image,
    /// pattern RAM where there is no CHR bank, all registers at power-on.
    pub open spec fn spec_built_from(self, header: CartridgeHeader, rom: Seq<u8>, start: int) -> bool {
        &&& self.prg_banks@.len() == header.prg_rom_banks
        &&& forall|i: int|
            0 <= i < header.prg_rom_banks ==> (#[trigger] self.prg_banks@[i])@ == rom.subrange(
                start + i * 0x4000,
                start + (i + 1) * 0x4000,
            )
        &&& self.chr_banks@.len() == header.chr_rom_banks
        &&& forall|i: int|
            0 <= i < header.chr_rom_banks ==> (#[trigger] self.chr_banks@[i])@ == rom.subrange(
                start + header.prg_rom_banks * 0x4000 + i * 0x2000,
                start + header.prg_rom_banks * 0x4000 + (i + 1) * 0x2000,
            )
        &&& self.chr_ram.is_some() == (header.chr_rom_banks == 0)
        &&& self.spec_power_on(header.mirroring)
    }

    /// The registers at power-on: PRG mode 3, CHR mode 1, the header's
    /// mirroring, bank zero everywhere, the shift register empty.
    pub open spec fn spec_power_on(self, mirroring: Mirroring) -> bool {
        &&& self.control_register.0 == 0x1C + mirroring.spec_bits()
        &&& self.shift_register == 0
        &&& self.shift_count == 0
        &&& self.chr_bank_hi == 0
        &&& self.chr_bank_lo == 0
        &&& self.prg_bank == 0
    }

    /// The PRG bank seen at `addr`, for `addr` from 0x8000 on, by the
    /// current PRG mode: modes 0 and 1 switch thirty-two KiB, mode 2 fixes
    /// the first bank below and switches the upper window, mode 3 switches
    /// the lower window and fixes the last bank above.
    pub open spec fn spec_prg_index(self, addr: u16) -> int {
        let mode = self.control_register.prg_mode();
        let upper = addr >= 0xC000;
        if mode == 0 || mode == 1 {
            if upper {
                self.prg_bank - self.prg_bank % 2 + 1
            } else {
                self.prg_bank - self.prg_bank % 2
            }
        } else if mode == 2 {
            if upper {
                self.prg_bank as int
            } else {
                0
            }
        } else {
            if upper {
                self.prg_banks@.len() - 1
            } else {
                self.prg_bank as int
            }
        }
    }

    pub open spec fn spec_cpu_map_read(self, addr: u16) -> Option<u8> {
        if 0x6000 <= addr <= 0x7FFF {
            Some(self.prg_ram.spec_read(addr))
        } else if addr >= 0x8000 {
            let i = self.spec_prg_index(addr);
            if 0 <= i < self.prg_banks@.len() {
                Some(self.prg_banks@[i].spec_read(addr))
            } else {
                None
            }
        } else {
            None
        }
    }

    /// The four-KiB CHR page seen at a pattern address: in the 8 KiB mode
    /// the low bank register without its bit 0 for the lower half, and with
    /// it set for the upper half; in the 4 KiB mode the low register for the
    /// lower half and the high register for the upper half.
    pub open spec fn spec_chr_page(self, addr: u16) -> int {
        let upper = addr >= 0x1000;
        if self.control_register.chr_mode() == 0 {
            if upper {
                self.chr_bank_lo - self.chr_bank_lo % 2 + 1
            } else {
                self.chr_bank_lo - self.chr_bank_lo % 2
            }
        } else {
            if upper {
                self.chr_bank_hi as int
            } else {
                self.chr_bank_lo as int
            }
        }
    }

    pub open spec fn spec_ppu_map_read(self, addr: u16) -> Option<u8> {
        if addr >= 0x2000 {
            None
        } else {
            match self.chr_ram {
                Some(ram) => Some(ram.spec_read(addr)),
                None => {
                    let page = self.spec_chr_page(addr);
                    if page / 2 < self.chr_banks@.len() {
                        Some(self.chr_banks@[page / 2]@[(page % 2) * 0x1000 + addr % 0x1000])
                    } else {
                        None
                    }
                },
            }
        }
    }

    pub open spec fn spec_cpu_map_write(self, addr: u16, data: u8) -> (Self, bool) {
        if 0x6000 <= addr <= 0x7FFF {
            (Mmc1 { prg_ram: self.prg_ram.spec_write(addr, data), ..self }, true)
        } else if addr >= 0x8000 {
            if data & 0x80 != 0 {
                (
                    Mmc1 {
                        control_register: ControlRegister(self.control_register.0 | 0x0C),
                        shift_register: 0,
                        shift_count: 0,
                        ..self
                    },
                    true,
                )
            } else if self.shift_count < 4 {
                (
                    Mmc1 {
                        shift_register: spec_shift_in(self.shift_register, data),
                        shift_count: (self.shift_count + 1) as u8,
                        ..self
                    },
                    true,
                )
            } else {
                (self.spec_commit(addr, spec_shift_in(self.shift_register, data)), true)
            }
        } else {
            (self, false)
        }
    }

    /// The mapper after the fifth bit: the low five bits of `value` go to
    /// the register that bits 13 and 14 of `addr` choose (control, low CHR
    /// bank, high CHR bank, or PRG bank, which keeps four bits), and the
    /// shift register is empty again.
    pub open spec fn spec_commit(self, addr: u16, value: u8) -> Self {
        let target = (addr / 0x2000) % 4;
        let cleared = Mmc1 { shift_register: 0, shift_count: 0, ..self };
        if target == 0 {
            Mmc1 { control_register: ControlRegister(value & 0x1F), ..cleared }
        } else if target == 1 {
            Mmc1 { chr_bank_lo: (value & 0x1F) as usize, ..cleared }
        } else if target == 2 {
            Mmc1 { chr_bank_hi: (value & 0x1F) as usize, ..cleared }
        } else {
            Mmc1 { prg_bank: (value & 0x0F) as usize, ..cleared }
        }
    }

    pub open spec fn spec_ppu_map_write(self, addr: u16, data: u8) -> (Self, bool) {
        if addr < 0x2000 {
            match self.chr_ram {
                Some(ram) => (Mmc1 { chr_ram: Some(ram.spec_write(addr, data)), ..self }, true),
                None => (self, false),
            }
        } else {
            (self, false)
        }
    }

    pub open spec fn spec_mirroring(self) -> Mirroring {
        Mirroring::spec_from_bits(self.control_register.0)
    }

    pub fn new(
        prg_rom_banks: Vec<Mem<0x4000>>,
        chr_rom_banks: Vec<Mem<0x2000>>,
        chr_ram: Option<Mem<0x2000>>,
        mirroring: Mirroring,
    ) -> (r: Self)
        ensures
            r.prg_banks == prg_rom_banks,
            r.chr_banks == chr_rom_banks,
            r.chr_ram == chr_ram,
            r.spec_power_on(mirroring),
            forall|i: int| 0 <= i < 0x2000 ==> r.prg_ram@[i] == 0u8,
    {
        Mmc1 {
            control_register: ControlRegister(0x1C + mirroring.bits()),
            shift_register: 0,
            shift_count: 0,
            chr_bank_hi: 0,
            chr_bank_lo: 0,
            prg_bank: 0,
            prg_ram: Mem::default(),
            chr_ram,
            prg_banks: prg_rom_banks,
            chr_banks: chr_rom_banks,
        }
    }

    /// Takes the fifth bit and empties the shift register; gives the value
    /// that the five bits make.
    pub fn load_shift_register(&mut self, data: u8) -> (r: u8)
        ensures
            r == spec_shift_in(old(self).shift_register, data),
            *final(self) == (Mmc1 { shift_register: 0, shift_count: 0, ..*old(self) }),
    {
        let loaded_value = (self.shift_register >> 1) | ((data & 0x01) << 4);
        self.shift_count = 0;
        self.shift_register = 0;
        loaded_value
    }

    fn prg_index(&self, addr: u16) -> (r: Option<usize>)
        requires
            addr >= 0x8000,
        ensures
            r.is_some() == (0 <= self.spec_prg_index(addr) < self.prg_banks@.len()),
            r.is_some() ==> r.unwrap() == self.spec_prg_index(addr),
    {
        let mode = self.control_register.prg_mode();
        let upper = addr >= 0xC000;
        let n: usize = self.prg_banks.len();
        let even: usize = self.prg_bank - self.prg_bank % 2;
        let i: usize = if mode == 0 || mode == 1 {
            if upper {
                even + 1
            } else {
                even
            }
        } else if mode == 2 {
            if upper {
                self.prg_bank
            } else {
                0
            }
        } else {
            if upper {
                if n == 0 {
                    return None;
                }
                n - 1
            } else {
                self.prg_bank
            }
        };
        if i < n {
            Some(i)
        } else {
            None
        }
    }

    pub fn cpu_map_read(&self, addr: u16) -> (r: Option<u8>)
        ensures
            r == self.spec_cpu_map_read(addr),
    {
        if 0x6000 <= addr && addr <= 0x7FFF {
            Some(self.prg_ram.read(addr))
        } else if addr >= 0x8000 {
            match self.prg_index(addr) {
                Some(i) => Some(self.prg_banks[i].read(addr)),
                None => None,
            }
        } else {
            None
        }
    }

    pub fn cpu_map_write(&mut self, addr: u16, data: u8) -> (r: bool)
        ensures
            (*final(self), r) == old(self).spec_cpu_map_write(addr, data),
    {
        if 0x6000 <= addr && addr <= 0x7FFF {
            self.prg_ram.write(addr, data);
            true
        } else if addr >= 0x8000 {
            if data & 0x80 != 0 {
                self.control_register.reset();
                self.shift_register = 0;
                self.shift_count = 0;
            } else if self.shift_count < 4 {
                self.shift_register = (self.shift_register >> 1) | ((data & 0x01) << 4);
                self.shift_count += 1;
            } else {
                let target: u16 = (addr / 0x2000) % 4;
                let value = self.load_shift_register(data);
                if target == 0 {
                    self.control_register = ControlRegister(value & 0x1F);
                } else if target == 1 {
                    self.chr_bank_lo = (value & 0x1F) as usize;
                } else if target == 2 {
                    self.chr_bank_hi = (value & 0x1F) as usize;
                } else {
                    self.prg_bank = (value & 0x0F) as usize;
                }
            }
            true
        } else {
            false
        }
    }

    fn chr_page(&self, addr: u16) -> (r: usize)
        ensures
            r == self.spec_chr_page(addr),
    {
        let upper = addr >= 0x1000;
        if self.control_register.chr_mode() == 0 {
            let even: usize = self.chr_bank_lo - self.chr_bank_lo % 2;
            if upper {
                even + 1
            } else {
                even
            }
        } else {
            if upper {
                self.chr_bank_hi
            } else {
                self.chr_bank_lo
            }
        }
    }

    pub fn ppu_map_read(&self, addr: u16) -> (r: Option<u8>)
        ensures
            r == self.spec_ppu_map_read(addr),
    {
        if addr >= 0x2000 {
            None
        } else {
            match &self.chr_ram {
                Some(ram) => Some(ram.read(addr)),
                None => {
                    let page = self.chr_page(addr);
                    if page / 2 < self.chr_banks.len() {
                        let offset: u16 = ((page % 2) as u16) * 0x1000 + addr % 0x1000;
                        Some(self.chr_banks[page / 2].read(offset))
                    } else {
                        None
                    }
                },
            }
        }
    }

    pub fn ppu_map_write(&mut self, addr: u16, data: u8) -> (r: bool)
        ensures
            (*final(self), r) == old(self).spec_ppu_map_write(addr, data),
    {
        if addr < 0x2000 {
            match &mut self.chr_ram {
                Some(ram) => {
                    ram.write(addr, data);
                    true
                },
                None => false,
            }
        } else {
            false
        }
    }

    pub fn mirroring(&self) -> (r: Option<Mirroring>)
        ensures
            r == Some(self.spec_mirroring()),
    {
        Some(Mirroring::from_bits(self.control_register.0))
    }
}

/// The value that five serial bits make: the first bit written is bit 0.
pub open spec fn spec_serial_value(d0: u8, d1: u8, d2: u8, d3: u8, d4: u8) -> u8 {
    (d0 & 1) | ((d1 & 1) << 1) | ((d2 & 1) << 2) | ((d3 & 1) << 3) | ((d4 & 1) << 4)
}

/// Five CPU writes with bit 7 clear, starting from an empty shift register,
/// commit exactly one register: the first four leave the four registers as
/// they are, and the fifth sends the five bits, first bit lowest, to the
/// register that the fifth address chooses, and empties the shift register.
pub proof fn lemma_mmc1_serial_load(
    m: Mmc1,
    a0: u16,
    a1: u16,
    a2: u16,
    a3: u16,
    a4: u16,
    d0: u8,
    d1: u8,
    d2: u8,
    d3: u8,
    d4: u8,
)
    requires
        m.shift_register == 0,
        m.shift_count == 0,
        a0 >= 0x8000 && a1 >= 0x8000 && a2 >= 0x8000 && a3 >= 0x8000 && a4 >= 0x8000,
        d0 & 0x80 == 0 && d1 & 0x80 == 0 && d2 & 0x80 == 0 && d3 & 0x80 == 0 && d4 & 0x80 == 0,
    ensures
        ({
            let m4 = m.spec_cpu_map_write(a0, d0).0.spec_cpu_map_write(a1, d1).0.spec_cpu_map_write(
                a2,
                d2,
            ).0.spec_cpu_map_write(a3, d3).0;
            let m5 = m4.spec_cpu_map_write(a4, d4).0;
            &&& m4 == (Mmc1 { shift_register: m4.shift_register, shift_count: 4, ..m })
            &&& m5 == m.spec_commit(a4, spec_serial_value(d0, d1, d2, d3, d4))
            &&& spec_serial_value(d0, d1, d2, d3, d4) < 32
            &&& m5.shift_register == 0 && m5.shift_count == 0
        }),
{
    let s1 = spec_shift_in(0, d0);
    let s2 = spec_shift_in(s1, d1);
    let s3 = spec_shift_in(s2, d2);
    let s4 = spec_shift_in(s3, d3);
    let v = spec_shift_in(s4, d4);
    let w = spec_serial_value(d0, d1, d2, d3, d4);
    assert(v == w && w < 32 && w & 0x1F == w) by (bit_vector)
        requires
            s1 == (0u8 >> 1) | ((d0 & 0x01) << 4),
            s2 == (s1 >> 1) | ((d1 & 0x01) << 4),
            s3 == (s2 >> 1) | ((d2 & 0x01) << 4),
            s4 == (s3 >> 1) | ((d3 & 0x01) << 4),
            v == (s4 >> 1) | ((d4 & 0x01) << 4),
            w == (d0 & 1) | ((d1 & 1) << 1) | ((d2 & 1) << 2) | ((d3 & 1) << 3) | ((d4 & 1) << 4),
    ;
    let m1 = m.spec_cpu_map_write(a0, d0).0;
    let m2 = m1.spec_cpu_map_write(a1, d1).0;
    let m3 = m2.spec_cpu_map_write(a2, d2).0;
    let m4 = m3.spec_cpu_map_write(a3, d3).0;
    assert(m1.shift_count == 1 && m1.shift_register == s1);
    assert(m2.shift_count == 2 && m2.shift_register == s2);
    assert(m3.shift_count == 3 && m3.shift_register == s3);
    assert(m4.shift_count == 4 && m4.shift_register == s4);
}

/// A CPU write with bit 7 set, anywhere from 0x8000 on, empties the shift
/// register, forces PRG mode 3, and leaves mirroring, CHR mode and the
/// bank registers as they are.
pub proof fn lemma_mmc1_reset(m: Mmc1, addr: u16, data: u8)
    requires
        addr >= 0x8000,
        data & 0x80 != 0,
    ensures
        ({
            let after = m.spec_cpu_map_write(addr, data).0;
            &&& after.shift_register == 0
            &&& after.shift_count == 0
            &&& after.control_register.prg_mode() == 3
            &&& after.control_register.mirroring() == m.control_register.mirroring()
            &&& after.control_register.chr_mode() == m.control_register.chr_mode()
            &&& after.prg_bank == m.prg_bank
            &&& after.chr_bank_lo == m.chr_bank_lo
            &&& after.chr_bank_hi == m.chr_bank_hi
        }),
{
    let c = m.control_register.0;
    assert(((c | 0x0C) / 4) % 4 == 3 && (c | 0x0C) % 4 == c % 4 && ((c | 0x0C) / 16) % 2 == (c
        / 16) % 2) by (bit_vector);
}

/// In PRG mode 3 the lower window shows the bank that the PRG register
/// names and the upper window shows the last bank.
pub proof fn lemma_mmc1_mode3_windows(m: Mmc1, addr: u16)
    requires
        m.control_register.prg_mode() == 3,
        addr >= 0x8000,
        m.prg_bank < m.prg_banks@.len(),
    ensures
        addr < 0xC000 ==> m.spec_cpu_map_read(addr) == Some(
            m.prg_banks@[m.prg_bank as int].spec_read(addr),
        ),
        addr >= 0xC000 ==> m.spec_cpu_map_read(addr) == Some(
            m.prg_banks@[m.prg_banks@.len() - 1].spec_read(addr),
        ),
{
}

} // verus!
