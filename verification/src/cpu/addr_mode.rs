use vstd::prelude::*;

use crate::cpu::Cpu;
use crate::cpu::CpuQueryItem;

verus! {

/// The addressing modes of the CPU.
#[allow(non_camel_case_types)]
#[derive(Debug, Clone, Copy, PartialEq, Eq, Structural)]
pub enum AddrMode {
    IMP,
    IMM,
    ACC,
    REL,
    ABS,
    ABX,
    ABY,
    ZP0,
    ZPX,
    ZPY,
    IND,
    IDX,
    IDY,
    _XXX,
}

/// The sixteen-bit word of a low and a high byte.
#[verifier::allow_in_spec]
pub fn word(lo: u8, hi: u8) -> u16
    returns
        (lo + hi * 0x100) as u16,
{
    lo as u16 + (hi as u16) * 0x100
}

/// Whether two addresses lie in different pages of 256 bytes.
#[verifier::allow_in_spec]
pub fn page_differs(a: u16, b: u16) -> bool
    returns
        a / 0x100 != b / 0x100,
{
    a / 0x100 != b / 0x100
}

/// A branch offset as the CPU adds it: the byte, sign-extended to sixteen
/// bits.
#[verifier::allow_in_spec]
pub fn sign_extend(offset: u8) -> u16
    returns
        (if offset >= 0x80 {
            (offset + 0xFF00) as u16
        } else {
            offset as u16
        }),
{
    if offset >= 0x80 {
        offset as u16 + 0xFF00
    } else {
        offset as u16
    }
}

impl CpuQueryItem {
    /// The state after the program counter has given its value and moved
    /// on by one.
    pub open spec fn spec_adv(self) -> (Self, u16) {
        (self.spec_with_cpu(Cpu { pc: self.cpu.pc.wrapping_add(1), ..self.cpu }), self.cpu.pc)
    }

    /// The state after the byte at the program counter has been read, and
    /// the byte.
    pub open spec fn spec_operand(self) -> (Self, u8) {
        let (s, at) = self.spec_adv();
        s.spec_bus_read(at)
    }

    /// The state after the two bytes at the program counter have been
    /// read, and the word they make, low byte first.
    pub open spec fn spec_operand_word(self) -> (Self, u16) {
        let (s1, lsb) = self.spec_adv();
        let (s2, msb) = s1.spec_adv();
        let (s3, lo) = s2.spec_bus_read(lsb);
        let (s4, hi) = s3.spec_bus_read(msb);
        (s4, word(lo, hi))
    }

    /// Immediate: the operand is the byte at the program counter.
    pub open spec fn spec_imm(self) -> (Self, (Option<u16>, bool)) {
        let (s, at) = self.spec_adv();
        (s, (Some(at), false))
    }

    /// Relative: the operand is the sign-extended offset; the page is
    /// crossed where the program counter plus the offset lies in another
    /// page than the program counter.
    pub open spec fn spec_rel(self) -> (Self, (Option<u16>, bool)) {
        let (s, offset) = self.spec_operand();
        let addr = sign_extend(offset);
        (s, (Some(addr), page_differs(addr.wrapping_add(s.cpu.pc), s.cpu.pc)))
    }

    /// Absolute: the operand address is the word at the program counter.
    pub open spec fn spec_abs(self) -> (Self, (Option<u16>, bool)) {
        let (s, addr) = self.spec_operand_word();
        (s, (Some(addr), false))
    }

    /// Absolute with `index` added; the page is crossed where the sum lies
    /// in another page than the word.
    pub open spec fn spec_abs_indexed(self, index: u8) -> (Self, (Option<u16>, bool)) {
        let (s, addr) = self.spec_operand_word();
        let sum = addr.wrapping_add(index as u16);
        (s, (Some(sum), page_differs(sum, addr)))
    }

    /// Zero page: the operand address is the byte at the program counter.
    pub open spec fn spec_zp0(self) -> (Self, (Option<u16>, bool)) {
        let (s, zp) = self.spec_operand();
        (s, (Some(zp as u16), false))
    }

    /// Zero page with `index` added, staying in the zero page.
    pub open spec fn spec_zp_indexed(self, index: u8) -> (Self, (Option<u16>, bool)) {
        let (s, zp) = self.spec_operand();
        (s, (Some(zp.wrapping_add(index) as u16), false))
    }

    /// Indirect: the operand address is the word that the word at the
    /// program counter points at. The high byte of that word is read from
    /// the same page as the low byte: after a pointer that ends in 0xFF it
    /// comes from the start of the pointer's page.
    pub open spec fn spec_ind(self) -> (Self, (Option<u16>, bool)) {
        let (s, ptr) = self.spec_operand_word();
        let next: u16 = if ptr % 0x100 == 0xFF {
            (ptr - 0xFF) as u16
        } else {
            (ptr + 1) as u16
        };
        let (s1, hi) = s.spec_bus_read(next);
        let (s2, lo) = s1.spec_bus_read(ptr);
        (s2, (Some(word(lo, hi)), false))
    }

    /// Indexed indirect: the byte at the program counter plus X, in the
    /// zero page, points at the operand address, whose high byte is read
    /// from the zero page too.
    pub open spec fn spec_idx(self) -> (Self, (Option<u16>, bool)) {
        let (s, zp) = self.spec_operand();
        let at = zp.wrapping_add(s.cpu.x);
        let (s1, hi) = s.spec_bus_read(at.wrapping_add(1) as u16);
        let (s2, lo) = s1.spec_bus_read(at as u16);
        (s2, (Some(word(lo, hi)), false))
    }

    /// Indirect indexed: the byte at the program counter points, in the
    /// zero page, at a word, its high byte read from the zero page too; the
    /// operand address is that word plus Y, and the page is crossed where
    /// the sum lies in another page than the word.
    pub open spec fn spec_idy(self) -> (Self, (Option<u16>, bool)) {
        let (s, zp) = self.spec_operand();
        let (s1, lo) = s.spec_bus_read(zp as u16);
        let (s2, hi) = s1.spec_bus_read(zp.wrapping_add(1) as u16);
        let base = word(lo, hi);
        let sum = base.wrapping_add(s2.cpu.y as u16);
        (s2, (Some(sum), page_differs(sum, base)))
    }

    /// The state after the operand of the current addressing mode has been
    /// resolved, with the operand address, if the mode has one, and whether
    /// a page was crossed.
    #[verifier::opaque]
    pub open spec fn spec_addr_mode(self) -> (Self, (Option<u16>, bool)) {
        match self.cpu.addr_mode {
            AddrMode::IMP => (self, (None, false)),
            AddrMode::IMM => self.spec_imm(),
            AddrMode::ACC => (self, (None, false)),
            AddrMode::REL => self.spec_rel(),
            AddrMode::ABS => self.spec_abs(),
            AddrMode::ABX => self.spec_abs_indexed(self.cpu.x),
            AddrMode::ABY => self.spec_abs_indexed(self.cpu.y),
            AddrMode::ZP0 => self.spec_zp0(),
            AddrMode::ZPX => self.spec_zp_indexed(self.cpu.x),
            AddrMode::ZPY => self.spec_zp_indexed(self.cpu.y),
            AddrMode::IND => self.spec_ind(),
            AddrMode::IDX => self.spec_idx(),
            AddrMode::IDY => self.spec_idy(),
            AddrMode::_XXX => (self, (None, false)),
        }
    }

    pub fn operand(&mut self) -> (r: u8)
        ensures
            (*final(self), r) == old(self).spec_operand(),
            old(self).spec_keeps_frame(*final(self)),
            final(self).cpu == (Cpu {
                pc: final(self).cpu.pc,
                open_bus: final(self).cpu.open_bus,
                ..old(self).cpu
            }),
    {
        let at = self.cpu.adv();
        self.bus_read(at)
    }

    pub fn operand_word(&mut self) -> (r: u16)
        ensures
            (*final(self), r) == old(self).spec_operand_word(),
            old(self).spec_keeps_frame(*final(self)),
            final(self).cpu == (Cpu {
                pc: final(self).cpu.pc,
                open_bus: final(self).cpu.open_bus,
                ..old(self).cpu
            }),
    {
        let lsb = self.cpu.adv();
        let msb = self.cpu.adv();
        let lo = self.bus_read(lsb);
        let hi = self.bus_read(msb);
        word(lo, hi)
    }

    pub fn addr_mode(&mut self) -> (r: (Option<u16>, bool))
        ensures
            (*final(self), r) == old(self).spec_addr_mode(),
            old(self).spec_keeps_frame(*final(self)),
            r.0.is_none() == (old(self).cpu.addr_mode == AddrMode::IMP || old(self).cpu.addr_mode
                == AddrMode::ACC || old(self).cpu.addr_mode == AddrMode::_XXX),
    {
        proof {
            reveal(CpuQueryItem::spec_addr_mode);
        }
        match self.cpu.addr_mode {
            AddrMode::IMP => self.imp(),
            AddrMode::IMM => self.imm(),
            AddrMode::ACC => self.acc(),
            AddrMode::REL => self.rel(),
            AddrMode::ABS => self.abs(),
            AddrMode::ABX => self.abx(),
            AddrMode::ABY => self.aby(),
            AddrMode::ZP0 => self.zp0(),
            AddrMode::ZPX => self.zpx(),
            AddrMode::ZPY => self.zpy(),
            AddrMode::IND => self.ind(),
            AddrMode::IDX => self.idx(),
            AddrMode::IDY => self.idy(),
            AddrMode::_XXX => self.imp(),
        }
    }

    pub fn imp(&mut self) -> (r: (Option<u16>, bool))
        ensures
            *final(self) == *old(self),
            r == (None::<u16>, false),
    {
        (None, false)
    }

    pub fn imm(&mut self) -> (r: (Option<u16>, bool))
        ensures
            (*final(self), r) == old(self).spec_imm(),
            old(self).spec_keeps_frame(*final(self)),
    {
        (Some(self.cpu.adv()), false)
    }

    pub fn acc(&mut self) -> (r: (Option<u16>, bool))
        ensures
            *final(self) == *old(self),
            r == (None::<u16>, false),
    {
        (None, false)
    }

    pub fn rel(&mut self) -> (r: (Option<u16>, bool))
        ensures
            (*final(self), r) == old(self).spec_rel(),
            old(self).spec_keeps_frame(*final(self)),
    {
        let offset = self.operand();
        let addr = sign_extend(offset);
        let page_crossed = page_differs(addr.wrapping_add(self.cpu.pc), self.cpu.pc);
        (Some(addr), page_crossed)
    }

    pub fn abs(&mut self) -> (r: (Option<u16>, bool))
        ensures
            (*final(self), r) == old(self).spec_abs(),
            old(self).spec_keeps_frame(*final(self)),
    {
        let addr = self.operand_word();
        (Some(addr), false)
    }

    pub fn abx(&mut self) -> (r: (Option<u16>, bool))
        ensures
            (*final(self), r) == old(self).spec_abs_indexed(old(self).cpu.x),
            old(self).spec_keeps_frame(*final(self)),
    {
        let addr = self.operand_word();
        let abx_addr = addr.wrapping_add(self.cpu.x as u16);
        (Some(abx_addr), page_differs(abx_addr, addr))
    }

    pub fn aby(&mut self) -> (r: (Option<u16>, bool))
        ensures
            (*final(self), r) == old(self).spec_abs_indexed(old(self).cpu.y),
            old(self).spec_keeps_frame(*final(self)),
    {
        let addr = self.operand_word();
        let aby_addr = addr.wrapping_add(self.cpu.y as u16);
        (Some(aby_addr), page_differs(aby_addr, addr))
    }

    pub fn zp0(&mut self) -> (r: (Option<u16>, bool))
        ensures
            (*final(self), r) == old(self).spec_zp0(),
            old(self).spec_keeps_frame(*final(self)),
    {
        let zp = self.operand();
        (Some(zp as u16), false)
    }

    pub fn zpx(&mut self) -> (r: (Option<u16>, bool))
        ensures
            (*final(self), r) == old(self).spec_zp_indexed(old(self).cpu.x),
            old(self).spec_keeps_frame(*final(self)),
    {
        let zp = self.operand();
        (Some(zp.wrapping_add(self.cpu.x) as u16), false)
    }

    pub fn zpy(&mut self) -> (r: (Option<u16>, bool))
        ensures
            (*final(self), r) == old(self).spec_zp_indexed(old(self).cpu.y),
            old(self).spec_keeps_frame(*final(self)),
    {
        let zp = self.operand();
        (Some(zp.wrapping_add(self.cpu.y) as u16), false)
    }

    pub fn ind(&mut self) -> (r: (Option<u16>, bool))
        ensures
            (*final(self), r) == old(self).spec_ind(),
            old(self).spec_keeps_frame(*final(self)),
    {
        let ptr = self.operand_word();
        let next: u16 = if ptr % 0x100 == 0xFF {
            ptr - 0xFF
        } else {
            ptr + 1
        };
        let hi = self.bus_read(next);
        let lo = self.bus_read(ptr);
        (Some(word(lo, hi)), false)
    }

    pub fn idx(&mut self) -> (r: (Option<u16>, bool))
        ensures
            (*final(self), r) == old(self).spec_idx(),
            old(self).spec_keeps_frame(*final(self)),
    {
        let zp = self.operand();
        let at = zp.wrapping_add(self.cpu.x);
        let hi = self.bus_read(at.wrapping_add(1) as u16);
        let lo = self.bus_read(at as u16);
        (Some(word(lo, hi)), false)
    }

    pub fn idy(&mut self) -> (r: (Option<u16>, bool))
        ensures
            (*final(self), r) == old(self).spec_idy(),
            old(self).spec_keeps_frame(*final(self)),
    {
        let zp = self.operand();
        let lo = self.bus_read(zp as u16);
        let hi = self.bus_read(zp.wrapping_add(1) as u16);
        let base = word(lo, hi);
        let idy_addr = base.wrapping_add(self.cpu.y as u16);
        (Some(idy_addr), page_differs(idy_addr, base))
    }
}

} // verus!
