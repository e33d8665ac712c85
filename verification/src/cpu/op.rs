use vstd::prelude::*;

use crate::cpu::addr_mode::page_differs;
use crate::cpu::addr_mode::word;
use crate::cpu::Cpu;
use crate::cpu::CpuQueryItem;
use crate::cpu::CpuStatus;

verus! {

/// The operations of the CPU; `XXX` stands for every opcode that is none of
/// them.
#[derive(Debug, Clone, Copy, PartialEq, Eq, Structural)]
pub enum Op {
    ADC,
    AND,
    ASL,
    BCC,
    BCS,
    BEQ,
    BIT,
    BMI,
    BNE,
    BPL,
    BRK,
    BVC,
    BVS,
    CLC,
    CLD,
    CLI,
    CLV,
    CMP,
    CPX,
    CPY,
    DEC,
    DEX,
    DEY,
    EOR,
    INC,
    INX,
    INY,
    JMP,
    JSR,
    LDA,
    LDX,
    LDY,
    LSR,
    NOP,
    ORA,
    PHA,
    PHP,
    PLA,
    PLP,
    ROL,
    ROR,
    RTI,
    RTS,
    SBC,
    SEC,
    SED,
    SEI,
    STA,
    STX,
    STY,
    TAX,
    TAY,
    TSX,
    TXA,
    TXS,
    TYA,
    XXX,
}

impl Op {
    /// Whether the operation cannot do without an operand address: the
    /// jumps always, and a branch when it is taken.
    pub open spec fn spec_needs_addr(self, status: CpuStatus) -> bool {
        match self {
            Op::JMP | Op::JSR => true,
            Op::BCC => !status.carry(),
            Op::BCS => status.carry(),
            Op::BEQ => status.zero(),
            Op::BMI => status.negative(),
            Op::BNE => !status.zero(),
            Op::BPL => !status.negative(),
            Op::BVC => !status.overflow(),
            Op::BVS => status.overflow(),
            _ => false,
        }
    }

    /// Whether the operation is a jump or a branch.
    #[verifier::allow_in_spec]
    pub fn takes_target(self) -> bool
        returns
            (self == Op::JMP || self == Op::JSR || self == Op::BCC || self == Op::BCS || self
                == Op::BEQ || self == Op::BNE || self == Op::BMI || self == Op::BPL || self
                == Op::BVC || self == Op::BVS),
    {
        self == Op::JMP || self == Op::JSR || self == Op::BCC || self == Op::BCS || self == Op::BEQ
            || self == Op::BNE || self == Op::BMI || self == Op::BPL || self == Op::BVC || self
            == Op::BVS
    }
}

impl CpuQueryItem {
    /// The state after the operand has been fetched, and the operand: the
    /// byte at the operand address, or the accumulator without one.
    pub open spec fn spec_fetch(self, addr: Option<u16>) -> (Self, u8) {
        match addr {
            Some(a) => self.spec_bus_read(a),
            None => (self, self.cpu.a),
        }
    }

    /// The state after a result has been stored: at the operand address,
    /// or in the accumulator without one.
    pub open spec fn spec_write(self, val: u8, addr: Option<u16>) -> Self {
        match addr {
            Some(a) => self.spec_bus_write(a, val),
            None => self.spec_with_cpu(Cpu { a: val, ..self.cpu }),
        }
    }

    /// The state with other status flags.
    pub open spec fn spec_with_status(self, status: CpuStatus) -> Self {
        self.spec_with_cpu(Cpu { status, ..self.cpu })
    }

    /// The state with `value` in the accumulator and zero and negative
    /// taken from it.
    pub open spec fn spec_load_a(self, value: u8) -> Self {
        self.spec_with_cpu(Cpu { a: value, status: self.cpu.status.with_nz(value), ..self.cpu })
    }

    /// The state with `value` in X and zero and negative taken from it.
    pub open spec fn spec_load_x(self, value: u8) -> Self {
        self.spec_with_cpu(Cpu { x: value, status: self.cpu.status.with_nz(value), ..self.cpu })
    }

    /// The state with `value` in Y and zero and negative taken from it.
    pub open spec fn spec_load_y(self, value: u8) -> Self {
        self.spec_with_cpu(Cpu { y: value, status: self.cpu.status.with_nz(value), ..self.cpu })
    }

    /// The state after `m` and the carry have been added to the
    /// accumulator. The sum modulo 256 is the result; carry is set where
    /// the sum is above 255; overflow is set where the accumulator and `m`
    /// agree in bit 7 and the result does not; zero and negative are taken
    /// from the result.
    pub open spec fn spec_add(self, m: u8) -> Self {
        let a = self.cpu.a;
        let sum = a + m + (if self.cpu.status.carry() {
            1int
        } else {
            0int
        });
        let r = (sum % 256) as u8;
        self.spec_with_cpu(
            Cpu {
                a: r,
                status: self.cpu.status.with(0x01, sum > 255).with_nz(r).with(
                    0x40,
                    (a ^ r) & !(a ^ m) & 0x80 != 0,
                ),
                ..self.cpu
            },
        )
    }

    /// The state after `val` has been compared with `m`: carry is set
    /// where `val` is at least `m`, zero where they are equal, negative
    /// where bit 7 of their difference is set.
    pub open spec fn spec_compare_with(self, val: u8, m: u8) -> Self {
        self.spec_with_status(
            self.cpu.status.with(0x01, val >= m).with(0x02, val == m).with(
                0x80,
                val.wrapping_sub(m) & 0x80 != 0,
            ),
        )
    }

    /// The state after a branch. A branch that is taken adds the offset
    /// to the program counter and takes one cycle more, or two where the
    /// target lies in another page.
    pub open spec fn spec_branch(self, taken: bool, addr: Option<u16>) -> Self {
        match addr {
            Some(offset) if taken => {
                let target = self.cpu.pc.wrapping_add(offset);
                self.spec_with_cpu(
                    Cpu {
                        pc: target,
                        cycles: self.cpu.cycles.wrapping_add(
                            if page_differs(target, self.cpu.pc) {
                                2
                            } else {
                                1
                            },
                        ),
                        ..self.cpu
                    },
                )
            },
            _ => self,
        }
    }

    /// The state after a shift or rotate of the operand: `result` is
    /// stored where the operand came from, carry is the bit that left, and
    /// zero and negative are taken from the result.
    pub open spec fn spec_shifted(self, addr: Option<u16>, result: u8, carry: bool) -> Self {
        self.spec_with_status(self.cpu.status.with(0x01, carry).with_nz(result)).spec_write(
            result,
            addr,
        )
    }
    /// The accumulator becomes its intersection with the operand.
    pub open spec fn spec_and(self, addr: Option<u16>) -> Self {
        let (s, m) = self.spec_fetch(addr);
        s.spec_load_a(s.cpu.a & m)
    }

    /// The accumulator becomes its difference bit by bit with the operand.
    pub open spec fn spec_eor(self, addr: Option<u16>) -> Self {
        let (s, m) = self.spec_fetch(addr);
        s.spec_load_a(s.cpu.a ^ m)
    }

    /// The accumulator becomes its union with the operand.
    pub open spec fn spec_ora(self, addr: Option<u16>) -> Self {
        let (s, m) = self.spec_fetch(addr);
        s.spec_load_a(s.cpu.a | m)
    }

    /// Add with carry.
    pub open spec fn spec_adc(self, addr: Option<u16>) -> Self {
        let (s, m) = self.spec_fetch(addr);
        s.spec_add(m)
    }

    /// Subtract with borrow: add the operand with all bits turned.
    pub open spec fn spec_sbc(self, addr: Option<u16>) -> Self {
        let (s, m) = self.spec_fetch(addr);
        s.spec_add(m ^ 0xFF)
    }

    /// Branch where carry is clear.
    pub open spec fn spec_bcc(self, addr: Option<u16>) -> Self {
        self.spec_branch(!self.cpu.status.carry(), addr)
    }

    /// Branch where carry is set.
    pub open spec fn spec_bcs(self, addr: Option<u16>) -> Self {
        self.spec_branch(self.cpu.status.carry(), addr)
    }

    /// Branch where zero is set.
    pub open spec fn spec_beq(self, addr: Option<u16>) -> Self {
        self.spec_branch(self.cpu.status.zero(), addr)
    }

    /// Branch where negative is set.
    pub open spec fn spec_bmi(self, addr: Option<u16>) -> Self {
        self.spec_branch(self.cpu.status.negative(), addr)
    }

    /// Branch where zero is clear.
    pub open spec fn spec_bne(self, addr: Option<u16>) -> Self {
        self.spec_branch(!self.cpu.status.zero(), addr)
    }

    /// Branch where negative is clear.
    pub open spec fn spec_bpl(self, addr: Option<u16>) -> Self {
        self.spec_branch(!self.cpu.status.negative(), addr)
    }

    /// Branch where overflow is clear.
    pub open spec fn spec_bvc(self, addr: Option<u16>) -> Self {
        self.spec_branch(!self.cpu.status.overflow(), addr)
    }

    /// Branch where overflow is set.
    pub open spec fn spec_bvs(self, addr: Option<u16>) -> Self {
        self.spec_branch(self.cpu.status.overflow(), addr)
    }

    /// Break: the program counter is pushed, high byte first, then the
    /// status with break set; break is cleared and interrupt disable set;
    /// the program counter is the word at 0xFFFE.
    pub open spec fn spec_brk(self) -> Self {
        let s1 = self.spec_stack_push((self.cpu.pc / 0x100) as u8);
        let s2 = s1.spec_stack_push((s1.cpu.pc % 0x100) as u8);
        let s3 = s2.spec_stack_push(s2.cpu.status.with(0x10, true).0);
        let s4 = s3.spec_with_status(s3.cpu.status.with(0x10, false).with(0x04, true));
        let (s5, pc) = s4.spec_read_vector(0xFFFE);
        s5.spec_with_cpu(Cpu { pc, ..s5.cpu })
    }

    /// Clear carry.
    pub open spec fn spec_clc(self) -> Self {
        self.spec_with_status(self.cpu.status.with(0x01, false))
    }

    /// Clear decimal.
    pub open spec fn spec_cld(self) -> Self {
        self.spec_with_status(self.cpu.status.with(0x08, false))
    }

    /// Clear interrupt disable.
    pub open spec fn spec_cli(self) -> Self {
        self.spec_with_status(self.cpu.status.with(0x04, false))
    }

    /// Clear overflow.
    pub open spec fn spec_clv(self) -> Self {
        self.spec_with_status(self.cpu.status.with(0x40, false))
    }

    /// Set carry.
    pub open spec fn spec_sec(self) -> Self {
        self.spec_with_status(self.cpu.status.with(0x01, true))
    }

    /// Set decimal.
    pub open spec fn spec_sed(self) -> Self {
        self.spec_with_status(self.cpu.status.with(0x08, true))
    }

    /// Set interrupt disable.
    pub open spec fn spec_sei(self) -> Self {
        self.spec_with_status(self.cpu.status.with(0x04, true))
    }

    /// Shift left: bit 7 leaves into carry.
    pub open spec fn spec_asl(self, addr: Option<u16>) -> Self {
        let (s, m) = self.spec_fetch(addr);
        s.spec_shifted(addr, m << 1, m & 0x80 != 0)
    }

    /// Shift right: bit 0 leaves into carry.
    pub open spec fn spec_lsr(self, addr: Option<u16>) -> Self {
        let (s, m) = self.spec_fetch(addr);
        s.spec_shifted(addr, m >> 1, m & 0x01 != 0)
    }

    /// Rotate left through carry.
    pub open spec fn spec_rol(self, addr: Option<u16>) -> Self {
        let (s, m) = self.spec_fetch(addr);
        s.spec_shifted(
            addr,
            (m << 1) | (if s.cpu.status.carry() {
                1u8
            } else {
                0u8
            }),
            m & 0x80 != 0,
        )
    }

    /// Rotate right through carry.
    pub open spec fn spec_ror(self, addr: Option<u16>) -> Self {
        let (s, m) = self.spec_fetch(addr);
        s.spec_shifted(
            addr,
            (m >> 1) | (if s.cpu.status.carry() {
                0x80u8
            } else {
                0u8
            }),
            m & 0x01 != 0,
        )
    }

    /// Bit test: zero is set where operand and accumulator share no bit;
    /// overflow and negative are bits 6 and 7 of the operand.
    pub open spec fn spec_bit(self, addr: Option<u16>) -> Self {
        let (s, m) = self.spec_fetch(addr);
        s.spec_with_status(
            s.cpu.status.with(0x02, m & s.cpu.a == 0).with(0x40, m & 0x40 != 0).with(0x80, m & 0x80 != 0),
        )
    }

    /// Compare A with the operand.
    pub open spec fn spec_cmp(self, addr: Option<u16>) -> Self {
        let (s, m) = self.spec_fetch(addr);
        s.spec_compare_with(self.cpu.a, m)
    }

    /// Compare X with the operand.
    pub open spec fn spec_cpx(self, addr: Option<u16>) -> Self {
        let (s, m) = self.spec_fetch(addr);
        s.spec_compare_with(self.cpu.x, m)
    }

    /// Compare Y with the operand.
    pub open spec fn spec_cpy(self, addr: Option<u16>) -> Self {
        let (s, m) = self.spec_fetch(addr);
        s.spec_compare_with(self.cpu.y, m)
    }

    /// The operand goes down by one, wrapping.
    pub open spec fn spec_dec(self, addr: Option<u16>) -> Self {
        let (s, m) = self.spec_fetch(addr);
        let r = m.wrapping_sub(1);
        s.spec_with_status(s.cpu.status.with_nz(r)).spec_write(r, addr)
    }

    /// The operand goes up by one, wrapping.
    pub open spec fn spec_inc(self, addr: Option<u16>) -> Self {
        let (s, m) = self.spec_fetch(addr);
        let r = m.wrapping_add(1);
        s.spec_with_status(s.cpu.status.with_nz(r)).spec_write(r, addr)
    }

    /// X goes down by one, wrapping.
    pub open spec fn spec_dex(self) -> Self {
        self.spec_load_x(self.cpu.x.wrapping_sub(1))
    }

    /// Y goes down by one, wrapping.
    pub open spec fn spec_dey(self) -> Self {
        self.spec_load_y(self.cpu.y.wrapping_sub(1))
    }

    /// X goes up by one, wrapping.
    pub open spec fn spec_inx(self) -> Self {
        self.spec_load_x(self.cpu.x.wrapping_add(1))
    }

    /// Y goes up by one, wrapping.
    pub open spec fn spec_iny(self) -> Self {
        self.spec_load_y(self.cpu.y.wrapping_add(1))
    }

    /// Jump to the operand address.
    pub open spec fn spec_jmp(self, addr: Option<u16>) -> Self {
        match addr {
            Some(target) => self.spec_with_cpu(Cpu { pc: target, ..self.cpu }),
            None => self,
        }
    }

    /// Jump to a subroutine: the program counter less one is pushed, high
    /// byte first, and the program counter is the operand address.
    pub open spec fn spec_jsr(self, addr: Option<u16>) -> Self {
        match addr {
            Some(target) => {
                let back = self.cpu.pc.wrapping_sub(1);
                let s1 = self.spec_with_cpu(Cpu { pc: back, ..self.cpu }).spec_stack_push(
                    (back / 0x100) as u8,
                );
                let s2 = s1.spec_stack_push((back % 0x100) as u8);
                s2.spec_with_cpu(Cpu { pc: target, ..s2.cpu })
            },
            None => self,
        }
    }

    /// Load A with the operand.
    pub open spec fn spec_lda(self, addr: Option<u16>) -> Self {
        let (s, m) = self.spec_fetch(addr);
        s.spec_load_a(m)
    }

    /// Load X with the operand.
    pub open spec fn spec_ldx(self, addr: Option<u16>) -> Self {
        let (s, m) = self.spec_fetch(addr);
        s.spec_load_x(m)
    }

    /// Load Y with the operand.
    pub open spec fn spec_ldy(self, addr: Option<u16>) -> Self {
        let (s, m) = self.spec_fetch(addr);
        s.spec_load_y(m)
    }

    /// Push the accumulator.
    pub open spec fn spec_pha(self) -> Self {
        self.spec_stack_push(self.cpu.a)
    }

    /// Push the status with break and bit 5 set; break is cleared.
    pub open spec fn spec_php(self) -> Self {
        let s = self.spec_stack_push(self.cpu.status.0 | 0x30);
        s.spec_with_status(s.cpu.status.with(0x10, false))
    }

    /// Pull the accumulator.
    pub open spec fn spec_pla(self) -> Self {
        let (s, m) = self.spec_stack_pull();
        s.spec_load_a(m)
    }

    /// Pull the status, with bit 5 set and break clear.
    pub open spec fn spec_plp(self) -> Self {
        let (s, m) = self.spec_stack_pull();
        s.spec_with_status(CpuStatus(m | 0x20).with(0x10, false))
    }

    /// Return from an interrupt: pull the status, with bit 5 set and break
    /// clear, then the program counter, low byte first.
    pub open spec fn spec_rti(self) -> Self {
        let (s1, m) = self.spec_stack_pull();
        let s2 = s1.spec_with_status(CpuStatus(m | 0x20).with(0x10, false));
        let (s3, lo) = s2.spec_stack_pull();
        let (s4, hi) = s3.spec_stack_pull();
        s4.spec_with_cpu(Cpu { pc: word(lo, hi), ..s4.cpu })
    }

    /// Return from a subroutine: pull the program counter, low byte first,
    /// and add one.
    pub open spec fn spec_rts(self) -> Self {
        let (s1, lo) = self.spec_stack_pull();
        let (s2, hi) = s1.spec_stack_pull();
        s2.spec_with_cpu(Cpu { pc: word(lo, hi).wrapping_add(1), ..s2.cpu })
    }

    /// Store A.
    pub open spec fn spec_sta(self, addr: Option<u16>) -> Self {
        self.spec_write(self.cpu.a, addr)
    }

    /// Store X.
    pub open spec fn spec_stx(self, addr: Option<u16>) -> Self {
        self.spec_write(self.cpu.x, addr)
    }

    /// Store Y.
    pub open spec fn spec_sty(self, addr: Option<u16>) -> Self {
        self.spec_write(self.cpu.y, addr)
    }

    /// Transfer A to X.
    pub open spec fn spec_tax(self) -> Self {
        self.spec_load_x(self.cpu.a)
    }

    /// Transfer A to Y.
    pub open spec fn spec_tay(self) -> Self {
        self.spec_load_y(self.cpu.a)
    }

    /// Transfer SP to X.
    pub open spec fn spec_tsx(self) -> Self {
        self.spec_load_x(self.cpu.sp)
    }

    /// Transfer X to A.
    pub open spec fn spec_txa(self) -> Self {
        self.spec_load_a(self.cpu.x)
    }

    /// Transfer Y to A.
    pub open spec fn spec_tya(self) -> Self {
        self.spec_load_a(self.cpu.y)
    }

    /// Transfer X to the stack pointer; no flag changes.
    pub open spec fn spec_txs(self) -> Self {
        self.spec_with_cpu(Cpu { sp: self.cpu.x, ..self.cpu })
    }

    /// Whether the operation takes one cycle more where its operand
    /// crosses a page: the operations that only read their operand.
    pub open spec fn spec_page_sensitive(operation: Op) -> bool {
        match operation {
            Op::ADC | Op::AND | Op::CMP | Op::CPX | Op::CPY | Op::EOR | Op::LDA | Op::LDX | Op::LDY
            | Op::ORA | Op::SBC => true,
            _ => false,
        }
    }

    /// The state after an operation on the operand at `addr`.
    #[verifier::opaque]
    pub open spec fn spec_operate(self, operation: Op, addr: Option<u16>) -> Self {
        match operation {
            Op::XXX => self,
            Op::NOP => self,
            Op::ADC => self.spec_adc(addr),
            Op::AND => self.spec_and(addr),
            Op::ASL => self.spec_asl(addr),
            Op::BCC => self.spec_bcc(addr),
            Op::BCS => self.spec_bcs(addr),
            Op::BEQ => self.spec_beq(addr),
            Op::BIT => self.spec_bit(addr),
            Op::BMI => self.spec_bmi(addr),
            Op::BNE => self.spec_bne(addr),
            Op::BPL => self.spec_bpl(addr),
            Op::BRK => self.spec_brk(),
            Op::BVC => self.spec_bvc(addr),
            Op::BVS => self.spec_bvs(addr),
            Op::CLC => self.spec_clc(),
            Op::CLD => self.spec_cld(),
            Op::CLI => self.spec_cli(),
            Op::CLV => self.spec_clv(),
            Op::CMP => self.spec_cmp(addr),
            Op::CPX => self.spec_cpx(addr),
            Op::CPY => self.spec_cpy(addr),
            Op::DEC => self.spec_dec(addr),
            Op::DEX => self.spec_dex(),
            Op::DEY => self.spec_dey(),
            Op::EOR => self.spec_eor(addr),
            Op::INC => self.spec_inc(addr),
            Op::INX => self.spec_inx(),
            Op::INY => self.spec_iny(),
            Op::JMP => self.spec_jmp(addr),
            Op::JSR => self.spec_jsr(addr),
            Op::LDA => self.spec_lda(addr),
            Op::LDX => self.spec_ldx(addr),
            Op::LDY => self.spec_ldy(addr),
            Op::LSR => self.spec_lsr(addr),
            Op::ORA => self.spec_ora(addr),
            Op::PHA => self.spec_pha(),
            Op::PHP => self.spec_php(),
            Op::PLA => self.spec_pla(),
            Op::PLP => self.spec_plp(),
            Op::ROL => self.spec_rol(addr),
            Op::ROR => self.spec_ror(addr),
            Op::RTI => self.spec_rti(),
            Op::RTS => self.spec_rts(),
            Op::SBC => self.spec_sbc(addr),
            Op::SEC => self.spec_sec(),
            Op::SED => self.spec_sed(),
            Op::SEI => self.spec_sei(),
            Op::STA => self.spec_sta(addr),
            Op::STX => self.spec_stx(addr),
            Op::STY => self.spec_sty(addr),
            Op::TAX => self.spec_tax(),
            Op::TAY => self.spec_tay(),
            Op::TSX => self.spec_tsx(),
            Op::TXA => self.spec_txa(),
            Op::TXS => self.spec_txs(),
            Op::TYA => self.spec_tya(),
        }
    }

    #[verifier::rlimit(100)]
    pub fn operate(&mut self, operation: Op, addr: Option<u16>) -> (r: bool)
        requires
            operation.spec_needs_addr(old(self).cpu.status) ==> addr.is_some(),
        ensures
            *final(self) == old(self).spec_operate(operation, addr),
            old(self).spec_keeps_frame(*final(self)),
            r == Self::spec_page_sensitive(operation),
    {
        proof {
            reveal(CpuQueryItem::spec_operate);
        }
        match operation {
            Op::XXX => self.nop(),
            Op::ADC => self.adc(addr),
            Op::AND => self.and(addr),
            Op::ASL => self.asl(addr),
            Op::BCC => self.bcc(addr),
            Op::BCS => self.bcs(addr),
            Op::BEQ => self.beq(addr),
            Op::BIT => self.bit(addr),
            Op::BMI => self.bmi(addr),
            Op::BNE => self.bne(addr),
            Op::BPL => self.bpl(addr),
            Op::BRK => self.brk(),
            Op::BVC => self.bvc(addr),
            Op::BVS => self.bvs(addr),
            Op::CLC => self.clc(),
            Op::CLD => self.cld(),
            Op::CLI => self.cli(),
            Op::CLV => self.clv(),
            Op::CMP => self.cmp(addr),
            Op::CPX => self.cpx(addr),
            Op::CPY => self.cpy(addr),
            Op::DEC => self.dec(addr),
            Op::DEX => self.dex(),
            Op::DEY => self.dey(),
            Op::EOR => self.eor(addr),
            Op::INC => self.inc(addr),
            Op::INX => self.inx(),
            Op::INY => self.iny(),
            Op::JMP => self.jmp(addr),
            Op::JSR => self.jsr(addr),
            Op::LDA => self.lda(addr),
            Op::LDX => self.ldx(addr),
            Op::LDY => self.ldy(addr),
            Op::LSR => self.lsr(addr),
            Op::NOP => self.nop(),
            Op::ORA => self.ora(addr),
            Op::PHA => self.pha(),
            Op::PHP => self.php(),
            Op::PLA => self.pla(),
            Op::PLP => self.plp(),
            Op::ROL => self.rol(addr),
            Op::ROR => self.ror(addr),
            Op::RTI => self.rti(),
            Op::RTS => self.rts(),
            Op::SBC => self.sbc(addr),
            Op::SEC => self.sec(),
            Op::SED => self.sed(),
            Op::SEI => self.sei(),
            Op::STA => self.sta(addr),
            Op::STX => self.stx(addr),
            Op::STY => self.sty(addr),
            Op::TAX => self.tax(),
            Op::TAY => self.tay(),
            Op::TSX => self.tsx(),
            Op::TXA => self.txa(),
            Op::TXS => self.txs(),
            Op::TYA => self.tya(),
        }
    }

    pub fn fetch(&mut self, addr: Option<u16>) -> (r: u8)
        ensures
            (*final(self), r) == old(self).spec_fetch(addr),
            old(self).spec_keeps_frame(*final(self)),
    {
        match addr {
            Some(a) => self.bus_read(a),
            None => self.cpu.a,
        }
    }

    pub fn write(&mut self, val: u8, addr: Option<u16>)
        ensures
            *final(self) == old(self).spec_write(val, addr),
            old(self).spec_keeps_frame(*final(self)),
    {
        match addr {
            Some(a) => self.bus_write(a, val),
            None => self.cpu.a = val,
        }
    }

    fn add(&mut self, m: u8)
        ensures
            *final(self) == old(self).spec_add(m),
            old(self).spec_keeps_frame(*final(self)),
    {
        let a: u8 = self.cpu.a;
        let carry: u16 = if self.cpu.status.carry() {
            1
        } else {
            0
        };
        let sum: u16 = a as u16 + m as u16 + carry;
        let result: u8 = (sum % 256) as u8;
        self.cpu.status.set_carry(sum > 255);
        self.cpu.status.set_zero(result == 0);
        self.cpu.status.set_negative(result & 0x80 != 0);
        self.cpu.status.set_overflow((a ^ result) & !(a ^ m) & 0x80 != 0);
        self.cpu.a = result;
    }

    fn set_nz(&mut self, value: u8)
        ensures
            *final(self) == old(self).spec_with_status(old(self).cpu.status.with_nz(value)),
    {
        self.cpu.status.set_zero(value == 0);
        self.cpu.status.set_negative(value & 0x80 != 0);
    }

    fn shifted(&mut self, addr: Option<u16>, result: u8, carry: bool)
        ensures
            *final(self) == old(self).spec_shifted(addr, result, carry),
            old(self).spec_keeps_frame(*final(self)),
    {
        self.cpu.status.set_carry(carry);
        self.set_nz(result);
        self.write(result, addr);
    }

    pub fn and(&mut self, addr: Option<u16>) -> (r: bool)
        ensures
            *final(self) == old(self).spec_and(addr),
            old(self).spec_keeps_frame(*final(self)),
            r == true,
    {
        let fetched = self.fetch(addr);
        self.cpu.a = self.cpu.a & fetched;
        self.set_nz(self.cpu.a);
        true
    }

    pub fn eor(&mut self, addr: Option<u16>) -> (r: bool)
        ensures
            *final(self) == old(self).spec_eor(addr),
            old(self).spec_keeps_frame(*final(self)),
            r == true,
    {
        let fetched = self.fetch(addr);
        self.cpu.a = self.cpu.a ^ fetched;
        self.set_nz(self.cpu.a);
        true
    }

    pub fn ora(&mut self, addr: Option<u16>) -> (r: bool)
        ensures
            *final(self) == old(self).spec_ora(addr),
            old(self).spec_keeps_frame(*final(self)),
            r == true,
    {
        let fetched = self.fetch(addr);
        self.cpu.a = self.cpu.a | fetched;
        self.set_nz(self.cpu.a);
        true
    }

    pub fn adc(&mut self, addr: Option<u16>) -> (r: bool)
        ensures
            *final(self) == old(self).spec_adc(addr),
            old(self).spec_keeps_frame(*final(self)),
            r == true,
    {
        let fetched = self.fetch(addr);
        self.add(fetched);
        true
    }

    pub fn sbc(&mut self, addr: Option<u16>) -> (r: bool)
        ensures
            *final(self) == old(self).spec_sbc(addr),
            old(self).spec_keeps_frame(*final(self)),
            r == true,
    {
        let fetched = self.fetch(addr) ^ 0xFF;
        self.add(fetched);
        true
    }

    pub fn bcc(&mut self, addr: Option<u16>) -> (r: bool)
        requires
            !old(self).cpu.status.carry() ==> addr.is_some(),
        ensures
            *final(self) == old(self).spec_bcc(addr),
            old(self).spec_keeps_frame(*final(self)),
            r == false,
    {
        let taken = !self.cpu.status.carry();
        self.branch(taken, addr);
        false
    }

    pub fn bcs(&mut self, addr: Option<u16>) -> (r: bool)
        requires
            old(self).cpu.status.carry() ==> addr.is_some(),
        ensures
            *final(self) == old(self).spec_bcs(addr),
            old(self).spec_keeps_frame(*final(self)),
            r == false,
    {
        let taken = self.cpu.status.carry();
        self.branch(taken, addr);
        false
    }

    pub fn beq(&mut self, addr: Option<u16>) -> (r: bool)
        requires
            old(self).cpu.status.zero() ==> addr.is_some(),
        ensures
            *final(self) == old(self).spec_beq(addr),
            old(self).spec_keeps_frame(*final(self)),
            r == false,
    {
        let taken = self.cpu.status.zero();
        self.branch(taken, addr);
        false
    }

    pub fn bmi(&mut self, addr: Option<u16>) -> (r: bool)
        requires
            old(self).cpu.status.negative() ==> addr.is_some(),
        ensures
            *final(self) == old(self).spec_bmi(addr),
            old(self).spec_keeps_frame(*final(self)),
            r == false,
    {
        let taken = self.cpu.status.negative();
        self.branch(taken, addr);
        false
    }

    pub fn bne(&mut self, addr: Option<u16>) -> (r: bool)
        requires
            !old(self).cpu.status.zero() ==> addr.is_some(),
        ensures
            *final(self) == old(self).spec_bne(addr),
            old(self).spec_keeps_frame(*final(self)),
            r == false,
    {
        let taken = !self.cpu.status.zero();
        self.branch(taken, addr);
        false
    }

    pub fn bpl(&mut self, addr: Option<u16>) -> (r: bool)
        requires
            !old(self).cpu.status.negative() ==> addr.is_some(),
        ensures
            *final(self) == old(self).spec_bpl(addr),
            old(self).spec_keeps_frame(*final(self)),
            r == false,
    {
        let taken = !self.cpu.status.negative();
        self.branch(taken, addr);
        false
    }

    pub fn bvc(&mut self, addr: Option<u16>) -> (r: bool)
        requires
            !old(self).cpu.status.overflow() ==> addr.is_some(),
        ensures
            *final(self) == old(self).spec_bvc(addr),
            old(self).spec_keeps_frame(*final(self)),
            r == false,
    {
        let taken = !self.cpu.status.overflow();
        self.branch(taken, addr);
        false
    }

    pub fn bvs(&mut self, addr: Option<u16>) -> (r: bool)
        requires
            old(self).cpu.status.overflow() ==> addr.is_some(),
        ensures
            *final(self) == old(self).spec_bvs(addr),
            old(self).spec_keeps_frame(*final(self)),
            r == false,
    {
        let taken = self.cpu.status.overflow();
        self.branch(taken, addr);
        false
    }

    pub fn branch(&mut self, val: bool, addr: Option<u16>)
        requires
            val ==> addr.is_some(),
        ensures
            *final(self) == old(self).spec_branch(val, addr),
            old(self).spec_keeps_frame(*final(self)),
    {
        if val {
            match addr {
                Some(offset) => {
                    let target = self.cpu.pc.wrapping_add(offset);
                    let extra: u8 = if page_differs(target, self.cpu.pc) {
                        2
                    } else {
                        1
                    };
                    self.cpu.cycles = self.cpu.cycles.wrapping_add(extra);
                    self.cpu.pc = target;
                },
                None => {},
            }
        }
    }

    pub fn brk(&mut self) -> (r: bool)
        ensures
            *final(self) == old(self).spec_brk(),
            old(self).spec_keeps_frame(*final(self)),
            r == false,
    {
        self.stack_push((self.cpu.pc / 0x100) as u8);
        self.stack_push((self.cpu.pc % 0x100) as u8);
        self.stack_push(self.cpu.status.with(0x10, true).0);
        self.cpu.status.set_b_flag(false);
        self.cpu.status.set_no_interrupt(true);
        self.cpu.pc = self.read_vector(0xFFFE);
        false
    }

    pub fn clc(&mut self) -> (r: bool)
        ensures
            *final(self) == old(self).spec_clc(),
            old(self).spec_keeps_frame(*final(self)),
            r == false,
    {
        self.cpu.status.set_carry(false);
        false
    }

    pub fn cld(&mut self) -> (r: bool)
        ensures
            *final(self) == old(self).spec_cld(),
            old(self).spec_keeps_frame(*final(self)),
            r == false,
    {
        self.cpu.status.set_decimal(false);
        false
    }

    pub fn cli(&mut self) -> (r: bool)
        ensures
            *final(self) == old(self).spec_cli(),
            old(self).spec_keeps_frame(*final(self)),
            r == false,
    {
        self.cpu.status.set_no_interrupt(false);
        false
    }

    pub fn clv(&mut self) -> (r: bool)
        ensures
            *final(self) == old(self).spec_clv(),
            old(self).spec_keeps_frame(*final(self)),
            r == false,
    {
        self.cpu.status.set_overflow(false);
        false
    }

    pub fn sec(&mut self) -> (r: bool)
        ensures
            *final(self) == old(self).spec_sec(),
            old(self).spec_keeps_frame(*final(self)),
            r == false,
    {
        self.cpu.status.set_carry(true);
        false
    }

    pub fn sed(&mut self) -> (r: bool)
        ensures
            *final(self) == old(self).spec_sed(),
            old(self).spec_keeps_frame(*final(self)),
            r == false,
    {
        self.cpu.status.set_decimal(true);
        false
    }

    pub fn sei(&mut self) -> (r: bool)
        ensures
            *final(self) == old(self).spec_sei(),
            old(self).spec_keeps_frame(*final(self)),
            r == false,
    {
        self.cpu.status.set_no_interrupt(true);
        false
    }

    pub fn asl(&mut self, addr: Option<u16>) -> (r: bool)
        ensures
            *final(self) == old(self).spec_asl(addr),
            old(self).spec_keeps_frame(*final(self)),
            r == false,
    {
        let fetched = self.fetch(addr);
        self.shifted(addr, fetched << 1, fetched & 0x80 != 0);
        false
    }

    pub fn lsr(&mut self, addr: Option<u16>) -> (r: bool)
        ensures
            *final(self) == old(self).spec_lsr(addr),
            old(self).spec_keeps_frame(*final(self)),
            r == false,
    {
        let fetched = self.fetch(addr);
        self.shifted(addr, fetched >> 1, fetched & 0x01 != 0);
        false
    }

    pub fn rol(&mut self, addr: Option<u16>) -> (r: bool)
        ensures
            *final(self) == old(self).spec_rol(addr),
            old(self).spec_keeps_frame(*final(self)),
            r == false,
    {
        let fetched = self.fetch(addr);
        let carry: u8 = if self.cpu.status.carry() {
            1
        } else {
            0
        };
        self.shifted(addr, (fetched << 1) | carry, fetched & 0x80 != 0);
        false
    }

    pub fn ror(&mut self, addr: Option<u16>) -> (r: bool)
        ensures
            *final(self) == old(self).spec_ror(addr),
            old(self).spec_keeps_frame(*final(self)),
            r == false,
    {
        let fetched = self.fetch(addr);
        let carry: u8 = if self.cpu.status.carry() {
            0x80
        } else {
            0
        };
        self.shifted(addr, (fetched >> 1) | carry, fetched & 0x01 != 0);
        false
    }

    pub fn bit(&mut self, addr: Option<u16>) -> (r: bool)
        ensures
            *final(self) == old(self).spec_bit(addr),
            old(self).spec_keeps_frame(*final(self)),
            r == false,
    {
        let fetched = self.fetch(addr);
        let zero = fetched & self.cpu.a == 0;
        self.cpu.status.set_zero(zero);
        self.cpu.status.set_overflow(fetched & 0x40 != 0);
        self.cpu.status.set_negative(fetched & 0x80 != 0);
        false
    }

    pub fn cmp(&mut self, addr: Option<u16>) -> (r: bool)
        ensures
            *final(self) == old(self).spec_cmp(addr),
            old(self).spec_keeps_frame(*final(self)),
            r == true,
    {
        self.compare(self.cpu.a, addr);
        true
    }

    pub fn cpx(&mut self, addr: Option<u16>) -> (r: bool)
        ensures
            *final(self) == old(self).spec_cpx(addr),
            old(self).spec_keeps_frame(*final(self)),
            r == true,
    {
        self.compare(self.cpu.x, addr);
        true
    }

    pub fn cpy(&mut self, addr: Option<u16>) -> (r: bool)
        ensures
            *final(self) == old(self).spec_cpy(addr),
            old(self).spec_keeps_frame(*final(self)),
            r == true,
    {
        self.compare(self.cpu.y, addr);
        true
    }

    pub fn compare(&mut self, val: u8, addr: Option<u16>)
        ensures
            *final(self) == old(self).spec_fetch(addr).0.spec_compare_with(
                val,
                old(self).spec_fetch(addr).1,
            ),
            old(self).spec_keeps_frame(*final(self)),
    {
        let fetched = self.fetch(addr);
        self.cpu.status.set_carry(val >= fetched);
        self.cpu.status.set_zero(val == fetched);
        self.cpu.status.set_negative(val.wrapping_sub(fetched) & 0x80 != 0);
    }

    pub fn decrement(&mut self, val: u8) -> (r: u8)
        ensures
            r == val.wrapping_sub(1),
            *final(self) == old(self).spec_with_status(old(self).cpu.status.with_nz(r)),
    {
        let val = val.wrapping_sub(1);
        self.set_nz(val);
        val
    }

    pub fn increment(&mut self, val: u8) -> (r: u8)
        ensures
            r == val.wrapping_add(1),
            *final(self) == old(self).spec_with_status(old(self).cpu.status.with_nz(r)),
    {
        let val = val.wrapping_add(1);
        self.set_nz(val);
        val
    }

    pub fn dec(&mut self, addr: Option<u16>) -> (r: bool)
        ensures
            *final(self) == old(self).spec_dec(addr),
            old(self).spec_keeps_frame(*final(self)),
            r == false,
    {
        let val = self.fetch(addr);
        let result = self.decrement(val);
        self.write(result, addr);
        false
    }

    pub fn dex(&mut self) -> (r: bool)
        ensures
            *final(self) == old(self).spec_dex(),
            old(self).spec_keeps_frame(*final(self)),
            r == false,
    {
        self.cpu.x = self.decrement(self.cpu.x);
        false
    }

    pub fn dey(&mut self) -> (r: bool)
        ensures
            *final(self) == old(self).spec_dey(),
            old(self).spec_keeps_frame(*final(self)),
            r == false,
    {
        self.cpu.y = self.decrement(self.cpu.y);
        false
    }

    pub fn inc(&mut self, addr: Option<u16>) -> (r: bool)
        ensures
            *final(self) == old(self).spec_inc(addr),
            old(self).spec_keeps_frame(*final(self)),
            r == false,
    {
        let val = self.fetch(addr);
        let result = self.increment(val);
        self.write(result, addr);
        false
    }

    pub fn inx(&mut self) -> (r: bool)
        ensures
            *final(self) == old(self).spec_inx(),
            old(self).spec_keeps_frame(*final(self)),
            r == false,
    {
        self.cpu.x = self.increment(self.cpu.x);
        false
    }

    pub fn iny(&mut self) -> (r: bool)
        ensures
            *final(self) == old(self).spec_iny(),
            old(self).spec_keeps_frame(*final(self)),
            r == false,
    {
        self.cpu.y = self.increment(self.cpu.y);
        false
    }

    pub fn jmp(&mut self, addr: Option<u16>) -> (r: bool)
        requires
            addr.is_some(),
        ensures
            *final(self) == old(self).spec_jmp(addr),
            old(self).spec_keeps_frame(*final(self)),
            r == false,
    {
        match addr {
            Some(target) => self.cpu.pc = target,
            None => {},
        }
        false
    }

    pub fn jsr(&mut self, addr: Option<u16>) -> (r: bool)
        requires
            addr.is_some(),
        ensures
            *final(self) == old(self).spec_jsr(addr),
            old(self).spec_keeps_frame(*final(self)),
            r == false,
    {
        match addr {
            Some(target) => {
                let back = self.cpu.pc.wrapping_sub(1);
                self.cpu.pc = back;
                self.stack_push((back / 0x100) as u8);
                self.stack_push((back % 0x100) as u8);
                self.cpu.pc = target;
            },
            None => {},
        }
        false
    }

    pub fn lda(&mut self, addr: Option<u16>) -> (r: bool)
        ensures
            *final(self) == old(self).spec_lda(addr),
            old(self).spec_keeps_frame(*final(self)),
            r == true,
    {
        self.cpu.a = self.fetch(addr);
        self.set_nz(self.cpu.a);
        true
    }

    pub fn ldx(&mut self, addr: Option<u16>) -> (r: bool)
        ensures
            *final(self) == old(self).spec_ldx(addr),
            old(self).spec_keeps_frame(*final(self)),
            r == true,
    {
        self.cpu.x = self.fetch(addr);
        self.set_nz(self.cpu.x);
        true
    }

    pub fn ldy(&mut self, addr: Option<u16>) -> (r: bool)
        ensures
            *final(self) == old(self).spec_ldy(addr),
            old(self).spec_keeps_frame(*final(self)),
            r == true,
    {
        self.cpu.y = self.fetch(addr);
        self.set_nz(self.cpu.y);
        true
    }

    pub fn nop(&self) -> (r: bool)
        ensures
            !r,
    {
        false
    }

    pub fn pha(&mut self) -> (r: bool)
        ensures
            *final(self) == old(self).spec_pha(),
            old(self).spec_keeps_frame(*final(self)),
            r == false,
    {
        self.stack_push(self.cpu.a);
        false
    }

    pub fn php(&mut self) -> (r: bool)
        ensures
            *final(self) == old(self).spec_php(),
            old(self).spec_keeps_frame(*final(self)),
            r == false,
    {
        self.stack_push(self.cpu.status.0 | 0x30);
        self.cpu.status.set_b_flag(false);
        false
    }

    pub fn pla(&mut self) -> (r: bool)
        ensures
            *final(self) == old(self).spec_pla(),
            old(self).spec_keeps_frame(*final(self)),
            r == false,
    {
        self.cpu.a = self.stack_pull();
        self.set_nz(self.cpu.a);
        false
    }

    pub fn plp(&mut self) -> (r: bool)
        ensures
            *final(self) == old(self).spec_plp(),
            old(self).spec_keeps_frame(*final(self)),
            r == false,
    {
        self.cpu.status = CpuStatus(self.stack_pull() | 0x20);
        self.cpu.status.set_b_flag(false);
        false
    }

    pub fn rti(&mut self) -> (r: bool)
        ensures
            *final(self) == old(self).spec_rti(),
            old(self).spec_keeps_frame(*final(self)),
            r == false,
    {
        self.cpu.status = CpuStatus(self.stack_pull() | 0x20);
        self.cpu.status.set_b_flag(false);
        let lo = self.stack_pull();
        let hi = self.stack_pull();
        self.cpu.pc = word(lo, hi);
        false
    }

    pub fn rts(&mut self) -> (r: bool)
        ensures
            *final(self) == old(self).spec_rts(),
            old(self).spec_keeps_frame(*final(self)),
            r == false,
    {
        let lo = self.stack_pull();
        let hi = self.stack_pull();
        self.cpu.pc = word(lo, hi).wrapping_add(1);
        false
    }

    pub fn sta(&mut self, addr: Option<u16>) -> (r: bool)
        ensures
            *final(self) == old(self).spec_sta(addr),
            old(self).spec_keeps_frame(*final(self)),
            r == false,
    {
        self.write(self.cpu.a, addr);
        false
    }

    pub fn stx(&mut self, addr: Option<u16>) -> (r: bool)
        ensures
            *final(self) == old(self).spec_stx(addr),
            old(self).spec_keeps_frame(*final(self)),
            r == false,
    {
        self.write(self.cpu.x, addr);
        false
    }

    pub fn sty(&mut self, addr: Option<u16>) -> (r: bool)
        ensures
            *final(self) == old(self).spec_sty(addr),
            old(self).spec_keeps_frame(*final(self)),
            r == false,
    {
        self.write(self.cpu.y, addr);
        false
    }

    pub fn tax(&mut self) -> (r: bool)
        ensures
            *final(self) == old(self).spec_tax(),
            old(self).spec_keeps_frame(*final(self)),
            r == false,
    {
        self.cpu.x = self.cpu.a;
        self.set_nz(self.cpu.x);
        false
    }

    pub fn tay(&mut self) -> (r: bool)
        ensures
            *final(self) == old(self).spec_tay(),
            old(self).spec_keeps_frame(*final(self)),
            r == false,
    {
        self.cpu.y = self.cpu.a;
        self.set_nz(self.cpu.y);
        false
    }

    pub fn tsx(&mut self) -> (r: bool)
        ensures
            *final(self) == old(self).spec_tsx(),
            old(self).spec_keeps_frame(*final(self)),
            r == false,
    {
        self.cpu.x = self.cpu.sp;
        self.set_nz(self.cpu.x);
        false
    }

    pub fn txa(&mut self) -> (r: bool)
        ensures
            *final(self) == old(self).spec_txa(),
            old(self).spec_keeps_frame(*final(self)),
            r == false,
    {
        self.cpu.a = self.cpu.x;
        self.set_nz(self.cpu.a);
        false
    }

    pub fn tya(&mut self) -> (r: bool)
        ensures
            *final(self) == old(self).spec_tya(),
            old(self).spec_keeps_frame(*final(self)),
            r == false,
    {
        self.cpu.a = self.cpu.y;
        self.set_nz(self.cpu.a);
        false
    }

    pub fn txs(&mut self) -> (r: bool)
        ensures
            *final(self) == old(self).spec_txs(),
            old(self).spec_keeps_frame(*final(self)),
            r == false,
    {
        self.cpu.sp = self.cpu.x;
        false
    }
}

} // verus!
