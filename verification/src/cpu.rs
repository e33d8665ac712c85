use vstd::prelude::*;

use crate::bits::flag;
use crate::cartridge::Cartridge;
use crate::bits::with_flag;
use crate::cpu::addr_mode::word;
use crate::cpu::addr_mode::AddrMode;
use crate::cpu::breakpoint::BreakPointState;
use crate::cpu::instr::decode;
use crate::cpu::instr::spec_decode;
use crate::cpu::instr::Instr;
use crate::cpu::instr::Operand;
use crate::cpu_bus::dma::DmaStatus;
use crate::cpu_bus::CpuBusQueryItem;
use crate::ppu::Ppu;
use crate::ppu::PpuQueryItem;

pub mod addr_mode;
pub mod breakpoint;
pub mod instr;
pub mod op;
pub mod reference;

verus! {

/// The master clock: whether it runs, and how many ticks it has made.
#[derive(Debug, Clone, Copy, PartialEq, Eq, Structural)]
pub struct SystemClock {
    pub enabled: bool,
    pub cycles: usize,
}

impl Default for SystemClock {
    fn default() -> (r: Self)
        ensures
            r == (SystemClock { enabled: false, cycles: 0 }),
    {
        SystemClock { enabled: false, cycles: 0 }
    }
}

impl SystemClock {
    pub fn reset(&mut self)
        ensures
            *final(self) == *old(self),
    {
    }
}

/// The status register of the CPU: carry in bit 0, zero in bit 1, interrupt
/// disable in bit 2, decimal in bit 3, break in bit 4, the unused bit 5,
/// overflow in bit 6, negative in bit 7.
#[derive(Debug, Clone, Copy, PartialEq, Eq, Structural)]
pub struct CpuStatus(pub u8);

impl Default for CpuStatus {
    fn default() -> (r: Self)
        ensures
            r.0 == 0b0010_0100,
    {
        CpuStatus(0b0010_0100)
    }
}

impl CpuStatus {
    #[verifier::allow_in_spec]
    pub fn carry(&self) -> bool
        returns
            flag(self.0, 0x01),
    {
        flag(self.0, 0x01)
    }

    #[verifier::allow_in_spec]
    pub fn zero(&self) -> bool
        returns
            flag(self.0, 0x02),
    {
        flag(self.0, 0x02)
    }

    #[verifier::allow_in_spec]
    pub fn no_interrupt(&self) -> bool
        returns
            flag(self.0, 0x04),
    {
        flag(self.0, 0x04)
    }

    #[verifier::allow_in_spec]
    pub fn decimal(&self) -> bool
        returns
            flag(self.0, 0x08),
    {
        flag(self.0, 0x08)
    }

    #[verifier::allow_in_spec]
    pub fn b_flag(&self) -> bool
        returns
            flag(self.0, 0x10),
    {
        flag(self.0, 0x10)
    }

    #[verifier::allow_in_spec]
    pub fn u(&self) -> bool
        returns
            flag(self.0, 0x20),
    {
        flag(self.0, 0x20)
    }

    #[verifier::allow_in_spec]
    pub fn overflow(&self) -> bool
        returns
            flag(self.0, 0x40),
    {
        flag(self.0, 0x40)
    }

    #[verifier::allow_in_spec]
    pub fn negative(&self) -> bool
        returns
            flag(self.0, 0x80),
    {
        flag(self.0, 0x80)
    }

    /// The register with the flags of `mask` set or cleared.
    #[verifier::allow_in_spec]
    pub fn with(self, mask: u8, on: bool) -> Self
        returns
            CpuStatus(with_flag(self.0, mask, on)),
    {
        CpuStatus(with_flag(self.0, mask, on))
    }

    /// The register with zero and negative taken from a result: zero is
    /// set where the result is zero, negative where its bit 7 is set.
    #[verifier::allow_in_spec]
    pub fn with_nz(self, value: u8) -> Self
        returns
            self.with(0x02, value == 0).with(0x80, value & 0x80 != 0),
    {
        self.with(0x02, value == 0).with(0x80, value & 0x80 != 0)
    }

    pub fn set_carry(&mut self, on: bool)
        ensures
            *final(self) == old(self).with(0x01, on),
    {
        *self = self.with(0x01, on);
    }

    pub fn set_zero(&mut self, on: bool)
        ensures
            *final(self) == old(self).with(0x02, on),
    {
        *self = self.with(0x02, on);
    }

    pub fn set_no_interrupt(&mut self, on: bool)
        ensures
            *final(self) == old(self).with(0x04, on),
    {
        *self = self.with(0x04, on);
    }

    pub fn set_decimal(&mut self, on: bool)
        ensures
            *final(self) == old(self).with(0x08, on),
    {
        *self = self.with(0x08, on);
    }

    pub fn set_b_flag(&mut self, on: bool)
        ensures
            *final(self) == old(self).with(0x10, on),
    {
        *self = self.with(0x10, on);
    }

    pub fn set_overflow(&mut self, on: bool)
        ensures
            *final(self) == old(self).with(0x40, on),
    {
        *self = self.with(0x40, on);
    }

    pub fn set_negative(&mut self, on: bool)
        ensures
            *final(self) == old(self).with(0x80, on),
    {
        *self = self.with(0x80, on);
    }
}

/// The registers of the CPU, the cycles that the instruction under way
/// still takes, the last byte seen on the bus, and the addressing mode of
/// the instruction under way.
#[derive(Debug, Clone, Copy, PartialEq, Eq, Structural)]
pub struct Cpu {
    pub a: u8,
    pub x: u8,
    pub y: u8,
    pub sp: u8,
    pub pc: u16,
    pub status: CpuStatus,
    pub cycles: u8,
    pub open_bus: u8,
    pub addr_mode: AddrMode,
}

impl Default for Cpu {
    fn default() -> (r: Self)
        ensures
            r == Cpu::spec_default(),
    {
        Cpu {
            a: 0,
            x: 0,
            y: 0,
            sp: 0xFD,
            pc: 0xFFFC,
            cycles: 0,
            status: CpuStatus(0b0010_0100),
            open_bus: 0x00,
            addr_mode: AddrMode::_XXX,
        }
    }
}

impl Cpu {
    pub open spec fn spec_default() -> Self {
        Cpu {
            a: 0,
            x: 0,
            y: 0,
            sp: 0xFD,
            pc: 0xFFFC,
            cycles: 0,
            status: CpuStatus(0b0010_0100),
            open_bus: 0x00,
            addr_mode: AddrMode::_XXX,
        }
    }

    /// The registers after a reset to `addr`: the program counter is
    /// `addr`; A, X and Y are zero; the stack pointer is three lower,
    /// wrapping; the status is 0b0010_0100; eight cycles are to wait.
    pub open spec fn spec_reset(self, addr: u16) -> Self {
        Cpu {
            pc: addr,
            a: 0,
            x: 0,
            y: 0,
            sp: self.sp.wrapping_sub(3),
            status: CpuStatus(0b0010_0100),
            cycles: 8,
            ..self
        }
    }

    /// Gives the program counter and moves it on by one.
    pub fn adv(&mut self) -> (r: u16)
        ensures
            r == old(self).pc,
            *final(self) == (Cpu { pc: old(self).pc.wrapping_add(1), ..*old(self) }),
    {
        let pc = self.pc;
        self.pc = self.pc.wrapping_add(1);
        pc
    }

    pub fn reset(&mut self, addr: u16)
        ensures
            *final(self) == old(self).spec_reset(addr),
    {
        self.pc = addr;
        self.a = 0;
        self.x = 0;
        self.y = 0;
        self.sp = self.sp.wrapping_sub(3);
        self.status = CpuStatus(0b0010_0100);
        self.cycles = 8;
    }
}

/// The console: the CPU, everything on its bus, and the master clock.
pub struct CpuQueryItem {
    pub cpu: Cpu,
    pub bus: CpuBusQueryItem,
    pub clock: SystemClock,
}

impl Default for CpuQueryItem {
    /// The console at power-on, with no cartridge.
    fn default() -> (r: Self)
        ensures
            r.cpu == Cpu::spec_default(),
            r.clock == (SystemClock { enabled: false, cycles: 0 }),
            r.bus.spec_power_on(),
            r.bus.ppu.cartridge.is_none(),
            r.wf(),
    {
        CpuQueryItem {
            cpu: Cpu::default(),
            bus: CpuBusQueryItem::default(),
            clock: SystemClock::default(),
        }
    }
}

impl CpuQueryItem {
    /// The console at power-on with a cartridge inserted.
    pub fn new(cartridge: Cartridge) -> (r: Self)
        ensures
            r.cpu == Cpu::spec_default(),
            r.clock == (SystemClock { enabled: false, cycles: 0 }),
            r.bus.spec_power_on(),
            r.bus.ppu.cartridge == Some(cartridge),
            r.wf(),
    {
        let mut nes = CpuQueryItem::default();
        nes.bus.ppu.cartridge = Some(cartridge);
        nes
    }

    /// The counters of the PPU are in range.
    pub open spec fn wf(&self) -> bool {
        self.bus.wf()
    }

    /// Says whether the counters of the PPU are in range.
    pub fn in_range(&self) -> (r: bool)
        ensures
            r == self.wf(),
    {
        self.bus.ppu.ppu.in_range()
    }

    /// `after` is at the same dot of the same frame as this state, with
    /// the same frame-complete flag, and its counters are in range where
    /// they are in this state.
    pub open spec fn spec_keeps_frame(self, after: Self) -> bool {
        &&& self.bus.ppu.spec_same_dot(after.bus.ppu)
        &&& after.clock == self.clock
    }

    /// The state with other CPU registers.
    pub open spec fn spec_with_cpu(self, cpu: Cpu) -> Self {
        CpuQueryItem { cpu, ..self }
    }

    /// The state after a read at `addr`, and the byte read. Where the
    /// address is mapped the byte also stays on the bus; where nothing is
    /// mapped the read gives the byte that stayed on the bus last.
    #[verifier::opaque]
    pub open spec fn spec_bus_read(self, addr: u16) -> (Self, u8) {
        let (bus, r) = self.bus.spec_cpu_read(addr);
        match r {
            Some(d) => (CpuQueryItem { bus, cpu: Cpu { open_bus: d, ..self.cpu }, ..self }, d),
            None => (CpuQueryItem { bus, ..self }, self.cpu.open_bus),
        }
    }

    /// The state after a write of `data` at `addr`.
    #[verifier::opaque]
    pub open spec fn spec_bus_write(self, addr: u16, data: u8) -> Self {
        CpuQueryItem { bus: self.bus.spec_cpu_write(addr, data), ..self }
    }

    /// The state after a push: the byte is written at the stack pointer in
    /// page 1, and the stack pointer goes down by one, wrapping from 0x00
    /// to 0xFF.
    pub open spec fn spec_stack_push(self, value: u8) -> Self {
        let s = self.spec_bus_write((0x100 + self.cpu.sp) as u16, value);
        s.spec_with_cpu(Cpu { sp: s.cpu.sp.wrapping_sub(1), ..s.cpu })
    }

    /// The state after a pull, and the byte pulled: the stack pointer goes
    /// up by one, wrapping from 0xFF to 0x00, and the byte is read at the
    /// stack pointer in page 1.
    pub open spec fn spec_stack_pull(self) -> (Self, u8) {
        let sp = self.cpu.sp.wrapping_add(1);
        self.spec_with_cpu(Cpu { sp, ..self.cpu }).spec_bus_read((0x100 + sp) as u16)
    }

    /// The state after the word at `addr` and `addr + 1` has been read,
    /// low byte first.
    pub open spec fn spec_read_vector(self, addr: u16) -> (Self, u16) {
        let (s1, lo) = self.spec_bus_read(addr);
        let (s2, hi) = s1.spec_bus_read((addr + 1) as u16);
        (s2, word(lo, hi))
    }

    /// The state after an interrupt through the vector at `vector` that
    /// stalls the CPU for `stall` cycles: the program counter is pushed,
    /// high byte first, then the status with break clear and bit 5 set; the
    /// break flag is cleared and interrupt disable set; the program counter
    /// is the word at the vector.
    #[verifier::opaque]
    pub open spec fn spec_interrupt(self, vector: u16, stall: u8) -> Self {
        let s1 = self.spec_stack_push((self.cpu.pc / 0x100) as u8);
        let s2 = s1.spec_stack_push((s1.cpu.pc % 0x100) as u8);
        let s3 = s2.spec_stack_push(s2.cpu.status.with(0x10, false).with(0x20, true).0);
        let s4 = s3.spec_with_cpu(
            Cpu { status: s3.cpu.status.with(0x10, false).with(0x04, true), ..s3.cpu },
        );
        let (s5, pc) = s4.spec_read_vector(vector);
        s5.spec_with_cpu(Cpu { pc, cycles: s5.cpu.cycles.wrapping_add(stall), ..s5.cpu })
    }

    /// The state after a non-maskable interrupt: through the vector at
    /// 0xFFFA, stalling eight cycles.
    pub open spec fn spec_nmi(self) -> Self {
        self.spec_interrupt(0xFFFA, 8)
    }

    /// The state after an interrupt request: nothing with interrupt
    /// disable set, else through the vector at 0xFFFE, stalling seven
    /// cycles.
    pub open spec fn spec_irq(self) -> Self {
        if self.cpu.status.no_interrupt() {
            self
        } else {
            self.spec_interrupt(0xFFFE, 7)
        }
    }

    /// The state after a reset: the CPU is reset to the word at 0xFFFC,
    /// and the bus is reset.
    #[verifier::opaque]
    pub open spec fn spec_reset(self) -> Self {
        let (s, addr) = self.spec_read_vector(0xFFFC);
        CpuQueryItem { cpu: s.cpu.spec_reset(addr), bus: s.bus.spec_reset(), ..s }
    }

    pub fn bus_read(&mut self, addr: u16) -> (r: u8)
        ensures
            (*final(self), r) == old(self).spec_bus_read(addr),
            old(self).spec_keeps_frame(*final(self)),
            final(self).cpu == (Cpu { open_bus: final(self).cpu.open_bus, ..old(self).cpu }),
    {
        proof {
            reveal(CpuQueryItem::spec_bus_read);
        }
        match self.bus.cpu_read(addr) {
            Some(d) => {
                self.cpu.open_bus = d;
                d
            },
            None => self.cpu.open_bus,
        }
    }

    pub fn bus_write(&mut self, addr: u16, data: u8)
        ensures
            *final(self) == old(self).spec_bus_write(addr, data),
            old(self).spec_keeps_frame(*final(self)),
            final(self).cpu == old(self).cpu,
    {
        proof {
            reveal(CpuQueryItem::spec_bus_write);
        }
        self.bus.cpu_write(addr, data);
    }

    pub fn stack_push(&mut self, value: u8)
        ensures
            *final(self) == old(self).spec_stack_push(value),
            old(self).spec_keeps_frame(*final(self)),
    {
        self.bus_write(0x100 + self.cpu.sp as u16, value);
        self.cpu.sp = self.cpu.sp.wrapping_sub(1);
    }

    pub fn stack_pull(&mut self) -> (r: u8)
        ensures
            (*final(self), r) == old(self).spec_stack_pull(),
            old(self).spec_keeps_frame(*final(self)),
    {
        self.cpu.sp = self.cpu.sp.wrapping_add(1);
        self.bus_read(0x100 + self.cpu.sp as u16)
    }

    pub fn read_vector(&mut self, addr: u16) -> (r: u16)
        requires
            addr < 0xFFFF,
        ensures
            (*final(self), r) == old(self).spec_read_vector(addr),
            old(self).spec_keeps_frame(*final(self)),
    {
        let lo = self.bus_read(addr);
        let hi = self.bus_read(addr + 1);
        word(lo, hi)
    }

    fn interrupt(&mut self, vector: u16, stall: u8)
        requires
            vector < 0xFFFF,
        ensures
            *final(self) == old(self).spec_interrupt(vector, stall),
            old(self).spec_keeps_frame(*final(self)),
    {
        proof {
            reveal(CpuQueryItem::spec_interrupt);
        }
        self.stack_push((self.cpu.pc / 0x100) as u8);
        self.stack_push((self.cpu.pc % 0x100) as u8);
        self.stack_push(self.cpu.status.with(0x10, false).with(0x20, true).0);
        self.cpu.status.set_b_flag(false);
        self.cpu.status.set_no_interrupt(true);
        self.cpu.pc = self.read_vector(vector);
        self.cpu.cycles = self.cpu.cycles.wrapping_add(stall);
    }

    pub fn irq(&mut self)
        ensures
            *final(self) == old(self).spec_irq(),
            old(self).spec_keeps_frame(*final(self)),
    {
        if !self.cpu.status.no_interrupt() {
            self.interrupt(0xFFFE, 7);
        }
    }

    pub fn nmi(&mut self)
        ensures
            *final(self) == old(self).spec_nmi(),
            old(self).spec_keeps_frame(*final(self)),
    {
        self.interrupt(0xFFFA, 8);
    }

    pub fn reset(&mut self)
        requires
            old(self).wf(),
        ensures
            *final(self) == old(self).spec_reset(),
            final(self).wf(),
    {
        proof {
            reveal(CpuQueryItem::spec_reset);
        }
        let addr = self.read_vector(0xFFFC);
        self.cpu.reset(addr);
        self.clock.reset();
        self.bus.reset();
    }
}

impl CpuQueryItem {
    /// The state after an instruction has been carried out, and the extra
    /// cycle that it takes: the operand is resolved by the instruction's
    /// addressing mode, the operation works on it, and a crossed page costs
    /// one cycle where the operation only reads its operand.
    #[verifier::opaque]
    pub open spec fn spec_execute(self, instr: Instr) -> (Self, u8) {
        let s1 = self.spec_with_cpu(Cpu { addr_mode: instr.addr_mode, ..self.cpu });
        let (s2, (addr, page_crossed)) = s1.spec_addr_mode();
        let s3 = s2.spec_operate(instr.op, addr);
        (
            s3,
            if page_crossed && Self::spec_page_sensitive(instr.op) {
                1
            } else {
                0
            },
        )
    }

    /// The state one CPU cycle later. With no cycles to wait, the opcode
    /// at the program counter is read and looked up, the instruction is
    /// carried out at once, and its cycles but this one are left to wait;
    /// else one cycle less is left to wait.
    #[verifier::opaque]
    pub open spec fn spec_tick(self) -> Self {
        if self.cpu.cycles == 0 {
            let (s1, opcode) = self.spec_operand();
            let instr = spec_decode(opcode);
            let (s2, extra) = s1.spec_execute(instr);
            s2.spec_with_cpu(
                Cpu {
                    cycles: s2.cpu.cycles.wrapping_add((extra + instr.cycles - 1) as u8),
                    ..s2.cpu
                },
            )
        } else {
            self.spec_with_cpu(Cpu { cycles: (self.cpu.cycles - 1) as u8, ..self.cpu })
        }
    }

    /// The state after the CPU's share of a master tick: one cycle of an
    /// OAM transfer while one is under way, else one CPU cycle. The number
    /// of the CPU cycle is the number of the master tick divided by three.
    pub open spec fn spec_cpu_slot(self) -> Self {
        match self.bus.dma.status {
            DmaStatus::Inactive => self.spec_tick(),
            _ => CpuQueryItem {
                bus: self.bus.spec_dma_cycle((self.clock.cycles / 3) % 2 == 1),
                ..self
            },
        }
    }

    /// The state after the NMI line has been looked at: where the PPU has
    /// raised it, it is taken and the CPU is interrupted.
    pub open spec fn spec_take_nmi(self) -> Self {
        if self.bus.ppu.ppu.nmi {
            (CpuQueryItem {
                bus: CpuBusQueryItem {
                    ppu: PpuQueryItem {
                        ppu: Ppu { nmi: false, ..self.bus.ppu.ppu },
                        ..self.bus.ppu
                    },
                    ..self.bus
                },
                ..self
            }).spec_nmi()
        } else {
            self
        }
    }

    /// The state one master tick later: the clock counts the tick, the PPU
    /// and the APU take it, on every third tick the CPU or the OAM transfer
    /// takes its cycle, and at the end the NMI line is looked at.
    pub open spec fn spec_clock(self) -> Self {
        let cycles = self.clock.cycles.wrapping_add(1);
        let s1 = CpuQueryItem {
            clock: SystemClock { cycles, ..self.clock },
            bus: self.bus.spec_tick(cycles).0,
            ..self
        };
        let s2 = if cycles % 3 == 0 {
            s1.spec_cpu_slot()
        } else {
            s1
        };
        s2.spec_take_nmi()
    }

    /// The state `n` master ticks later.
    pub open spec fn spec_clocks(self, n: nat) -> Self
        decreases n,
    {
        if n == 0 {
            self
        } else {
            self.spec_clocks((n - 1) as nat).spec_clock()
        }
    }

    /// The addresses of the breakpoints, if there are any.
    pub open spec fn spec_set_of(breakpoints: Option<&BreakPointState>) -> Option<Set<u16>> {
        match breakpoints {
            Some(b) => Some(b@),
            None => None,
        }
    }

    /// Whether the program counter is at one of the breakpoints, if there
    /// are any.
    pub open spec fn spec_at_breakpoint(self, breakpoints: Option<Set<u16>>) -> bool {
        match breakpoints {
            Some(set) => set.contains(self.cpu.pc),
            None => false,
        }
    }

    /// Whether a run to the end of the frame goes on through the first `n`
    /// master ticks: before each of them the frame is not complete, and
    /// after each but the last the program counter is at no breakpoint.
    pub open spec fn spec_runs_on(self, breakpoints: Option<Set<u16>>, n: nat) -> bool {
        forall|k: nat|
            k < n ==> !(#[trigger] self.spec_clocks(k)).bus.ppu.ppu.frame_complete && (k >= 1
                ==> !self.spec_clocks(k).spec_at_breakpoint(breakpoints))
    }

    /// The state with the frame-complete flag taken away.
    pub open spec fn spec_frame_taken(self) -> Self {
        CpuQueryItem {
            bus: CpuBusQueryItem {
                ppu: PpuQueryItem {
                    ppu: Ppu { frame_complete: false, ..self.bus.ppu.ppu },
                    ..self.bus.ppu
                },
                ..self.bus
            },
            ..self
        }
    }

    /// What a run to the end of the frame that stops after `n` master
    /// ticks gives: stopped at a breakpoint, the state as it is and `true`;
    /// stopped by the end of the frame, the state with the frame-complete
    /// flag taken and `false`.
    pub open spec fn spec_stops_after(
        self,
        breakpoints: Option<Set<u16>>,
        n: nat,
        after: Self,
        stopped: bool,
    ) -> bool {
        let t = self.spec_clocks(n);
        &&& self.spec_runs_on(breakpoints, n)
        &&& if n >= 1 && t.spec_at_breakpoint(breakpoints) {
            stopped && after == t
        } else {
            !stopped && t.bus.ppu.ppu.frame_complete && after == t.spec_frame_taken()
        }
    }

    /// How many dots are left in the frame, and one more; zero once the
    /// frame is complete.
    pub open spec fn spec_frame_left(self) -> int {
        if self.bus.ppu.ppu.frame_complete {
            0
        } else {
            1 + crate::ppu::timing::spec_frame_dots() - self.bus.ppu.spec_dot_index()
        }
    }

    /// The instruction that stands at `addr`, with its operand, read
    /// without changing anything.
    pub open spec fn spec_instr_at(self, addr: u16) -> (Instr, Operand) {
        let instr = spec_decode(self.bus.spec_peek(addr));
        let operand = if instr.spec_operand_len() == 0 {
            Operand::Unary
        } else if instr.spec_operand_len() == 1 {
            Operand::Byte(self.bus.spec_peek(addr.wrapping_add(1)))
        } else {
            Operand::Word(
                word(
                    self.bus.spec_peek(addr.wrapping_add(1)),
                    self.bus.spec_peek(addr.wrapping_add(2)),
                ),
            )
        };
        (instr, operand)
    }

    /// The address of instruction `i` of a listing that begins at `addr`:
    /// each instruction stands after the one before it and its operand.
    pub open spec fn spec_listing_addr(self, addr: u16, i: nat) -> u16
        decreases i,
    {
        if i == 0 {
            addr
        } else {
            let before = self.spec_listing_addr(addr, (i - 1) as nat);
            before.wrapping_add((self.spec_instr_at(before).0.spec_operand_len() + 1) as u16)
        }
    }

    pub fn instr_at(&self, addr: u16) -> (r: (Instr, Operand))
        ensures
            r == self.spec_instr_at(addr),
    {
        let opcode = self.bus.peek(addr);
        let instr = decode(opcode);
        let len = instr.operand_len();
        let operand = if len == 0 {
            Operand::Unary
        } else if len == 1 {
            Operand::Byte(self.bus.peek(addr.wrapping_add(1)))
        } else {
            Operand::Word(
                word(self.bus.peek(addr.wrapping_add(1)), self.bus.peek(addr.wrapping_add(2))),
            )
        };
        (instr, operand)
    }

    /// Lists `count` instructions from the program counter on, each with
    /// its address and its operand, without changing anything.
    pub fn disassemble(&self, count: u16) -> (r: Vec<(u16, Instr, Operand)>)
        ensures
            r@.len() == count,
            forall|i: int|
                0 <= i < count ==> (#[trigger] r@[i]).0 == self.spec_listing_addr(
                    self.cpu.pc,
                    i as nat,
                ) && (r@[i].1, r@[i].2) == self.spec_instr_at(r@[i].0),
    {
        let mut pc = self.cpu.pc;
        let mut disassembly: Vec<(u16, Instr, Operand)> = Vec::new();
        let mut n: u16 = 0;
        while n < count
            invariant
                n <= count,
                disassembly@.len() == n,
                pc == self.spec_listing_addr(self.cpu.pc, n as nat),
                forall|i: int|
                    0 <= i < n ==> (#[trigger] disassembly@[i]).0 == self.spec_listing_addr(
                        self.cpu.pc,
                        i as nat,
                    ) && (disassembly@[i].1, disassembly@[i].2) == self.spec_instr_at(
                        disassembly@[i].0,
                    ),
            decreases count - n,
        {
            let (instr, operand) = self.instr_at(pc);
            disassembly.push((pc, instr, operand));
            pc = pc.wrapping_add(instr.operand_len() + 1);
            n = n + 1;
        }
        disassembly
    }

    pub fn execute(&mut self, instr: &Instr) -> (r: u8)
        requires
            instr.spec_has_target(),
        ensures
            (*final(self), r) == old(self).spec_execute(*instr),
            old(self).spec_keeps_frame(*final(self)),
            r <= 1,
    {
        proof {
            reveal(CpuQueryItem::spec_execute);
        }
        self.cpu.addr_mode = instr.addr_mode();
        let (addr, page_crossed) = self.addr_mode();
        let page_sensitive = self.operate(instr.op(), addr);
        if page_crossed && page_sensitive {
            1
        } else {
            0
        }
    }

    pub fn tick(&mut self)
        ensures
            *final(self) == old(self).spec_tick(),
            old(self).spec_keeps_frame(*final(self)),
    {
        proof {
            reveal(CpuQueryItem::spec_tick);
        }
        if self.cpu.cycles == 0 {
            let opcode = self.operand();
            let instr = decode(opcode);
            let additional_cycles = self.execute(&instr);
            self.cpu.cycles = self.cpu.cycles.wrapping_add(additional_cycles + instr.cycles() - 1);
        } else {
            self.cpu.cycles -= 1;
        }
    }

    fn cpu_slot(&mut self)
        ensures
            *final(self) == old(self).spec_cpu_slot(),
            old(self).spec_keeps_frame(*final(self)),
    {
        match self.bus.dma() {
            DmaStatus::Inactive => self.tick(),
            _ => {
                let odd = (self.clock.cycles / 3) % 2 == 1;
                self.bus.dma_cycle(odd);
            },
        }
    }

    /// Advances the console by one master tick.
    pub fn clock(&mut self)
        requires
            old(self).wf(),
        ensures
            *final(self) == old(self).spec_clock(),
            final(self).wf(),
            final(self).bus.ppu.ppu.cycle == old(self).bus.ppu.spec_tick().ppu.cycle,
            final(self).bus.ppu.ppu.scanline == old(self).bus.ppu.spec_tick().ppu.scanline,
            final(self).bus.ppu.ppu.frame_complete == old(
                self,
            ).bus.ppu.spec_tick().ppu.frame_complete,
    {
        self.clock.cycles = self.clock.cycles.wrapping_add(1);
        let _ = self.bus.tick(self.clock.cycles);
        if self.clock.cycles % 3 == 0 {
            self.cpu_slot();
        }
        if self.bus.nmi() {
            self.nmi();
        }
    }

    /// Runs the console until the frame is complete or, after at least
    /// one master tick, the program counter is at a breakpoint; says
    /// whether a breakpoint stopped the run.
    pub fn next_frame(&mut self, breakpoints: Option<&BreakPointState>) -> (r: bool)
        requires
            old(self).wf(),
        ensures
            final(self).wf(),
            exists|n: nat| #[trigger]
                old(self).spec_stops_after(Self::spec_set_of(breakpoints), n, *final(self), r),
    {
        let ghost start = *self;
        let ghost set: Option<Set<u16>> = Self::spec_set_of(breakpoints);
        let ghost mut n: nat = 0;
        loop
            invariant
                self.wf(),
                start == *old(self),
                *self == start.spec_clocks(n),
                start.spec_runs_on(set, n),
                n >= 1 ==> !self.spec_at_breakpoint(set),
                set == Self::spec_set_of(breakpoints),
            decreases self.spec_frame_left(),
        {
            let ghost before = *self;
            if self.bus.frame_complete() {
                proof {
                    assert(start.spec_stops_after(set, n, *self, false));
                }
                return false;
            }
            proof {
                assert(*self == before);
                crate::ppu::timing::lemma_tick_counters(self.bus.ppu);
            }
            self.clock();
            proof {
                assert(start.spec_clocks(n + 1) == *self);
                assert forall|k: nat| k < n + 1 implies !(#[trigger] start.spec_clocks(
                    k,
                )).bus.ppu.ppu.frame_complete && (k >= 1 ==> !start.spec_clocks(
                    k,
                ).spec_at_breakpoint(set)) by {
                    if k < n {
                    } else {
                        assert(k == n);
                    }
                }
                n = n + 1;
            }
            let hit = match breakpoints {
                Some(b) => b.check(self.cpu.pc),
                None => false,
            };
            if hit {
                proof {
                    assert(start.spec_stops_after(set, n, *self, true));
                }
                return true;
            }
        }
    }
}

} // verus!
