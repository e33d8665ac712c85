use vstd::prelude::*;

use crate::apu::Apu;
use crate::cpu_bus::dma::Dma;
use crate::cpu_bus::dma::DmaStatus;
use crate::ppu::Ppu;
use crate::ppu::PpuQueryItem;
use crate::ram::Ram;

pub mod dma;
pub mod transfer;

verus! {

/// A controller: the buttons as they are held now, and the shift register
/// that the CPU reads them from. A is bit 7, then B, Select, Start, Up, Down,
/// Left, and Right in bit 0.
#[derive(Debug, Clone, Copy, PartialEq, Eq, Structural)]
pub struct Controller {
    pub state: u8,
    pub shifter: u8,
}

impl Default for Controller {
    fn default() -> (r: Self)
        ensures
            r == (Controller { state: 0, shifter: 0 }),
    {
        Controller { state: 0, shifter: 0 }
    }
}

/// The button mask for eight buttons that are held or not.
pub open spec fn spec_button_mask(
    a: bool,
    b: bool,
    select: bool,
    start: bool,
    up: bool,
    down: bool,
    left: bool,
    right: bool,
) -> u8 {
    ((if a {
        0x80int
    } else {
        0int
    }) + (if b {
        0x40int
    } else {
        0int
    }) + (if select {
        0x20int
    } else {
        0int
    }) + (if start {
        0x10int
    } else {
        0int
    }) + (if up {
        0x08int
    } else {
        0int
    }) + (if down {
        0x04int
    } else {
        0int
    }) + (if left {
        0x02int
    } else {
        0int
    }) + (if right {
        0x01int
    } else {
        0int
    })) as u8
}

pub fn button_mask(
    a: bool,
    b: bool,
    select: bool,
    start: bool,
    up: bool,
    down: bool,
    left: bool,
    right: bool,
) -> (r: u8)
    ensures
        r == spec_button_mask(a, b, select, start, up, down, left, right),
{
    let mut state: u8 = 0;
    if a {
        state = state + 0x80;
    }
    if b {
        state = state + 0x40;
    }
    if select {
        state = state + 0x20;
    }
    if start {
        state = state + 0x10;
    }
    if up {
        state = state + 0x08;
    }
    if down {
        state = state + 0x04;
    }
    if left {
        state = state + 0x02;
    }
    if right {
        state = state + 0x01;
    }
    state
}

impl Controller {
    /// The controller after a read of its shift register, and the bit
    /// read: the top bit comes out and the others move one place up.
    pub open spec fn spec_read_shifter(self) -> (Self, u8) {
        (
            Controller { shifter: self.shifter << 1, ..self },
            if self.shifter & 0x80 != 0 {
                1u8
            } else {
                0u8
            },
        )
    }

    /// Takes the buttons as they are held now.
    pub fn set_state(&mut self, state: u8)
        ensures
            *final(self) == (Controller { state, ..*old(self) }),
    {
        self.state = state;
    }

    /// Latches the buttons into the shift register.
    pub fn store_shifter(&mut self)
        ensures
            *final(self) == (Controller { shifter: old(self).state, ..*old(self) }),
    {
        self.shifter = self.state;
    }

    pub fn read_shifter(&mut self) -> (r: u8)
        ensures
            (*final(self), r) == old(self).spec_read_shifter(),
    {
        let result: u8 = if self.shifter & 0x80 != 0 {
            1
        } else {
            0
        };
        self.shifter = self.shifter << 1;
        result
    }
}

/// The two KiB of work RAM, seen four times from 0x0000 to 0x1FFF.
pub struct Wram {
    pub data: Ram<0x800>,
}

impl Default for Wram {
    fn default() -> (r: Self)
        ensures
            forall|i: int| 0 <= i < 0x800 ==> r.data@[i] == 0u8,
    {
        Wram { data: Ram::default() }
    }
}

impl Wram {
    pub open spec fn spec_read(self, addr: u16) -> u8 {
        self.data.spec_read(addr)
    }

    pub open spec fn spec_write(self, addr: u16, value: u8) -> Self {
        Wram { data: self.data.spec_write(addr, value) }
    }

    pub fn read(&self, addr: u16) -> (r: u8)
        ensures
            r == self.spec_read(addr),
    {
        self.data.read(addr)
    }

    pub fn write(&mut self, addr: u16, value: u8)
        ensures
            *final(self) == old(self).spec_write(addr, value),
    {
        self.data.write(addr, value);
    }
}

/// Everything that the CPU reaches through its address bus: work RAM, the
/// PPU with the cartridge, the APU, the controller, and the OAM transfer.
pub struct CpuBusQueryItem {
    pub wram: Wram,
    pub dma: Dma,
    pub controller: Controller,
    pub ppu: PpuQueryItem,
    pub apu: Apu,
}

impl Default for CpuBusQueryItem {
    /// The bus at power-on, with no cartridge.
    fn default() -> (r: Self)
        ensures
            r.spec_power_on(),
            r.ppu.cartridge.is_none(),
            r.wf(),
    {
        CpuBusQueryItem {
            wram: Wram::default(),
            dma: Dma::default(),
            controller: Controller::default(),
            ppu: PpuQueryItem::default(),
            apu: Apu::default(),
        }
    }
}

impl CpuBusQueryItem {
    /// The bus is as at power-on: work RAM zero, the PPU and the APU as at
    /// power-on, no button held, no transfer under way. The cartridge does
    /// not count.
    pub open spec fn spec_power_on(self) -> bool {
        &&& forall|i: int| 0 <= i < 0x800 ==> self.wram.data@[i] == 0u8
        &&& self.dma == Dma::spec_default()
        &&& self.controller == (Controller { state: 0, shifter: 0 })
        &&& self.ppu.ppu.spec_power_on()
        &&& self.apu.spec_power_on()
    }

    /// The counters of the PPU are in range.
    pub open spec fn wf(&self) -> bool {
        self.ppu.ppu.wf()
    }

    /// The bus after a reset: the PPU's control, mask and scroll registers,
    /// its read buffer and write latch are cleared and its screen is black;
    /// the APU, the controller and the OAM transfer are as at power-on.
    /// Memory and cartridge stay.
    #[verifier::opaque]
    pub open spec fn spec_reset(self) -> Self {
        let p = self.ppu.spec_reset();
        CpuBusQueryItem {
            ppu: PpuQueryItem {
                ppu: Ppu {
                    screen_buffer: vstd::array::spec_array_fill_for_copy_type::<[u8; 256], 240>(
                        vstd::array::spec_array_fill_for_copy_type::<u8, 256>(0u8),
                    ),
                    ..p.ppu
                },
                ..p
            },
            apu: Apu {
                pulse: [crate::apu::Pulse::spec_new(true), crate::apu::Pulse::spec_new(false)],
                triangle: crate::apu::Triangle::spec_new(),
                noise: crate::apu::Noise::spec_new(),
                status: crate::apu::ApuStatus(0),
                frame_counter: crate::apu::FrameCounter(0),
                cycles: 0,
            },
            controller: Controller { state: 0, shifter: 0 },
            dma: Dma::spec_default(),
            ..self
        }
    }

    pub fn reset(&mut self)
        requires
            old(self).wf(),
        ensures
            *final(self) == old(self).spec_reset(),
            final(self).wf(),
    {
        proof {
            reveal(CpuBusQueryItem::spec_reset);
        }
        self.ppu.reset();
        self.ppu.ppu.screen_buffer = [[0u8; 256]; 240];
        self.apu = Apu::default();
        self.controller = Controller::default();
        self.dma = Dma::default();
        proof {
            assert(self.apu.pulse =~= [
                crate::apu::Pulse::spec_new(true),
                crate::apu::Pulse::spec_new(false),
            ]);
            assert(self.ppu.ppu.screen_buffer
                =~= vstd::array::spec_array_fill_for_copy_type::<[u8; 256], 240>(
                vstd::array::spec_array_fill_for_copy_type::<u8, 256>(0u8),
            ));
        }
    }

    /// Takes the PPU's frame-complete flag.
    pub fn frame_complete(&mut self) -> (r: bool)
        ensures
            r == old(self).ppu.ppu.frame_complete,
            *final(self) == (CpuBusQueryItem {
                ppu: PpuQueryItem {
                    ppu: Ppu { frame_complete: false, ..old(self).ppu.ppu },
                    ..old(self).ppu
                },
                ..*old(self)
            }),
    {
        self.ppu.frame_complete()
    }

    /// Takes the PPU's NMI line.
    pub fn nmi(&mut self) -> (r: bool)
        ensures
            r == old(self).ppu.ppu.nmi,
            *final(self) == (CpuBusQueryItem {
                ppu: PpuQueryItem { ppu: Ppu { nmi: false, ..old(self).ppu.ppu }, ..old(self).ppu },
                ..*old(self)
            }),
    {
        self.ppu.nmi()
    }

    /// The interrupt line of the APU, which it never raises.
    pub fn irq(&mut self) -> (r: bool)
        ensures
            !r,
            *final(self) == *old(self),
    {
        self.apu.irq()
    }

    /// The bus after one master tick whose number is `cycles`, and whether
    /// a step of the APU's frame sequencer fell on it: the PPU moves one
    /// dot, and the APU counts the tick.
    #[verifier::opaque]
    pub open spec fn spec_tick(self, cycles: usize) -> (Self, bool) {
        let (apu, step) = self.apu.spec_tick(cycles);
        (CpuBusQueryItem { ppu: self.ppu.spec_tick(), apu, ..self }, step)
    }

    pub fn tick(&mut self, cycles: usize) -> (r: bool)
        requires
            old(self).wf(),
        ensures
            (*final(self), r) == old(self).spec_tick(cycles),
            final(self).wf(),
            final(self).ppu == old(self).ppu.spec_tick(),
    {
        proof {
            reveal(CpuBusQueryItem::spec_tick);
        }
        self.ppu.tick();
        self.apu.tick(cycles)
    }

    pub fn dma(&self) -> (r: DmaStatus)
        ensures
            r == self.dma.status,
    {
        self.dma.status
    }

    pub fn start_dma(&mut self)
        ensures
            *final(self) == (CpuBusQueryItem {
                dma: Dma { status: DmaStatus::Transfering, ..old(self).dma },
                ..*old(self)
            }),
    {
        self.dma.status = DmaStatus::Transfering;
    }

    /// What a look at `addr` shows, with nothing changed by the look: work
    /// RAM below 0x2000, the PPU's registers as they stand up to 0x3FFF, the
    /// cartridge from 0x4020 on, and zero elsewhere.
    pub open spec fn spec_peek(self, addr: u16) -> u8 {
        if addr <= 0x1FFF {
            self.wram.spec_read(addr)
        } else if addr <= 0x3FFF || addr >= 0x4020 {
            self.ppu.spec_peek(addr)
        } else {
            0
        }
    }

    pub fn peek(&self, addr: u16) -> (r: u8)
        ensures
            r == self.spec_peek(addr),
    {
        if addr <= 0x1FFF {
            self.wram.read(addr)
        } else if addr <= 0x3FFF || addr >= 0x4020 {
            self.ppu.peek(addr)
        } else {
            0x00
        }
    }

    /// The bus after a CPU read at `addr`, and the byte read, if the
    /// address is mapped: work RAM below 0x2000, the PPU's registers up to
    /// 0x3FFF, the controller at 0x4016, the cartridge from 0x4020 on.
    #[verifier::opaque]
    pub open spec fn spec_cpu_read(self, addr: u16) -> (Self, Option<u8>) {
        if addr <= 0x1FFF {
            (self, Some(self.wram.spec_read(addr)))
        } else if addr <= 0x3FFF || addr >= 0x4020 {
            let (ppu, r) = self.ppu.spec_cpu_read(addr);
            (CpuBusQueryItem { ppu, ..self }, r)
        } else if addr == 0x4016 {
            let (controller, bit) = self.controller.spec_read_shifter();
            (CpuBusQueryItem { controller, ..self }, Some(bit))
        } else {
            (self, None)
        }
    }

    pub fn cpu_read(&mut self, addr: u16) -> (r: Option<u8>)
        ensures
            (*final(self), r) == old(self).spec_cpu_read(addr),
            old(self).ppu.spec_same_dot(final(self).ppu),
    {
        proof {
            reveal(CpuBusQueryItem::spec_cpu_read);
        }
        if addr <= 0x1FFF {
            Some(self.wram.read(addr))
        } else if addr <= 0x3FFF || addr >= 0x4020 {
            self.ppu.cpu_read(addr)
        } else if addr == 0x4016 {
            Some(self.controller.read_shifter())
        } else {
            None
        }
    }

    /// The bus after a CPU write at `addr`: work RAM below 0x2000, the
    /// PPU's registers up to 0x3FFF, the APU from 0x4000 to 0x4013 and at
    /// 0x4015 and 0x4017, the start of an OAM transfer from page `data` at
    /// 0x4014, the controller's latch at 0x4016, the cartridge from 0x4020
    /// on; other addresses change nothing.
    #[verifier::opaque]
    pub open spec fn spec_cpu_write(self, addr: u16, data: u8) -> Self {
        if addr <= 0x1FFF {
            CpuBusQueryItem { wram: self.wram.spec_write(addr, data), ..self }
        } else if addr <= 0x3FFF || addr >= 0x4020 {
            CpuBusQueryItem { ppu: self.ppu.spec_cpu_write(addr, data), ..self }
        } else if addr <= 0x4013 || addr == 0x4015 || addr == 0x4017 {
            CpuBusQueryItem { apu: self.apu.spec_cpu_write(addr, data), ..self }
        } else if addr == 0x4014 {
            CpuBusQueryItem {
                dma: Dma { page: data, addr: 0, status: DmaStatus::Idling, ..self.dma },
                ..self
            }
        } else if addr == 0x4016 {
            CpuBusQueryItem {
                controller: Controller { shifter: self.controller.state, ..self.controller },
                ..self
            }
        } else {
            self
        }
    }

    pub fn cpu_write(&mut self, addr: u16, data: u8)
        ensures
            *final(self) == old(self).spec_cpu_write(addr, data),
            old(self).ppu.spec_same_dot(final(self).ppu),
    {
        proof {
            reveal(CpuBusQueryItem::spec_cpu_write);
        }
        if addr <= 0x1FFF {
            self.wram.write(addr, data);
        } else if addr <= 0x3FFF || addr >= 0x4020 {
            self.ppu.cpu_write(addr, data);
        } else if addr <= 0x4013 || addr == 0x4015 || addr == 0x4017 {
            self.apu.cpu_write(addr, data);
        } else if addr == 0x4014 {
            self.dma.page = data;
            self.dma.addr = 0x00;
            self.dma.status = DmaStatus::Idling;
        } else if addr == 0x4016 {
            self.controller.store_shifter();
        }
    }

    /// The bus after the read half of a transfer step: the byte at the
    /// transfer's source address, or zero where nothing is mapped, is in
    /// the transfer's data latch.
    pub open spec fn spec_dma_read(self) -> Self {
        let (s, r) = self.spec_cpu_read(self.dma.spec_source());
        CpuBusQueryItem {
            dma: Dma {
                data: match r {
                    Some(d) => d,
                    None => 0,
                },
                ..s.dma
            },
            ..s
        }
    }

    pub fn dma_read(&mut self)
        ensures
            *final(self) == old(self).spec_dma_read(),
            old(self).ppu.spec_same_dot(final(self).ppu),
    {
        proof {
            reveal(CpuBusQueryItem::spec_cpu_read);
        }
        let source: u16 = (self.dma.page as u16) * 0x100 + (self.dma.addr as u16);
        let data = self.cpu_read(source);
        self.dma.data = match data {
            Some(d) => d,
            None => 0x00,
        };
    }

    /// The bus after the write half of a transfer step: the latched byte
    /// is in OAM at the transfer's place, the place has moved on, and after
    /// the last byte of the page the transfer is over.
    pub open spec fn spec_dma_write(self) -> Self {
        CpuBusQueryItem {
            ppu: self.ppu.spec_oam_write(self.dma.addr, self.dma.data),
            dma: Dma {
                addr: self.dma.addr.wrapping_add(1),
                status: if self.dma.addr == 0xFF {
                    DmaStatus::Inactive
                } else {
                    self.dma.status
                },
                ..self.dma
            },
            ..self
        }
    }

    pub fn dma_write(&mut self)
        ensures
            *final(self) == old(self).spec_dma_write(),
            old(self).ppu.spec_same_dot(final(self).ppu),
    {
        self.ppu.oam_write(self.dma.addr, self.dma.data);
        self.dma.addr = self.dma.addr.wrapping_add(1);
        if self.dma.addr == 0x00 {
            self.dma.status = DmaStatus::Inactive;
        }
    }

    /// The bus after one CPU cycle of a transfer, `odd` telling whether
    /// the cycle's number is odd. A transfer that was asked for begins on
    /// an odd cycle; from then on every even cycle reads a byte and every
    /// odd cycle writes it.
    #[verifier::opaque]
    pub open spec fn spec_dma_cycle(self, odd: bool) -> Self {
        match self.dma.status {
            DmaStatus::Inactive => self,
            DmaStatus::Idling => if odd {
                CpuBusQueryItem { dma: Dma { status: DmaStatus::Transfering, ..self.dma }, ..self }
            } else {
                self
            },
            DmaStatus::Transfering => if odd {
                self.spec_dma_write()
            } else {
                self.spec_dma_read()
            },
        }
    }

    /// Does the work of one CPU cycle of a transfer.
    pub fn dma_cycle(&mut self, odd: bool)
        ensures
            *final(self) == old(self).spec_dma_cycle(odd),
            old(self).ppu.spec_same_dot(final(self).ppu),
    {
        proof {
            reveal(CpuBusQueryItem::spec_dma_cycle);
        }
        match self.dma.status {
            DmaStatus::Inactive => {},
            DmaStatus::Idling => {
                if odd {
                    self.start_dma();
                }
            },
            DmaStatus::Transfering => {
                if odd {
                    self.dma_write();
                } else {
                    self.dma_read();
                }
            },
        }
    }
}

} // verus!
