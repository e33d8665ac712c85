use nes_rs::cartridge::Cartridge;
use nes_rs::cpu_bus::dma::{Dma, DmaStatus};
use nes_rs::cpu_bus::{button_mask, Controller, CpuBusQueryItem, Wram};

fn bus() -> CpuBusQueryItem {
    let mut bus = CpuBusQueryItem::default();
    bus.ppu.cartridge = Some(Cartridge::testing(None));
    bus
}

#[test]
fn work_ram_is_mirrored_four_times() {
    let mut bus = bus();
    bus.cpu_write(0x0123, 0x45);
    assert_eq!(bus.cpu_read(0x0123), Some(0x45));
    assert_eq!(bus.cpu_read(0x0923), Some(0x45));
    assert_eq!(bus.cpu_read(0x1123), Some(0x45));
    assert_eq!(bus.cpu_read(0x1923), Some(0x45));
    let mut wram = Wram::default();
    wram.write(0x0801, 9);
    assert_eq!(wram.read(0x0001), 9);
}

#[test]
fn address_decoding() {
    let mut bus = bus();
    bus.cpu_write(0x2001, 0x1E);
    assert_eq!(bus.ppu.ppu.registers.mask.0, 0x1E);
    bus.cpu_write(0x3FF9, 0x06);
    assert_eq!(bus.ppu.ppu.registers.mask.0, 0x06);
    bus.cpu_write(0x4015, 0x0F);
    assert_eq!(bus.apu.status.0, 0x0F);
    bus.cpu_write(0x4017, 0x80);
    assert_eq!(bus.apu.frame_counter.0, 0x80);
    bus.cpu_write(0x4013, 0x01);
    bus.cpu_write(0x4018, 0x01);
    assert_eq!(bus.cpu_read(0x4018), None);
    assert_eq!(bus.cpu_read(0x4000), None);
    assert_eq!(bus.cpu_read(0x401F), None);
    bus.cpu_write(0x4020, 0x33);
    assert_eq!(bus.cpu_read(0x4020), Some(0x33));
    bus.cpu_write(0xFFFF, 0x34);
    assert_eq!(bus.cpu_read(0xFFFF), Some(0x34));
    let mut bare = CpuBusQueryItem::default();
    bare.cpu_write(0x8000, 1);
    assert_eq!(bare.cpu_read(0x8000), None);
}

#[test]
fn controller_shifts_out_from_the_top() {
    let mut bus = bus();
    bus.controller.set_state(button_mask(true, false, false, true, false, false, false, true));
    assert_eq!(bus.controller.state, 0x91);
    assert_eq!(bus.cpu_read(0x4016), Some(0));
    bus.cpu_write(0x4016, 0x01);
    let bits: Vec<u8> = (0..9).map(|_| bus.cpu_read(0x4016).unwrap()).collect();
    assert_eq!(bits, vec![1, 0, 0, 1, 0, 0, 0, 1, 0]);
    assert_eq!(bus.controller.state, 0x91);
}

#[test]
fn button_masks() {
    assert_eq!(button_mask(true, false, false, false, false, false, false, false), 0x80);
    assert_eq!(button_mask(false, true, false, false, false, false, false, false), 0x40);
    assert_eq!(button_mask(false, false, true, false, false, false, false, false), 0x20);
    assert_eq!(button_mask(false, false, false, true, false, false, false, false), 0x10);
    assert_eq!(button_mask(false, false, false, false, true, false, false, false), 0x08);
    assert_eq!(button_mask(false, false, false, false, false, true, false, false), 0x04);
    assert_eq!(button_mask(false, false, false, false, false, false, true, false), 0x02);
    assert_eq!(button_mask(false, false, false, false, false, false, false, true), 0x01);
    assert_eq!(button_mask(true, true, true, true, true, true, true, true), 0xFF);
    let mut c = Controller::default();
    c.set_state(0x80);
    c.store_shifter();
    assert_eq!(c.read_shifter(), 1);
    assert_eq!(c.read_shifter(), 0);
}

#[test]
fn dma_trigger_and_steps() {
    let mut bus = bus();
    assert_eq!(Dma::default().status, DmaStatus::Inactive);
    bus.cpu_write(0x0240, 0xAB);
    bus.cpu_write(0x0241, 0xCD);
    bus.dma.addr = 0x55;
    bus.cpu_write(0x4014, 0x02);
    assert_eq!(bus.dma.page, 0x02);
    assert_eq!(bus.dma.addr, 0x00);
    assert_eq!(bus.dma(), DmaStatus::Idling);
    bus.dma_cycle(false);
    assert_eq!(bus.dma(), DmaStatus::Idling);
    bus.dma_cycle(true);
    assert_eq!(bus.dma(), DmaStatus::Transfering);
    bus.dma.addr = 0x40;
    bus.dma_cycle(false);
    assert_eq!(bus.dma.data, 0xAB);
    assert_eq!(bus.dma.addr, 0x40);
    bus.dma_cycle(true);
    assert_eq!(bus.dma.addr, 0x41);
    assert_eq!(bus.ppu.ppu.oam.get_entry(0x10).y(), 0xAB);
    bus.dma_read();
    bus.dma_write();
    assert_eq!(bus.ppu.ppu.oam.get_entry(0x10).tile_id(), 0xCD);
    bus.dma.addr = 0xFF;
    bus.dma_write();
    assert_eq!(bus.dma.addr, 0x00);
    assert_eq!(bus.dma(), DmaStatus::Inactive);
    bus.dma_cycle(true);
    assert_eq!(bus.dma(), DmaStatus::Inactive);
    bus.start_dma();
    assert_eq!(bus.dma(), DmaStatus::Transfering);
}

#[test]
fn dma_reads_zero_where_nothing_is_mapped() {
    let mut bus = CpuBusQueryItem::default();
    bus.dma.data = 0x77;
    bus.cpu_write(0x4014, 0x50);
    bus.dma_read();
    assert_eq!(bus.dma.data, 0x00);
}

#[test]
fn bus_tick_moves_ppu_and_apu() {
    let mut bus = bus();
    assert!(!bus.tick(1));
    assert_eq!(bus.ppu.ppu.cycle, 1);
    assert_eq!(bus.apu.cycles, 0);
    assert!(!bus.tick(6));
    assert_eq!(bus.ppu.ppu.cycle, 2);
    assert_eq!(bus.apu.cycles, 1);
    bus.apu.cycles = 3728;
    assert!(bus.tick(12));
    assert!(!bus.irq());
    assert!(!bus.frame_complete());
    assert!(!bus.nmi());
}

#[test]
fn bus_reset_reinitialises_the_units() {
    let mut bus = bus();
    bus.cpu_write(0x2000, 0x80);
    bus.cpu_write(0x4015, 0x0F);
    bus.cpu_write(0x4003, 0x08);
    bus.cpu_write(0x4014, 0x02);
    bus.controller.set_state(0xFF);
    bus.cpu_write(0x4016, 1);
    bus.ppu.ppu.screen_buffer[3][4] = 0x2A;
    bus.cpu_write(0x0001, 0x99);
    bus.reset();
    assert_eq!(bus.ppu.ppu.registers.ctrl.0, 0);
    assert_eq!(bus.apu.status.0, 0);
    assert_eq!(bus.apu.pulse[0].length_counter, 0);
    assert!(bus.apu.pulse[0].sweep_complement);
    assert!(!bus.apu.pulse[1].sweep_complement);
    assert_eq!(bus.dma, Dma::default());
    assert_eq!(bus.controller, Controller::default());
    assert_eq!(bus.ppu.ppu.screen_buffer[3][4], 0);
    assert_eq!(bus.cpu_read(0x0001), Some(0x99));
}

#[test]
fn dma_copies_a_cartridge_page() {
    for first_odd in [true, false] {
        let mut bus = bus();
        for i in 0..=255u16 {
            bus.cpu_write(0x8100 + i, (i as u8) ^ 0x5A);
        }
        bus.cpu_write(0x4014, 0x81);
        let mut odd = first_odd;
        let mut cycles = 0;
        while bus.dma() != DmaStatus::Inactive {
            bus.dma_cycle(odd);
            odd = !odd;
            cycles += 1;
        }
        assert_eq!(cycles, if first_odd { 513 } else { 514 });
        for i in 0..=255u8 {
            let entry = bus.ppu.ppu.oam.get_entry(i / 4);
            assert_eq!((entry.0 >> (8 * (i % 4) as u32)) as u8, i ^ 0x5A);
            assert_eq!(bus.peek(0x8100 + i as u16), i ^ 0x5A);
        }
    }
}
