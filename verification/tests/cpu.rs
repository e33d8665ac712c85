use nes_rs::cartridge::Cartridge;
use nes_rs::cpu::addr_mode::{page_differs, sign_extend, word, AddrMode};
use nes_rs::cpu::breakpoint::BreakPointState;
use nes_rs::cpu::instr::decode;
use nes_rs::cpu::op::Op;
use nes_rs::cpu::{Cpu, CpuQueryItem, CpuStatus};
use nes_rs::cpu_bus::dma::DmaStatus;

fn console() -> CpuQueryItem {
    let cart = Cartridge::testing(None);
    let mut query = CpuQueryItem::new(cart);
    query.cpu.pc = 0x00;
    query
}

#[test]
fn nmi() {
    let mut query = console();
    query.cpu.pc = 0x1234;
    query.bus.cpu_write(0xFFFA, 0x21);
    query.bus.cpu_write(0xFFFB, 0x43);

    query.nmi();

    assert_eq!(query.cpu.pc, 0x4321);
    assert_eq!(query.bus.cpu_read(0x01FD), Some(0x12));
    assert_eq!(query.bus.cpu_read(0x01FC), Some(0x34));
    assert_eq!(query.bus.cpu_read(0x01FB), Some(0b0010_0100));
}

#[test]
fn nmi_pushes_status_with_break_clear_and_stalls_eight_cycles() {
    let mut query = console();
    query.cpu.pc = 0xBEEF;
    query.cpu.status.0 = 0x53;
    query.nmi();
    assert_eq!(query.bus.cpu_read(0x01FB), Some(0x63));
    assert_eq!(query.cpu.status.0, 0x47);
    assert_eq!(query.cpu.sp, 0xFA);
    assert_eq!(query.cpu.cycles, 8);
}

#[test]
fn irq_is_held_off_by_interrupt_disable() {
    let mut query = console();
    query.bus.cpu_write(0xFFFE, 0x00);
    query.bus.cpu_write(0xFFFF, 0x90);
    query.cpu.pc = 0x4242;
    query.irq();
    assert_eq!(query.cpu.pc, 0x4242);
    assert_eq!(query.cpu.sp, 0xFD);

    query.cpu.status.set_no_interrupt(false);
    query.irq();
    assert_eq!(query.cpu.pc, 0x9000);
    assert_eq!(query.cpu.cycles, 7);
    assert!(query.cpu.status.no_interrupt());
    assert_eq!(query.bus.cpu_read(0x01FD), Some(0x42));
    assert_eq!(query.bus.cpu_read(0x01FB), Some(0x20));
}

#[test]
fn reset_loads_the_vector_and_registers() {
    let mut query = console();
    query.bus.cpu_write(0xFFFC, 0x00);
    query.bus.cpu_write(0xFFFD, 0x80);
    query.cpu.a = 1;
    query.cpu.x = 2;
    query.cpu.y = 3;
    query.cpu.sp = 0x01;
    query.cpu.status.0 = 0xFF;
    query.bus.cpu_write(0x2000, 0x80);
    query.bus.cpu_write(0x4014, 0x02);
    query.reset();
    assert_eq!(query.cpu.pc, 0x8000);
    assert_eq!((query.cpu.a, query.cpu.x, query.cpu.y), (0, 0, 0));
    assert_eq!(query.cpu.sp, 0xFE);
    assert_eq!(query.cpu.status.0, 0b0010_0100);
    assert_eq!(query.cpu.cycles, 8);
    assert_eq!(query.bus.ppu.ppu.registers.ctrl.0, 0);
    assert_eq!(query.bus.dma(), DmaStatus::Inactive);
}

#[test]
fn default_registers() {
    let cpu = Cpu::default();
    assert_eq!(cpu.sp, 0xFD);
    assert_eq!(cpu.pc, 0xFFFC);
    assert_eq!(cpu.status, CpuStatus(0b0010_0100));
    assert_eq!(cpu.addr_mode, AddrMode::_XXX);
    assert!(cpu.status.u());
    assert!(!cpu.status.b_flag());
}

#[test]
fn stack_push_then_pull_gives_the_byte_back() {
    let mut query = console();
    for sp in [0xFDu8, 0x00, 0xFF, 0x80] {
        query.cpu.sp = sp;
        query.stack_push(0xA5);
        assert_eq!(query.cpu.sp, sp.wrapping_sub(1));
        assert_eq!(query.stack_pull(), 0xA5);
        assert_eq!(query.cpu.sp, sp);
    }
    query.cpu.sp = 0x00;
    query.stack_push(0x11);
    assert_eq!(query.cpu.sp, 0xFF);
    assert_eq!(query.bus.cpu_read(0x0100), Some(0x11));
    query.cpu.sp = 0xFF;
    query.bus.cpu_write(0x0100, 0x77);
    assert_eq!(query.stack_pull(), 0x77);
    assert_eq!(query.cpu.sp, 0x00);
}

#[test]
fn adc_carry_chain() {
    let mut query = console();
    query.cpu.a = 0x34;
    query.bus.cpu_write(0x10, 0x38);
    query.cpu.status.set_carry(false);
    assert!(query.adc(Some(0x10)));
    assert_eq!(query.cpu.a, 0x6C);
    assert!(!query.cpu.status.carry());
    assert!(!query.cpu.status.zero());
    assert!(!query.cpu.status.negative());
    assert!(!query.cpu.status.overflow());
}

#[test]
fn adc_and_sbc_agree_with_signed_arithmetic() {
    let mut query = console();
    for a in 0..=255u8 {
        for m in 0..=255u8 {
            for c in 0..=1u8 {
                query.bus.cpu_write(0x20, m);
                query.cpu.a = a;
                query.cpu.status = CpuStatus(0x24 | c);
                query.adc(Some(0x20));
                let sum = a as u16 + m as u16 + c as u16;
                let signed = a as i8 as i16 + m as i8 as i16 + c as i16;
                assert_eq!(query.cpu.a, sum as u8);
                assert_eq!(query.cpu.status.carry(), sum > 0xFF);
                assert_eq!(query.cpu.status.overflow(), !(-128..=127).contains(&signed));

                query.cpu.a = a;
                query.cpu.status = CpuStatus(0x24 | c);
                query.sbc(Some(0x20));
                let diff = a as i16 - m as i16 - (1 - c as i16);
                let signed = a as i8 as i16 - m as i8 as i16 - (1 - c as i16);
                assert_eq!(query.cpu.a, diff as u8);
                assert_eq!(query.cpu.status.carry(), diff >= 0);
                assert_eq!(query.cpu.status.overflow(), !(-128..=127).contains(&signed));
            }
        }
    }
}

#[test]
fn jmp_indirect_bug() {
    let mut query = console();
    query.bus.cpu_write(0x0200, 0x6C);
    query.bus.cpu_write(0x0201, 0xFF);
    query.bus.cpu_write(0x0202, 0x02);
    query.bus.cpu_write(0x02FF, 0x34);
    query.bus.cpu_write(0x0200, 0x12);
    query.cpu.pc = 0x0201;
    let (addr, page_crossed) = query.ind();
    assert!(!page_crossed);
    assert!(!query.jmp(addr));
    assert_eq!(query.cpu.pc, 0x1234);
}

#[test]
fn jmp_indirect_through_the_instruction_table() {
    let mut query = console();
    for (addr, b) in [(0x0300u16, 0x6Cu8), (0x0301, 0xFF), (0x0302, 0x04), (0x04FF, 0x34), (0x0400, 0x12), (0x0500, 0x99)] {
        query.bus.cpu_write(addr, b);
    }
    query.cpu.pc = 0x0300;
    query.tick();
    assert_eq!(query.cpu.pc, 0x1234);
    assert_eq!(query.cpu.cycles, 4);

    // With the opcode itself at the start of the pointer's page, the high
    // byte of the target is the opcode.
    for (addr, b) in [(0x0200u16, 0x6Cu8), (0x0201, 0xFF), (0x0202, 0x02), (0x02FF, 0x34)] {
        query.bus.cpu_write(addr, b);
    }
    query.cpu.pc = 0x0200;
    query.cpu.cycles = 0;
    query.tick();
    assert_eq!(query.cpu.pc, 0x6C34);
}

#[test]
fn tick_runs_an_instruction_and_then_waits() {
    let mut query = console();
    // LDA #$80 ; STA $10 ; NOP
    for (i, b) in [0xA9u8, 0x80, 0x85, 0x10, 0xEA].iter().enumerate() {
        query.bus.cpu_write(0x0600 + i as u16, *b);
    }
    query.cpu.pc = 0x0600;
    query.tick();
    assert_eq!(query.cpu.a, 0x80);
    assert_eq!(query.cpu.pc, 0x0602);
    assert_eq!(query.cpu.cycles, 1);
    assert!(query.cpu.status.negative());
    assert_eq!(query.cpu.addr_mode, AddrMode::IMM);
    query.tick();
    assert_eq!(query.cpu.cycles, 0);
    assert_eq!(query.cpu.pc, 0x0602);
    query.tick();
    assert_eq!(query.bus.cpu_read(0x0010), Some(0x80));
    assert_eq!(query.cpu.cycles, 2);
}

#[test]
fn page_crossing_costs_a_cycle_for_reads_only() {
    let mut query = console();
    // LDA $01FF,X with X = 1 crosses a page; STA $01FF,X does not pay.
    for (i, b) in [0xBDu8, 0xFF, 0x01, 0x9D, 0xFF, 0x01, 0xBD, 0x00, 0x01].iter().enumerate() {
        query.bus.cpu_write(0x0600 + i as u16, *b);
    }
    query.cpu.x = 1;
    query.cpu.pc = 0x0600;
    query.tick();
    assert_eq!(query.cpu.cycles, 4);
    query.cpu.cycles = 0;
    query.tick();
    assert_eq!(query.cpu.cycles, 4);
    query.cpu.cycles = 0;
    query.tick();
    assert_eq!(query.cpu.cycles, 3);
}

#[test]
fn branch_cycles() {
    let mut query = console();
    // BNE +2 at 0x0600, BNE to another page at 0x06F0.
    query.bus.cpu_write(0x0600, 0xD0);
    query.bus.cpu_write(0x0601, 0x02);
    query.bus.cpu_write(0x06F0, 0xD0);
    query.bus.cpu_write(0x06F1, 0x20);
    query.cpu.status.set_zero(true);
    query.cpu.pc = 0x0600;
    query.tick();
    assert_eq!(query.cpu.pc, 0x0602);
    assert_eq!(query.cpu.cycles, 1);

    query.cpu.status.set_zero(false);
    query.cpu.pc = 0x0600;
    query.cpu.cycles = 0;
    query.tick();
    assert_eq!(query.cpu.pc, 0x0604);
    assert_eq!(query.cpu.cycles, 2);

    query.cpu.pc = 0x06F0;
    query.cpu.cycles = 0;
    query.tick();
    assert_eq!(query.cpu.pc, 0x0712);
    assert_eq!(query.cpu.cycles, 3);
}

#[test]
fn unmapped_opcodes_do_nothing() {
    let mut query = console();
    query.bus.cpu_write(0x0600, 0x02);
    query.cpu.pc = 0x0600;
    let before = query.cpu;
    query.tick();
    assert_eq!(query.cpu.pc, 0x0601);
    assert_eq!(query.cpu.cycles, 1);
    assert_eq!((query.cpu.a, query.cpu.x, query.cpu.y, query.cpu.sp), (before.a, before.x, before.y, before.sp));
    assert_eq!(query.cpu.status, before.status);
}

#[test]
fn instruction_table() {
    let lda = decode(0xA9);
    assert_eq!((lda.op(), lda.addr_mode(), lda.cycles()), (Op::LDA, AddrMode::IMM, 2));
    let jmp = decode(0x6C);
    assert_eq!((jmp.op, jmp.addr_mode, jmp.cycles), (Op::JMP, AddrMode::IND, 5));
    let brk = decode(0x00);
    assert_eq!((brk.op, brk.addr_mode, brk.cycles), (Op::BRK, AddrMode::IMP, 7));
    let inc = decode(0xFE);
    assert_eq!((inc.op, inc.addr_mode, inc.cycles), (Op::INC, AddrMode::ABX, 7));
    let stx = decode(0x96);
    assert_eq!((stx.op, stx.addr_mode, stx.cycles), (Op::STX, AddrMode::ZPY, 4));
    let none = decode(0xFF);
    assert_eq!((none.op, none.addr_mode, none.cycles), (Op::XXX, AddrMode::_XXX, 2));
    let mapped = (0..=255u8).filter(|o| decode(*o).op != Op::XXX).count();
    assert_eq!(mapped, 151);
    assert_eq!(decode(0xAD).operand_len(), 2);
    assert_eq!(decode(0xA9).operand_len(), 1);
    assert_eq!(decode(0xEA).operand_len(), 0);
}

#[test]
fn operate_dispatches_and_reports_page_sensitivity() {
    let mut query = console();
    query.bus.cpu_write(0x30, 0x0F);
    query.cpu.a = 0xF0;
    assert!(query.operate(Op::ORA, Some(0x30)));
    assert_eq!(query.cpu.a, 0xFF);
    assert!(!query.operate(Op::TAX, None));
    assert_eq!(query.cpu.x, 0xFF);
    assert!(!query.operate(Op::XXX, None));
    assert!(!query.operate(Op::STA, Some(0x31)));
    assert_eq!(query.bus_read(0x31), 0xFF);
    query.cpu.addr_mode = AddrMode::ZP0;
    query.cpu.pc = 0x40;
    query.bus.cpu_write(0x40, 0x99);
    assert_eq!(query.addr_mode(), (Some(0x99), false));
}

#[test]
fn address_helpers() {
    assert_eq!(word(0x34, 0x12), 0x1234);
    assert!(page_differs(0x01FF, 0x0200));
    assert!(!page_differs(0x0200, 0x02FF));
    assert_eq!(sign_extend(0x7F), 0x007F);
    assert_eq!(sign_extend(0x80), 0xFF80);
}

#[test]
fn open_bus_gives_the_last_byte_read() {
    let mut query = CpuQueryItem::default();
    query.bus.cpu_write(0x0005, 0x5C);
    assert_eq!(query.bus_read(0x5000), 0x00);
    assert_eq!(query.bus_read(0x0005), 0x5C);
    assert_eq!(query.bus_read(0x5000), 0x5C);
    assert_eq!(query.bus_read(0x4018), 0x5C);
    assert_eq!(query.bus.cpu_read(0x5000), None);
}

#[test]
fn clock_divides_the_master_clock() {
    let mut query = console();
    // NOP sled in work RAM.
    for i in 0..0x20u16 {
        query.bus.cpu_write(0x0600 + i, 0xEA);
    }
    query.cpu.pc = 0x0600;
    query.clock();
    query.clock();
    assert_eq!(query.cpu.pc, 0x0600);
    assert_eq!(query.bus.ppu.ppu.cycle, 2);
    query.clock();
    assert_eq!(query.clock.cycles, 3);
    assert_eq!(query.cpu.pc, 0x0601);
    assert_eq!(query.cpu.cycles, 1);
    assert_eq!(query.bus.apu.cycles, 0);
    for _ in 0..3 {
        query.clock();
    }
    assert_eq!(query.bus.apu.cycles, 1);
    assert_eq!(query.cpu.cycles, 0);
    assert_eq!(query.bus.ppu.ppu.cycle, 6);
}

#[test]
fn vblank_nmi() {
    let mut query = console();
    // An endless loop at 0x8000 and an interrupt routine that loops at 0x9000.
    for (addr, b) in [(0x8000u16, 0x4Cu8), (0x8001, 0x00), (0x8002, 0x80), (0x9000, 0x4C), (0x9001, 0x00), (0x9002, 0x90)] {
        query.bus.cpu_write(addr, b);
    }
    query.bus.cpu_write(0xFFFC, 0x00);
    query.bus.cpu_write(0xFFFD, 0x80);
    query.bus.cpu_write(0xFFFA, 0x00);
    query.bus.cpu_write(0xFFFB, 0x90);
    query.reset();
    query.bus.cpu_write(0x2000, 0x80);
    let mut raised = 0;
    for _ in 0..(29781 * 3) {
        let sp = query.cpu.sp;
        query.clock();
        if query.cpu.sp == sp.wrapping_sub(3) {
            raised += 1;
        }
    }
    assert_eq!(raised, 1);
    assert_eq!(query.cpu.pc & 0xF000, 0x9000);
    assert_eq!(query.bus.cpu_read(0x01FA), Some(0x80));
    assert!(!query.bus.ppu.ppu.nmi);
}

#[test]
fn next_frame_runs_to_the_end_of_the_frame() {
    let mut query = console();
    for (addr, b) in [(0x8000u16, 0x4Cu8), (0x8001, 0x00), (0x8002, 0x80)] {
        query.bus.cpu_write(addr, b);
    }
    query.cpu.pc = 0x8000;
    assert!(!query.next_frame(None));
    assert_eq!(query.clock.cycles, 89342 - 341);
    assert!(!query.bus.ppu.ppu.frame_complete);
    assert!(!query.next_frame(None));
    assert_eq!(query.clock.cycles, 2 * 89342 - 341);
}

#[test]
fn next_frame_stops_at_a_breakpoint() {
    let mut query = console();
    // NOP ; NOP ; JMP $8000
    for (addr, b) in [(0x8000u16, 0xEAu8), (0x8001, 0xEA), (0x8002, 0x4C), (0x8003, 0x00), (0x8004, 0x80)] {
        query.bus.cpu_write(addr, b);
    }
    query.cpu.pc = 0x8000;
    let mut breakpoints = BreakPointState::default();
    assert!(!breakpoints.check(0x8002));
    breakpoints.add(0x8002);
    breakpoints.add(0x9000);
    assert!(breakpoints.check(0x8002));
    assert!(query.next_frame(Some(&breakpoints)));
    assert_eq!(query.cpu.pc, 0x8002);
    assert_eq!(query.clock.cycles, 9);
    // Still at the breakpoint after one more master tick.
    assert!(query.next_frame(Some(&breakpoints)));
    assert_eq!(query.clock.cycles, 10);

    breakpoints.remove(&0x8002);
    assert!(!breakpoints.check(0x8002));
    assert!(breakpoints.check(0x9000));
    assert!(!query.next_frame(Some(&breakpoints)));
    assert_eq!(query.clock.cycles, 89342 - 341);
}

#[test]
fn oam_dma_copies_a_page_in_513_or_514_cycles() {
    for lead in [1u32, 2] {
        let mut query = console();
        for i in 0..0x20u16 {
            query.bus.cpu_write(0x0600 + i, 0xEA);
        }
        for i in 0..=255u16 {
            query.bus.cpu_write(0x0300 + i, (i as u8).wrapping_mul(7).wrapping_add(3));
        }
        query.cpu.pc = 0x0600;
        for _ in 0..(3 * lead) {
            query.clock();
        }
        query.bus.cpu_write(0x4014, 0x03);
        assert_eq!(query.bus.dma(), DmaStatus::Idling);
        let pc = query.cpu.pc;
        let mut cpu_cycles = 0;
        while query.bus.dma() != DmaStatus::Inactive {
            query.clock();
            if query.clock.cycles % 3 == 0 {
                cpu_cycles += 1;
            }
        }
        assert_eq!(cpu_cycles, if lead == 1 { 514 } else { 513 });
        assert_eq!(query.cpu.pc, pc);
        for i in 0..=255u8 {
            let entry = query.bus.ppu.ppu.oam.get_entry(i / 4);
            let byte = (entry.0 >> (8 * (i % 4) as u32)) as u8;
            assert_eq!(byte, i.wrapping_mul(7).wrapping_add(3));
        }
    }
}

#[test]
fn disassemble_lists_instructions_without_side_effects() {
    let mut query = console();
    // LDA $2002 ; BNE -5 ; TAX ; JMP ($1234)
    for (i, b) in [0xADu8, 0x02, 0x20, 0xD0, 0xFB, 0xAA, 0x6C, 0x34, 0x12].iter().enumerate() {
        query.bus.cpu_write(0x0600 + i as u16, *b);
    }
    query.bus.ppu.ppu.registers.status.0 = 0x80;
    query.cpu.pc = 0x0600;
    let listing = query.disassemble(4);
    assert_eq!(listing.len(), 4);
    assert_eq!(listing[0].0, 0x0600);
    assert_eq!(listing[0].1.op, Op::LDA);
    assert_eq!(listing[0].2, nes_rs::cpu::instr::Operand::Word(0x2002));
    assert_eq!(listing[1].0, 0x0603);
    assert_eq!(listing[1].2, nes_rs::cpu::instr::Operand::Byte(0xFB));
    assert_eq!(listing[2].0, 0x0605);
    assert_eq!(listing[2].2, nes_rs::cpu::instr::Operand::Unary);
    assert_eq!(listing[2].2.len(), 0);
    assert_eq!(listing[3].0, 0x0606);
    assert_eq!(listing[3].1.addr_mode, AddrMode::IND);
    assert_eq!(listing[3].2.len(), 2);
    assert_eq!(query.cpu.pc, 0x0600);
    assert_eq!(query.bus.ppu.ppu.registers.status.0, 0x80);
    assert_eq!(query.instr_at(0x0605).0.op, Op::TAX);
    assert_eq!(query.bus.peek(0x0600), 0xAD);
    assert_eq!(query.bus.peek(0x4016), 0x00);
}
