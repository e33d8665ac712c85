use nes_rs::apu::{count_down, length_for, Apu, Pulse, PulseRegister, LENGTH_COUNTER_TABLE};

#[test]
fn sweep_reg() {
    let mut apu = Apu::default();
    assert!(apu.pulse[0].reg.sweep_enabled() == 0);

    apu.cpu_write(0x4001, 0xFF);
    assert!(apu.pulse[0].reg.sweep_enabled() == 1);

    apu.cpu_write(0x4001, 0x7F);
    assert!(apu.pulse[0].reg.sweep_enabled() == 0);

    apu.cpu_write(0x4002, 0b11001010);
    apu.cpu_write(0x4003, 0b11011101);
    assert_eq!(apu.pulse[0].reg.timer(), 0b10111001010);
    assert_eq!(apu.pulse[0].reg.length_counter(), 0b11011);

    apu.cpu_write(0x4006, 0b11001010);
    apu.cpu_write(0x4007, 0b11011101);
    assert_eq!(
        apu.pulse[1].reg.timer(),
        0b10111001010,
        "{:#010b}",
        apu.pulse[1].reg.timer()
    );
    assert_eq!(apu.pulse[1].reg.length_counter(), 0b11011);
}

#[test]
fn length_counter_table() {
    let expected: [u8; 32] = [
        10, 254, 20, 2, 40, 4, 80, 6, 160, 8, 60, 10, 14, 12, 26, 14, 12, 16, 24, 18, 48, 20, 96,
        22, 192, 24, 72, 26, 16, 28, 32, 30,
    ];
    assert_eq!(LENGTH_COUNTER_TABLE, expected);
    for i in 0..32u32 {
        assert_eq!(length_for(i), expected[i as usize]);
    }
}

#[test]
fn length_load_takes_the_table_entry_for_every_index() {
    for index in 0..32u8 {
        let mut apu = Apu::default();
        apu.cpu_write(0x4015, 0x0F);
        apu.cpu_write(0x4003, index << 3);
        apu.cpu_write(0x4007, (index << 3) | 0x07);
        apu.cpu_write(0x400B, index << 3);
        apu.cpu_write(0x400F, index << 3);
        let expected = LENGTH_COUNTER_TABLE[index as usize];
        assert_eq!(apu.pulse[0].length_counter, expected);
        assert_eq!(apu.pulse[1].length_counter, expected);
        assert_eq!(apu.triangle.length_counter, expected);
        assert_eq!(apu.noise.length_counter, expected);
        assert!(apu.pulse[0].envelope_reload);
        assert!(apu.pulse[0].sweep_reload);
        assert!(apu.triangle.linear_counter_reload);
        assert!(apu.noise.envelope_reload);
    }
}

#[test]
fn length_load_needs_an_enabled_channel() {
    let mut apu = Apu::default();
    apu.cpu_write(0x4003, 0x08);
    apu.cpu_write(0x400B, 0x08);
    apu.cpu_write(0x400F, 0x08);
    assert_eq!(apu.pulse[0].length_counter, 0);
    assert_eq!(apu.triangle.length_counter, 0);
    assert_eq!(apu.noise.length_counter, 0);
    assert!(!apu.pulse[0].envelope_reload);
    assert_eq!(apu.pulse[0].reg.length_counter(), 1);
}

#[test]
fn status_write_silences_disabled_channels() {
    let mut apu = Apu::default();
    apu.cpu_write(0x4015, 0x0F);
    apu.cpu_write(0x4003, 0x08);
    apu.cpu_write(0x4007, 0x08);
    apu.cpu_write(0x400B, 0x08);
    apu.cpu_write(0x400F, 0x08);
    apu.cpu_write(0x4015, 0x0A);
    assert_eq!(apu.pulse[0].length_counter, 0);
    assert_eq!(apu.pulse[1].length_counter, 254);
    assert_eq!(apu.triangle.length_counter, 0);
    assert_eq!(apu.noise.length_counter, 254);
    assert_eq!(apu.status.pulse(), 2);
    assert!(apu.status.pulse_enabled(1));
    assert!(!apu.status.triangle());
    assert!(apu.status.noise());
}

#[test]
fn sweep_target_and_mute() {
    let mut low = Pulse::new(true);
    low.reg = PulseRegister(0x0007_0000 | 0x8100);
    low.update_target_period();
    assert!(low.mute);
    assert_eq!(low.target_period, 10);

    let mut up = Pulse::new(true);
    up.reg = PulseRegister(0x0600_0000 & 0 | (0x600 << 16) | 0x8100);
    up.update_target_period();
    assert_eq!(up.target_period, 0x900);
    assert!(up.mute);

    let mut down0 = Pulse::new(true);
    down0.reg = PulseRegister((0x100 << 16) | 0x8900);
    down0.update_target_period();
    assert_eq!(down0.target_period, 0x100 - 0x80 - 1);
    assert!(!down0.mute);

    let mut down1 = Pulse::new(false);
    down1.reg = PulseRegister((0x100 << 16) | 0x8900);
    down1.update_target_period();
    assert_eq!(down1.target_period, 0x100 - 0x80);

    let mut floor = Pulse::new(true);
    floor.reg = PulseRegister((0x009 << 16) | 0x8800);
    floor.update_target_period();
    assert_eq!(floor.target_period, 0);
}

#[test]
fn muted_sweep_leaves_the_timer() {
    for timer in [0u32, 7, 0x600, 0x7FF] {
        let mut pulse = Pulse::new(true);
        pulse.reg = PulseRegister((timer << 16) | 0x8100);
        pulse.sweep_counter = 0;
        pulse.clock_sweep();
        assert!(pulse.mute);
        assert_eq!(pulse.reg.timer(), timer);
    }
    let mut pulse = Pulse::new(true);
    pulse.reg = PulseRegister((0x100 << 16) | 0x8100);
    pulse.clock_sweep();
    assert!(!pulse.mute);
    assert_eq!(pulse.reg.timer(), 0x180);
    assert_eq!(pulse.reg.0 & 0xFFFF, 0x8100);
}

#[test]
fn sweep_divider() {
    let mut pulse = Pulse::new(false);
    pulse.reg = PulseRegister((0x100 << 16) | 0xB100);
    pulse.sweep_counter = 2;
    pulse.clock_sweep();
    assert_eq!(pulse.sweep_counter, 1);
    assert_eq!(pulse.reg.timer(), 0x100);
    pulse.sweep_reload = true;
    pulse.clock_sweep();
    assert_eq!(pulse.sweep_counter, 3);
    assert!(!pulse.sweep_reload);
    pulse.sweep_counter = 0;
    pulse.clock_sweep();
    assert_eq!(pulse.sweep_counter, 3);
    assert_eq!(pulse.reg.timer(), 0x180);
}

#[test]
fn envelope_decays_and_loops() {
    let mut pulse = Pulse::new(true);
    pulse.reg = PulseRegister(0x01);
    pulse.envelope_reload = true;
    pulse.clock_envelope();
    assert_eq!((pulse.decay_level, pulse.envelope_divider, pulse.volume), (15, 2, 15));
    assert!(!pulse.envelope_reload);
    pulse.clock_envelope();
    assert_eq!((pulse.decay_level, pulse.envelope_divider), (15, 1));
    pulse.clock_envelope();
    assert_eq!((pulse.decay_level, pulse.envelope_divider, pulse.volume), (14, 2, 14));
    pulse.decay_level = 0;
    pulse.envelope_divider = 1;
    pulse.clock_envelope();
    assert_eq!(pulse.decay_level, 0);
    pulse.reg = PulseRegister(0x21);
    pulse.envelope_divider = 1;
    pulse.clock_envelope();
    assert_eq!(pulse.decay_level, 15);
    pulse.reg = PulseRegister(0x1A);
    pulse.clock_envelope();
    assert_eq!(pulse.volume, 0x0A);
}

#[test]
fn length_counter_counts_down_and_halts() {
    let mut pulse = Pulse::new(true);
    pulse.length_counter = 2;
    pulse.clock_length_counter();
    pulse.clock_length_counter();
    pulse.clock_length_counter();
    assert_eq!(pulse.length_counter, 0);
    pulse.length_counter = 5;
    pulse.reg = PulseRegister(0x20);
    pulse.clock_length_counter();
    assert_eq!(pulse.length_counter, 5);
    assert_eq!(count_down(0), 0);
    assert_eq!(count_down(9), 8);
}

#[test]
fn triangle_linear_counter() {
    let mut apu = Apu::default();
    apu.cpu_write(0x4015, 0x04);
    apu.cpu_write(0x4008, 0x03);
    assert!(apu.triangle.linear_counter_reload);
    apu.quarter_frame_tick();
    assert_eq!(apu.triangle.linear_counter, 3);
    assert!(!apu.triangle.linear_counter_reload);
    apu.quarter_frame_tick();
    assert_eq!(apu.triangle.linear_counter, 2);
    apu.cpu_write(0x4008, 0x85);
    apu.quarter_frame_tick();
    assert_eq!(apu.triangle.linear_counter, 5);
    assert!(apu.triangle.linear_counter_reload);
}

#[test]
fn frame_sequencer_four_step() {
    let mut apu = Apu::default();
    let mut steps = Vec::new();
    let mut master = 0usize;
    while steps.len() < 5 {
        master += 6;
        assert!(!apu.tick(master - 1));
        if apu.tick(master) {
            steps.push(master / 6);
        }
    }
    assert_eq!(steps, vec![3729, 7457, 11186, 14915, 14915 + 3729]);
}

#[test]
fn frame_sequencer_five_step() {
    let mut apu = Apu::default();
    apu.cpu_write(0x4017, 0x80);
    assert_eq!(apu.frame_counter.step_mode(), 1);
    let mut steps = Vec::new();
    let mut master = 0usize;
    while steps.len() < 5 {
        master += 6;
        if apu.tick(master) {
            steps.push(master / 6);
        }
    }
    assert_eq!(steps, vec![3729, 7457, 11186, 18641, 18641 + 3729]);
}

#[test]
fn half_frame_clocks_lengths_of_enabled_channels() {
    let mut apu = Apu::default();
    apu.cpu_write(0x4015, 0x09);
    apu.cpu_write(0x4003, 0x18);
    apu.cpu_write(0x400F, 0x18);
    apu.pulse[1].length_counter = 9;
    apu.half_frame_tick();
    assert_eq!(apu.pulse[0].length_counter, 1);
    assert_eq!(apu.pulse[1].length_counter, 9);
    assert_eq!(apu.noise.length_counter, 1);
}

#[test]
fn channel_outputs() {
    let mut apu = Apu::default();
    apu.cpu_write(0x4015, 0x0F);
    apu.cpu_write(0x4000, 0x9F);
    apu.cpu_write(0x4002, 0xFD);
    apu.cpu_write(0x4003, 0x08);
    apu.quarter_frame_tick();
    apu.pulse[0].update_target_period();
    let out = apu.pulse_output(0);
    assert_eq!(out.period, 16 * (0xFD + 1));
    assert_eq!(out.duty, 2);
    assert_eq!(out.volume, 15);
    assert!(out.playing);
    assert!(!apu.pulse_output(1).playing);

    apu.cpu_write(0x4008, 0x7F);
    apu.cpu_write(0x400A, 0x10);
    apu.cpu_write(0x400B, 0x09);
    assert!(!apu.triangle_output().playing);
    apu.quarter_frame_tick();
    let tri = apu.triangle_output();
    assert_eq!(tri.period, 32 * (0x110 + 1));
    assert!(tri.playing);

    apu.cpu_write(0x400C, 0x17);
    apu.cpu_write(0x400E, 0x8B);
    apu.cpu_write(0x400F, 0x08);
    apu.quarter_frame_tick();
    let noise = apu.noise_output();
    assert_eq!(noise.period_index, 0x0B);
    assert!(noise.short_mode);
    assert_eq!(noise.volume, 7);
    assert!(noise.playing);
    assert!(!apu.irq());
}
