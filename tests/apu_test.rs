use ccnes_core::apu::Apu;

#[test]
fn frame_irq_once_in_four_step_sequence() {
    let mut apu = Apu::new();
    apu.write_register(0x4017, 0x00);
    let mut rises = 0;
    let mut was = apu.irq_pending();
    for _ in 0..29830 {
        apu.step();
        let now = apu.irq_pending();
        if now && !was {
            rises += 1;
        }
        was = now;
    }
    assert_eq!(rises, 1);
    assert!(apu.irq_pending());
    let status = apu.read_register(0x4015);
    assert_eq!(status & 0x40, 0x40);
    assert!(!apu.irq_pending());
}

#[test]
fn five_step_sequence_never_raises_irq() {
    let mut apu = Apu::new();
    apu.write_register(0x4017, 0x80);
    for _ in 0..80000 {
        apu.step();
        assert!(!apu.irq_pending());
    }
}

#[test]
fn inhibit_bit_blocks_and_clears_irq() {
    let mut apu = Apu::new();
    for _ in 0..29830 {
        apu.step();
    }
    assert!(apu.irq_pending());
    apu.write_register(0x4017, 0x40);
    assert!(!apu.irq_pending());
    for _ in 0..30000 {
        apu.step();
    }
    assert!(!apu.irq_pending());
}

#[test]
fn length_counter_loads_and_counts_down() {
    let mut apu = Apu::new();
    apu.write_register(0x4015, 0x01);
    apu.write_register(0x4000, 0x3F);
    // halted (loop bit set): the counter keeps its value
    apu.write_register(0x4003, 0x08); // index 1: 254
    assert_eq!(apu.pulse1.length_counter, 254);
    apu.write_register(0x4000, 0x1F);
    apu.write_register(0x4017, 0x80); // 5-step write clocks one half frame
    assert_eq!(apu.pulse1.length_counter, 253);
    assert_eq!(apu.read_register(0x4015) & 0x01, 0x01);
    apu.write_register(0x4015, 0x00);
    assert_eq!(apu.pulse1.length_counter, 0);
    assert_eq!(apu.read_register(0x4015) & 0x01, 0);
}

#[test]
fn length_load_ignored_while_disabled() {
    let mut apu = Apu::new();
    apu.write_register(0x400F, 0x08);
    assert_eq!(apu.noise.length_counter, 0);
}

#[test]
fn envelope_restart_and_decay() {
    let mut apu = Apu::new();
    apu.write_register(0x4015, 0x01);
    apu.write_register(0x4000, 0x00); // decay envelope, period 0
    apu.write_register(0x4003, 0x08);
    apu.clock_quarter_frame();
    assert_eq!(apu.pulse1.envelope.decay, 15);
    apu.clock_quarter_frame();
    assert_eq!(apu.pulse1.envelope.decay, 14);
}

#[test]
fn noise_lfsr_long_mode() {
    let mut apu = Apu::new();
    apu.noise.timer = 0;
    apu.noise.clock_timer();
    // seed 1: feedback 1 ^ 0 = 1 enters bit 14
    assert_eq!(apu.noise.shift_register, 0x4000);
    apu.noise.timer = 0;
    apu.noise.clock_timer();
    assert_eq!(apu.noise.shift_register, 0x2000);
}

#[test]
fn noise_lfsr_short_mode() {
    let mut apu = Apu::new();
    apu.write_register(0x400E, 0x80);
    assert_eq!(apu.noise.timer_period, 4);
    apu.noise.shift_register = 0x0041;
    apu.noise.timer = 0;
    apu.noise.clock_timer();
    // bit 0 (1) xor bit 6 (1) = 0
    assert_eq!(apu.noise.shift_register, 0x0020);
}

#[test]
fn sweep_negation_differs_between_pulses() {
    let mut apu = Apu::new();
    apu.write_register(0x4015, 0x03);
    for base in [0x4000u16, 0x4004] {
        apu.write_register(base + 2, 0x00);
        apu.write_register(base + 3, 0x01); // period 0x100
        apu.write_register(base + 1, 0x89); // enabled, negate, shift 1
    }
    apu.clock_half_frame();
    assert_eq!(apu.pulse1.timer_period, 0x100 - 0x80 - 1);
    assert_eq!(apu.pulse2.timer_period, 0x100 - 0x80);
}

#[test]
fn triangle_needs_both_counters() {
    let mut apu = Apu::new();
    apu.write_register(0x4015, 0x04);
    apu.write_register(0x4008, 0x10);
    apu.write_register(0x400A, 0x10);
    apu.write_register(0x400B, 0x08);
    apu.triangle.timer = 0;
    apu.triangle.clock_timer();
    assert_eq!(apu.triangle.sequence_position, 0);
    apu.clock_quarter_frame();
    assert_eq!(apu.triangle.linear_counter, 0x10);
    apu.triangle.timer = 0;
    apu.triangle.clock_timer();
    assert_eq!(apu.triangle.sequence_position, 1);
    assert_eq!(apu.outputs().2, 14);
}

#[test]
fn dmc_output_steps_by_two_within_range() {
    let mut apu = Apu::new();
    apu.write_register(0x4011, 0x7F);
    apu.dmc.silence = false;
    apu.dmc.shift_register = 0xFF;
    apu.dmc.timer = 0;
    apu.dmc.clock_dmc();
    assert_eq!(apu.dmc.output_level, 0x7F);
    apu.write_register(0x4011, 0x01);
    apu.dmc.shift_register = 0x00;
    apu.dmc.timer = 0;
    apu.dmc.clock_dmc();
    assert_eq!(apu.dmc.output_level, 0x01);
    apu.write_register(0x4011, 0x40);
    apu.dmc.shift_register = 0x01;
    apu.dmc.timer = 0;
    apu.dmc.clock_dmc();
    assert_eq!(apu.dmc.output_level, 0x42);
}

#[test]
fn dmc_fetch_and_irq_on_end() {
    let mut apu = Apu::new();
    apu.write_register(0x4010, 0x80);
    apu.write_register(0x4012, 0xFF);
    apu.write_register(0x4013, 0x00);
    assert_eq!(apu.dmc.sample_address, 0xFFC0);
    assert_eq!(apu.dmc.sample_length, 1);
    apu.write_register(0x4015, 0x10);
    assert_eq!(apu.dmc.fetch_address(), Some(0xFFC0));
    apu.dmc.load_sample(0xAA);
    assert_eq!(apu.dmc.bytes_remaining, 0);
    assert!(apu.dmc.interrupt);
    assert!(apu.irq_pending());
    assert_eq!(apu.read_register(0x4015) & 0x80, 0x80);
    apu.write_register(0x4015, 0x10);
    assert!(!apu.dmc.interrupt);
}

#[test]
fn dmc_address_wraps_to_8000() {
    let mut apu = Apu::new();
    apu.dmc.current_address = 0xFFFF;
    apu.dmc.bytes_remaining = 2;
    apu.dmc.load_sample(1);
    assert_eq!(apu.dmc.current_address, 0x8000);
}
