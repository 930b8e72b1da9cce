use ccnes_core::cartridge::Cartridge;
use ccnes_core::ppu::pipeline::sprite_pattern_address;
use ccnes_core::ppu::render::{mix_pixel, nes_color};
use ccnes_core::ppu::{increment_x, increment_y, Ppu};

fn cart(chr_banks: u8) -> Cartridge {
    let mut data = vec![0x4E, 0x45, 0x53, 0x1A, 1, chr_banks, 0x01, 0];
    data.resize(16, 0);
    data.extend(std::iter::repeat(0xEA).take(0x4000));
    for i in 0..(chr_banks as usize * 0x2000) {
        data.push((i % 251) as u8);
    }
    Cartridge::from_ines(&data).unwrap()
}

fn run_to(ppu: &mut Ppu, cart: &mut Cartridge, scanline: i32, cycle: u16) -> usize {
    let mut nmis = 0;
    loop {
        if ppu.step(cart) {
            nmis += 1;
        }
        if ppu.scanline == scanline && ppu.cycle == cycle {
            return nmis;
        }
    }
}

#[test]
fn scroll_writes_fill_t_and_fine_x() {
    let mut c = cart(1);
    let mut ppu = Ppu::new();
    ppu.write_register(0, 0x03, &mut c);
    assert_eq!(ppu.t & 0x0C00, 0x0C00);
    ppu.write_register(5, 0x7D, &mut c);
    assert_eq!(ppu.t & 0x001F, 0x0F);
    assert_eq!(ppu.x, 5);
    assert!(ppu.w);
    ppu.write_register(5, 0x5E, &mut c);
    assert_eq!((ppu.t >> 12) & 7, 6);
    assert_eq!((ppu.t >> 5) & 0x1F, 0x0B);
    assert!(!ppu.w);
}

#[test]
fn ppuaddr_two_writes_load_v() {
    let mut c = cart(1);
    let mut ppu = Ppu::new();
    ppu.write_register(6, 0xFF, &mut c);
    assert_eq!(ppu.t, 0x3F00);
    ppu.write_register(6, 0x12, &mut c);
    assert_eq!(ppu.v, 0x3F12);
    let _ = ppu.read_register(2, &c);
    assert!(!ppu.w);
}

#[test]
fn ppudata_reads_are_buffered_except_palette() {
    let mut c = cart(1);
    let mut ppu = Ppu::new();
    ppu.write_register(6, 0x20, &mut c);
    ppu.write_register(6, 0x00, &mut c);
    ppu.write_register(7, 0xAA, &mut c);
    ppu.write_register(7, 0xBB, &mut c);
    ppu.write_register(6, 0x20, &mut c);
    ppu.write_register(6, 0x00, &mut c);
    let _stale = ppu.read_register(7, &c);
    assert_eq!(ppu.read_register(7, &c), 0xAA);
    assert_eq!(ppu.read_register(7, &c), 0xBB);
    ppu.write_register(6, 0x3F, &mut c);
    ppu.write_register(6, 0x01, &mut c);
    ppu.write_register(7, 0x21, &mut c);
    ppu.write_register(6, 0x3F, &mut c);
    ppu.write_register(6, 0x01, &mut c);
    assert_eq!(ppu.read_register(7, &c), 0x21);
}

#[test]
fn ppudata_increment_32() {
    let mut c = cart(1);
    let mut ppu = Ppu::new();
    ppu.write_register(0, 0x04, &mut c);
    ppu.write_register(6, 0x20, &mut c);
    ppu.write_register(6, 0x00, &mut c);
    ppu.write_register(7, 0x01, &mut c);
    assert_eq!(ppu.v, 0x2020);
}

#[test]
fn palette_backdrop_writes_reach_both_addresses() {
    let mut c = cart(1);
    let mut ppu = Ppu::new();
    ppu.write_register(6, 0x3F, &mut c);
    ppu.write_register(6, 0x10, &mut c);
    ppu.write_register(7, 0x2C, &mut c);
    ppu.write_register(6, 0x3F, &mut c);
    ppu.write_register(6, 0x00, &mut c);
    assert_eq!(ppu.read_register(7, &c), 0x2C);
}

#[test]
fn chr_reads_through_ppudata() {
    let mut c = cart(1);
    let mut ppu = Ppu::new();
    ppu.write_register(6, 0x00, &mut c);
    ppu.write_register(6, 0x05, &mut c);
    let _ = ppu.read_register(7, &c);
    assert_eq!(ppu.read_register(7, &c), 5);
}

#[test]
fn oam_data_writes_step_the_address() {
    let mut c = cart(1);
    let mut ppu = Ppu::new();
    ppu.write_register(3, 0x10, &mut c);
    ppu.write_register(4, 0x55, &mut c);
    ppu.write_register(4, 0x66, &mut c);
    assert_eq!(ppu.oam[0x10], 0x55);
    assert_eq!(ppu.oam[0x11], 0x66);
    assert_eq!(ppu.oam_addr, 0x12);
    ppu.write_register(3, 0x11, &mut c);
    assert_eq!(ppu.read_register(4, &c), 0x66);
}

#[test]
fn vblank_sets_at_241_and_clears_at_prerender() {
    let mut c = cart(1);
    let mut ppu = Ppu::new();
    run_to(&mut ppu, &mut c, 241, 1);
    assert_eq!(ppu.status & 0x80, 0);
    ppu.step(&mut c);
    assert_eq!(ppu.status & 0x80, 0x80);
    run_to(&mut ppu, &mut c, -1, 1);
    assert_eq!(ppu.status & 0x80, 0x80);
    ppu.step(&mut c);
    assert_eq!(ppu.status & 0x80, 0);
}

#[test]
fn nmi_fires_once_per_frame_when_enabled() {
    let mut c = cart(1);
    let mut ppu = Ppu::new();
    ppu.write_register(0, 0x80, &mut c);
    let nmis = run_to(&mut ppu, &mut c, 0, 0);
    assert_eq!(nmis, 1);
    let nmis = run_to(&mut ppu, &mut c, 0, 5);
    assert_eq!(nmis, 0);
    let nmis = run_to(&mut ppu, &mut c, 0, 0);
    assert_eq!(nmis, 1);
}

#[test]
fn status_read_on_vblank_dot_suppresses_flag_and_nmi() {
    let mut c = cart(1);
    let mut ppu = Ppu::new();
    ppu.write_register(0, 0x80, &mut c);
    run_to(&mut ppu, &mut c, 241, 1);
    let value = ppu.read_register(2, &c);
    assert_eq!(value & 0x80, 0);
    assert!(!ppu.step(&mut c));
    assert_eq!(ppu.status & 0x80, 0);
    assert_eq!(run_to(&mut ppu, &mut c, 0, 0), 0);
    // the next frame is not suppressed
    assert_eq!(run_to(&mut ppu, &mut c, 0, 0), 1);
}

#[test]
fn enabling_nmi_during_vblank_raises_an_edge() {
    let mut c = cart(1);
    let mut ppu = Ppu::new();
    run_to(&mut ppu, &mut c, 245, 0);
    ppu.write_register(0, 0x80, &mut c);
    assert!(ppu.step(&mut c));
    ppu.write_register(0, 0x00, &mut c);
    ppu.write_register(0, 0x80, &mut c);
    ppu.write_register(0, 0x00, &mut c);
    assert!(!ppu.step(&mut c));
}

#[test]
fn frame_is_262_lines_of_341_dots() {
    let mut c = cart(1);
    let mut ppu = Ppu::new();
    run_to(&mut ppu, &mut c, -1, 0);
    let mut dots = 0u32;
    loop {
        ppu.step(&mut c);
        dots += 1;
        if ppu.scanline == -1 && ppu.cycle == 0 {
            break;
        }
    }
    assert_eq!(dots, 262 * 341);
}

#[test]
fn odd_frames_skip_a_dot_while_rendering() {
    let mut c = cart(1);
    let mut ppu = Ppu::new();
    ppu.write_register(1, 0x08, &mut c);
    run_to(&mut ppu, &mut c, -1, 0);
    let mut frames = Vec::new();
    for _ in 0..2 {
        let mut dots = 0u32;
        loop {
            ppu.step(&mut c);
            dots += 1;
            if ppu.scanline == -1 && ppu.cycle == 0 {
                break;
            }
        }
        frames.push(dots);
    }
    frames.sort();
    assert_eq!(frames, vec![262 * 341 - 1, 262 * 341]);
}

#[test]
fn scroll_increments() {
    assert_eq!(increment_x(0x001F), 0x0400);
    assert_eq!(increment_x(0x041F), 0x0000);
    assert_eq!(increment_x(0x0005), 0x0006);
    assert_eq!(increment_y(0x0000), 0x1000);
    assert_eq!(increment_y(0x7000 | (29 << 5)), 0x0800);
    assert_eq!(increment_y(0x7000 | (31 << 5)), 0x0000);
    assert_eq!(increment_y(0x7000 | (3 << 5)), 4 << 5);
}

#[test]
fn pixel_priority() {
    assert_eq!(mix_pixel(0, 1, 0, 5, true), 0);
    assert_eq!(mix_pixel(2, 1, 0, 5, true), 6);
    assert_eq!(mix_pixel(0, 1, 3, 5, false), 23);
    assert_eq!(mix_pixel(2, 1, 3, 5, true), 23);
    assert_eq!(mix_pixel(2, 1, 3, 5, false), 6);
}

#[test]
fn colour_table() {
    assert_eq!(nes_color(0x00), 0x666666);
    assert_eq!(nes_color(0x30), 0xFFFEFF);
    assert_eq!(nes_color(0x0F), 0x000000);
    assert_eq!(nes_color(0x40), nes_color(0x00));
}

#[test]
fn sprite_pattern_addresses() {
    // 8x8, table 0x1000, tile 0x12, row 3
    assert_eq!(sprite_pattern_address(0x08, 10, 0x12, 0, 13, 0), 0x1123);
    assert_eq!(sprite_pattern_address(0x08, 10, 0x12, 0, 13, 1), 0x112B);
    // vertical flip
    assert_eq!(sprite_pattern_address(0x00, 10, 0x12, 0x80, 13, 0), 0x0124);
    // 8x16: odd tile selects 0x1000, lower half uses the next tile
    assert_eq!(sprite_pattern_address(0x20, 10, 0x13, 0, 20, 0), 0x1132);
}

#[test]
fn sprite_evaluation_selects_first_eight() {
    let mut ppu = Ppu::new();
    for n in 0..10usize {
        ppu.oam[n * 4] = 20;
        ppu.oam[n * 4 + 1] = n as u8;
        ppu.oam[n * 4 + 2] = 0;
        ppu.oam[n * 4 + 3] = (n * 10) as u8;
    }
    for n in 10..64usize {
        ppu.oam[n * 4] = 0xF0;
    }
    ppu.evaluate_sprites(25);
    assert_eq!(ppu.sprite_count, 8);
    assert_eq!(ppu.sprite_indexes[7], 7);
    assert_eq!(ppu.sprite_positions[3], 30);
    assert_eq!(ppu.status & 0x20, 0x20);
    ppu.evaluate_sprites(40);
    assert_eq!(ppu.sprite_count, 0);
}

#[test]
fn mmc3_irq_after_eight_rendered_lines() {
    // mapper 4 with CHR-ROM; sprites from 0x1000, background from 0x0000
    let mut data = vec![0x4E, 0x45, 0x53, 0x1A, 2, 1, 0x40, 0];
    data.resize(16, 0);
    data.extend(std::iter::repeat(0xEA).take(0x8000));
    data.extend(std::iter::repeat(0).take(0x2000));
    let mut c = Cartridge::from_ines(&data).unwrap();
    c.write_prg(0xC000, 7);
    c.write_prg(0xC001, 0);
    c.write_prg(0xE001, 0);
    let mut ppu = Ppu::new();
    ppu.write_register(0, 0x08, &mut c);
    run_to(&mut ppu, &mut c, -1, 0);
    ppu.write_register(1, 0x18, &mut c);
    let mut irq_lines = Vec::new();
    for line in 0..24 {
        run_to(&mut ppu, &mut c, line, 0);
        if c.irq_pending() {
            irq_lines.push(line);
            c.write_prg(0xE000, 0);
            c.write_prg(0xE001, 0);
        }
    }
    // rendering starts on the pre-render line: one IRQ every 8 lines from there
    assert_eq!(irq_lines, vec![7, 15, 23]);
}

#[test]
fn palette_reads_are_six_bits() {
    let mut c = cart(1);
    let mut ppu = Ppu::new();
    ppu.write_register(6, 0x3F, &mut c);
    ppu.write_register(6, 0x10, &mut c);
    ppu.write_register(7, 0xFF, &mut c);
    assert_eq!(ppu.read_byte(0x3F00, &c), 0x3F);
    assert_eq!(ppu.read_byte(0x3F10, &c), 0x3F);
    ppu.write_register(1, 0x01, &mut c);
    assert_eq!(ppu.read_byte(0x3F00, &c), 0x30);
}
