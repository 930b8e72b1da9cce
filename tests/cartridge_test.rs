use ccnes_core::cartridge::{Cartridge, CartridgeError, MapperState, Mirroring};

fn ines(prg_banks: u8, chr_banks: u8, flags6: u8, flags7: u8) -> Vec<u8> {
    let mut data = vec![0x4E, 0x45, 0x53, 0x1A, prg_banks, chr_banks, flags6, flags7];
    data.resize(16, 0);
    for bank in 0..prg_banks as usize {
        for i in 0..0x4000usize {
            // each PRG byte names its bank in the high nibble
            data.push(((bank as u8) << 4) | (i % 16) as u8);
        }
    }
    for bank in 0..chr_banks as usize {
        for _ in 0..0x2000 {
            data.push(0x80 | bank as u8);
        }
    }
    data
}

#[test]
fn rejects_bad_magic() {
    let mut data = ines(1, 1, 0, 0);
    data[3] = 0x1B;
    assert_eq!(Cartridge::from_ines(&data).err(), Some(CartridgeError::InvalidHeader));
}

#[test]
fn rejects_truncated_image() {
    let mut data = ines(2, 1, 0, 0);
    data.truncate(16 + 0x4000);
    assert_eq!(Cartridge::from_ines(&data).err(), Some(CartridgeError::InvalidHeader));
}

#[test]
fn rejects_unsupported_mapper() {
    let data = ines(1, 1, 0x80, 0x00);
    assert_eq!(
        Cartridge::from_ines(&data).err(),
        Some(CartridgeError::UnsupportedMapper(8))
    );
    let data = ines(1, 1, 0x00, 0x10);
    assert_eq!(
        Cartridge::from_ines(&data).err(),
        Some(CartridgeError::UnsupportedMapper(16))
    );
}

#[test]
fn header_fields() {
    let cart = Cartridge::from_ines(&ines(1, 1, 0x01, 0)).unwrap();
    assert_eq!(cart.mirroring(), Mirroring::Vertical);
    assert_eq!(cart.get_mapper_number(), 0);
    let cart = Cartridge::from_ines(&ines(1, 1, 0x08, 0)).unwrap();
    assert_eq!(cart.mirroring(), Mirroring::FourScreen);
    let cart = Cartridge::from_ines(&ines(2, 1, 0x20, 0x40)).unwrap();
    assert_eq!(cart.get_mapper_number(), 66);
    assert_eq!(cart.mirroring(), Mirroring::Horizontal);
}

#[test]
fn trainer_is_skipped() {
    let plain = ines(1, 1, 0, 0);
    let mut data = plain[..16].to_vec();
    data[6] |= 0x04;
    data.extend(std::iter::repeat(0xEE).take(512));
    data.extend_from_slice(&plain[16..]);
    let cart = Cartridge::from_ines(&data).unwrap();
    assert_eq!(cart.read_prg(0x8001), 0x01);
}

#[test]
fn nrom_16k_mirrors_upper_window() {
    let cart = Cartridge::from_ines(&ines(1, 1, 0, 0)).unwrap();
    for addr in [0x8000u16, 0x8123, 0xBFFF] {
        assert_eq!(cart.read_prg(addr), cart.read_prg(addr + 0x4000));
    }
}

#[test]
fn chr_ram_reads_back_writes() {
    let mut cart = Cartridge::from_ines(&ines(1, 0, 0, 0)).unwrap();
    cart.write_chr(0x0000, 0x11);
    cart.write_chr(0x1FFF, 0x22);
    cart.write_chr(0x0ABC, 0x33);
    assert_eq!(cart.read_chr(0x0000), 0x11);
    assert_eq!(cart.read_chr(0x1FFF), 0x22);
    assert_eq!(cart.read_chr(0x0ABC), 0x33);
}

#[test]
fn chr_rom_ignores_writes() {
    let mut cart = Cartridge::from_ines(&ines(1, 1, 0, 0)).unwrap();
    cart.write_chr(0x0010, 0x11);
    assert_eq!(cart.read_chr(0x0010), 0x80);
}

#[test]
fn prg_ram_window() {
    let mut cart = Cartridge::from_ines(&ines(1, 1, 0x10, 0)).unwrap();
    cart.write_prg(0x6005, 0x99);
    assert_eq!(cart.read_prg(0x6005), 0x99);
    assert_eq!(cart.read_prg(0x5000), 0);
}

#[test]
fn uxrom_switches_low_window_and_fixes_last_bank() {
    // mapper 2, four banks
    let mut cart = Cartridge::from_ines(&ines(4, 0, 0x20, 0)).unwrap();
    assert_eq!(cart.read_prg(0xC000) >> 4, 3);
    assert_eq!(cart.read_prg(0x8000) >> 4, 0);
    // bus conflict: the ROM byte at 0x8002 is 0x02, so 0x03 & 0x02 = bank 2
    cart.write_prg(0x8002, 0x03);
    assert_eq!(cart.read_prg(0x8000) >> 4, 2);
    // a byte at 0x800F (0x0F) lets bank 1 through
    cart.write_prg(0x800F, 0x01);
    assert_eq!(cart.read_prg(0x8000) >> 4, 1);
    assert_eq!(cart.read_prg(0xFFFF) >> 4, 3);
}

#[test]
fn uxrom_bank_index_wraps_modulo_bank_count() {
    let mut cart = Cartridge::from_ines(&ines(2, 0, 0x20, 0)).unwrap();
    cart.write_prg(0x800F, 0x03);
    assert_eq!(cart.read_prg(0x8000) >> 4, 1);
}

#[test]
fn cnrom_switches_chr() {
    let mut cart = Cartridge::from_ines(&ines(1, 4, 0x30, 0)).unwrap();
    assert_eq!(cart.read_chr(0x0000), 0x80);
    cart.write_prg(0x800F, 0x02);
    assert_eq!(cart.read_chr(0x0000), 0x82);
    assert_eq!(cart.get_mapper_state(), MapperState::Mapper3 { chr_bank: 2 });
}

#[test]
fn axrom_selects_bank_and_screen() {
    let mut cart = Cartridge::from_ines(&ines(4, 0, 0x70, 0)).unwrap();
    assert_eq!(cart.mirroring(), Mirroring::SingleScreenLow);
    // ROM byte at 0x801F is 0x0F: value 0x11 & 0x0F = 0x01
    cart.write_prg(0x801F, 0x11);
    assert_eq!(cart.read_prg(0x8000) >> 4, 2);
    assert_eq!(cart.mirroring(), Mirroring::SingleScreenLow);
}

#[test]
fn color_dreams_selects_prg_and_chr() {
    let mut cart = Cartridge::from_ines(&ines(4, 4, 0xB0, 0)).unwrap();
    assert_eq!(cart.get_mapper_number(), 11);
    cart.write_prg(0x800F, 0xFF);
    // bus conflict leaves 0x0F: PRG bank 3 (bytes 0x60.. of the 32 KiB bank 1), CHR bank 0
    assert_eq!(cart.read_prg(0x8000) >> 4, 2);
    assert_eq!(cart.read_chr(0x0000), 0x80);
}

#[test]
fn gxrom_selects_prg_and_chr() {
    let mut cart = Cartridge::from_ines(&ines(4, 4, 0x20, 0x40)).unwrap();
    // ROM byte 0x0F at 0x800F lets only the low nibble through: CHR bank 3
    cart.write_prg(0x800F, 0x13);
    assert_eq!(cart.read_chr(0x0000), 0x83);
    assert_eq!(cart.read_prg(0x8000) >> 4, 0);
}

fn mmc1_write(cart: &mut Cartridge, addr: u16, value: u8) {
    for i in 0..5 {
        cart.write_prg(addr, (value >> i) & 1);
    }
}

#[test]
fn mmc1_serial_port_and_prg_modes() {
    let mut cart = Cartridge::from_ines(&ines(4, 2, 0x10, 0)).unwrap();
    // power-on: mode 3, last bank fixed at 0xC000
    assert_eq!(cart.read_prg(0xC000) >> 4, 3);
    mmc1_write(&mut cart, 0xE000, 2);
    assert_eq!(cart.read_prg(0x8000) >> 4, 2);
    // control = 0x0A: PRG mode 2 (first bank fixed at 0x8000), vertical
    mmc1_write(&mut cart, 0x8000, 0x0A);
    assert_eq!(cart.mirroring(), Mirroring::Vertical);
    assert_eq!(cart.read_prg(0x8000) >> 4, 0);
    assert_eq!(cart.read_prg(0xC000) >> 4, 2);
    // a write with bit 7 set restores mode 3
    cart.write_prg(0x8000, 0x80);
    assert_eq!(cart.read_prg(0xC000) >> 4, 3);
}

#[test]
fn mmc1_chr_4k_banks() {
    let mut cart = Cartridge::from_ines(&ines(2, 2, 0x10, 0)).unwrap();
    mmc1_write(&mut cart, 0x8000, 0x10 | 0x0C);
    mmc1_write(&mut cart, 0xA000, 3);
    mmc1_write(&mut cart, 0xC000, 0);
    assert_eq!(cart.read_chr(0x0000), 0x81);
    assert_eq!(cart.read_chr(0x1000), 0x80);
}

#[test]
fn mapper_state_round_trip() {
    let mut cart = Cartridge::from_ines(&ines(1, 4, 0x30, 0)).unwrap();
    cart.write_prg(0x800F, 0x03);
    let saved = cart.get_mapper_state();
    cart.write_prg(0x800F, 0x01);
    cart.set_mapper_state(&saved);
    assert_eq!(cart.get_mapper_state(), saved);
    assert_eq!(cart.read_chr(0x0000), 0x83);
}

#[test]
fn mmc3_prg_modes_and_fixed_last_bank() {
    // mapper 4, four 16 KiB banks = eight 8 KiB banks
    let mut cart = Cartridge::from_ines(&ines(4, 2, 0x40, 0)).unwrap();
    assert_eq!(cart.get_mapper_number(), 4);
    // last 8 KiB bank (7) is the upper half of 16 KiB bank 3
    assert_eq!(cart.read_prg(0xE000) >> 4, 3);
    cart.write_prg(0x8000, 6);
    cart.write_prg(0x8001, 2);
    assert_eq!(cart.read_prg(0x8000) >> 4, 1);
    // PRG mode 1: R6 moves to 0xC000, second-last bank to 0x8000
    cart.write_prg(0x8000, 0x46);
    assert_eq!(cart.read_prg(0xC000) >> 4, 1);
    assert_eq!(cart.read_prg(0x8000) >> 4, 3);
    cart.write_prg(0xA000, 1);
    assert_eq!(cart.mirroring(), Mirroring::Horizontal);
}

#[test]
fn mmc3_irq_counts_a12_rises() {
    let mut cart = Cartridge::from_ines(&ines(2, 1, 0x40, 0)).unwrap();
    cart.write_prg(0xC000, 2);
    cart.write_prg(0xC001, 0);
    cart.write_prg(0xE001, 0);
    let mut irqs = Vec::new();
    for _ in 0..6 {
        cart.clock_ppu_address(0x0000);
        for _ in 0..16 {
            cart.clock_ppu_address(0x0000);
        }
        cart.clock_ppu_address(0x1000);
        irqs.push(cart.irq_pending());
        if cart.irq_pending() {
            cart.write_prg(0xE000, 0);
            cart.write_prg(0xE001, 0);
        }
    }
    assert_eq!(irqs, vec![false, false, true, false, false, true]);
}

#[test]
fn mmc2_latches_select_chr_banks() {
    // mapper 9: 8 PRG banks of 16 KiB, 4 CHR banks of 8 KiB (eight 4 KiB)
    let mut cart = Cartridge::from_ines(&ines(8, 4, 0x90, 0)).unwrap();
    assert_eq!(cart.get_mapper_number(), 9);
    // last three 8 KiB banks at 0xA000: bank 13 is the upper half of 16 KiB bank 6
    assert_eq!(cart.read_prg(0xA000) >> 4, 6);
    assert_eq!(cart.read_prg(0xE000) >> 4, 7);
    cart.write_prg(0xA000, 2);
    assert_eq!(cart.read_prg(0x8000) >> 4, 1);
    cart.write_prg(0xB000, 2); // 0x0000 window, latch FD: 4 KiB bank 2 (8 KiB bank 1)
    cart.write_prg(0xC000, 4); // 0x0000 window, latch FE: 4 KiB bank 4 (8 KiB bank 2)
    assert_eq!(cart.read_chr(0x0000), 0x81);
    cart.clock_ppu_address(0x0FE8);
    assert_eq!(cart.read_chr(0x0000), 0x82);
    cart.clock_ppu_address(0x0FD8);
    assert_eq!(cart.read_chr(0x0000), 0x81);
    cart.write_prg(0xF000, 1);
    assert_eq!(cart.mirroring(), Mirroring::Horizontal);
}

#[test]
fn mmc5_prg_modes_mix_rom_and_ram() {
    // mapper 5, eight 16 KiB banks (sixteen 8 KiB banks), two CHR banks
    let mut cart = Cartridge::from_ines(&ines(8, 2, 0x50, 0)).unwrap();
    assert_eq!(cart.get_mapper_number(), 5);
    // mode 3 at power-on, $5117 = 0xFF: last 8 KiB bank at 0xE000
    assert_eq!(cart.read_prg(0xE000) >> 4, 7);
    // 0x8000 mapped to ROM bank 4 (bit 7 set): 16 KiB bank 2
    cart.write_prg(0x5114, 0x84);
    assert_eq!(cart.read_prg(0x8000) >> 4, 2);
    // 0xA000 mapped to RAM bank 1 (bit 7 clear): writable
    cart.write_prg(0x5115, 0x01);
    cart.write_prg(0xA010, 0x5A);
    assert_eq!(cart.read_prg(0xA010), 0x5A);
    // the same RAM bank seen at 0x6000
    cart.write_prg(0x5113, 0x01);
    assert_eq!(cart.read_prg(0x6010), 0x5A);
    // mode 0: one 32 KiB ROM bank from $5117
    cart.write_prg(0x5100, 0x00);
    cart.write_prg(0x5117, 0x84);
    assert_eq!(cart.read_prg(0x8000) >> 4, 2);
    assert_eq!(cart.read_prg(0xE000) >> 4, 3);
}

#[test]
fn mmc5_exram_and_chr_modes() {
    let mut cart = Cartridge::from_ines(&ines(2, 2, 0x50, 0)).unwrap();
    cart.write_prg(0x5C05, 0x33);
    assert_eq!(cart.read_prg(0x5C05), 0x33);
    cart.write_prg(0x5104, 0x02);
    cart.write_prg(0x5C06, 0x44);
    assert_eq!(cart.read_prg(0x5C06), 0x00);
    // CHR mode 3: 1 KiB banks; $5120 = 8 selects the second 8 KiB bank
    cart.write_prg(0x5101, 0x03);
    cart.write_prg(0x5120, 0x08);
    assert_eq!(cart.read_chr(0x0000), 0x81);
    assert_eq!(cart.read_chr(0x0400), 0x80);
    cart.write_prg(0x5105, 0x44);
    assert_eq!(cart.mirroring(), Mirroring::Vertical);
}
