//! Small NROM images for exercising the emulator: a background test, a
//! sprite test and a controller test.
use vstd::prelude::*;

use crate::cartridge::{ines_complete, ines_mapper};

verus! {

/// The 16-byte iNES header of a 16 KiB PRG / 8 KiB CHR NROM image.
pub open spec fn nrom_header() -> Seq<u8> {
    seq![0x4Eu8, 0x45, 0x53, 0x1A, 1, 1, 0, 0, 0, 0, 0, 0, 0, 0, 0, 0]
}

/// The image built from `program` (placed at 0xC000, the reset vector
/// pointing there) and the 8 KiB `chr`.
pub open spec fn nrom_image_spec(program: Seq<u8>, chr: Seq<u8>) -> Seq<u8> {
    let prg = Seq::new(0x4000, |i: int| if i < program.len() {
        program[i]
    } else if i == 0x3FFD {
        0xC0u8
    } else {
        0u8
    });
    nrom_header() + prg + chr
}

/// Builds an NROM image from a program and CHR data.
pub fn build_nrom_image(program: &Vec<u8>, chr: &Vec<u8>) -> (r: Vec<u8>)
    requires
        program@.len() <= 0x3FFC,
        chr@.len() == 0x2000,
    ensures
        r@ == nrom_image_spec(program@, chr@),
        ines_complete(r@),
        ines_mapper(r@) == 0,
{
    let mut rom: Vec<u8> = vec![0x4E, 0x45, 0x53, 0x1A, 1, 1, 0, 0, 0, 0, 0, 0, 0, 0, 0, 0];
    assert(rom@ =~= nrom_header());
    let ghost prg = Seq::new(0x4000, |i: int| if i < program@.len() {
        program@[i]
    } else if i == 0x3FFD {
        0xC0u8
    } else {
        0u8
    });
    let mut i: usize = 0;
    while i < 0x4000
        invariant
            program@.len() <= 0x3FFC,
            i <= 0x4000,
            prg.len() == 0x4000,
            forall|k: int|
                0 <= k < 0x4000 ==> #[trigger] prg[k] == if k < program@.len() {
                    program@[k]
                } else if k == 0x3FFD {
                    0xC0u8
                } else {
                    0u8
                },
            rom@ == nrom_header() + prg.subrange(0, i as int),
        decreases 0x4000 - i,
    {
        let b: u8 = if i < program.len() {
            program[i]
        } else if i == 0x3FFD {
            0xC0
        } else {
            0
        };
        rom.push(b);
        i = i + 1;
        assert(rom@ =~= nrom_header() + prg.subrange(0, i as int));
    }
    let mut j: usize = 0;
    while j < chr.len()
        invariant
            j <= chr@.len(),
            prg.len() == 0x4000,
            rom@ == nrom_header() + prg + chr@.subrange(0, j as int),
        decreases chr@.len() - j,
    {
        rom.push(chr[j]);
        j = j + 1;
        assert(rom@ =~= nrom_header() + prg + chr@.subrange(0, j as int));
    }
    assert(chr@.subrange(0, j as int) =~= chr@);
    assert(prg.subrange(0, 0x4000) =~= prg);
    let ghost r = rom@;
    assert(r[0] == 0x4E && r[1] == 0x45 && r[2] == 0x53 && r[3] == 0x1A);
    assert(r[4] == 1 && r[5] == 1 && r[6] == 0 && r[7] == 0);
    assert(0u8 & 0x04 == 0 && (0u8 >> 4u8) | (0u8 & 0xF0) == 0) by (bit_vector);
    rom
}

/// 8 KiB of zero bytes.
fn blank_chr() -> (r: Vec<u8>)
    ensures
        r@ == Seq::new(0x2000, |i: int| 0u8),
{
    let mut r: Vec<u8> = Vec::with_capacity(0x2000);
    let mut i: usize = 0;
    while i < 0x2000
        invariant
            i <= 0x2000,
            r@ == Seq::new(i as nat, |j: int| 0u8),
        decreases 0x2000 - i,
    {
        r.push(0);
        i = i + 1;
        assert(r@ =~= Seq::new(i as nat, |j: int| 0u8));
    }
    r
}

/// Waits two frames, sets the backdrop colour, fills the first nametable
/// with tile 0 (a checkerboard), enables the background and NMI, then
/// spins.
pub fn create_test_rom() -> (r: Vec<u8>)
    ensures
        ines_complete(r@),
        ines_mapper(r@) == 0,
        r@.len() == 16 + 0x4000 + 0x2000,
{
    let program: Vec<u8> = vec![
        0xA9, 0x00, 0x8D, 0x00, 0x20, 0x8D, 0x01, 0x20, 0x2C, 0x02, 0x20, 0x10,
        0xFB, 0x2C, 0x02, 0x20, 0x10, 0xFB, 0xA9, 0x3F, 0x8D, 0x06, 0x20, 0xA9,
        0x00, 0x8D, 0x06, 0x20, 0xA9, 0x21, 0x8D, 0x07, 0x20, 0xA9, 0x20, 0x8D,
        0x06, 0x20, 0xA9, 0x00, 0x8D, 0x06, 0x20, 0xA9, 0x00, 0xA2, 0x00, 0xA0,
        0x04, 0x8D, 0x07, 0x20, 0xE8, 0xD0, 0xFA, 0x88, 0xD0, 0xF7, 0xA9, 0x00,
        0x8D, 0x05, 0x20, 0x8D, 0x05, 0x20, 0xA9, 0x08, 0x8D, 0x01, 0x20, 0xA9,
        0x80, 0x8D, 0x00, 0x20, 0x4C, 0x4C, 0xC0,
    ];
    let mut chr = blank_chr();
    let mut i: usize = 0;
    while i < 8
        invariant
            i <= 8,
            chr@.len() == 0x2000,
        decreases 8 - i,
    {
        let b: u8 = if i % 2 == 0 {
            0xAA
        } else {
            0x55
        };
        chr.set(i, b);
        chr.set(i + 8, b);
        i = i + 1;
    }
    build_nrom_image(&program, &chr)
}

/// Loads a palette, puts sprite 0 (tile 1, a face) on screen, enables
/// background and sprites, then spins.
pub fn create_sprite_test_rom() -> (r: Vec<u8>)
    ensures
        ines_complete(r@),
        ines_mapper(r@) == 0,
        r@.len() == 16 + 0x4000 + 0x2000,
{
    let program: Vec<u8> = vec![
        0xA9, 0x00, 0x8D, 0x00, 0x20, 0x8D, 0x01, 0x20, 0x2C, 0x02, 0x20, 0x10,
        0xFB, 0x2C, 0x02, 0x20, 0x10, 0xFB, 0xA9, 0x3F, 0x8D, 0x06, 0x20, 0xA9,
        0x00, 0x8D, 0x06, 0x20, 0xA9, 0x0F, 0x8D, 0x07, 0x20, 0xA9, 0x00, 0x8D,
        0x07, 0x20, 0xA9, 0x10, 0x8D, 0x07, 0x20, 0xA9, 0x30, 0x8D, 0x07, 0x20,
        0xA9, 0x3F, 0x8D, 0x06, 0x20, 0xA9, 0x10, 0x8D, 0x06, 0x20, 0xA9, 0x0F,
        0x8D, 0x07, 0x20, 0xA9, 0x16, 0x8D, 0x07, 0x20, 0xA9, 0x27, 0x8D, 0x07,
        0x20, 0xA9, 0x18, 0x8D, 0x07, 0x20, 0xA9, 0x00, 0x8D, 0x03, 0x20, 0xA2,
        0x00, 0xA9, 0xFF, 0x8D, 0x04, 0x20, 0xE8, 0xD0, 0xFA, 0xA9, 0x00, 0x8D,
        0x03, 0x20, 0xA9, 0x78, 0x8D, 0x04, 0x20, 0xA9, 0x01, 0x8D, 0x04, 0x20,
        0xA9, 0x00, 0x8D, 0x04, 0x20, 0xA9, 0x80, 0x8D, 0x04, 0x20, 0xA9, 0x00,
        0x8D, 0x05, 0x20, 0x8D, 0x05, 0x20, 0xA9, 0x18, 0x8D, 0x01, 0x20, 0xA9,
        0x80, 0x8D, 0x00, 0x20, 0x4C, 0x80, 0xC0,
    ];
    let pattern: Vec<u8> = vec![0b00111100, 0b01000010, 0b10100101, 0b10000001, 0b10100101, 0b10011001, 0b01000010, 0b00111100];
    let mut chr = blank_chr();
    let mut i: usize = 0;
    while i < 8
        invariant
            i <= 8,
            chr@.len() == 0x2000,
            pattern@.len() == 8,
        decreases 8 - i,
    {
        chr.set(0x10 + i, pattern[i]);
        chr.set(0x18 + i, pattern[i]);
        i = i + 1;
    }
    build_nrom_image(&program, &chr)
}

/// Strobes controller 1, shifts its eight buttons into 0x0000 (A in bit
/// 0), then spins.
pub fn create_controller_test_rom() -> (r: Vec<u8>)
    ensures
        ines_complete(r@),
        ines_mapper(r@) == 0,
        r@.len() == 16 + 0x4000 + 0x2000,
{
    let program: Vec<u8> = vec![
        0xA9, 0x00, 0x85, 0x00, 0xA9, 0x01, 0x8D, 0x16, 0x40, 0xA9, 0x00, 0x8D,
        0x16, 0x40, 0xA2, 0x08, 0xAD, 0x16, 0x40, 0x4A, 0x66, 0x00, 0xCA, 0xD0,
        0xF7, 0x4C, 0x19, 0xC0,
    ];
    let chr = blank_chr();
    build_nrom_image(&program, &chr)
}

} // verus!
