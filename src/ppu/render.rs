//! Background and sprite pixel selection and the output colour table.
use vstd::prelude::*;

verus! {

/// The 64-entry NTSC colour table, 0x00RRGGBB, indexed by the low six bits
/// of a palette entry.
pub open spec fn nes_color_spec(index: u8) -> u32 {
    match index % 64 {
        0 => 0x666666,
        1 => 0x002A88,
        2 => 0x1412A7,
        3 => 0x3B00A4,
        4 => 0x5C007E,
        5 => 0x6E0040,
        6 => 0x6C0600,
        7 => 0x561D00,
        8 => 0x333500,
        9 => 0x0B4800,
        10 => 0x005200,
        11 => 0x004F08,
        12 => 0x00404D,
        13 => 0x000000,
        14 => 0x000000,
        15 => 0x000000,
        16 => 0xADADAD,
        17 => 0x155FD9,
        18 => 0x4240FF,
        19 => 0x7527FE,
        20 => 0xA01ACC,
        21 => 0xB71E7B,
        22 => 0xB53120,
        23 => 0x994E00,
        24 => 0x6B6D00,
        25 => 0x388700,
        26 => 0x0C9300,
        27 => 0x008F32,
        28 => 0x007C8D,
        29 => 0x000000,
        30 => 0x000000,
        31 => 0x000000,
        32 => 0xFFFEFF,
        33 => 0x64B0FF,
        34 => 0x9290FF,
        35 => 0xC676FF,
        36 => 0xF36AFF,
        37 => 0xFE6ECC,
        38 => 0xFE8170,
        39 => 0xEA9E22,
        40 => 0xBCBE00,
        41 => 0x88D800,
        42 => 0x5CE430,
        43 => 0x45E082,
        44 => 0x48CDDE,
        45 => 0x4F4F4F,
        46 => 0x000000,
        47 => 0x000000,
        48 => 0xFFFEFF,
        49 => 0xC0DFFF,
        50 => 0xD3D2FF,
        51 => 0xE8C8FF,
        52 => 0xFBC2FF,
        53 => 0xFEC4EA,
        54 => 0xFECCC5,
        55 => 0xF7D8A5,
        56 => 0xE4E594,
        57 => 0xCFEF96,
        58 => 0xBDF4AB,
        59 => 0xB3F3CC,
        60 => 0xB5EBF2,
        61 => 0xB8B8B8,
        62 => 0x000000,
        _ => 0x000000,
    }
}

/// The colour of a palette entry.
pub fn nes_color(index: u8) -> (r: u32)
    ensures
        r == nes_color_spec(index),
{
    match index % 64 {
        0 => 0x666666,
        1 => 0x002A88,
        2 => 0x1412A7,
        3 => 0x3B00A4,
        4 => 0x5C007E,
        5 => 0x6E0040,
        6 => 0x6C0600,
        7 => 0x561D00,
        8 => 0x333500,
        9 => 0x0B4800,
        10 => 0x005200,
        11 => 0x004F08,
        12 => 0x00404D,
        13 => 0x000000,
        14 => 0x000000,
        15 => 0x000000,
        16 => 0xADADAD,
        17 => 0x155FD9,
        18 => 0x4240FF,
        19 => 0x7527FE,
        20 => 0xA01ACC,
        21 => 0xB71E7B,
        22 => 0xB53120,
        23 => 0x994E00,
        24 => 0x6B6D00,
        25 => 0x388700,
        26 => 0x0C9300,
        27 => 0x008F32,
        28 => 0x007C8D,
        29 => 0x000000,
        30 => 0x000000,
        31 => 0x000000,
        32 => 0xFFFEFF,
        33 => 0x64B0FF,
        34 => 0x9290FF,
        35 => 0xC676FF,
        36 => 0xF36AFF,
        37 => 0xFE6ECC,
        38 => 0xFE8170,
        39 => 0xEA9E22,
        40 => 0xBCBE00,
        41 => 0x88D800,
        42 => 0x5CE430,
        43 => 0x45E082,
        44 => 0x48CDDE,
        45 => 0x4F4F4F,
        46 => 0x000000,
        47 => 0x000000,
        48 => 0xFFFEFF,
        49 => 0xC0DFFF,
        50 => 0xD3D2FF,
        51 => 0xE8C8FF,
        52 => 0xFBC2FF,
        53 => 0xFEC4EA,
        54 => 0xFECCC5,
        55 => 0xF7D8A5,
        56 => 0xE4E594,
        57 => 0xCFEF96,
        58 => 0xBDF4AB,
        59 => 0xB3F3CC,
        60 => 0xB5EBF2,
        61 => 0xB8B8B8,
        62 => 0x000000,
        _ => 0x000000,
    }
}

/// The 2-bit value at bit `bit` of a pair of bit planes.
pub open spec fn plane_bits(lo: u16, hi: u16, bit: u16) -> u8 {
    ((if (hi >> bit) & 1 != 0 { 2u8 } else { 0u8 }) + (if (lo >> bit) & 1 != 0 { 1u8 } else { 0u8 })) as u8
}

pub fn plane_pixel(lo: u16, hi: u16, bit: u16) -> (r: u8)
    requires
        bit < 16,
    ensures
        r == plane_bits(lo, hi, bit),
        r < 4,
{
    let h: u8 = if (hi >> bit) & 1 != 0 { 2 } else { 0 };
    let l: u8 = if (lo >> bit) & 1 != 0 { 1 } else { 0 };
    h + l
}

/// The palette RAM address of the pixel shown: the backdrop when both
/// layers are transparent, the opaque one when one is, and when both are
/// opaque the sprite if it is in front, else the background.
pub open spec fn mix_spec(bg_pixel: u8, bg_palette: u8, spr_pixel: u8, spr_palette: u8, spr_front: bool) -> u8 {
    if bg_pixel == 0 && spr_pixel == 0 {
        0
    } else if bg_pixel == 0 || (spr_pixel != 0 && spr_front) {
        ((spr_palette * 4 + spr_pixel) % 0x20) as u8
    } else {
        ((bg_palette * 4 + bg_pixel) % 0x20) as u8
    }
}

pub fn mix_pixel(bg_pixel: u8, bg_palette: u8, spr_pixel: u8, spr_palette: u8, spr_front: bool) -> (r: u8)
    requires
        bg_pixel < 4,
        bg_palette < 4,
        spr_pixel < 4,
        4 <= spr_palette < 8,
    ensures
        r == mix_spec(bg_pixel, bg_palette, spr_pixel, spr_palette, spr_front),
        r < 0x20,
{
    if bg_pixel == 0 && spr_pixel == 0 {
        0
    } else if bg_pixel == 0 || (spr_pixel != 0 && spr_front) {
        spr_palette * 4 + spr_pixel
    } else {
        bg_palette * 4 + bg_pixel
    }
}

} // verus!
