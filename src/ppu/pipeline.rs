//! The per-dot pipeline: background fetches and shifters, sprite
//! evaluation and fetch, pixel output and the scanline/dot counters.
use vstd::prelude::*;

use crate::cartridge::Cartridge;
use crate::ppu::render::{mix_pixel, mix_spec, nes_color, nes_color_spec, plane_bits, plane_pixel};
use crate::ppu::{
    copy_horizontal_spec, copy_vertical_spec, increment_x, increment_x_spec, increment_y,
    increment_y_spec, Ppu,
};

verus! {

/// The sprite layer at screen column `x`, scanning slots from `i`: the
/// first opaque sprite pixel gives (pixel, palette 4..=7, in front, slot);
/// none gives (0, 4, false, 8).
pub open spec fn sprite_at(p: &Ppu, x: int, i: int) -> (u8, u8, bool, int)
    decreases 8 - i,
{
    if i < 0 || i >= p.sprite_count || i >= 8 {
        (0, 4, false, 8)
    } else {
        let diff = x - p.sprite_positions@[i];
        let attr = p.sprite_attributes@[i];
        let bit = if attr & 0x40 != 0 {
            diff
        } else {
            7 - diff
        };
        let px = plane_bits(p.sprite_patterns_lo@[i] as u16, p.sprite_patterns_hi@[i] as u16, bit as u16);
        if 0 <= diff < 8 && px != 0 {
            (px, ((attr & 3) + 4) as u8, attr & 0x20 == 0, i)
        } else {
            sprite_at(p, x, i + 1)
        }
    }
}

/// Whether the background layer is shown at column `x`.
pub open spec fn bg_shown(mask: u8, x: int) -> bool {
    mask & 0x08 != 0 && (x >= 8 || mask & 0x02 != 0)
}

/// Whether the sprite layer is shown at column `x`.
pub open spec fn sprites_shown(mask: u8, x: int) -> bool {
    mask & 0x10 != 0 && (x >= 8 || mask & 0x04 != 0)
}

/// The background pixel and palette at the current dot: bit `15 - x` of
/// the shift registers.
pub open spec fn bg_at(p: &Ppu) -> (u8, u8) {
    let bit = (15 - (p.x & 0x07)) as u16;
    (
        plane_bits(p.bg_shift_pattern_lo, p.bg_shift_pattern_hi, bit),
        plane_bits(p.bg_shift_attrib_lo, p.bg_shift_attrib_hi, bit),
    )
}

/// The palette address shown at column `x`, and whether sprite 0 hits
/// there.
pub open spec fn pixel_spec(p: &Ppu, x: int) -> (u8, bool) {
    let (bp, bpal) = if bg_shown(p.mask, x) {
        bg_at(p)
    } else {
        (0u8, 0u8)
    };
    let (sp, spal, front, slot) = if sprites_shown(p.mask, x) {
        sprite_at(p, x, 0)
    } else {
        (0u8, 4u8, false, 8)
    };
    let zero_hit = sprites_shown(p.mask, x) && bp != 0 && p.sprite_count > 0
        && p.sprite_indexes@[0] == 0 && sprite_at(p, x, 0).3 == 0 && x <= 253;
    (mix_spec(bp, bpal, sp, spal, front), zero_hit)
}

/// The dot and scanline after `(scanline, cycle)`, and whether a new
/// frame starts. On odd frames with background rendering on, dot 339 of
/// the pre-render line is skipped.
pub open spec fn advance_spec(scanline: i32, cycle: u16, odd_frame: bool, rendering: bool) -> (
    i32,
    u16,
    bool,
) {
    let c = if scanline == -1 && cycle == 339 && odd_frame && rendering {
        340
    } else {
        cycle
    };
    if c < 340 {
        (scanline, (c + 1) as u16, false)
    } else if scanline == 260 {
        (-1i32, 0u16, true)
    } else {
        ((scanline + 1) as i32, 0u16, false)
    }
}

/// Whether `oam` sprite `n` covers line `line` for sprites `height` tall.
pub open spec fn in_range(oam: Seq<u8>, n: int, line: int, height: int) -> bool {
    0 <= line - oam[4 * n] < height
}

/// How many of the first `n` sprites cover `line`.
pub open spec fn count_in_range(oam: Seq<u8>, n: int, line: int, height: int) -> int
    decreases n,
{
    if n <= 0 {
        0
    } else {
        count_in_range(oam, n - 1, line, height) + if in_range(oam, n - 1, line, height) {
            1int
        } else {
            0int
        }
    }
}

impl Ppu {
    /// The shifters' low bytes take the next tile's pattern and attribute.
    pub fn load_background_shifters(&mut self)
        ensures
            final(self).bg_shift_pattern_lo == (old(self).bg_shift_pattern_lo & 0xFF00) | (old(self).bg_next_tile_lsb as u16),
            final(self).bg_shift_pattern_hi == (old(self).bg_shift_pattern_hi & 0xFF00) | (old(self).bg_next_tile_msb as u16),
            final(self).bg_shift_attrib_lo == (old(self).bg_shift_attrib_lo & 0xFF00) | (if old(self).bg_next_tile_attrib & 1 != 0 {
                0xFFu16
            } else {
                0u16
            }),
            final(self).bg_shift_attrib_hi == (old(self).bg_shift_attrib_hi & 0xFF00) | (if old(self).bg_next_tile_attrib & 2 != 0 {
                0xFFu16
            } else {
                0u16
            }),
            final(self).wf() == old(self).wf(),
            final(self).framebuffer == old(self).framebuffer && final(self).status == old(self).status,
            final(self).scanline == old(self).scanline && final(self).cycle == old(self).cycle,
            final(self).v == old(self).v && final(self).mask == old(self).mask,
            final(self).sprite_count == old(self).sprite_count,
            final(self).oam == old(self).oam,
            final(self).vram == old(self).vram && final(self).palette == old(self).palette,
            final(self).ctrl == old(self).ctrl && final(self).t == old(self).t,
            final(self).x == old(self).x && final(self).w == old(self).w,
            final(self).nmi_pending == old(self).nmi_pending,
            final(self).suppress_vbl == old(self).suppress_vbl,
            final(self).frame == old(self).frame && final(self).odd_frame == old(self).odd_frame,
            final(self).oam_addr == old(self).oam_addr && final(self).open_bus == old(self).open_bus
                && final(self).buffer == old(self).buffer,
            final(self).bg_next_tile_id == old(self).bg_next_tile_id,
    {
        self.bg_shift_pattern_lo = (self.bg_shift_pattern_lo & 0xFF00) | (self.bg_next_tile_lsb as u16);
        self.bg_shift_pattern_hi = (self.bg_shift_pattern_hi & 0xFF00) | (self.bg_next_tile_msb as u16);
        let alo: u16 = if self.bg_next_tile_attrib & 1 != 0 {
            0xFF
        } else {
            0
        };
        let ahi: u16 = if self.bg_next_tile_attrib & 2 != 0 {
            0xFF
        } else {
            0
        };
        self.bg_shift_attrib_lo = (self.bg_shift_attrib_lo & 0xFF00) | alo;
        self.bg_shift_attrib_hi = (self.bg_shift_attrib_hi & 0xFF00) | ahi;
    }

    /// With background rendering on, the four shifters move one bit left.
    pub fn update_shifters(&mut self)
        ensures
            old(self).mask & 0x08 != 0 ==> {
                &&& final(self).bg_shift_pattern_lo == old(self).bg_shift_pattern_lo << 1u16
                &&& final(self).bg_shift_pattern_hi == old(self).bg_shift_pattern_hi << 1u16
                &&& final(self).bg_shift_attrib_lo == old(self).bg_shift_attrib_lo << 1u16
                &&& final(self).bg_shift_attrib_hi == old(self).bg_shift_attrib_hi << 1u16
            },
            old(self).mask & 0x08 == 0 ==> final(self).bg_shift_pattern_lo == old(self).bg_shift_pattern_lo && final(self).bg_shift_pattern_hi == old(self).bg_shift_pattern_hi
                && final(self).bg_shift_attrib_lo == old(self).bg_shift_attrib_lo && final(self).bg_shift_attrib_hi == old(self).bg_shift_attrib_hi,
            final(self).wf() == old(self).wf(),
            final(self).framebuffer == old(self).framebuffer && final(self).status == old(self).status,
            final(self).scanline == old(self).scanline && final(self).cycle == old(self).cycle,
            final(self).v == old(self).v && final(self).mask == old(self).mask,
            final(self).sprite_count == old(self).sprite_count,
            final(self).oam == old(self).oam,
            final(self).vram == old(self).vram && final(self).palette == old(self).palette,
            final(self).ctrl == old(self).ctrl && final(self).t == old(self).t,
            final(self).x == old(self).x && final(self).w == old(self).w,
            final(self).nmi_pending == old(self).nmi_pending,
            final(self).suppress_vbl == old(self).suppress_vbl,
            final(self).frame == old(self).frame && final(self).odd_frame == old(self).odd_frame,
            final(self).oam_addr == old(self).oam_addr && final(self).open_bus == old(self).open_bus
                && final(self).buffer == old(self).buffer,
            final(self).bg_next_tile_id == old(self).bg_next_tile_id,
    {
        if self.mask & 0x08 != 0 {
            self.bg_shift_pattern_lo = self.bg_shift_pattern_lo << 1;
            self.bg_shift_pattern_hi = self.bg_shift_pattern_hi << 1;
            self.bg_shift_attrib_lo = self.bg_shift_attrib_lo << 1;
            self.bg_shift_attrib_hi = self.bg_shift_attrib_hi << 1;
        }
    }

    /// The nametable byte for `v`: at 0x2000 plus the low 12 bits.
    pub fn fetch_nametable_byte(&self, cart: &Cartridge) -> (r: u8)
        requires
            self.wf(),
            cart.wf(),
        ensures
            r == self.byte_at((0x2000u16 | (self.v & 0x0FFF)), cart),
    {
        self.read_byte(0x2000 | (self.v & 0x0FFF), cart)
    }

    /// The two attribute bits of the tile at `v`.
    pub fn fetch_attribute_byte(&self, cart: &Cartridge) -> (r: u8)
        requires
            self.wf(),
            cart.wf(),
        ensures
            ({
                let v = self.v;
                let addr = (0x23C0u16 | (v & 0x0C00) | ((v >> 4u16) & 0x38) | ((v >> 2u16) & 0x07));
                let shift = ((v >> 4u16) & 4) | (v & 2);
                r == (self.byte_at(addr, cart) >> shift) & 0x03
            }),
    {
        let v = self.v;
        let addr = 0x23C0 | (v & 0x0C00) | ((v >> 4) & 0x38) | ((v >> 2) & 0x07);
        let shift = ((v >> 4) & 4) | (v & 2);
        assert(shift <= 6) by (bit_vector)
            requires
                shift == ((v >> 4u16) & 4) | (v & 2),
        ;
        let attrib = self.read_byte(addr, cart);
        (attrib >> shift) & 0x03
    }

    /// A background pattern byte (`plane` 0 or 1) of the next tile, row
    /// fine-Y of `v`, from the table PPUCTRL bit 4 selects.
    pub fn fetch_pattern_byte(&self, plane: u8, cart: &Cartridge) -> (r: u8)
        requires
            self.wf(),
            cart.wf(),
            plane < 2,
        ensures
            r == self.byte_at(
                ((if self.ctrl & 0x10 != 0 {
                    0x1000int
                } else {
                    0int
                }) + self.bg_next_tile_id * 16 + plane * 8 + ((self.v >> 12u16) & 0x07)) as u16,
                cart,
            ),
    {
        let v = self.v;
        let fine_y = (v >> 12) & 0x07;
        assert(fine_y < 8) by (bit_vector)
            requires
                fine_y == (v >> 12u16) & 0x07,
        ;
        let table: u16 = if self.ctrl & 0x10 != 0 {
            0x1000
        } else {
            0
        };
        let addr = table + (self.bg_next_tile_id as u16) * 16 + (plane as u16) * 8 + fine_y;
        self.read_byte(addr, cart)
    }

    /// The sprite layer at column `x`.
    fn sprite_pixel(&self, x: u16) -> (r: (u8, u8, bool, u8))
        requires
            self.wf(),
            x < 256,
        ensures
            r.0 == sprite_at(self, x as int, 0).0,
            r.1 == sprite_at(self, x as int, 0).1,
            r.2 == sprite_at(self, x as int, 0).2,
            r.3 as int == sprite_at(self, x as int, 0).3,
            r.0 < 4,
            4 <= r.1 < 8,
    {
        let mut i: u8 = 0;
        while i < self.sprite_count
            invariant
                self.wf(),
                x < 256,
                i <= self.sprite_count,
                sprite_at(self, x as int, 0) == sprite_at(self, x as int, i as int),
            decreases self.sprite_count - i,
        {
            let pos = self.sprite_positions[i as usize];
            let attr = self.sprite_attributes[i as usize];
            if pos as u16 <= x && x < pos as u16 + 8 {
                let diff = x - pos as u16;
                let bit: u16 = if attr & 0x40 != 0 {
                    diff
                } else {
                    7 - diff
                };
                let px = plane_pixel(
                    self.sprite_patterns_lo[i as usize] as u16,
                    self.sprite_patterns_hi[i as usize] as u16,
                    bit,
                );
                if px != 0 {
                    assert((attr & 3) + 4 < 8) by (bit_vector);
                    return (px, ((attr & 3) + 4) as u8, attr & 0x20 == 0, i);
                }
            }
            i = i + 1;
        }
        (0, 4, false, 8)
    }

    /// Outputs the pixel of the current dot (1..=256) of a visible line:
    /// the mixed palette entry's colour goes to the framebuffer, and a
    /// sprite-0 hit sets PPUSTATUS bit 6.
    pub fn render_pixel(&mut self)
        requires
            old(self).wf(),
            0 <= old(self).scanline < 240,
            1 <= old(self).cycle <= 256,
        ensures
            final(self).wf(),
            ({
                let x = old(self).cycle - 1;
                let y = old(self).scanline;
                let (addr, hit) = pixel_spec(old(self), x as int);
                &&& final(self).framebuffer@ == old(self).framebuffer@.update(
                    y * 256 + x,
                    nes_color_spec(old(self).palette@[addr as int] & 0x3F),
                )
                &&& final(self).status == if hit {
                    old(self).status | 0x40
                } else {
                    old(self).status
                }
            }),
            final(self).scanline == old(self).scanline && final(self).cycle == old(self).cycle,
            final(self).v == old(self).v && final(self).t == old(self).t,
            final(self).mask == old(self).mask && final(self).ctrl == old(self).ctrl,
            final(self).nmi_pending == old(self).nmi_pending,
            final(self).suppress_vbl == old(self).suppress_vbl,
            final(self).odd_frame == old(self).odd_frame && final(self).frame == old(self).frame,
            final(self).oam == old(self).oam && final(self).secondary_oam == old(self).secondary_oam,
            final(self).vram == old(self).vram && final(self).palette == old(self).palette,
            final(self).sprite_count == old(self).sprite_count,
            final(self).x == old(self).x && final(self).w == old(self).w,
            final(self).oam_addr == old(self).oam_addr && final(self).open_bus == old(self).open_bus
                && final(self).buffer == old(self).buffer,
    {
        let x = self.cycle - 1;
        let y = self.scanline as usize;
        let show_bg = self.mask & 0x08 != 0 && (x >= 8 || self.mask & 0x02 != 0);
        let show_spr = self.mask & 0x10 != 0 && (x >= 8 || self.mask & 0x04 != 0);
        let (bg_pixel, bg_palette) = if show_bg {
            let fx = self.x;
            assert(fx & 0x07 <= 7) by (bit_vector);
            let bit = 15 - (fx & 0x07) as u16;
            (
                plane_pixel(self.bg_shift_pattern_lo, self.bg_shift_pattern_hi, bit),
                plane_pixel(self.bg_shift_attrib_lo, self.bg_shift_attrib_hi, bit),
            )
        } else {
            (0, 0)
        };
        let (spr_pixel, spr_palette, spr_front, slot) = if show_spr {
            self.sprite_pixel(x)
        } else {
            (0, 4, false, 8)
        };
        let zero_hit = show_spr && bg_pixel != 0 && self.sprite_count > 0
            && self.sprite_indexes[0] == 0 && slot == 0 && x <= 253;
        let addr = mix_pixel(bg_pixel, bg_palette, spr_pixel, spr_palette, spr_front);
        let color = nes_color(self.palette[addr as usize] & 0x3F);
        if zero_hit {
            self.status = self.status | 0x40;
        }
        self.framebuffer.set(y * 256 + x as usize, color);
    }
}


/// The pattern-table address of row `line - y` of a sprite (`plane` 0 or
/// 1). 8x8 sprites use the table of PPUCTRL bit 3; 8x16 sprites take the
/// table from bit 0 of the tile number and use the tile pair it starts.
/// Bit 7 of the attributes flips the sprite vertically.
pub open spec fn sprite_pattern_addr(ctrl: u8, y: u8, tile: u8, attr: u8, line: int, plane: u8) -> u16 {
    let height: int = if ctrl & 0x20 != 0 {
        16
    } else {
        8
    };
    let diff = line - y;
    let row0 = if 0 <= diff < height {
        diff
    } else {
        0
    };
    let row = if attr & 0x80 != 0 {
        height - 1 - row0
    } else {
        row0
    };
    let addr: int = if height == 8 {
        (if ctrl & 0x08 != 0 {
            0x1000int
        } else {
            0int
        }) + tile * 16 + row
    } else {
        let table = if tile % 2 == 1 {
            0x1000int
        } else {
            0int
        };
        let first = tile - tile % 2;
        if row >= 8 {
            table + (first + 1) * 16 + (row - 8)
        } else {
            table + first * 16 + row
        }
    };
    (addr + plane * 8) as u16
}

/// Counting in-range sprites never goes down as more sprites are seen.
pub proof fn lemma_count_in_range_monotone(oam: Seq<u8>, a: int, b: int, line: int, height: int)
    requires
        0 <= a <= b,
    ensures
        count_in_range(oam, a, line, height) <= count_in_range(oam, b, line, height),
    decreases b - a,
{
    if a < b {
        lemma_count_in_range_monotone(oam, a, b - 1, line, height);
    }
}

impl Ppu {
    /// Selects the sprites of line `line`: the first eight OAM entries
    /// whose Y covers it, in OAM order, go to the eight slots (and to
    /// secondary OAM); the rest of the slots are cleared. When eight were
    /// found the search goes on with the hardware's faulty byte stepping,
    /// and a hit sets the overflow flag (PPUSTATUS bit 5).
    pub fn evaluate_sprites(&mut self, line: i32)
        requires
            old(self).wf(),
        ensures
            final(self).wf(),
            ({
                let h: int = if old(self).ctrl & 0x20 != 0 {
                    16
                } else {
                    8
                };
                let total = count_in_range(old(self).oam@, 64, line as int, h);
                &&& final(self).sprite_count == if total < 8 {
                    total
                } else {
                    8
                }
                &&& forall|k: int|
                    0 <= k < final(self).sprite_count ==> {
                        let n = #[trigger] final(self).sprite_indexes@[k] as int;
                        &&& n < 64
                        &&& in_range(old(self).oam@, n, line as int, h)
                        &&& count_in_range(old(self).oam@, n, line as int, h) == k
                        &&& final(self).sprite_positions@[k] == old(self).oam@[4 * n + 3]
                        &&& final(self).sprite_attributes@[k] == old(self).oam@[4 * n + 2]
                        &&& final(self).secondary_oam@[4 * k] == old(self).oam@[4 * n]
                        &&& final(self).secondary_oam@[4 * k + 1] == old(self).oam@[4 * n + 1]
                        &&& final(self).secondary_oam@[4 * k + 2] == old(self).oam@[4 * n + 2]
                        &&& final(self).secondary_oam@[4 * k + 3] == old(self).oam@[4 * n + 3]
                    }
                &&& forall|j: int|
                    4 * final(self).sprite_count <= j < 32 ==> #[trigger] final(self).secondary_oam@[j]
                        == 0xFF
            }),
            final(self).status == old(self).status || (final(self).status == old(self).status
                | 0x20 && final(self).sprite_count == 8),
            final(self).oam == old(self).oam,
            final(self).framebuffer == old(self).framebuffer,
            final(self).vram == old(self).vram && final(self).palette == old(self).palette,
            final(self).ctrl == old(self).ctrl && final(self).mask == old(self).mask,
            final(self).v == old(self).v && final(self).t == old(self).t,
            final(self).x == old(self).x && final(self).w == old(self).w,
            final(self).scanline == old(self).scanline && final(self).cycle == old(self).cycle,
            final(self).nmi_pending == old(self).nmi_pending,
            final(self).suppress_vbl == old(self).suppress_vbl,
            final(self).frame == old(self).frame && final(self).odd_frame == old(self).odd_frame,
            final(self).oam_addr == old(self).oam_addr && final(self).open_bus == old(self).open_bus
                && final(self).buffer == old(self).buffer,
    {
        let height: i32 = if self.ctrl & 0x20 != 0 {
            16
        } else {
            8
        };
        let ghost h = height as int;
        let mut k: usize = 0;
        while k < 8
            invariant
                old(self).wf(),
                self.wf(),
                k <= 8,
                self.oam == old(self).oam,
                self.framebuffer == old(self).framebuffer,
                self.vram == old(self).vram && self.palette == old(self).palette,
                self.ctrl == old(self).ctrl && self.mask == old(self).mask,
                self.v == old(self).v && self.t == old(self).t,
                self.x == old(self).x && self.w == old(self).w,
                self.scanline == old(self).scanline && self.cycle == old(self).cycle,
                self.nmi_pending == old(self).nmi_pending,
                self.suppress_vbl == old(self).suppress_vbl,
                self.frame == old(self).frame && self.odd_frame == old(self).odd_frame,
                self.oam_addr == old(self).oam_addr && self.open_bus == old(self).open_bus,
                self.buffer == old(self).buffer && self.status == old(self).status,
            decreases 8 - k,
        {
            self.sprite_patterns_lo.set(k, 0);
            self.sprite_patterns_hi.set(k, 0);
            self.sprite_positions.set(k, 0xFF);
            self.sprite_indexes.set(k, 0xFF);
            self.sprite_attributes.set(k, 0);
            k = k + 1;
        }
        let mut j: usize = 0;
        while j < 32
            invariant
                forall|i: int| 0 <= i < j ==> #[trigger] self.secondary_oam@[i] == 0xFF,
                self.wf(),
                j <= 32,
                self.oam == old(self).oam,
                self.framebuffer == old(self).framebuffer,
                self.vram == old(self).vram && self.palette == old(self).palette,
                self.ctrl == old(self).ctrl && self.mask == old(self).mask,
                self.v == old(self).v && self.t == old(self).t,
                self.x == old(self).x && self.w == old(self).w,
                self.scanline == old(self).scanline && self.cycle == old(self).cycle,
                self.nmi_pending == old(self).nmi_pending,
                self.suppress_vbl == old(self).suppress_vbl,
                self.frame == old(self).frame && self.odd_frame == old(self).odd_frame,
                self.oam_addr == old(self).oam_addr && self.open_bus == old(self).open_bus,
                self.buffer == old(self).buffer && self.status == old(self).status,
            decreases 32 - j,
        {
            self.secondary_oam.set(j, 0xFF);
            j = j + 1;
        }
        assert(forall|i: int| 0 <= i < 32 ==> #[trigger] self.secondary_oam@[i] == 0xFF);
        self.sprite_count = 0;
        let mut n: usize = 0;
        while n < 64 && self.sprite_count < 8
            invariant
                self.wf(),
                n <= 64,
                h == if self.ctrl & 0x20 != 0 {
                    16int
                } else {
                    8int
                },
                height as int == h,
                self.sprite_count as int == count_in_range(self.oam@, n as int, line as int, h),
                forall|k: int|
                    0 <= k < self.sprite_count ==> {
                        let m = #[trigger] self.sprite_indexes@[k] as int;
                        &&& m < n
                        &&& in_range(self.oam@, m, line as int, h)
                        &&& count_in_range(self.oam@, m, line as int, h) == k
                        &&& self.sprite_positions@[k] == self.oam@[4 * m + 3]
                        &&& self.sprite_attributes@[k] == self.oam@[4 * m + 2]
                        &&& self.secondary_oam@[4 * k] == self.oam@[4 * m]
                        &&& self.secondary_oam@[4 * k + 1] == self.oam@[4 * m + 1]
                        &&& self.secondary_oam@[4 * k + 2] == self.oam@[4 * m + 2]
                        &&& self.secondary_oam@[4 * k + 3] == self.oam@[4 * m + 3]
                    },
                forall|j: int| 4 * self.sprite_count <= j < 32 ==> #[trigger] self.secondary_oam@[j] == 0xFF,
                self.oam == old(self).oam,
                self.framebuffer == old(self).framebuffer,
                self.vram == old(self).vram && self.palette == old(self).palette,
                self.ctrl == old(self).ctrl && self.mask == old(self).mask,
                self.v == old(self).v && self.t == old(self).t,
                self.x == old(self).x && self.w == old(self).w,
                self.scanline == old(self).scanline && self.cycle == old(self).cycle,
                self.nmi_pending == old(self).nmi_pending,
                self.suppress_vbl == old(self).suppress_vbl,
                self.frame == old(self).frame && self.odd_frame == old(self).odd_frame,
                self.oam_addr == old(self).oam_addr && self.open_bus == old(self).open_bus,
                self.buffer == old(self).buffer && self.status == old(self).status,
            decreases 64 - n,
        {
            let y = self.oam[n * 4] as i32;
            let diff = line as i64 - y as i64;
            if 0 <= diff && diff < height as i64 {
                let idx = self.sprite_count as usize;
                let ghost before = self.sprite_indexes@;
                let ghost sec_before = self.secondary_oam@;
                self.secondary_oam.set(idx * 4, self.oam[n * 4]);
                self.secondary_oam.set(idx * 4 + 1, self.oam[n * 4 + 1]);
                self.secondary_oam.set(idx * 4 + 2, self.oam[n * 4 + 2]);
                self.secondary_oam.set(idx * 4 + 3, self.oam[n * 4 + 3]);
                self.sprite_positions.set(idx, self.oam[n * 4 + 3]);
                self.sprite_attributes.set(idx, self.oam[n * 4 + 2]);
                self.sprite_indexes.set(idx, n as u8);
                self.sprite_count = self.sprite_count + 1;
            }
            n = n + 1;
        }
        proof {
            if n < 64 {
                lemma_count_in_range_monotone(self.oam@, n as int, 64, line as int, h);
            }
        }
        if self.sprite_count == 8 && n < 64 {
            let mut m: usize = 0;
            let ghost slots = self.sprite_indexes@;
            let ghost positions = self.sprite_positions@;
            let ghost attributes = self.sprite_attributes@;
            let ghost secondary = self.secondary_oam@;
            while n < 64
                invariant
                    self.sprite_indexes@ == slots,
                    self.sprite_positions@ == positions,
                    self.sprite_attributes@ == attributes,
                    self.secondary_oam@ == secondary,
                    self.wf(),
                    n <= 64,
                    m < 4,
                    self.sprite_count == 8,
                    self.status == old(self).status || self.status == old(self).status | 0x20,
                    self.oam == old(self).oam,
                    self.framebuffer == old(self).framebuffer,
                    self.vram == old(self).vram && self.palette == old(self).palette,
                    self.ctrl == old(self).ctrl && self.mask == old(self).mask,
                    self.v == old(self).v && self.t == old(self).t,
                    self.x == old(self).x && self.w == old(self).w,
                    self.scanline == old(self).scanline && self.cycle == old(self).cycle,
                    self.nmi_pending == old(self).nmi_pending,
                    self.suppress_vbl == old(self).suppress_vbl,
                    self.frame == old(self).frame && self.odd_frame == old(self).odd_frame,
                    self.oam_addr == old(self).oam_addr && self.open_bus == old(self).open_bus,
                    self.buffer == old(self).buffer,
                decreases 64 - n, 4 - m,
            {
                let y = self.oam[n * 4 + m] as i32;
                let diff = line as i64 - y as i64;
                if 0 <= diff && diff < height as i64 {
                    let ghost s0 = old(self).status;
                    assert((s0 | 0x20) | 0x20 == s0 | 0x20) by (bit_vector);
                    self.status = self.status | 0x20;
                    break;
                } else {
                    m = (m + 1) % 4;
                    if m == 0 {
                        n = n + 1;
                    }
                }
            }
        }
    }
}


/// Computes `sprite_pattern_addr`.
pub fn sprite_pattern_address(ctrl: u8, y: u8, tile: u8, attr: u8, line: i32, plane: u8) -> (r: u16)
    requires
        plane < 2,
    ensures
        r == sprite_pattern_addr(ctrl, y, tile, attr, line as int, plane),
        r < 0x2000,
{
    let height: i64 = if ctrl & 0x20 != 0 {
        16
    } else {
        8
    };
    let diff: i64 = line as i64 - y as i64;
    let row0: i64 = if 0 <= diff && diff < height {
        diff
    } else {
        0
    };
    let row: i64 = if attr & 0x80 != 0 {
        height - 1 - row0
    } else {
        row0
    };
    let addr: i64 = if height == 8 {
        (if ctrl & 0x08 != 0 {
            0x1000
        } else {
            0
        }) + tile as i64 * 16 + row
    } else {
        let table: i64 = if tile % 2 == 1 {
            0x1000
        } else {
            0
        };
        let first = tile as i64 - (tile % 2) as i64;
        if row >= 8 {
            table + (first + 1) * 16 + (row - 8)
        } else {
            table + first * 16 + row
        }
    };
    (addr + plane as i64 * 8) as u16
}

impl Ppu {
    /// Dots 257-320: slot `(dot - 257) / 8` fetches its pattern low byte at
    /// sub-dot 4 and high byte at sub-dot 6, for the line being prepared.
    pub fn fetch_sprite_data(&mut self, cart: &Cartridge)
        requires
            old(self).wf(),
            cart.wf(),
        ensures
            final(self).wf(),
            ({
                let c = old(self).cycle as int;
                let slot = (c - 257) / 8;
                let sub = (c - 257) % 8;
                let fetching = 257 <= c <= 320 && slot < old(self).sprite_count;
                let y = old(self).secondary_oam@[4 * slot];
                let tile = old(self).secondary_oam@[4 * slot + 1];
                let attr = old(self).sprite_attributes@[slot];
                let line = old(self).scanline + 1;
                &&& final(self).sprite_patterns_lo@ == if fetching && sub == 4 {
                    old(self).sprite_patterns_lo@.update(
                        slot,
                        old(self).byte_at(sprite_pattern_addr(old(self).ctrl, y, tile, attr, line, 0), cart),
                    )
                } else {
                    old(self).sprite_patterns_lo@
                }
                &&& final(self).sprite_patterns_hi@ == if fetching && sub == 6 {
                    old(self).sprite_patterns_hi@.update(
                        slot,
                        old(self).byte_at(sprite_pattern_addr(old(self).ctrl, y, tile, attr, line, 1), cart),
                    )
                } else {
                    old(self).sprite_patterns_hi@
                }
            }),
            final(self).sprite_count == old(self).sprite_count,
            final(self).sprite_positions == old(self).sprite_positions,
            final(self).sprite_indexes == old(self).sprite_indexes,
            final(self).sprite_attributes == old(self).sprite_attributes,
            final(self).secondary_oam == old(self).secondary_oam,
            final(self).status == old(self).status,
            final(self).oam == old(self).oam,
            final(self).framebuffer == old(self).framebuffer,
            final(self).vram == old(self).vram && final(self).palette == old(self).palette,
            final(self).ctrl == old(self).ctrl && final(self).mask == old(self).mask,
            final(self).v == old(self).v && final(self).t == old(self).t,
            final(self).x == old(self).x && final(self).w == old(self).w,
            final(self).scanline == old(self).scanline && final(self).cycle == old(self).cycle,
            final(self).nmi_pending == old(self).nmi_pending,
            final(self).suppress_vbl == old(self).suppress_vbl,
            final(self).frame == old(self).frame && final(self).odd_frame == old(self).odd_frame,
            final(self).oam_addr == old(self).oam_addr && final(self).open_bus == old(self).open_bus
                && final(self).buffer == old(self).buffer,
    {
        if 257 <= self.cycle && self.cycle <= 320 {
            let slot = ((self.cycle - 257) / 8) as usize;
            let sub = (self.cycle - 257) % 8;
            if slot < self.sprite_count as usize && (sub == 4 || sub == 6) {
                let y = self.secondary_oam[4 * slot];
                let tile = self.secondary_oam[4 * slot + 1];
                let attr = self.sprite_attributes[slot];
                let line = self.scanline + 1;
                if sub == 4 {
                    let addr = sprite_pattern_address(self.ctrl, y, tile, attr, line, 0);
                    let b = self.read_byte(addr, cart);
                    self.sprite_patterns_lo.set(slot, b);
                } else {
                    let addr = sprite_pattern_address(self.ctrl, y, tile, attr, line, 1);
                    let b = self.read_byte(addr, cart);
                    self.sprite_patterns_hi.set(slot, b);
                }
            }
        }
    }
}


/// The scroll address after one dot of a rendered line: coarse X steps
/// after each tile fetch (dots 8, 16, .., 256, 328, 336), fine Y at dot
/// 256, the horizontal bits come from `t` at dot 257 and the vertical bits
/// on pre-render dots 280-304.
pub open spec fn scroll_dot_spec(v: u16, t: u16, scanline: i32, cycle: u16) -> u16 {
    let fetching = (1 <= cycle <= 256) || (321 <= cycle <= 336);
    let v1 = if fetching && (cycle - 1) % 8 == 7 {
        increment_x_spec(v)
    } else {
        v
    };
    let v2 = if cycle == 256 {
        increment_y_spec(v1)
    } else {
        v1
    };
    let v3 = if cycle == 257 {
        copy_horizontal_spec(v2, t)
    } else {
        v2
    };
    if scanline == -1 && 280 <= cycle <= 304 {
        copy_vertical_spec(v3, t)
    } else {
        v3
    }
}

/// Whether `(scanline, cycle)` is the dot that raises VBlank.
pub open spec fn vblank_dot(scanline: i32, cycle: u16) -> bool {
    scanline == 241 && cycle == 1
}

/// Whether `(scanline, cycle)` is the pre-render dot that clears the flags.
pub open spec fn prerender_clear_dot(scanline: i32, cycle: u16) -> bool {
    scanline == -1 && cycle == 1
}

impl Ppu {
    /// The background work of one dot of a rendered line: shifting,
    /// the four fetches of each 8-dot group, coarse-X and fine-Y
    /// increments, and the copies from `t` at dot 257 and on the
    /// pre-render line.
    fn background_dot(&mut self, cart: &Cartridge)
        requires
            old(self).wf(),
            cart.wf(),
        ensures
            final(self).wf(),
            final(self).status == old(self).status,
            final(self).framebuffer == old(self).framebuffer,
            final(self).sprite_count == old(self).sprite_count,
            final(self).v == scroll_dot_spec(old(self).v, old(self).t, old(self).scanline, old(self).cycle),
            final(self).oam == old(self).oam,
            final(self).vram == old(self).vram && final(self).palette == old(self).palette,
            final(self).ctrl == old(self).ctrl && final(self).mask == old(self).mask,
            final(self).t == old(self).t,
            final(self).x == old(self).x && final(self).w == old(self).w,
            final(self).scanline == old(self).scanline && final(self).cycle == old(self).cycle,
            final(self).nmi_pending == old(self).nmi_pending,
            final(self).suppress_vbl == old(self).suppress_vbl,
            final(self).frame == old(self).frame && final(self).odd_frame == old(self).odd_frame,
            final(self).oam_addr == old(self).oam_addr && final(self).open_bus == old(self).open_bus
                && final(self).buffer == old(self).buffer,
    {
        let c = self.cycle;
        if (1 <= c && c <= 256) || (321 <= c && c <= 336) {
            self.update_shifters();
            let phase = (c - 1) % 8;
            if phase == 0 {
                self.load_background_shifters();
                self.bg_next_tile_id = self.fetch_nametable_byte(cart);
            } else if phase == 2 {
                self.bg_next_tile_attrib = self.fetch_attribute_byte(cart);
            } else if phase == 4 {
                self.bg_next_tile_lsb = self.fetch_pattern_byte(0, cart);
            } else if phase == 6 {
                self.bg_next_tile_msb = self.fetch_pattern_byte(1, cart);
            } else if phase == 7 {
                self.v = increment_x(self.v);
            }
        }
        if c == 256 {
            self.v = increment_y(self.v);
        }
        if c == 257 {
            self.load_background_shifters();
            self.v = (self.v & 0xFBE0) | (self.t & 0x041F);
        }
        if self.scanline == -1 && 280 <= c && c <= 304 {
            self.v = (self.v & 0x841F) | (self.t & 0x7BE0);
        }
    }

    /// The sprite work of one dot of a rendered line: evaluation for the
    /// next line at dot 257, pattern fetches during dots 257-320.
    fn sprite_dot(&mut self, cart: &Cartridge)
        requires
            old(self).wf(),
            cart.wf(),
        ensures
            final(self).wf(),
            final(self).status == old(self).status || final(self).status == old(self).status
                | 0x20,
            old(self).cycle != 257 ==> final(self).status == old(self).status,
            final(self).framebuffer == old(self).framebuffer,
            final(self).v == old(self).v,
            final(self).oam == old(self).oam,
            final(self).vram == old(self).vram && final(self).palette == old(self).palette,
            final(self).ctrl == old(self).ctrl && final(self).mask == old(self).mask,
            final(self).t == old(self).t,
            final(self).x == old(self).x && final(self).w == old(self).w,
            final(self).scanline == old(self).scanline && final(self).cycle == old(self).cycle,
            final(self).nmi_pending == old(self).nmi_pending,
            final(self).suppress_vbl == old(self).suppress_vbl,
            final(self).frame == old(self).frame && final(self).odd_frame == old(self).odd_frame,
            final(self).oam_addr == old(self).oam_addr && final(self).open_bus == old(self).open_bus
                && final(self).buffer == old(self).buffer,
    {
        if self.cycle == 257 && self.scanline < 239 {
            let line = self.scanline + 1;
            self.evaluate_sprites(line);
        }
        self.fetch_sprite_data(cart);
    }

    /// Moves to the next dot, skipping dot 339 of the pre-render line on
    /// odd frames while rendering; after line 260 a new frame begins.
    fn advance_dot(&mut self)
        requires
            old(self).wf(),
        ensures
            final(self).wf(),
            ({
                let (sl, cy, new_frame) = advance_spec(
                    old(self).scanline,
                    old(self).cycle,
                    old(self).odd_frame,
                    old(self).mask & 0x08 != 0,
                );
                &&& final(self).scanline == sl && final(self).cycle == cy
                &&& final(self).frame == if new_frame {
                    ((old(self).frame + 1) % 0x1_0000_0000_0000_0000) as u64
                } else {
                    old(self).frame
                }
                &&& final(self).odd_frame == if new_frame {
                    !old(self).odd_frame
                } else {
                    old(self).odd_frame
                }
            }),
            final(self).status == old(self).status,
            final(self).framebuffer == old(self).framebuffer,
            final(self).v == old(self).v,
            final(self).oam == old(self).oam,
            final(self).vram == old(self).vram && final(self).palette == old(self).palette,
            final(self).ctrl == old(self).ctrl && final(self).mask == old(self).mask,
            final(self).t == old(self).t,
            final(self).x == old(self).x && final(self).w == old(self).w,
            final(self).nmi_pending == old(self).nmi_pending,
            final(self).suppress_vbl == old(self).suppress_vbl,
            final(self).oam_addr == old(self).oam_addr && final(self).open_bus == old(self).open_bus
                && final(self).buffer == old(self).buffer,
    {
        let mut c = self.cycle;
        if self.scanline == -1 && c == 339 && self.odd_frame && self.mask & 0x08 != 0 {
            c = 340;
        }
        if c < 340 {
            self.cycle = c + 1;
        } else {
            self.cycle = 0;
            if self.scanline == 260 {
                self.scanline = -1;
                self.frame = self.frame.wrapping_add(1);
                self.odd_frame = !self.odd_frame;
            } else {
                self.scanline = self.scanline + 1;
            }
        }
    }

    /// The pattern-table address fetched on this dot of a rendered line,
    /// if any: background pattern bytes at sub-dots 4 and 6 of each tile,
    /// sprite pattern bytes at sub-dots 4 and 6 of each slot (an empty
    /// slot fetches tile 0xFF).
    pub fn pattern_fetch_address(&self) -> (r: Option<u16>)
        requires
            self.wf(),
        ensures
            r is Some <==> ({
                let c = self.cycle as int;
                ||| ((1 <= c <= 256 || 321 <= c <= 336) && ((c - 1) % 8 == 4 || (c - 1) % 8 == 6))
                ||| (257 <= c <= 320 && ((c - 257) % 8 == 4 || (c - 257) % 8 == 6))
            }),
            r matches Some(a) ==> a < 0x2000,
    {
        let c = self.cycle;
        if (1 <= c && c <= 256) || (321 <= c && c <= 336) {
            let phase = (c - 1) % 8;
            if phase == 4 || phase == 6 {
                let v = self.v;
                let fine_y = (v >> 12) & 0x07;
                assert(fine_y < 8) by (bit_vector)
                    requires
                        fine_y == (v >> 12u16) & 0x07,
                ;
                let table: u16 = if self.ctrl & 0x10 != 0 {
                    0x1000
                } else {
                    0
                };
                let plane: u16 = if phase == 6 {
                    8
                } else {
                    0
                };
                Some(table + (self.bg_next_tile_id as u16) * 16 + plane + fine_y)
            } else {
                None
            }
        } else if 257 <= c && c <= 320 {
            let slot = ((c - 257) / 8) as usize;
            let sub = (c - 257) % 8;
            if sub == 4 || sub == 6 {
                let plane: u8 = if sub == 6 {
                    1
                } else {
                    0
                };
                if slot < self.sprite_count as usize {
                    Some(
                        sprite_pattern_address(
                            self.ctrl,
                            self.secondary_oam[4 * slot],
                            self.secondary_oam[4 * slot + 1],
                            self.sprite_attributes[slot],
                            self.scanline + 1,
                            plane,
                        ),
                    )
                } else {
                    Some(sprite_pattern_address(self.ctrl, 0xFF, 0xFF, 0xFF, self.scanline + 1, plane))
                }
            } else {
                None
            }
        } else {
            None
        }
    }

    /// Runs one PPU dot and reports whether an NMI edge is to be delivered
    /// to the CPU.
    ///
    /// Visible lines output a pixel at dots 1-256; visible and pre-render
    /// lines run the background and sprite pipelines while rendering is
    /// on. Dot 1 of line 241 raises VBlank (unless a PPUSTATUS read on that
    /// dot suppressed it) and, with PPUCTRL bit 7 set, an NMI. Dot 1 of the
    /// pre-render line clears VBlank, sprite-0 hit and overflow.
    pub fn step(&mut self, cart: &mut Cartridge) -> (r: bool)
        requires
            old(self).wf(),
            old(cart).wf(),
        ensures
            final(self).wf(),
            final(cart).wf(),
            final(cart).prg_rom == old(cart).prg_rom && final(cart).chr == old(cart).chr,
            final(cart).prg_ram == old(cart).prg_ram && final(cart).chr_is_ram == old(cart).chr_is_ram,
            final(cart).header_mirroring == old(cart).header_mirroring,
            !(old(cart).mapper is Mmc3 || old(cart).mapper is Mmc2) ==> final(cart).mapper == old(cart).mapper,
            ({
                let (sl, cy, new_frame) = advance_spec(
                    old(self).scanline,
                    old(self).cycle,
                    old(self).odd_frame,
                    old(self).mask & 0x08 != 0,
                );
                &&& final(self).scanline == sl && final(self).cycle == cy
                &&& final(self).frame == if new_frame {
                    ((old(self).frame + 1) % 0x1_0000_0000_0000_0000) as u64
                } else {
                    old(self).frame
                }
                &&& final(self).odd_frame == if new_frame {
                    !old(self).odd_frame
                } else {
                    old(self).odd_frame
                }
            }),
            vblank_dot(old(self).scanline, old(self).cycle) ==> final(self).status == if old(
                self,
            ).suppress_vbl {
                old(self).status
            } else {
                old(self).status | 0x80
            },
            prerender_clear_dot(old(self).scanline, old(self).cycle) ==> final(self).status == old(
                self,
            ).status & 0x1F,
            !vblank_dot(old(self).scanline, old(self).cycle) && !prerender_clear_dot(
                old(self).scanline,
                old(self).cycle,
            ) ==> final(self).status & 0x80 == old(self).status & 0x80,
            final(self).suppress_vbl == if vblank_dot(old(self).scanline, old(self).cycle) {
                false
            } else {
                old(self).suppress_vbl
            },
            r == (old(self).nmi_pending || (vblank_dot(old(self).scanline, old(self).cycle)
                && !old(self).suppress_vbl && old(self).ctrl & 0x80 != 0)),
            !final(self).nmi_pending,
            final(self).v == if old(self).scanline < 240 && old(self).rendering_spec() {
                scroll_dot_spec(old(self).v, old(self).t, old(self).scanline, old(self).cycle)
            } else {
                old(self).v
            },
            final(self).oam == old(self).oam,
            final(self).vram == old(self).vram && final(self).palette == old(self).palette,
            final(self).ctrl == old(self).ctrl && final(self).mask == old(self).mask,
            final(self).t == old(self).t,
            final(self).x == old(self).x && final(self).w == old(self).w,
            final(self).oam_addr == old(self).oam_addr && final(self).open_bus == old(self).open_bus
                && final(self).buffer == old(self).buffer,
    {
        let ghost s0 = self.status;
        if 0 <= self.scanline && self.scanline < 240 && 1 <= self.cycle && self.cycle <= 256 {
            self.render_pixel();
        }
        let ghost s1 = self.status;
        assert(s1 == s0 || s1 == s0 | 0x40);
        if self.scanline < 240 && self.is_rendering() {
            if let Some(addr) = self.pattern_fetch_address() {
                cart.clock_ppu_address(addr);
            }
            self.background_dot(cart);
            self.sprite_dot(cart);
        }
        let ghost s2 = self.status;
        assert(s2 & 0x80 == s0 & 0x80) by {
            assert((s0 | 0x40) & 0x80 == s0 & 0x80 && (s0 | 0x20) & 0x80 == s0 & 0x80 && ((s0
                | 0x40) | 0x20) & 0x80 == s0 & 0x80) by (bit_vector);
        }
        if self.scanline == 241 && self.cycle == 1 {
            if !self.suppress_vbl {
                self.status = self.status | 0x80;
                if self.ctrl & 0x80 != 0 {
                    self.nmi_pending = true;
                }
            }
            self.suppress_vbl = false;
        }
        if self.scanline == -1 && self.cycle == 1 {
            self.status = self.status & 0x1F;
        }
        self.advance_dot();
        let nmi = self.nmi_pending;
        self.nmi_pending = false;
        nmi
    }
}


/// The background pixel and palette at the current dot, or (0, 0) with
/// background rendering off.
pub fn render_background_pixel_fast(ppu: &Ppu) -> (r: (u8, u8))
    ensures
        r == if ppu.mask & 0x08 != 0 {
            bg_at(ppu)
        } else {
            (0u8, 0u8)
        },
{
    if ppu.mask & 0x08 == 0 {
        return (0, 0);
    }
    let fx = ppu.x;
    assert(fx & 0x07 <= 7) by (bit_vector);
    let bit = 15 - (fx & 0x07) as u16;
    (
        plane_pixel(ppu.bg_shift_pattern_lo, ppu.bg_shift_pattern_hi, bit),
        plane_pixel(ppu.bg_shift_attrib_lo, ppu.bg_shift_attrib_hi, bit),
    )
}

/// The shift that picks a tile's two bits out of its attribute byte: bit
/// 1 of coarse X and bit 1 of coarse Y choose the quadrant.
pub fn get_attribute_fast(v: u16) -> (r: u8)
    ensures
        r == (((v >> 4u16) & 4) | (v & 2)) as u8,
        r <= 6,
{
    let shift = ((v >> 4) & 4) | (v & 2);
    assert(shift <= 6) by (bit_vector)
        requires
            shift == ((v >> 4u16) & 4) | (v & 2),
    ;
    shift as u8
}

} // verus!
