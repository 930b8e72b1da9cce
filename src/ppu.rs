//! The picture processor: registers, scrolling latches, VRAM/palette/OAM
//! and the per-dot pipeline that fills the framebuffer.
use vstd::prelude::*;

pub mod pipeline;
pub mod render;

use crate::cartridge::{Cartridge, Mirroring};
use crate::memory_map::{nametable_index, nametable_index_spec, palette_index, palette_index_spec};

verus! {

pub const SCREEN_WIDTH: usize = 256;
pub const SCREEN_HEIGHT: usize = 240;

pub struct Ppu {
    /// $2000 PPUCTRL.
    pub ctrl: u8,
    /// $2001 PPUMASK.
    pub mask: u8,
    /// $2002 PPUSTATUS: bit 7 VBlank, bit 6 sprite-0 hit, bit 5 overflow.
    pub status: u8,
    /// $2003 OAMADDR.
    pub oam_addr: u8,
    /// Current VRAM address (15 bits).
    pub v: u16,
    /// Temporary VRAM address (15 bits).
    pub t: u16,
    /// Fine X scroll (3 bits).
    pub x: u8,
    /// First/second write toggle of $2005/$2006.
    pub w: bool,
    /// The PPUDATA read buffer.
    pub buffer: u8,
    /// The last value written to or read from a register.
    pub open_bus: u8,
    /// 4 KiB of nametable RAM; two are used unless four-screen.
    pub vram: Vec<u8>,
    pub palette: Vec<u8>,
    pub oam: Vec<u8>,
    pub secondary_oam: Vec<u8>,
    /// -1 (pre-render) to 260.
    pub scanline: i32,
    /// 0 to 340.
    pub cycle: u16,
    pub frame: u64,
    pub odd_frame: bool,
    /// Set when $2002 is read on the dot that would raise VBlank.
    pub suppress_vbl: bool,
    /// An NMI edge not yet handed to the CPU.
    pub nmi_pending: bool,
    pub bg_shift_pattern_lo: u16,
    pub bg_shift_pattern_hi: u16,
    pub bg_shift_attrib_lo: u16,
    pub bg_shift_attrib_hi: u16,
    pub bg_next_tile_id: u8,
    pub bg_next_tile_attrib: u8,
    pub bg_next_tile_lsb: u8,
    pub bg_next_tile_msb: u8,
    pub sprite_count: u8,
    pub sprite_patterns_lo: Vec<u8>,
    pub sprite_patterns_hi: Vec<u8>,
    pub sprite_positions: Vec<u8>,
    pub sprite_indexes: Vec<u8>,
    pub sprite_attributes: Vec<u8>,
    /// 256 x 240 pixels, 0x00RRGGBB, row-major.
    pub framebuffer: Vec<u32>,
}

// ---- scroll register arithmetic ----

/// Coarse-X increment: past 31 it wraps to 0 and flips the horizontal
/// nametable bit.
pub open spec fn increment_x_spec(v: u16) -> u16 {
    if v & 0x001F == 31 {
        (v & !0x001Fu16) ^ 0x0400
    } else {
        (v + 1) as u16
    }
}

/// Fine-Y increment: below 7 it counts up; otherwise it wraps and coarse Y
/// advances, 29 to 0 flipping the vertical nametable bit, 31 to 0 without.
pub open spec fn increment_y_spec(v: u16) -> u16 {
    if v & 0x7000 != 0x7000 {
        (v + 0x1000) as u16
    } else {
        let v1 = v & !0x7000u16;
        let y = (v1 & 0x03E0) >> 5u16;
        if y == 29 {
            ((v1 ^ 0x0800) & !0x03E0u16) | (0u16 << 5u16)
        } else if y == 31 {
            (v1 & !0x03E0u16) | (0u16 << 5u16)
        } else {
            (v1 & !0x03E0u16) | (((y + 1) as u16) << 5u16)
        }
    }
}

/// Dot 257: the horizontal bits of `t` go to `v`.
pub open spec fn copy_horizontal_spec(v: u16, t: u16) -> u16 {
    (v & 0xFBE0) | (t & 0x041F)
}

/// Pre-render dots 280-304: the vertical bits of `t` go to `v`.
pub open spec fn copy_vertical_spec(v: u16, t: u16) -> u16 {
    (v & 0x841F) | (t & 0x7BE0)
}

pub fn increment_x(v: u16) -> (r: u16)
    ensures
        r == increment_x_spec(v),
{
    if v & 0x001F == 31 {
        (v & !0x001F) ^ 0x0400
    } else {
        assert(v & 0x001F != 31 ==> v < 0xFFFF) by (bit_vector);
        v + 1
    }
}

pub fn increment_y(v: u16) -> (r: u16)
    ensures
        r == increment_y_spec(v),
{
    if v & 0x7000 != 0x7000 {
        assert(v & 0x7000 != 0x7000 ==> v < 0xF000) by (bit_vector);
        v + 0x1000
    } else {
        let v1 = v & !0x7000;
        let y = (v1 & 0x03E0) >> 5;
        assert(y <= 31) by (bit_vector)
            requires
                y == (v1 & 0x03E0) >> 5u16,
        ;
        if y == 29 {
            ((v1 ^ 0x0800) & !0x03E0) | (0u16 << 5u16)
        } else if y == 31 {
            (v1 & !0x03E0) | (0u16 << 5u16)
        } else {
            (v1 & !0x03E0) | ((y + 1) << 5)
        }
    }
}

// ---- register contracts ----

/// `t` after a PPUCTRL write: the nametable select goes to bits 10-11.
pub open spec fn t_after_ctrl(t: u16, value: u8) -> u16 {
    (t & 0xF3FF) | (((value as u16) & 0x03) << 10u16)
}

/// `t` after the first PPUSCROLL write: coarse X from the top five bits.
pub open spec fn t_after_scroll_x(t: u16, value: u8) -> u16 {
    (t & 0xFFE0) | ((value as u16) >> 3u16)
}

/// `t` after the second PPUSCROLL write: fine Y to bits 12-14, coarse Y to
/// bits 5-9.
pub open spec fn t_after_scroll_y(t: u16, value: u8) -> u16 {
    let t1 = (t & 0x8FFF) | (((value as u16) & 0x07) << 12u16);
    (t1 & 0xFC1F) | (((value as u16) & 0xF8) << 2u16)
}

/// `t` after the first PPUADDR write: bits 8-13 from the value, bit 14
/// (and the unused bit 15) cleared.
pub open spec fn t_after_addr_hi(t: u16, value: u8) -> u16 {
    (t & 0x00FF) | (((value as u16) & 0x3F) << 8u16)
}

/// `t` after the second PPUADDR write: the low byte.
pub open spec fn t_after_addr_lo(t: u16, value: u8) -> u16 {
    (t & 0xFF00) | (value as u16)
}

/// Palette entries are six bits; the greyscale bit of PPUMASK keeps only
/// the brightness bits.
pub open spec fn grey_mask(mask: u8) -> u8 {
    if mask & 1 != 0 {
        0x30
    } else {
        0x3F
    }
}

/// The VRAM address step after a PPUDATA access: 32 when PPUCTRL bit 2 is
/// set, else 1.
pub open spec fn addr_increment_spec(ctrl: u8) -> u16 {
    if ctrl & 0x04 != 0 {
        32
    } else {
        1
    }
}

impl Ppu {
    /// The sizes of the memories.
    pub open spec fn wf(&self) -> bool {
        &&& self.vram@.len() == 0x1000
        &&& self.palette@.len() == 0x20
        &&& self.oam@.len() == 0x100
        &&& self.secondary_oam@.len() == 0x20
        &&& self.sprite_patterns_lo@.len() == 8
        &&& self.sprite_patterns_hi@.len() == 8
        &&& self.sprite_positions@.len() == 8
        &&& self.sprite_indexes@.len() == 8
        &&& self.sprite_attributes@.len() == 8
        &&& self.sprite_count <= 8
        &&& self.framebuffer@.len() == SCREEN_WIDTH * SCREEN_HEIGHT
        &&& -1 <= self.scanline <= 260
        &&& self.cycle <= 340
    }

    /// The byte the PPU sees at `addr` (taken modulo 0x4000).
    pub open spec fn byte_at(&self, addr: u16, cart: &Cartridge) -> u8 {
        let a = addr % 0x4000;
        if a < 0x2000 {
            cart.chr_byte(a)
        } else if a < 0x3F00 {
            self.vram@[nametable_index_spec(a, cart.mirroring_spec())]
        } else {
            self.palette@[palette_index_spec(a)] & grey_mask(self.mask)
        }
    }

    /// A PPU at power-on: registers clear, at dot 0 of scanline 0.
    pub fn new() -> (r: Ppu)
        ensures
            r.wf(),
            r.ctrl == 0 && r.mask == 0 && r.status == 0 && r.oam_addr == 0,
            r.v == 0 && r.t == 0 && r.x == 0 && !r.w,
            r.scanline == 0 && r.cycle == 0 && r.frame == 0 && !r.odd_frame,
            !r.nmi_pending && !r.suppress_vbl,
            r.sprite_count == 0,
            r.vram@ == Seq::new(0x1000, |i: int| 0u8),
            r.palette@ == Seq::new(0x20, |i: int| 0u8),
            r.oam@ == Seq::new(0x100, |i: int| 0u8),
    {
        Ppu {
            ctrl: 0,
            mask: 0,
            status: 0,
            oam_addr: 0,
            v: 0,
            t: 0,
            x: 0,
            w: false,
            buffer: 0,
            open_bus: 0,
            vram: filled(0x1000, 0),
            palette: filled(0x20, 0),
            oam: filled(0x100, 0),
            secondary_oam: filled(0x20, 0xFF),
            scanline: 0,
            cycle: 0,
            frame: 0,
            odd_frame: false,
            suppress_vbl: false,
            nmi_pending: false,
            bg_shift_pattern_lo: 0,
            bg_shift_pattern_hi: 0,
            bg_shift_attrib_lo: 0,
            bg_shift_attrib_hi: 0,
            bg_next_tile_id: 0,
            bg_next_tile_attrib: 0,
            bg_next_tile_lsb: 0,
            bg_next_tile_msb: 0,
            sprite_count: 0,
            sprite_patterns_lo: filled(8, 0),
            sprite_patterns_hi: filled(8, 0),
            sprite_positions: filled(8, 0xFF),
            sprite_indexes: filled(8, 0xFF),
            sprite_attributes: filled(8, 0),
            framebuffer: filled_u32(SCREEN_WIDTH * SCREEN_HEIGHT),
        }
    }

    /// Whether background or sprite rendering is on.
    pub open spec fn rendering_spec(&self) -> bool {
        self.mask & 0x18 != 0
    }

    fn is_rendering(&self) -> (r: bool)
        ensures
            r == self.rendering_spec(),
    {
        self.mask & 0x18 != 0
    }

    fn addr_increment(&self) -> (r: u16)
        ensures
            r == addr_increment_spec(self.ctrl),
    {
        if self.ctrl & 0x04 != 0 {
            32
        } else {
            1
        }
    }

    /// Pattern-table read through the cartridge.
    pub fn read_chr(&self, addr: u16, cart: &Cartridge) -> (r: u8)
        requires
            cart.wf(),
        ensures
            r == cart.chr_byte(addr),
    {
        cart.read_chr(addr)
    }

    /// Pattern-table write through the cartridge.
    pub fn write_chr(&mut self, addr: u16, value: u8, cart: &mut Cartridge)
        requires
            old(cart).wf(),
        ensures
            final(cart).wf(),
            final(cart).chr@ == if old(cart).chr_is_ram && addr < 0x2000 {
                old(cart).chr@.update(
                    crate::cartridge::chr_index_of(old(cart).mapper, addr, old(cart).chr@.len()),
                    value,
                )
            } else {
                old(cart).chr@
            },
            final(cart).mapper == old(cart).mapper,
            final(cart).prg_rom == old(cart).prg_rom,
            final(cart).prg_ram == old(cart).prg_ram,
            final(cart).chr_is_ram == old(cart).chr_is_ram,
            final(cart).header_mirroring == old(cart).header_mirroring,
    {
        cart.write_chr(addr, value);
    }

    /// Reads PPU memory: pattern tables, mirrored nametables, palette.
    pub fn read_byte(&self, addr: u16, cart: &Cartridge) -> (r: u8)
        requires
            self.wf(),
            cart.wf(),
        ensures
            r == self.byte_at(addr, cart),
    {
        let a = addr % 0x4000;
        if a < 0x2000 {
            cart.read_chr(a)
        } else if a < 0x3F00 {
            self.vram[nametable_index(a, cart.mirroring())]
        } else {
            let grey: u8 = if self.mask & 1 != 0 {
                0x30
            } else {
                0x3F
            };
            self.palette[palette_index(a)] & grey
        }
    }

    /// Writes PPU memory: CHR-RAM, mirrored nametables, palette.
    pub fn write_byte(&mut self, addr: u16, value: u8, cart: &mut Cartridge)
        requires
            old(self).wf(),
            old(cart).wf(),
        ensures
            final(self).wf(),
            final(cart).wf(),
            final(cart).mapper == old(cart).mapper,
            final(cart).header_mirroring == old(cart).header_mirroring,
            ({
                let a = addr % 0x4000;
                &&& final(self).vram@ == if 0x2000 <= a < 0x3F00 {
                    old(self).vram@.update(
                        nametable_index_spec(a, old(cart).mirroring_spec()),
                        value,
                    )
                } else {
                    old(self).vram@
                }
                &&& final(self).palette@ == if a >= 0x3F00 {
                    old(self).palette@.update(palette_index_spec(a), value)
                } else {
                    old(self).palette@
                }
                &&& a < 0x2000 && old(cart).chr_is_ram ==> final(cart).chr@ == old(cart).chr@.update(
                    crate::cartridge::chr_index_of(old(cart).mapper, a, old(cart).chr@.len()),
                    value,
                )
                &&& !(a < 0x2000 && old(cart).chr_is_ram) ==> final(cart).chr@ == old(cart).chr@
            }),
            final(self).oam == old(self).oam,
            final(self).framebuffer == old(self).framebuffer,
            final(self).ctrl == old(self).ctrl && final(self).mask == old(self).mask,
            final(self).status == old(self).status,
            final(self).v == old(self).v && final(self).t == old(self).t,
            final(self).scanline == old(self).scanline && final(self).cycle == old(self).cycle,
            final(self).open_bus == old(self).open_bus && final(self).nmi_pending == old(self).nmi_pending,
            final(self).oam_addr == old(self).oam_addr && final(self).x == old(self).x
                && final(self).w == old(self).w,
    {
        let a = addr % 0x4000;
        if a < 0x2000 {
            cart.write_chr(a, value);
        } else if a < 0x3F00 {
            let i = nametable_index(a, cart.mirroring());
            self.vram.set(i, value);
        } else {
            let i = palette_index(a);
            self.palette.set(i, value);
        }
    }
}

/// What a read of register `reg` does: `q` is the PPU after it, `r` the
/// value returned.
pub open spec fn ppu_read_rel(p: Ppu, reg: u8, cart: &Cartridge, q: Ppu, r: u8) -> bool {
    &&& (q.wf())
    &&& (q.open_bus == r)
    &&& (q.vram == p.vram && q.palette == p.palette)
    &&& (q.oam == p.oam && q.framebuffer == p.framebuffer)
    &&& (q.ctrl == p.ctrl && q.mask == p.mask)
    &&& (q.t == p.t && q.x == p.x)
    &&& (q.scanline == p.scanline && q.cycle == p.cycle)
    &&& (q.nmi_pending == p.nmi_pending)
    &&& (reg == 2 ==> {
                &&& r == (p.status & 0xE0) | (p.open_bus & 0x1F)
                &&& q.status == p.status & !0x80u8
                &&& !q.w
                &&& q.suppress_vbl == (p.suppress_vbl || (p.scanline
                    == 241 && p.cycle == 1))
                &&& q.v == p.v
            })
    &&& (reg == 4 ==> r == if p.rendering_spec() && 1 <= p.cycle <= 64 {
                0xFF
            } else {
                p.oam@[p.oam_addr as int]
            })
    &&& (reg == 7 ==> {
                let a = p.v % 0x4000;
                &&& q.v == ((p.v + addr_increment_spec(p.ctrl))
                    % 0x10000) as u16
                &&& a >= 0x3F00 ==> r == p.byte_at(a, cart) && q.buffer == p.byte_at((a - 0x1000) as u16, cart)
                &&& a < 0x3F00 ==> r == p.buffer && q.buffer == p.byte_at(a, cart)
            })
    &&& (reg != 2 && reg != 4 && reg != 7 ==> r == p.open_bus && q.v
                == p.v)
    &&& (reg != 2 ==> q.status == p.status && q.w == p.w
                && q.suppress_vbl == p.suppress_vbl)
}

/// What a write of `value` to register `reg` does: `q` and `c2` are the
/// PPU and cartridge after it.
pub open spec fn ppu_write_rel(p: Ppu, reg: u8, value: u8, c: Cartridge, q: Ppu, c2: Cartridge) -> bool {
    &&& (q.wf())
    &&& (c2.wf())
    &&& (c2.mapper == c.mapper)
    &&& (c2.header_mirroring == c.header_mirroring)
    &&& (q.open_bus == value)
    &&& (q.scanline == p.scanline && q.cycle == p.cycle)
    &&& (q.status == p.status)
    &&& (reg == 0 ==> {
                &&& q.ctrl == value
                &&& q.t == t_after_ctrl(p.t, value)
                &&& q.nmi_pending == if value & 0x80 == 0 {
                    false
                } else if p.ctrl & 0x80 == 0 && p.status & 0x80 != 0 {
                    true
                } else {
                    p.nmi_pending
                }
            })
    &&& (reg == 1 ==> q.mask == value)
    &&& (reg == 3 ==> q.oam_addr == value)
    &&& (reg == 4 ==> q.oam@ == p.oam@.update(p.oam_addr as int, value)
                && q.oam_addr == ((p.oam_addr + 1) % 0x100) as u8)
    &&& (reg == 5 ==> {
                &&& q.w == !p.w
                &&& !p.w ==> q.t == t_after_scroll_x(p.t, value)
                    && q.x == value & 0x07
                &&& p.w ==> q.t == t_after_scroll_y(p.t, value)
                    && q.x == p.x
            })
    &&& (reg == 6 ==> {
                &&& q.w == !p.w
                &&& !p.w ==> q.t == t_after_addr_hi(p.t, value)
                    && q.v == p.v
                &&& p.w ==> q.t == t_after_addr_lo(p.t, value)
                    && q.v == q.t
            })
    &&& (reg == 7 ==> {
                let a = p.v % 0x4000;
                &&& q.v == ((p.v + addr_increment_spec(p.ctrl))
                    % 0x10000) as u16
                &&& q.vram@ == if 0x2000 <= a < 0x3F00 {
                    p.vram@.update(
                        nametable_index_spec(a, c.mirroring_spec()),
                        value,
                    )
                } else {
                    p.vram@
                }
                &&& q.palette@ == if a >= 0x3F00 {
                    p.palette@.update(palette_index_spec(a), value)
                } else {
                    p.palette@
                }
            })
    &&& (reg != 7 ==> q.vram == p.vram && q.palette == p.palette && c2.chr == c.chr)
    &&& (reg != 4 ==> q.oam == p.oam)
    &&& (reg != 0 ==> q.ctrl == p.ctrl && q.nmi_pending == p.nmi_pending)
    &&& (reg != 1 ==> q.mask == p.mask)
    &&& (reg != 5 && reg != 6 ==> q.w == p.w)
    &&& (reg != 0 && reg != 5 && reg != 6 ==> q.t == p.t)
    &&& (reg != 5 ==> q.x == p.x)
    &&& (reg != 6 && reg != 7 ==> q.v == p.v)
}

impl Ppu {
    /// A read of PPU register `reg` (0..=7, the CPU address modulo 8).
    ///
    /// PPUSTATUS returns its top three bits over the open-bus low bits,
    /// clears VBlank and the write toggle, and when read on the dot that
    /// would raise VBlank suppresses it for this frame. OAMDATA returns the
    /// byte at OAMADDR. PPUDATA returns the read buffer and refills it from
    /// `v`, except in the palette, which answers at once (the buffer then
    /// takes the nametable byte 0x1000 below); `v` then advances. The
    /// write-only registers return the open bus.
    pub fn read_register(&mut self, reg: u8, cart: &Cartridge) -> (r: u8)
        requires
            old(self).wf(),
            cart.wf(),
        ensures
            ppu_read_rel(*old(self), reg, cart, *final(self), r),

    {
        let value = if reg == 2 {
            let value = (self.status & 0xE0) | (self.open_bus & 0x1F);
            self.status = self.status & !0x80;
            self.w = false;
            if self.scanline == 241 && self.cycle == 1 {
                self.suppress_vbl = true;
            }
            value
        } else if reg == 4 {
            if self.is_rendering() && 1 <= self.cycle && self.cycle <= 64 {
                0xFF
            } else {
                self.oam[self.oam_addr as usize]
            }
        } else if reg == 7 {
            let a = self.v % 0x4000;
            let value = if a >= 0x3F00 {
                let p = self.read_byte(a, cart);
                self.buffer = self.read_byte(a - 0x1000, cart);
                p
            } else {
                let b = self.buffer;
                self.buffer = self.read_byte(a, cart);
                b
            };
            self.v = self.v.wrapping_add(self.addr_increment());
            value
        } else {
            self.open_bus
        };
        self.open_bus = value;
        value
    }

    /// A write of `value` to PPU register `reg` (0..=7).
    ///
    /// Every write sets the open bus. PPUCTRL also moves the nametable
    /// select into `t`; turning its NMI bit on during VBlank raises an NMI
    /// edge, turning it off cancels one not yet taken. PPUSCROLL and PPUADDR
    /// alternate between their two halves by the write toggle; the second
    /// PPUADDR write copies `t` to `v`. OAMDATA stores at OAMADDR and steps
    /// it; PPUDATA stores at `v` and steps `v`.
    pub fn write_register(&mut self, reg: u8, value: u8, cart: &mut Cartridge)
        requires
            old(self).wf(),
            old(cart).wf(),
        ensures
            ppu_write_rel(*old(self), reg, value, *old(cart), *final(self), *final(cart)),

    {
        self.open_bus = value;
        if reg == 0 {
            if value & 0x80 == 0 {
                self.nmi_pending = false;
            } else if self.ctrl & 0x80 == 0 && self.status & 0x80 != 0 {
                self.nmi_pending = true;
            }
            self.ctrl = value;
            self.t = (self.t & 0xF3FF) | (((value as u16) & 0x03) << 10);
        } else if reg == 1 {
            self.mask = value;
        } else if reg == 3 {
            self.oam_addr = value;
        } else if reg == 4 {
            let a = self.oam_addr;
            self.write_oam_byte(a, value);
            self.oam_addr = self.oam_addr.wrapping_add(1);
        } else if reg == 5 {
            if !self.w {
                self.t = (self.t & 0xFFE0) | ((value as u16) >> 3);
                self.x = value & 0x07;
            } else {
                let t1 = (self.t & 0x8FFF) | (((value as u16) & 0x07) << 12);
                self.t = (t1 & 0xFC1F) | (((value as u16) & 0xF8) << 2);
            }
            self.w = !self.w;
        } else if reg == 6 {
            if !self.w {
                self.t = (self.t & 0x00FF) | (((value as u16) & 0x3F) << 8);
            } else {
                self.t = (self.t & 0xFF00) | (value as u16);
                self.v = self.t;
            }
            self.w = !self.w;
        } else if reg == 7 {
            let a = self.v % 0x4000;
            self.write_byte(a, value, cart);
            self.v = self.v.wrapping_add(self.addr_increment());
        }
    }

    /// Stores one OAM byte.
    pub fn write_oam_byte(&mut self, addr: u8, value: u8)
        requires
            old(self).wf(),
        ensures
            final(self).wf(),
            final(self).oam@ == old(self).oam@.update(addr as int, value),
            final(self).vram == old(self).vram && final(self).palette == old(self).palette,
            final(self).ctrl == old(self).ctrl && final(self).mask == old(self).mask,
            final(self).status == old(self).status && final(self).oam_addr == old(self).oam_addr,
            final(self).v == old(self).v && final(self).t == old(self).t && final(self).x == old(self).x && final(self).w == old(self).w,
            final(self).nmi_pending == old(self).nmi_pending,
            final(self).scanline == old(self).scanline && final(self).cycle == old(self).cycle,
            final(self).open_bus == old(self).open_bus,
    {
        self.oam.set(addr as usize, value);
    }

    /// Whether PPUCTRL asks for an NMI at VBlank.
    pub fn get_nmi_output(&self) -> (r: bool)
        ensures
            r == (self.ctrl & 0x80 != 0),
    {
        self.ctrl & 0x80 != 0
    }

    /// Sets or clears the NMI-enable bit of PPUCTRL, with the same edge
    /// rules as a register write.
    pub fn set_nmi_output(&mut self, value: bool)
        ensures
            final(self).ctrl == if value {
                old(self).ctrl | 0x80
            } else {
                old(self).ctrl & 0x7F
            },
            final(self).nmi_pending == if !value {
                false
            } else if old(self).ctrl & 0x80 == 0 && old(self).status & 0x80 != 0 {
                true
            } else {
                old(self).nmi_pending
            },
    {
        if !value {
            self.nmi_pending = false;
            self.ctrl = self.ctrl & 0x7F;
        } else {
            if self.ctrl & 0x80 == 0 && self.status & 0x80 != 0 {
                self.nmi_pending = true;
            }
            self.ctrl = self.ctrl | 0x80;
        }
    }

    /// The PPUCTRL register.
    pub fn get_ctrl(&self) -> (r: u8)
        ensures
            r == self.ctrl,
    {
        self.ctrl
    }
}

/// `len` copies of `value`.
fn filled(len: usize, value: u8) -> (r: Vec<u8>)
    ensures
        r@ == Seq::new(len as nat, |i: int| value),
{
    let mut r: Vec<u8> = Vec::with_capacity(len);
    let mut i: usize = 0;
    while i < len
        invariant
            i <= len,
            r@ == Seq::new(i as nat, |j: int| value),
        decreases len - i,
    {
        r.push(value);
        i = i + 1;
        assert(r@ =~= Seq::new(i as nat, |j: int| value));
    }
    r
}

/// `len` black pixels.
fn filled_u32(len: usize) -> (r: Vec<u32>)
    ensures
        r@ == Seq::new(len as nat, |i: int| 0u32),
{
    let mut r: Vec<u32> = Vec::with_capacity(len);
    let mut i: usize = 0;
    while i < len
        invariant
            i <= len,
            r@ == Seq::new(i as nat, |j: int| 0u32),
        decreases len - i,
    {
        r.push(0);
        i = i + 1;
        assert(r@ =~= Seq::new(i as nat, |j: int| 0u32));
    }
    r
}

} // verus!
