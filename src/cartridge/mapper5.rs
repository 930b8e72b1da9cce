//! MMC5: four PRG banking modes mixing ROM and RAM, four CHR banking
//! modes, 1 KiB of extended RAM, fill mode and the nametable mapping
//! register. Audio and vertical split are not modelled.
use vstd::prelude::*;

use crate::cartridge::mappers::bank_index;
use crate::cartridge::{wrap_index, MapperState, Mirroring};

verus! {

#[derive(Clone, Copy, Debug, PartialEq, Eq, Structural)]
pub struct Mapper5 {
    /// $5100: PRG mode 0 (32 KiB), 1 (16+16), 2 (16+8+8), 3 (4 x 8 KiB).
    pub prg_mode: u8,
    /// $5101: CHR mode 0 (8 KiB), 1 (4 KiB), 2 (2 KiB), 3 (1 KiB).
    pub chr_mode: u8,
    /// $5104: extended RAM mode; 0 and 1 leave it writable by the CPU.
    pub exram_mode: u8,
    /// $5105: two bits per nametable: CIRAM page 0, page 1, ExRAM, fill.
    pub nametable_mapping: u8,
    /// $5106 and $5107: the fill-mode tile and attribute.
    pub fill_tile: u8,
    pub fill_attr: u8,
    /// $5113: the PRG-RAM bank at 0x6000.
    pub prg_ram_bank: u8,
    /// $5114-$5117.
    pub prg0: u8,
    pub prg1: u8,
    pub prg2: u8,
    pub prg3: u8,
    /// $5120-$5127.
    pub chr0: u8,
    pub chr1: u8,
    pub chr2: u8,
    pub chr3: u8,
    pub chr4: u8,
    pub chr5: u8,
    pub chr6: u8,
    pub chr7: u8,
    /// $5203 and $5204.
    pub irq_compare: u8,
    pub irq_enabled: bool,
    pub irq_pending: bool,
}

/// The value of CHR register `i` ($5120 + i).
pub open spec fn chr_reg_spec(m: Mapper5, i: int) -> u8 {
    if i == 0 {
        m.chr0
    } else if i == 1 {
        m.chr1
    } else if i == 2 {
        m.chr2
    } else if i == 3 {
        m.chr3
    } else if i == 4 {
        m.chr4
    } else if i == 5 {
        m.chr5
    } else if i == 6 {
        m.chr6
    } else {
        m.chr7
    }
}

/// The MMC5 after a CPU write at `addr` in its register block.
pub open spec fn mmc5_write_spec(m: Mapper5, addr: u16, value: u8) -> Mapper5 {
    if addr == 0x5100 {
        Mapper5 { prg_mode: value & 3, ..m }
    } else if addr == 0x5101 {
        Mapper5 { chr_mode: value & 3, ..m }
    } else if addr == 0x5104 {
        Mapper5 { exram_mode: value & 3, ..m }
    } else if addr == 0x5105 {
        Mapper5 { nametable_mapping: value, ..m }
    } else if addr == 0x5106 {
        Mapper5 { fill_tile: value, ..m }
    } else if addr == 0x5107 {
        Mapper5 { fill_attr: value & 3, ..m }
    } else if addr == 0x5113 {
        Mapper5 { prg_ram_bank: value & 7, ..m }
    } else if addr == 0x5114 {
        Mapper5 { prg0: value, ..m }
    } else if addr == 0x5115 {
        Mapper5 { prg1: value, ..m }
    } else if addr == 0x5116 {
        Mapper5 { prg2: value, ..m }
    } else if addr == 0x5117 {
        Mapper5 { prg3: value, ..m }
    } else if addr == 0x5120 {
        Mapper5 { chr0: value, ..m }
    } else if addr == 0x5121 {
        Mapper5 { chr1: value, ..m }
    } else if addr == 0x5122 {
        Mapper5 { chr2: value, ..m }
    } else if addr == 0x5123 {
        Mapper5 { chr3: value, ..m }
    } else if addr == 0x5124 {
        Mapper5 { chr4: value, ..m }
    } else if addr == 0x5125 {
        Mapper5 { chr5: value, ..m }
    } else if addr == 0x5126 {
        Mapper5 { chr6: value, ..m }
    } else if addr == 0x5127 {
        Mapper5 { chr7: value, ..m }
    } else if addr == 0x5203 {
        Mapper5 { irq_compare: value, ..m }
    } else if addr == 0x5204 {
        Mapper5 {
            irq_enabled: value & 0x80 != 0,
            irq_pending: m.irq_pending && value & 0x80 != 0,
            ..m
        }
    } else {
        m
    }
}

/// The PRG register and 8 KiB sub-bank behind CPU address `addr` (0x8000
/// and up), and whether the register is $5117 (always ROM).
pub open spec fn prg_select(m: Mapper5, addr: u16) -> (u8, int, bool) {
    let w = (addr - 0x8000) / 0x2000;
    if m.prg_mode == 0 {
        (m.prg3 & 0x7C, w, true)
    } else if m.prg_mode == 1 {
        if w < 2 {
            (m.prg1 & 0x7E, w, false)
        } else {
            (m.prg3 & 0x7E, w - 2, true)
        }
    } else if m.prg_mode == 2 {
        if w < 2 {
            (m.prg1 & 0x7E, w, false)
        } else if w == 2 {
            (m.prg2, 0, false)
        } else {
            (m.prg3, 0, true)
        }
    } else if w == 0 {
        (m.prg0, 0, false)
    } else if w == 1 {
        (m.prg1, 0, false)
    } else if w == 2 {
        (m.prg2, 0, false)
    } else {
        (m.prg3, 0, true)
    }
}

impl Mapper5 {
    pub fn new() -> (r: Mapper5)
        ensures
            r == (Mapper5 {
                prg_mode: 3,
                chr_mode: 0,
                exram_mode: 0,
                nametable_mapping: 0,
                fill_tile: 0,
                fill_attr: 0,
                prg_ram_bank: 0,
                prg0: 0,
                prg1: 0,
                prg2: 0,
                prg3: 0xFF,
                chr0: 0,
                chr1: 0,
                chr2: 0,
                chr3: 0,
                chr4: 0,
                chr5: 0,
                chr6: 0,
                chr7: 0,
                irq_compare: 0,
                irq_enabled: false,
                irq_pending: false,
            }),
    {
        Mapper5 {
            prg_mode: 3,
            chr_mode: 0,
            exram_mode: 0,
            nametable_mapping: 0,
            fill_tile: 0,
            fill_attr: 0,
            prg_ram_bank: 0,
            prg0: 0,
            prg1: 0,
            prg2: 0,
            prg3: 0xFF,
            chr0: 0,
            chr1: 0,
            chr2: 0,
            chr3: 0,
            chr4: 0,
            chr5: 0,
            chr6: 0,
            chr7: 0,
            irq_compare: 0,
            irq_enabled: false,
            irq_pending: false,
        }
    }

    /// Whether CPU address `addr` (0x8000 and up) maps to ROM; registers
    /// other than $5117 map RAM while their bit 7 is clear.
    pub open spec fn prg_is_rom(&self, addr: u16) -> bool {
        let (reg, sub, last) = prg_select(*self, addr);
        last || reg & 0x80 != 0
    }

    /// The PRG-ROM index of `addr` when it maps to ROM.
    pub open spec fn prg_index_spec(&self, addr: u16, len: nat) -> int {
        let (reg, sub, last) = prg_select(*self, addr);
        wrap_index(((reg & 0x7F) + sub) as int, 0x2000, (addr % 0x2000) as int, len as int)
    }

    /// The PRG-RAM index of `addr` when it maps to RAM: one of eight 8 KiB
    /// banks.
    pub open spec fn prg_ram_index_spec(&self, addr: u16) -> int {
        let (reg, sub, last) = prg_select(*self, addr);
        (((reg + sub) as int) % 8) * 0x2000 + (addr % 0x2000) as int
    }

    fn select(&self, addr: u16) -> (r: (u8, u8, bool))
        requires
            addr >= 0x8000,
        ensures
            r.0 == prg_select(*self, addr).0,
            r.1 as int == prg_select(*self, addr).1,
            r.2 == prg_select(*self, addr).2,
            r.1 < 4,
    {
        let w = ((addr - 0x8000) / 0x2000) as u8;
        if self.prg_mode == 0 {
            (self.prg3 & 0x7C, w, true)
        } else if self.prg_mode == 1 {
            if w < 2 {
                (self.prg1 & 0x7E, w, false)
            } else {
                (self.prg3 & 0x7E, w - 2, true)
            }
        } else if self.prg_mode == 2 {
            if w < 2 {
                (self.prg1 & 0x7E, w, false)
            } else if w == 2 {
                (self.prg2, 0, false)
            } else {
                (self.prg3, 0, true)
            }
        } else if w == 0 {
            (self.prg0, 0, false)
        } else if w == 1 {
            (self.prg1, 0, false)
        } else if w == 2 {
            (self.prg2, 0, false)
        } else {
            (self.prg3, 0, true)
        }
    }

    /// Where CPU address `addr` (0x8000 and up) leads: `(true, i)` for
    /// PRG-ROM byte `i`, `(false, i)` for PRG-RAM byte `i`.
    pub fn get_prg_bank(&self, addr: u16, len: usize) -> (r: (bool, usize))
        requires
            addr >= 0x8000,
            len > 0,
        ensures
            r.0 == self.prg_is_rom(addr),
            r.0 ==> r.1 as int == self.prg_index_spec(addr, len as nat) && r.1 < len,
            !r.0 ==> r.1 as int == self.prg_ram_index_spec(addr) && r.1 < 0x10000,
    {
        let (reg, sub, last) = self.select(addr);
        let off = (addr % 0x2000) as usize;
        if last || reg & 0x80 != 0 {
            let low = reg & 0x7F;
            assert(low <= 0x7F) by (bit_vector)
                requires
                    low == reg & 0x7F,
            ;
            (true, bank_index(low as usize + sub as usize, 0x2000, off, len))
        } else {
            (false, (((reg as usize + sub as usize) % 8) * 0x2000 + off))
        }
    }

    pub fn write_prg(&mut self, addr: u16, value: u8)
        ensures
            *final(self) == mmc5_write_spec(*old(self), addr, value),
    {
        if addr == 0x5100 {
            self.prg_mode = value & 3;
        } else if addr == 0x5101 {
            self.chr_mode = value & 3;
        } else if addr == 0x5104 {
            self.exram_mode = value & 3;
        } else if addr == 0x5105 {
            self.nametable_mapping = value;
        } else if addr == 0x5106 {
            self.fill_tile = value;
        } else if addr == 0x5107 {
            self.fill_attr = value & 3;
        } else if addr == 0x5113 {
            self.prg_ram_bank = value & 7;
        } else if addr == 0x5114 {
            self.prg0 = value;
        } else if addr == 0x5115 {
            self.prg1 = value;
        } else if addr == 0x5116 {
            self.prg2 = value;
        } else if addr == 0x5117 {
            self.prg3 = value;
        } else if addr == 0x5120 {
            self.chr0 = value;
        } else if addr == 0x5121 {
            self.chr1 = value;
        } else if addr == 0x5122 {
            self.chr2 = value;
        } else if addr == 0x5123 {
            self.chr3 = value;
        } else if addr == 0x5124 {
            self.chr4 = value;
        } else if addr == 0x5125 {
            self.chr5 = value;
        } else if addr == 0x5126 {
            self.chr6 = value;
        } else if addr == 0x5127 {
            self.chr7 = value;
        } else if addr == 0x5203 {
            self.irq_compare = value;
        } else if addr == 0x5204 {
            self.irq_enabled = value & 0x80 != 0;
            if !self.irq_enabled {
                self.irq_pending = false;
            }
        }
    }

    /// CHR mode 0 maps one 8 KiB bank ($5127), mode 1 two 4 KiB banks
    /// ($5123, $5127), mode 2 four 2 KiB banks ($5121, $5123, $5125,
    /// $5127), mode 3 eight 1 KiB banks ($5120-$5127).
    pub open spec fn chr_index_spec(&self, addr: u16, len: nat) -> int {
        let a = addr as int;
        if self.chr_mode == 0 {
            wrap_index(self.chr7 as int, 0x2000, a, len as int)
        } else if self.chr_mode == 1 {
            wrap_index(chr_reg_spec(*self, (a / 0x1000) * 4 + 3) as int, 0x1000, a % 0x1000, len as int)
        } else if self.chr_mode == 2 {
            wrap_index(chr_reg_spec(*self, (a / 0x800) * 2 + 1) as int, 0x800, a % 0x800, len as int)
        } else {
            wrap_index(chr_reg_spec(*self, a / 0x400) as int, 0x400, a % 0x400, len as int)
        }
    }

    fn chr_reg(&self, i: u8) -> (r: u8)
        ensures
            r == chr_reg_spec(*self, i as int),
    {
        if i == 0 {
            self.chr0
        } else if i == 1 {
            self.chr1
        } else if i == 2 {
            self.chr2
        } else if i == 3 {
            self.chr3
        } else if i == 4 {
            self.chr4
        } else if i == 5 {
            self.chr5
        } else if i == 6 {
            self.chr6
        } else {
            self.chr7
        }
    }

    pub fn chr_index(&self, addr: u16, len: usize) -> (r: usize)
        requires
            addr < 0x2000,
            len > 0,
        ensures
            r as int == self.chr_index_spec(addr, len as nat),
            r < len,
    {
        if self.chr_mode == 0 {
            bank_index(self.chr7 as usize, 0x2000, addr as usize, len)
        } else if self.chr_mode == 1 {
            let reg = self.chr_reg(((addr / 0x1000) * 4 + 3) as u8);
            bank_index(reg as usize, 0x1000, (addr % 0x1000) as usize, len)
        } else if self.chr_mode == 2 {
            let reg = self.chr_reg(((addr / 0x800) * 2 + 1) as u8);
            bank_index(reg as usize, 0x800, (addr % 0x800) as usize, len)
        } else {
            let reg = self.chr_reg((addr / 0x400) as u8);
            bank_index(reg as usize, 0x400, (addr % 0x400) as usize, len)
        }
    }

    /// The layouts of $5105 that the library's mirroring modes describe:
    /// 0x44 vertical, 0x50 horizontal, 0x00 and 0x55 one-screen.
    pub fn mirroring(&self, header: Mirroring) -> (r: Mirroring)
        ensures
            r == if self.nametable_mapping == 0x44 {
                Mirroring::Vertical
            } else if self.nametable_mapping == 0x50 {
                Mirroring::Horizontal
            } else if self.nametable_mapping == 0x00 {
                Mirroring::SingleScreenLow
            } else if self.nametable_mapping == 0x55 {
                Mirroring::SingleScreenHigh
            } else {
                header
            },
    {
        if self.nametable_mapping == 0x44 {
            Mirroring::Vertical
        } else if self.nametable_mapping == 0x50 {
            Mirroring::Horizontal
        } else if self.nametable_mapping == 0x00 {
            Mirroring::SingleScreenLow
        } else if self.nametable_mapping == 0x55 {
            Mirroring::SingleScreenHigh
        } else {
            header
        }
    }

    pub fn get_state(&self) -> (r: MapperState)
        ensures
            r == (MapperState::Mapper5 { mmc5: *self }),
    {
        MapperState::Mapper5 { mmc5: *self }
    }

    pub fn set_state(&mut self, state: &MapperState)
        ensures
            *final(self) == match *state {
                MapperState::Mapper5 { mmc5 } => mmc5,
                _ => *old(self),
            },
    {
        if let MapperState::Mapper5 { mmc5 } = state {
            *self = *mmc5;
        }
    }
}

} // verus!
