//! MMC2: a switchable 8 KiB PRG bank and two 4 KiB CHR windows whose banks
//! are chosen by latches that PPU reads of tiles 0xFD and 0xFE flip.
use vstd::prelude::*;

use crate::cartridge::mappers::bank_index;
use crate::cartridge::{wrap_index, MapperState, Mirroring};

verus! {

#[derive(Clone, Copy, Debug, PartialEq, Eq, Structural)]
pub struct Mapper9 {
    pub prg_bank: u8,
    /// CHR banks of the 0x0000 window for latch value 0xFD and 0xFE.
    pub chr0_fd: u8,
    pub chr0_fe: u8,
    /// CHR banks of the 0x1000 window for latch value 0xFD and 0xFE.
    pub chr1_fd: u8,
    pub chr1_fe: u8,
    /// Whether each latch holds 0xFE (else 0xFD).
    pub latch0_fe: bool,
    pub latch1_fe: bool,
    /// 0: vertical, 1: horizontal.
    pub mirroring_mode: u8,
}

/// The MMC2 after a CPU write at `addr` (0x8000 and up): PRG bank at
/// 0xA000, the four CHR banks at 0xB000-0xEFFF, mirroring at 0xF000.
pub open spec fn mmc2_write_spec(m: Mapper9, addr: u16, value: u8) -> Mapper9 {
    if 0xA000 <= addr < 0xB000 {
        Mapper9 { prg_bank: value & 0x0F, ..m }
    } else if 0xB000 <= addr < 0xC000 {
        Mapper9 { chr0_fd: value & 0x1F, ..m }
    } else if 0xC000 <= addr < 0xD000 {
        Mapper9 { chr0_fe: value & 0x1F, ..m }
    } else if 0xD000 <= addr < 0xE000 {
        Mapper9 { chr1_fd: value & 0x1F, ..m }
    } else if 0xE000 <= addr < 0xF000 {
        Mapper9 { chr1_fe: value & 0x1F, ..m }
    } else if addr >= 0xF000 {
        Mapper9 { mirroring_mode: value & 1, ..m }
    } else {
        m
    }
}

/// The latches after the PPU reads pattern address `addr`: 0x0FD8..=0x0FDF
/// and 0x0FE8..=0x0FEF set the low latch, 0x1FD8..=0x1FDF and
/// 0x1FE8..=0x1FEF the high one.
pub open spec fn mmc2_latch_spec(m: Mapper9, addr: u16) -> Mapper9 {
    if 0x0FD8 <= addr <= 0x0FDF {
        Mapper9 { latch0_fe: false, ..m }
    } else if 0x0FE8 <= addr <= 0x0FEF {
        Mapper9 { latch0_fe: true, ..m }
    } else if 0x1FD8 <= addr <= 0x1FDF {
        Mapper9 { latch1_fe: false, ..m }
    } else if 0x1FE8 <= addr <= 0x1FEF {
        Mapper9 { latch1_fe: true, ..m }
    } else {
        m
    }
}

impl Mapper9 {
    pub fn new() -> (r: Mapper9)
        ensures
            r == (Mapper9 {
                prg_bank: 0,
                chr0_fd: 0,
                chr0_fe: 0,
                chr1_fd: 0,
                chr1_fe: 0,
                latch0_fe: false,
                latch1_fe: false,
                mirroring_mode: 0,
            }),
    {
        Mapper9 {
            prg_bank: 0,
            chr0_fd: 0,
            chr0_fe: 0,
            chr1_fd: 0,
            chr1_fe: 0,
            latch0_fe: false,
            latch1_fe: false,
            mirroring_mode: 0,
        }
    }

    /// 0x8000..=0x9FFF shows the switchable 8 KiB bank; 0xA000..=0xFFFF the
    /// last three 8 KiB banks.
    pub open spec fn prg_index_spec(&self, addr: u16, len: nat) -> int {
        if addr < 0xA000 {
            wrap_index(self.prg_bank as int, 0x2000, addr - 0x8000, len as int)
        } else {
            wrap_index(0, 0x2000, addr - 0xA000 + 4 * len - 0x6000, len as int)
        }
    }

    pub fn read_prg(&self, addr: u16, prg_rom: &Vec<u8>) -> (r: u8)
        requires
            addr >= 0x8000,
            prg_rom@.len() >= 0x4000,
            prg_rom@.len() % 0x4000 == 0,
            prg_rom@.len() <= 0xFF * 0x4000,
        ensures
            r == prg_rom@[self.prg_index_spec(addr, prg_rom@.len())],
    {
        let len = prg_rom.len();
        if addr < 0xA000 {
            prg_rom[bank_index(self.prg_bank as usize, 0x2000, (addr - 0x8000) as usize, len)]
        } else {
            let off = (addr - 0xA000) as usize;
            let i = (off + 4 * len - 0x6000) % len;
            prg_rom[i]
        }
    }

    pub fn write_prg(&mut self, addr: u16, value: u8)
        ensures
            *final(self) == mmc2_write_spec(*old(self), addr, value),
    {
        if 0xA000 <= addr && addr < 0xB000 {
            self.prg_bank = value & 0x0F;
        } else if 0xB000 <= addr && addr < 0xC000 {
            self.chr0_fd = value & 0x1F;
        } else if 0xC000 <= addr && addr < 0xD000 {
            self.chr0_fe = value & 0x1F;
        } else if 0xD000 <= addr && addr < 0xE000 {
            self.chr1_fd = value & 0x1F;
        } else if 0xE000 <= addr && addr < 0xF000 {
            self.chr1_fe = value & 0x1F;
        } else if addr >= 0xF000 {
            self.mirroring_mode = value & 1;
        }
    }

    /// Each 4 KiB window shows the bank its latch selects.
    pub open spec fn chr_index_spec(&self, addr: u16, len: nat) -> int {
        if addr < 0x1000 {
            let bank = if self.latch0_fe {
                self.chr0_fe
            } else {
                self.chr0_fd
            };
            wrap_index(bank as int, 0x1000, addr as int, len as int)
        } else {
            let bank = if self.latch1_fe {
                self.chr1_fe
            } else {
                self.chr1_fd
            };
            wrap_index(bank as int, 0x1000, addr - 0x1000, len as int)
        }
    }

    pub fn chr_index(&self, addr: u16, len: usize) -> (r: usize)
        requires
            addr < 0x2000,
            len > 0,
        ensures
            r as int == self.chr_index_spec(addr, len as nat),
            r < len,
    {
        if addr < 0x1000 {
            let bank = if self.latch0_fe {
                self.chr0_fe
            } else {
                self.chr0_fd
            };
            bank_index(bank as usize, 0x1000, addr as usize, len)
        } else {
            let bank = if self.latch1_fe {
                self.chr1_fe
            } else {
                self.chr1_fd
            };
            bank_index(bank as usize, 0x1000, (addr - 0x1000) as usize, len)
        }
    }

    /// Updates the latches for a PPU pattern read at `addr`.
    pub fn update_chr_latch(&mut self, addr: u16)
        ensures
            *final(self) == mmc2_latch_spec(*old(self), addr),
    {
        if 0x0FD8 <= addr && addr <= 0x0FDF {
            self.latch0_fe = false;
        } else if 0x0FE8 <= addr && addr <= 0x0FEF {
            self.latch0_fe = true;
        } else if 0x1FD8 <= addr && addr <= 0x1FDF {
            self.latch1_fe = false;
        } else if 0x1FE8 <= addr && addr <= 0x1FEF {
            self.latch1_fe = true;
        }
    }

    pub fn mirroring(&self) -> (r: Mirroring)
        ensures
            r == if self.mirroring_mode == 0 {
                Mirroring::Vertical
            } else {
                Mirroring::Horizontal
            },
    {
        if self.mirroring_mode == 0 {
            Mirroring::Vertical
        } else {
            Mirroring::Horizontal
        }
    }

    pub fn get_state(&self) -> (r: MapperState)
        ensures
            r == (MapperState::Mapper9 { mmc2: *self }),
    {
        MapperState::Mapper9 { mmc2: *self }
    }

    pub fn set_state(&mut self, state: &MapperState)
        ensures
            *final(self) == match *state {
                MapperState::Mapper9 { mmc2 } => mmc2,
                _ => *old(self),
            },
    {
        if let MapperState::Mapper9 { mmc2 } = state {
            *self = *mmc2;
        }
    }
}

} // verus!
