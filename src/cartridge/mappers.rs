//! The discrete-logic mappers: NROM (0), UxROM (2), CNROM (3), AxROM (7),
//! Color Dreams (11) and GxROM (66).
use vstd::prelude::*;

use crate::cartridge::{wrap_index, MapperState, Mirroring};

verus! {

/// `(bank * size + offset) % len`, computed without overflow.
pub fn bank_index(bank: usize, size: usize, offset: usize, len: usize) -> (r: usize)
    requires
        bank <= 0xFFFF,
        size <= 0x8000,
        offset < size,
        len > 0,
    ensures
        r as int == wrap_index(bank as int, size as int, offset as int, len as int),
        r < len,
{
    assert(bank * size <= 0xFFFF * 0x8000) by (nonlinear_arith)
        requires
            bank <= 0xFFFF,
            size <= 0x8000,
    ;
    (bank * size + offset) % len
}

/// NROM: PRG fixed, a single 16 KiB bank mirrored into both windows.
#[derive(Clone, Copy, Debug, PartialEq, Eq, Structural)]
pub struct Mapper0 {}

impl Mapper0 {
    pub fn new() -> (r: Mapper0)
        ensures
            r == (Mapper0 {  }),
    {
        Mapper0 {  }
    }

    /// The PRG byte behind CPU address `addr` in 0x8000..=0xFFFF.
    pub open spec fn prg_index_spec(&self, addr: u16, len: nat) -> int {
        wrap_index(0, 0x8000, addr - 0x8000, len as int)
    }

    pub fn read_prg(&self, addr: u16, prg_rom: &Vec<u8>) -> (r: u8)
        requires
            addr >= 0x8000,
            prg_rom@.len() > 0,
        ensures
            r == prg_rom@[self.prg_index_spec(addr, prg_rom@.len())],
    {
        prg_rom[bank_index(0, 0x8000, (addr - 0x8000) as usize, prg_rom.len())]
    }

    /// NROM has no registers.
    pub fn write_prg(&mut self, addr: u16, value: u8)
        ensures
            *final(self) == *old(self),
    {
    }

    /// The CHR byte behind PPU address `addr` in 0x0000..=0x1FFF.
    pub open spec fn chr_index_spec(&self, addr: u16, len: nat) -> int {
        wrap_index(0, 0x2000, addr as int, len as int)
    }

    pub fn chr_index(&self, addr: u16, len: usize) -> (r: usize)
        requires
            addr < 0x2000,
            len > 0,
        ensures
            r as int == self.chr_index_spec(addr, len as nat),
            r < len,
    {
        bank_index(0, 0x2000, addr as usize, len)
    }

    pub fn get_state(&self) -> (r: MapperState)
        ensures
            r == MapperState::Mapper0,
    {
        MapperState::Mapper0
    }
}

/// UxROM: a switchable 16 KiB bank at 0x8000, the last bank fixed at
/// 0xC000. Writes see bus conflicts.
#[derive(Clone, Copy, Debug, PartialEq, Eq, Structural)]
pub struct Mapper2 {
    pub prg_bank: u8,
}

impl Mapper2 {
    pub fn new() -> (r: Mapper2)
        ensures
            r.prg_bank == 0,
    {
        Mapper2 { prg_bank: 0 }
    }

    pub open spec fn prg_index_spec(&self, addr: u16, len: nat) -> int {
        if addr < 0xC000 {
            wrap_index(self.prg_bank as int, 0x4000, addr - 0x8000, len as int)
        } else {
            wrap_index(0, 0x4000, addr - 0xC000 + len - 0x4000, len as int)
        }
    }

    pub fn read_prg(&self, addr: u16, prg_rom: &Vec<u8>) -> (r: u8)
        requires
            addr >= 0x8000,
            prg_rom@.len() >= 0x4000,
            prg_rom@.len() % 0x4000 == 0,
            prg_rom@.len() <= 0xFF * 0x4000,
        ensures
            r == prg_rom@[self.prg_index_spec(addr, prg_rom@.len())],
    {
        let len = prg_rom.len();
        if addr < 0xC000 {
            prg_rom[bank_index(self.prg_bank as usize, 0x4000, (addr - 0x8000) as usize, len)]
        } else {
            let last = len / 0x4000 - 1;
            let i = bank_index(last, 0x4000, (addr - 0xC000) as usize, len);
            assert(last * 0x4000 == len - 0x4000);
            prg_rom[i]
        }
    }

    /// Selects the bank at 0x8000 from the low four bits.
    pub fn write_prg(&mut self, addr: u16, value: u8)
        ensures
            final(self).prg_bank == if addr >= 0x8000 {
                value & 0x0F
            } else {
                old(self).prg_bank
            },
    {
        if addr >= 0x8000 {
            self.prg_bank = value & 0x0F;
        }
    }

    pub open spec fn chr_index_spec(&self, addr: u16, len: nat) -> int {
        wrap_index(0, 0x2000, addr as int, len as int)
    }

    pub fn chr_index(&self, addr: u16, len: usize) -> (r: usize)
        requires
            addr < 0x2000,
            len > 0,
        ensures
            r as int == self.chr_index_spec(addr, len as nat),
            r < len,
    {
        bank_index(0, 0x2000, addr as usize, len)
    }

    pub fn get_state(&self) -> (r: MapperState)
        ensures
            r == (MapperState::Mapper2 { prg_bank: self.prg_bank }),
    {
        MapperState::Mapper2 { prg_bank: self.prg_bank }
    }

    pub fn set_state(&mut self, state: &MapperState)
        ensures
            *final(self) == match *state {
                MapperState::Mapper2 { prg_bank } => Mapper2 { prg_bank },
                _ => *old(self),
            },
    {
        if let MapperState::Mapper2 { prg_bank } = state {
            self.prg_bank = *prg_bank;
        }
    }
}

/// CNROM: PRG fixed, a switchable 8 KiB CHR bank. Writes see bus conflicts.
#[derive(Clone, Copy, Debug, PartialEq, Eq, Structural)]
pub struct Mapper3 {
    pub chr_bank: u8,
}

impl Mapper3 {
    pub fn new() -> (r: Mapper3)
        ensures
            r.chr_bank == 0,
    {
        Mapper3 { chr_bank: 0 }
    }

    pub open spec fn prg_index_spec(&self, addr: u16, len: nat) -> int {
        wrap_index(0, 0x8000, addr - 0x8000, len as int)
    }

    pub fn read_prg(&self, addr: u16, prg_rom: &Vec<u8>) -> (r: u8)
        requires
            addr >= 0x8000,
            prg_rom@.len() > 0,
        ensures
            r == prg_rom@[self.prg_index_spec(addr, prg_rom@.len())],
    {
        prg_rom[bank_index(0, 0x8000, (addr - 0x8000) as usize, prg_rom.len())]
    }

    /// Selects the CHR bank from the low two bits.
    pub fn write_prg(&mut self, addr: u16, value: u8)
        ensures
            final(self).chr_bank == if addr >= 0x8000 {
                value & 0x03
            } else {
                old(self).chr_bank
            },
    {
        if addr >= 0x8000 {
            self.chr_bank = value & 0x03;
        }
    }

    pub open spec fn chr_index_spec(&self, addr: u16, len: nat) -> int {
        wrap_index(self.chr_bank as int, 0x2000, addr as int, len as int)
    }

    pub fn chr_index(&self, addr: u16, len: usize) -> (r: usize)
        requires
            addr < 0x2000,
            len > 0,
        ensures
            r as int == self.chr_index_spec(addr, len as nat),
            r < len,
    {
        bank_index(self.chr_bank as usize, 0x2000, addr as usize, len)
    }

    pub fn get_state(&self) -> (r: MapperState)
        ensures
            r == (MapperState::Mapper3 { chr_bank: self.chr_bank }),
    {
        MapperState::Mapper3 { chr_bank: self.chr_bank }
    }

    pub fn set_state(&mut self, state: &MapperState)
        ensures
            *final(self) == match *state {
                MapperState::Mapper3 { chr_bank } => Mapper3 { chr_bank },
                _ => *old(self),
            },
    {
        if let MapperState::Mapper3 { chr_bank } = state {
            self.chr_bank = *chr_bank;
        }
    }
}

/// AxROM: a switchable 32 KiB PRG bank and a one-screen mirroring select;
/// CHR is RAM. Writes see bus conflicts.
#[derive(Clone, Copy, Debug, PartialEq, Eq, Structural)]
pub struct Mapper7 {
    pub prg_bank: u8,
    pub mirroring_mode: u8,
}

impl Mapper7 {
    pub fn new() -> (r: Mapper7)
        ensures
            r == (Mapper7 { prg_bank: 0, mirroring_mode: 0 }),
    {
        Mapper7 { prg_bank: 0, mirroring_mode: 0 }
    }

    pub open spec fn prg_index_spec(&self, addr: u16, len: nat) -> int {
        wrap_index(self.prg_bank as int, 0x8000, addr - 0x8000, len as int)
    }

    pub fn read_prg(&self, addr: u16, prg_rom: &Vec<u8>) -> (r: u8)
        requires
            addr >= 0x8000,
            prg_rom@.len() > 0,
        ensures
            r == prg_rom@[self.prg_index_spec(addr, prg_rom@.len())],
    {
        prg_rom[bank_index(self.prg_bank as usize, 0x8000, (addr - 0x8000) as usize, prg_rom.len())]
    }

    /// Bits 0-2 select the PRG bank, bit 4 the nametable.
    pub fn write_prg(&mut self, addr: u16, value: u8)
        ensures
            *final(self) == if addr >= 0x8000 {
                Mapper7 { prg_bank: value & 0x07, mirroring_mode: (value >> 4u8) & 1 }
            } else {
                *old(self)
            },
    {
        if addr >= 0x8000 {
            self.prg_bank = value & 0x07;
            self.mirroring_mode = (value >> 4) & 1;
        }
    }

    pub open spec fn chr_index_spec(&self, addr: u16, len: nat) -> int {
        wrap_index(0, 0x2000, addr as int, len as int)
    }

    pub fn chr_index(&self, addr: u16, len: usize) -> (r: usize)
        requires
            addr < 0x2000,
            len > 0,
        ensures
            r as int == self.chr_index_spec(addr, len as nat),
            r < len,
    {
        bank_index(0, 0x2000, addr as usize, len)
    }

    /// The one-screen nametable selected by bit 4 of the last write.
    pub fn mirroring(&self) -> (r: Mirroring)
        ensures
            r == if self.mirroring_mode == 0 {
                Mirroring::SingleScreenLow
            } else {
                Mirroring::SingleScreenHigh
            },
    {
        if self.mirroring_mode == 0 {
            Mirroring::SingleScreenLow
        } else {
            Mirroring::SingleScreenHigh
        }
    }

    pub fn get_state(&self) -> (r: MapperState)
        ensures
            r == (MapperState::Mapper7 {
                prg_bank: self.prg_bank,
                mirroring_mode: self.mirroring_mode,
            }),
    {
        MapperState::Mapper7 { prg_bank: self.prg_bank, mirroring_mode: self.mirroring_mode }
    }

    pub fn set_state(&mut self, state: &MapperState)
        ensures
            *final(self) == match *state {
                MapperState::Mapper7 { prg_bank, mirroring_mode } => Mapper7 {
                    prg_bank,
                    mirroring_mode,
                },
                _ => *old(self),
            },
    {
        if let MapperState::Mapper7 { prg_bank, mirroring_mode } = state {
            self.prg_bank = *prg_bank;
            self.mirroring_mode = *mirroring_mode;
        }
    }
}

/// Color Dreams (11) and GxROM (66): one register selecting a 32 KiB PRG
/// bank and an 8 KiB CHR bank. Writes see bus conflicts.
#[derive(Clone, Copy, Debug, PartialEq, Eq, Structural)]
pub struct Mapper11 {
    pub prg_bank: u8,
    pub chr_bank: u8,
    /// GxROM (66) places the fields the other way round.
    pub gxrom: bool,
}

impl Mapper11 {
    /// A Color Dreams board (mapper 11).
    pub fn new() -> (r: Mapper11)
        ensures
            r == (Mapper11 { prg_bank: 0, chr_bank: 0, gxrom: false }),
    {
        Mapper11 { prg_bank: 0, chr_bank: 0, gxrom: false }
    }

    /// A GxROM board (mapper 66).
    pub fn new_gxrom() -> (r: Mapper11)
        ensures
            r == (Mapper11 { prg_bank: 0, chr_bank: 0, gxrom: true }),
    {
        Mapper11 { prg_bank: 0, chr_bank: 0, gxrom: true }
    }

    pub open spec fn prg_index_spec(&self, addr: u16, len: nat) -> int {
        wrap_index(self.prg_bank as int, 0x8000, addr - 0x8000, len as int)
    }

    pub fn read_prg(&self, addr: u16, prg_rom: &Vec<u8>) -> (r: u8)
        requires
            addr >= 0x8000,
            prg_rom@.len() > 0,
        ensures
            r == prg_rom@[self.prg_index_spec(addr, prg_rom@.len())],
    {
        prg_rom[bank_index(self.prg_bank as usize, 0x8000, (addr - 0x8000) as usize, prg_rom.len())]
    }

    /// Color Dreams: bits 0-1 PRG, bits 4-7 CHR. GxROM: bits 0-1 CHR,
    /// bits 4-5 PRG.
    pub fn write_prg(&mut self, addr: u16, value: u8)
        ensures
            *final(self) == if addr < 0x8000 {
                *old(self)
            } else if old(self).gxrom {
                Mapper11 { prg_bank: (value >> 4u8) & 0x03, chr_bank: value & 0x03, gxrom: true }
            } else {
                Mapper11 { prg_bank: value & 0x03, chr_bank: (value >> 4u8) & 0x0F, gxrom: false }
            },
    {
        if addr >= 0x8000 {
            if self.gxrom {
                self.prg_bank = (value >> 4) & 0x03;
                self.chr_bank = value & 0x03;
            } else {
                self.prg_bank = value & 0x03;
                self.chr_bank = (value >> 4) & 0x0F;
            }
        }
    }

    pub open spec fn chr_index_spec(&self, addr: u16, len: nat) -> int {
        wrap_index(self.chr_bank as int, 0x2000, addr as int, len as int)
    }

    pub fn chr_index(&self, addr: u16, len: usize) -> (r: usize)
        requires
            addr < 0x2000,
            len > 0,
        ensures
            r as int == self.chr_index_spec(addr, len as nat),
            r < len,
    {
        bank_index(self.chr_bank as usize, 0x2000, addr as usize, len)
    }

    pub fn get_state(&self) -> (r: MapperState)
        ensures
            r == (MapperState::Mapper11 { prg_bank: self.prg_bank, chr_bank: self.chr_bank }),
    {
        MapperState::Mapper11 { prg_bank: self.prg_bank, chr_bank: self.chr_bank }
    }

    pub fn set_state(&mut self, state: &MapperState)
        ensures
            *final(self) == match *state {
                MapperState::Mapper11 { prg_bank, chr_bank } => Mapper11 {
                    prg_bank,
                    chr_bank,
                    ..*old(self)
                },
                _ => *old(self),
            },
    {
        if let MapperState::Mapper11 { prg_bank, chr_bank } = state {
            self.prg_bank = *prg_bank;
            self.chr_bank = *chr_bank;
        }
    }
}

} // verus!
