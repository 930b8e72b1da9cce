//! MMC1: a five-bit serial port feeding four internal registers.
use vstd::prelude::*;

use crate::cartridge::mappers::bank_index;
use crate::cartridge::{wrap_index, MapperState, Mirroring};

verus! {

#[derive(Clone, Copy, Debug, PartialEq, Eq, Structural)]
pub struct Mapper1 {
    pub shift_register: u8,
    pub shift_count: u8,
    pub control: u8,
    pub chr_bank0: u8,
    pub chr_bank1: u8,
    pub prg_bank: u8,
}

/// The MMC1 after a write of `value` to CPU address `addr` (0x8000 and up):
/// bit 7 resets the port and sets PRG mode 3; otherwise bit 0 shifts in,
/// and the fifth shift commits to the register chosen by address bits
/// 13-14.
pub open spec fn mmc1_write_spec(m: Mapper1, addr: u16, value: u8) -> Mapper1 {
    if value & 0x80 != 0 {
        Mapper1 { shift_register: 0x10, shift_count: 0, control: m.control | 0x0C, ..m }
    } else {
        let complete = m.shift_register & 1 != 0;
        let shifted = (m.shift_register >> 1u8) | ((value & 1) << 4u8);
        if !complete {
            Mapper1 {
                shift_register: shifted,
                shift_count: ((m.shift_count + 1) % 0x100) as u8,
                ..m
            }
        } else {
            let reset = Mapper1 { shift_register: 0x10, shift_count: 0, ..m };
            let target = (addr / 0x2000) % 4;
            if target == 0 {
                Mapper1 { control: shifted, ..reset }
            } else if target == 1 {
                Mapper1 { chr_bank0: shifted, ..reset }
            } else if target == 2 {
                Mapper1 { chr_bank1: shifted, ..reset }
            } else {
                Mapper1 { prg_bank: shifted & 0x0F, ..reset }
            }
        }
    }
}

impl Mapper1 {
    /// The power-on state: port empty, PRG mode 3 (last bank fixed).
    pub fn new() -> (r: Mapper1)
        ensures
            r == (Mapper1 {
                shift_register: 0x10,
                shift_count: 0,
                control: 0x0C,
                chr_bank0: 0,
                chr_bank1: 0,
                prg_bank: 0,
            }),
    {
        Mapper1 {
            shift_register: 0x10,
            shift_count: 0,
            control: 0x0C,
            chr_bank0: 0,
            chr_bank1: 0,
            prg_bank: 0,
        }
    }

    /// PRG modes 0-1 switch 32 KiB; mode 2 fixes the first bank at 0x8000;
    /// mode 3 fixes the last bank at 0xC000.
    pub open spec fn prg_index_spec(&self, addr: u16, len: nat) -> int {
        let mode = (self.control / 4) % 4;
        if mode < 2 {
            wrap_index((self.prg_bank / 2) as int, 0x8000, addr - 0x8000, len as int)
        } else if addr < 0xC000 {
            if mode == 2 {
                wrap_index(0, 0x4000, addr - 0x8000, len as int)
            } else {
                wrap_index(self.prg_bank as int, 0x4000, addr - 0x8000, len as int)
            }
        } else if mode == 2 {
            wrap_index(self.prg_bank as int, 0x4000, addr - 0xC000, len as int)
        } else {
            wrap_index(0, 0x4000, addr - 0xC000 + len - 0x4000, len as int)
        }
    }

    pub fn read_prg(&self, addr: u16, prg_rom: &Vec<u8>) -> (r: u8)
        requires
            addr >= 0x8000,
            prg_rom@.len() >= 0x4000,
            prg_rom@.len() % 0x4000 == 0,
            prg_rom@.len() <= 0xFF * 0x4000,
        ensures
            r == prg_rom@[self.prg_index_spec(addr, prg_rom@.len())],
    {
        let len = prg_rom.len();
        let mode = (self.control / 4) % 4;
        let i = if mode < 2 {
            bank_index((self.prg_bank / 2) as usize, 0x8000, (addr - 0x8000) as usize, len)
        } else if addr < 0xC000 {
            if mode == 2 {
                bank_index(0, 0x4000, (addr - 0x8000) as usize, len)
            } else {
                bank_index(self.prg_bank as usize, 0x4000, (addr - 0x8000) as usize, len)
            }
        } else if mode == 2 {
            bank_index(self.prg_bank as usize, 0x4000, (addr - 0xC000) as usize, len)
        } else {
            let last = len / 0x4000 - 1;
            assert(last * 0x4000 == len - 0x4000);
            bank_index(last, 0x4000, (addr - 0xC000) as usize, len)
        };
        prg_rom[i]
    }

    /// A write to the serial port.
    pub fn write_prg(&mut self, addr: u16, value: u8)
        ensures
            *final(self) == if addr < 0x8000 {
                *old(self)
            } else {
                mmc1_write_spec(*old(self), addr, value)
            },
    {
        if addr < 0x8000 {
            return;
        }
        if value & 0x80 != 0 {
            self.shift_register = 0x10;
            self.shift_count = 0;
            self.control = self.control | 0x0C;
        } else {
            let complete = self.shift_register & 1 != 0;
            let shifted = (self.shift_register >> 1) | ((value & 1) << 4);
            if !complete {
                self.shift_register = shifted;
                self.shift_count = self.shift_count.wrapping_add(1);
            } else {
                let target = (addr / 0x2000) % 4;
                if target == 0 {
                    self.control = shifted;
                } else if target == 1 {
                    self.chr_bank0 = shifted;
                } else if target == 2 {
                    self.chr_bank1 = shifted;
                } else {
                    self.prg_bank = shifted & 0x0F;
                }
                self.shift_register = 0x10;
                self.shift_count = 0;
            }
        }
    }

    /// CHR mode 0 switches 8 KiB (low bit of bank 0 ignored); mode 1
    /// switches two 4 KiB banks.
    pub open spec fn chr_index_spec(&self, addr: u16, len: nat) -> int {
        if (self.control / 0x10) % 2 == 0 {
            wrap_index((self.chr_bank0 / 2) as int, 0x2000, addr as int, len as int)
        } else if addr < 0x1000 {
            wrap_index(self.chr_bank0 as int, 0x1000, addr as int, len as int)
        } else {
            wrap_index(self.chr_bank1 as int, 0x1000, addr - 0x1000, len as int)
        }
    }

    pub fn chr_index(&self, addr: u16, len: usize) -> (r: usize)
        requires
            addr < 0x2000,
            len > 0,
        ensures
            r as int == self.chr_index_spec(addr, len as nat),
            r < len,
    {
        if (self.control / 0x10) % 2 == 0 {
            bank_index((self.chr_bank0 / 2) as usize, 0x2000, addr as usize, len)
        } else if addr < 0x1000 {
            bank_index(self.chr_bank0 as usize, 0x1000, addr as usize, len)
        } else {
            bank_index(self.chr_bank1 as usize, 0x1000, (addr - 0x1000) as usize, len)
        }
    }

    /// Control bits 0-1: one-screen low, one-screen high, vertical,
    /// horizontal.
    pub fn mirroring(&self) -> (r: Mirroring)
        ensures
            r == match self.control % 4 {
                0 => Mirroring::SingleScreenLow,
                1 => Mirroring::SingleScreenHigh,
                2 => Mirroring::Vertical,
                _ => Mirroring::Horizontal,
            },
    {
        match self.control % 4 {
            0 => Mirroring::SingleScreenLow,
            1 => Mirroring::SingleScreenHigh,
            2 => Mirroring::Vertical,
            _ => Mirroring::Horizontal,
        }
    }

    pub fn get_state(&self) -> (r: MapperState)
        ensures
            r == (MapperState::Mapper1 {
                shift_register: self.shift_register,
                shift_count: self.shift_count,
                control: self.control,
                chr_bank0: self.chr_bank0,
                chr_bank1: self.chr_bank1,
                prg_bank: self.prg_bank,
            }),
    {
        MapperState::Mapper1 {
            shift_register: self.shift_register,
            shift_count: self.shift_count,
            control: self.control,
            chr_bank0: self.chr_bank0,
            chr_bank1: self.chr_bank1,
            prg_bank: self.prg_bank,
        }
    }

    pub fn set_state(&mut self, state: &MapperState)
        ensures
            *final(self) == match *state {
                MapperState::Mapper1 {
                    shift_register,
                    shift_count,
                    control,
                    chr_bank0,
                    chr_bank1,
                    prg_bank,
                } => Mapper1 { shift_register, shift_count, control, chr_bank0, chr_bank1, prg_bank },
                _ => *old(self),
            },
    {
        if let MapperState::Mapper1 {
            shift_register,
            shift_count,
            control,
            chr_bank0,
            chr_bank1,
            prg_bank,
        } = state {
            self.shift_register = *shift_register;
            self.shift_count = *shift_count;
            self.control = *control;
            self.chr_bank0 = *chr_bank0;
            self.chr_bank1 = *chr_bank1;
            self.prg_bank = *prg_bank;
        }
    }
}

} // verus!
