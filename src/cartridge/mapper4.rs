//! MMC3: eight bank registers, switchable PRG/CHR layouts and a scanline
//! counter clocked by rising edges of PPU address line A12.
use vstd::prelude::*;

use crate::cartridge::mappers::bank_index;
use crate::cartridge::{wrap_index, MapperState, Mirroring};

verus! {

#[derive(Clone, Copy, Debug, PartialEq, Eq, Structural)]
pub struct Mapper4 {
    pub bank_select: u8,
    pub r0: u8,
    pub r1: u8,
    pub r2: u8,
    pub r3: u8,
    pub r4: u8,
    pub r5: u8,
    pub r6: u8,
    pub r7: u8,
    /// 0: vertical, 1: horizontal.
    pub mirroring_mode: u8,
    pub irq_enabled: bool,
    pub irq_counter: u8,
    pub irq_latch: u8,
    pub irq_reload: bool,
    pub irq_pending: bool,
    pub last_a12: bool,
    /// PPU accesses left during which another A12 rise is ignored.
    pub a12_filter: u8,
}

/// The value of bank register `i`.
pub open spec fn reg_spec(m: Mapper4, i: int) -> u8 {
    if i == 0 {
        m.r0
    } else if i == 1 {
        m.r1
    } else if i == 2 {
        m.r2
    } else if i == 3 {
        m.r3
    } else if i == 4 {
        m.r4
    } else if i == 5 {
        m.r5
    } else if i == 6 {
        m.r6
    } else {
        m.r7
    }
}

/// The MMC3 after a CPU write of `value` at `addr` (0x8000 and up): bank
/// select and bank data at 0x8000/0x8001, mirroring at 0xA000, IRQ latch
/// and reload at 0xC000/0xC001, IRQ disable (acknowledging) and enable at
/// 0xE000/0xE001; even and odd addresses of each window alike.
pub open spec fn mmc3_write_spec(m: Mapper4, addr: u16, value: u8) -> Mapper4 {
    let even = addr % 2 == 0;
    if addr < 0xA000 {
        if even {
            Mapper4 { bank_select: value, ..m }
        } else {
            let i = m.bank_select % 8;
            if i == 0 {
                Mapper4 { r0: value, ..m }
            } else if i == 1 {
                Mapper4 { r1: value, ..m }
            } else if i == 2 {
                Mapper4 { r2: value, ..m }
            } else if i == 3 {
                Mapper4 { r3: value, ..m }
            } else if i == 4 {
                Mapper4 { r4: value, ..m }
            } else if i == 5 {
                Mapper4 { r5: value, ..m }
            } else if i == 6 {
                Mapper4 { r6: value, ..m }
            } else {
                Mapper4 { r7: value, ..m }
            }
        }
    } else if addr < 0xC000 {
        if even {
            Mapper4 { mirroring_mode: value & 1, ..m }
        } else {
            m
        }
    } else if addr < 0xE000 {
        if even {
            Mapper4 { irq_latch: value, ..m }
        } else {
            Mapper4 { irq_reload: true, irq_counter: 0, ..m }
        }
    } else if even {
        Mapper4 { irq_enabled: false, irq_pending: false, ..m }
    } else {
        Mapper4 { irq_enabled: true, ..m }
    }
}

/// One PPU address seen by the counter: on a rise of A12 outside the
/// filter window the counter reloads (when zero or asked to) or counts
/// down, and reaching zero with IRQs enabled raises the IRQ.
pub open spec fn mmc3_clock_spec(m: Mapper4, addr: u16) -> Mapper4 {
    let a12 = addr & 0x1000 != 0;
    let m1 = if !m.last_a12 && a12 && m.a12_filter == 0 {
        let counter = if m.irq_counter == 0 || m.irq_reload {
            m.irq_latch
        } else {
            (m.irq_counter - 1) as u8
        };
        Mapper4 {
            a12_filter: 15,
            irq_counter: counter,
            irq_reload: false,
            irq_pending: m.irq_pending || (counter == 0 && m.irq_enabled),
            ..m
        }
    } else {
        m
    };
    Mapper4 {
        a12_filter: if m1.a12_filter > 0 {
            (m1.a12_filter - 1) as u8
        } else {
            0
        },
        last_a12: a12,
        ..m1
    }
}

impl Mapper4 {
    pub fn new() -> (r: Mapper4)
        ensures
            r == (Mapper4 {
                bank_select: 0,
                r0: 0,
                r1: 0,
                r2: 0,
                r3: 0,
                r4: 0,
                r5: 0,
                r6: 0,
                r7: 0,
                mirroring_mode: 0,
                irq_enabled: false,
                irq_counter: 0,
                irq_latch: 0,
                irq_reload: false,
                irq_pending: false,
                last_a12: false,
                a12_filter: 0,
            }),
    {
        Mapper4 {
            bank_select: 0,
            r0: 0,
            r1: 0,
            r2: 0,
            r3: 0,
            r4: 0,
            r5: 0,
            r6: 0,
            r7: 0,
            mirroring_mode: 0,
            irq_enabled: false,
            irq_counter: 0,
            irq_latch: 0,
            irq_reload: false,
            irq_pending: false,
            last_a12: false,
            a12_filter: 0,
        }
    }

    fn reg(&self, i: u8) -> (r: u8)
        ensures
            r == reg_spec(*self, i as int),
    {
        if i == 0 {
            self.r0
        } else if i == 1 {
            self.r1
        } else if i == 2 {
            self.r2
        } else if i == 3 {
            self.r3
        } else if i == 4 {
            self.r4
        } else if i == 5 {
            self.r5
        } else if i == 6 {
            self.r6
        } else {
            self.r7
        }
    }

    /// The 8 KiB PRG bank behind CPU window `w` (0 for 0x8000 .. 3 for
    /// 0xE000) among `n` banks: R6 and R7 are switchable, the last bank is
    /// fixed at 0xE000, and bit 6 of the bank select swaps R6 with the
    /// second-last bank.
    pub open spec fn prg_bank_spec(&self, w: int, n: int) -> int {
        let swap = (self.bank_select / 0x40) % 2 == 1;
        if w == 0 {
            if swap {
                n - 2
            } else {
                self.r6 as int
            }
        } else if w == 1 {
            self.r7 as int
        } else if w == 2 {
            if swap {
                self.r6 as int
            } else {
                n - 2
            }
        } else {
            n - 1
        }
    }

    pub open spec fn prg_index_spec(&self, addr: u16, len: nat) -> int {
        let w = (addr - 0x8000) / 0x2000;
        wrap_index(self.prg_bank_spec(w, (len / 0x2000) as int), 0x2000, (addr - 0x8000) % 0x2000, len as int)
    }

    pub fn read_prg(&self, addr: u16, prg_rom: &Vec<u8>) -> (r: u8)
        requires
            addr >= 0x8000,
            prg_rom@.len() >= 0x4000,
            prg_rom@.len() % 0x4000 == 0,
            prg_rom@.len() <= 0xFF * 0x4000,
        ensures
            r == prg_rom@[self.prg_index_spec(addr, prg_rom@.len())],
    {
        let len = prg_rom.len();
        let n = len / 0x2000;
        let w = (addr - 0x8000) / 0x2000;
        let swap = (self.bank_select / 0x40) % 2 == 1;
        let bank: usize = if w == 0 {
            if swap {
                n - 2
            } else {
                self.r6 as usize
            }
        } else if w == 1 {
            self.r7 as usize
        } else if w == 2 {
            if swap {
                self.r6 as usize
            } else {
                n - 2
            }
        } else {
            n - 1
        };
        let i = bank_index(bank, 0x2000, ((addr - 0x8000) % 0x2000) as usize, len);
        prg_rom[i]
    }

    /// A register write.
    pub fn write_prg(&mut self, addr: u16, value: u8)
        ensures
            *final(self) == if addr < 0x8000 {
                *old(self)
            } else {
                mmc3_write_spec(*old(self), addr, value)
            },
    {
        if addr < 0x8000 {
            return;
        }
        let even = addr % 2 == 0;
        if addr < 0xA000 {
            if even {
                self.bank_select = value;
            } else {
                let i = self.bank_select % 8;
                if i == 0 {
                    self.r0 = value;
                } else if i == 1 {
                    self.r1 = value;
                } else if i == 2 {
                    self.r2 = value;
                } else if i == 3 {
                    self.r3 = value;
                } else if i == 4 {
                    self.r4 = value;
                } else if i == 5 {
                    self.r5 = value;
                } else if i == 6 {
                    self.r6 = value;
                } else {
                    self.r7 = value;
                }
            }
        } else if addr < 0xC000 {
            if even {
                self.mirroring_mode = value & 1;
            }
        } else if addr < 0xE000 {
            if even {
                self.irq_latch = value;
            } else {
                self.irq_reload = true;
                self.irq_counter = 0;
            }
        } else if even {
            self.irq_enabled = false;
            self.irq_pending = false;
        } else {
            self.irq_enabled = true;
        }
    }

    /// The 1 KiB CHR bank behind PPU slot `s` (0..=7): R0 and R1 select 2
    /// KiB pairs, R2-R5 single banks; bit 7 of the bank select swaps the
    /// two pattern-table halves.
    pub open spec fn chr_bank_spec(&self, s: int) -> int {
        let slot = if (self.bank_select / 0x80) % 2 == 1 {
            (s + 4) % 8
        } else {
            s
        };
        if slot < 4 {
            let pair = if slot < 2 {
                self.r0
            } else {
                self.r1
            };
            (pair - pair % 2 + slot % 2) as int
        } else {
            reg_spec(*self, slot - 2) as int
        }
    }

    pub open spec fn chr_index_spec(&self, addr: u16, len: nat) -> int {
        wrap_index(self.chr_bank_spec((addr / 0x400) as int), 0x400, (addr % 0x400) as int, len as int)
    }

    pub fn chr_index(&self, addr: u16, len: usize) -> (r: usize)
        requires
            addr < 0x2000,
            len > 0,
        ensures
            r as int == self.chr_index_spec(addr, len as nat),
            r < len,
    {
        let s = addr / 0x400;
        let slot = if (self.bank_select / 0x80) % 2 == 1 {
            (s + 4) % 8
        } else {
            s
        };
        let bank: u8 = if slot < 4 {
            let pair = if slot < 2 {
                self.r0
            } else {
                self.r1
            };
            pair - pair % 2 + (slot % 2) as u8
        } else {
            self.reg((slot - 2) as u8)
        };
        bank_index(bank as usize, 0x400, (addr % 0x400) as usize, len)
    }

    /// Bit 0 of the mirroring register: vertical or horizontal.
    pub fn mirroring(&self) -> (r: Mirroring)
        ensures
            r == if self.mirroring_mode == 0 {
                Mirroring::Vertical
            } else {
                Mirroring::Horizontal
            },
    {
        if self.mirroring_mode == 0 {
            Mirroring::Vertical
        } else {
            Mirroring::Horizontal
        }
    }

    /// Watches one PPU address for A12 rises and clocks the counter.
    pub fn clock_scanline(&mut self, addr: u16)
        ensures
            *final(self) == mmc3_clock_spec(*old(self), addr),
    {
        let a12 = addr & 0x1000 != 0;
        if !self.last_a12 && a12 && self.a12_filter == 0 {
            self.a12_filter = 15;
            if self.irq_counter == 0 || self.irq_reload {
                self.irq_counter = self.irq_latch;
            } else {
                self.irq_counter = self.irq_counter - 1;
            }
            self.irq_reload = false;
            if self.irq_counter == 0 && self.irq_enabled {
                self.irq_pending = true;
            }
        }
        if self.a12_filter > 0 {
            self.a12_filter = self.a12_filter - 1;
        }
        self.last_a12 = a12;
    }

    pub fn get_state(&self) -> (r: MapperState)
        ensures
            r == (MapperState::Mapper4 { mmc3: *self }),
    {
        MapperState::Mapper4 { mmc3: *self }
    }

    pub fn set_state(&mut self, state: &MapperState)
        ensures
            *final(self) == match *state {
                MapperState::Mapper4 { mmc3 } => mmc3,
                _ => *old(self),
            },
    {
        if let MapperState::Mapper4 { mmc3 } = state {
            *self = *mmc3;
        }
    }
}

} // verus!
