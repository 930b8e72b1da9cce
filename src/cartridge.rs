//! Cartridges: the iNES image format, PRG/CHR memory and the mapper that
//! translates CPU and PPU addresses into it.
use vstd::prelude::*;

pub mod mapper1;
pub mod mapper4;
pub mod mapper5;
pub mod mapper9;
pub mod mappers;

use self::mapper1::{mmc1_write_spec, Mapper1};
use self::mapper4::{mmc3_clock_spec, mmc3_write_spec, Mapper4};
use self::mapper5::{mmc5_write_spec, Mapper5};
use self::mapper9::{mmc2_latch_spec, mmc2_write_spec, Mapper9};
use self::mappers::{Mapper0, Mapper11, Mapper2, Mapper3, Mapper7};

verus! {

#[derive(Clone, Copy, Debug, PartialEq, Eq, Structural)]
pub enum CartridgeError {
    /// The magic number is wrong, the image is shorter than its header
    /// says, or it declares no PRG-ROM.
    InvalidHeader,
    /// The header names a mapper outside the supported set.
    UnsupportedMapper(u8),
    /// The image could not be read.
    IoError,
}

#[derive(Clone, Copy, Debug, PartialEq, Eq, Structural)]
pub enum Mirroring {
    Horizontal,
    Vertical,
    FourScreen,
    SingleScreenLow,
    SingleScreenHigh,
}

/// The registers of a mapper, as saved and restored.
#[derive(Clone, Copy, Debug, PartialEq, Eq, Structural)]
pub enum MapperState {
    Mapper0,
    Mapper1 {
        shift_register: u8,
        shift_count: u8,
        control: u8,
        chr_bank0: u8,
        chr_bank1: u8,
        prg_bank: u8,
    },
    Mapper2 { prg_bank: u8 },
    Mapper3 { chr_bank: u8 },
    Mapper4 { mmc3: Mapper4 },
    Mapper5 { mmc5: Mapper5 },
    Mapper9 { mmc2: Mapper9 },
    Mapper7 { prg_bank: u8, mirroring_mode: u8 },
    Mapper11 { prg_bank: u8, chr_bank: u8 },
    Other,
}

/// The mapper of a cartridge, one variant per board family.
#[derive(Clone, Copy, Debug, PartialEq, Eq, Structural)]
pub enum MapperKind {
    Nrom(Mapper0),
    Mmc1(Mapper1),
    Uxrom(Mapper2),
    Cnrom(Mapper3),
    Mmc3(Mapper4),
    Mmc5(Mapper5),
    Mmc2(Mapper9),
    Axrom(Mapper7),
    /// Color Dreams (11) and GxROM (66).
    Discrete(Mapper11),
}

/// `(bank * size + offset) % len`: a bank index taken modulo the banks
/// present, and an offset inside the bank.
pub open spec fn wrap_index(bank: int, size: int, offset: int, len: int) -> int {
    (bank * size + offset) % len
}

/// The mapper numbers this library runs.
pub open spec fn supported_mapper(n: u8) -> bool {
    n == 0 || n == 1 || n == 2 || n == 3 || n == 4 || n == 5 || n == 7 || n == 9 || n == 11 || n == 66
}

/// Whether a mapper's register writes see the ROM byte under the address
/// (the written value is ANDed with it).
pub open spec fn has_bus_conflicts(k: MapperKind) -> bool {
    match k {
        MapperKind::Uxrom(_) | MapperKind::Cnrom(_) | MapperKind::Axrom(_)
        | MapperKind::Discrete(_) => true,
        _ => false,
    }
}

/// The mapper after a register write of `value` at `addr`.
pub open spec fn mapper_write_spec(k: MapperKind, addr: u16, value: u8) -> MapperKind {
    if let MapperKind::Mmc5(m) = k {
        if 0x5000 <= addr < 0x5C00 {
            MapperKind::Mmc5(mmc5_write_spec(m, addr, value))
        } else {
            k
        }
    } else if addr < 0x8000 {
        k
    } else {
        match k {
            MapperKind::Nrom(m) => k,
            MapperKind::Mmc1(m) => MapperKind::Mmc1(mmc1_write_spec(m, addr, value)),
            MapperKind::Uxrom(m) => MapperKind::Uxrom(Mapper2 { prg_bank: value & 0x0F }),
            MapperKind::Cnrom(m) => MapperKind::Cnrom(Mapper3 { chr_bank: value & 0x03 }),
            MapperKind::Mmc3(m) => MapperKind::Mmc3(mmc3_write_spec(m, addr, value)),
            MapperKind::Mmc2(m) => MapperKind::Mmc2(mmc2_write_spec(m, addr, value)),
            MapperKind::Mmc5(m) => k,
            MapperKind::Axrom(m) => MapperKind::Axrom(
                Mapper7 { prg_bank: value & 0x07, mirroring_mode: (value >> 4u8) & 1 },
            ),
            MapperKind::Discrete(m) => MapperKind::Discrete(
                if m.gxrom {
                    Mapper11 { prg_bank: (value >> 4u8) & 0x03, chr_bank: value & 0x03, gxrom: true }
                } else {
                    Mapper11 {
                        prg_bank: value & 0x03,
                        chr_bank: (value >> 4u8) & 0x0F,
                        gxrom: false,
                    }
                },
            ),
        }
    }
}

/// The index into PRG-ROM of CPU address `addr` (0x8000 and up).
pub open spec fn prg_index_of(k: MapperKind, addr: u16, len: nat) -> int {
    match k {
        MapperKind::Nrom(m) => m.prg_index_spec(addr, len),
        MapperKind::Mmc1(m) => m.prg_index_spec(addr, len),
        MapperKind::Uxrom(m) => m.prg_index_spec(addr, len),
        MapperKind::Cnrom(m) => m.prg_index_spec(addr, len),
        MapperKind::Mmc3(m) => m.prg_index_spec(addr, len),
        MapperKind::Mmc2(m) => m.prg_index_spec(addr, len),
        MapperKind::Mmc5(m) => m.prg_index_spec(addr, len),
        MapperKind::Axrom(m) => m.prg_index_spec(addr, len),
        MapperKind::Discrete(m) => m.prg_index_spec(addr, len),
    }
}

/// Where CPU address `addr` lands in PRG-RAM, if it does: 0x6000..=0x7FFF
/// (through the MMC5 RAM bank register), and MMC5 windows mapped to RAM.
pub open spec fn prg_ram_index_of(k: MapperKind, addr: u16) -> Option<int> {
    if let MapperKind::Mmc5(m) = k {
        if 0x6000 <= addr < 0x8000 {
            Some(m.prg_ram_bank % 8 * 0x2000 + (addr - 0x6000))
        } else if addr >= 0x8000 && !m.prg_is_rom(addr) {
            Some(m.prg_ram_index_spec(addr))
        } else {
            None
        }
    } else if 0x6000 <= addr < 0x8000 {
        Some(addr - 0x6000)
    } else {
        None
    }
}

/// The index into CHR memory of PPU address `addr` (below 0x2000).
pub open spec fn chr_index_of(k: MapperKind, addr: u16, len: nat) -> int {
    match k {
        MapperKind::Nrom(m) => m.chr_index_spec(addr, len),
        MapperKind::Mmc1(m) => m.chr_index_spec(addr, len),
        MapperKind::Uxrom(m) => m.chr_index_spec(addr, len),
        MapperKind::Cnrom(m) => m.chr_index_spec(addr, len),
        MapperKind::Mmc3(m) => m.chr_index_spec(addr, len),
        MapperKind::Mmc2(m) => m.chr_index_spec(addr, len),
        MapperKind::Mmc5(m) => m.chr_index_spec(addr, len),
        MapperKind::Axrom(m) => m.chr_index_spec(addr, len),
        MapperKind::Discrete(m) => m.chr_index_spec(addr, len),
    }
}

/// The mapper number of each board family.
pub open spec fn mapper_number_of(k: MapperKind) -> u8 {
    match k {
        MapperKind::Nrom(_) => 0,
        MapperKind::Mmc1(_) => 1,
        MapperKind::Uxrom(_) => 2,
        MapperKind::Cnrom(_) => 3,
        MapperKind::Mmc3(_) => 4,
        MapperKind::Mmc2(_) => 9,
        MapperKind::Mmc5(_) => 5,
        MapperKind::Axrom(_) => 7,
        MapperKind::Discrete(m) => if m.gxrom {
            66
        } else {
            11
        },
    }
}

/// The power-on mapper for a supported mapper number.
pub open spec fn initial_mapper(n: u8) -> MapperKind {
    if n == 0 {
        MapperKind::Nrom(Mapper0 {  })
    } else if n == 1 {
        MapperKind::Mmc1(
            Mapper1 {
                shift_register: 0x10,
                shift_count: 0,
                control: 0x0C,
                chr_bank0: 0,
                chr_bank1: 0,
                prg_bank: 0,
            },
        )
    } else if n == 2 {
        MapperKind::Uxrom(Mapper2 { prg_bank: 0 })
    } else if n == 3 {
        MapperKind::Cnrom(Mapper3 { chr_bank: 0 })
    } else if n == 4 {
        MapperKind::Mmc3(
            Mapper4 {
                bank_select: 0,
                r0: 0,
                r1: 0,
                r2: 0,
                r3: 0,
                r4: 0,
                r5: 0,
                r6: 0,
                r7: 0,
                mirroring_mode: 0,
                irq_enabled: false,
                irq_counter: 0,
                irq_latch: 0,
                irq_reload: false,
                irq_pending: false,
                last_a12: false,
                a12_filter: 0,
            },
        )
    } else if n == 5 {
        MapperKind::Mmc5(
            Mapper5 {
                prg_mode: 3,
                chr_mode: 0,
                exram_mode: 0,
                nametable_mapping: 0,
                fill_tile: 0,
                fill_attr: 0,
                prg_ram_bank: 0,
                prg0: 0,
                prg1: 0,
                prg2: 0,
                prg3: 0xFF,
                chr0: 0,
                chr1: 0,
                chr2: 0,
                chr3: 0,
                chr4: 0,
                chr5: 0,
                chr6: 0,
                chr7: 0,
                irq_compare: 0,
                irq_enabled: false,
                irq_pending: false,
            },
        )
    } else if n == 7 {
        MapperKind::Axrom(Mapper7 { prg_bank: 0, mirroring_mode: 0 })
    } else if n == 9 {
        MapperKind::Mmc2(
            Mapper9 {
                prg_bank: 0,
                chr0_fd: 0,
                chr0_fe: 0,
                chr1_fd: 0,
                chr1_fe: 0,
                latch0_fe: false,
                latch1_fe: false,
                mirroring_mode: 0,
            },
        )
    } else {
        MapperKind::Discrete(Mapper11 { prg_bank: 0, chr_bank: 0, gxrom: n == 66 })
    }
}

#[derive(Debug)]
pub struct Cartridge {
    pub prg_rom: Vec<u8>,
    /// CHR-ROM, or 8 KiB of CHR-RAM when the image holds none.
    pub chr: Vec<u8>,
    pub chr_is_ram: bool,
    /// PRG-RAM: the first 8 KiB sit at 0x6000..=0x7FFF; MMC5 banks all
    /// 64 KiB.
    pub prg_ram: Vec<u8>,
    /// The 1 KiB of MMC5 extended RAM.
    pub exram: Vec<u8>,
    pub mapper: MapperKind,
    pub header_mirroring: Mirroring,
}

// ---- iNES header fields ----

/// The "NES\x1A" magic at the start of the image.
pub open spec fn has_magic(d: Seq<u8>) -> bool {
    d.len() >= 16 && d[0] == 0x4E && d[1] == 0x45 && d[2] == 0x53 && d[3] == 0x1A
}

pub open spec fn ines_prg_start(d: Seq<u8>) -> int {
    if d[6] & 0x04 != 0 {
        528int
    } else {
        16int
    }
}

pub open spec fn ines_prg_len(d: Seq<u8>) -> int {
    d[4] * 0x4000
}

pub open spec fn ines_chr_len(d: Seq<u8>) -> int {
    d[5] * 0x2000
}

/// Mapper number: low nibble from byte 6's high nibble, high nibble from
/// byte 7's high nibble.
pub open spec fn ines_mapper(d: Seq<u8>) -> u8 {
    (d[6] >> 4u8) | (d[7] & 0xF0)
}

pub open spec fn ines_mirroring(d: Seq<u8>) -> Mirroring {
    if d[6] & 0x08 != 0 {
        Mirroring::FourScreen
    } else if d[6] & 0x01 != 0 {
        Mirroring::Vertical
    } else {
        Mirroring::Horizontal
    }
}

/// The header is well formed and the image holds all it declares.
pub open spec fn ines_complete(d: Seq<u8>) -> bool {
    &&& has_magic(d)
    &&& d[4] > 0
    &&& d.len() >= ines_prg_start(d) + ines_prg_len(d) + ines_chr_len(d)
}

/// What a CPU write of `value` at `addr` does to the cartridge: `c2` is
/// after it.
pub open spec fn cart_write_rel(c: Cartridge, addr: u16, value: u8, c2: Cartridge) -> bool {
    &&& (c2.wf())
    &&& (c2.prg_rom == c.prg_rom)
    &&& (c2.chr == c.chr)
    &&& (c2.chr_is_ram == c.chr_is_ram)
    &&& (c2.header_mirroring == c.header_mirroring)
    &&& (c2.prg_ram@ == match prg_ram_index_of(c.mapper, addr) {
                Some(i) => c.prg_ram@.update(i, value),
                None => c.prg_ram@,
            })
    &&& (c2.exram@ == match c.mapper {
                MapperKind::Mmc5(m) => if 0x5C00 <= addr < 0x6000 && m.exram_mode < 2 {
                    c.exram@.update(addr - 0x5C00, value)
                } else {
                    c.exram@
                },
                _ => c.exram@,
            })
    &&& (c2.mapper == mapper_write_spec(
                c.mapper,
                addr,
                if has_bus_conflicts(c.mapper) {
                    value & c.prg_byte(addr)
                } else {
                    value
                },
            ))
}

impl Cartridge {
    /// PRG-ROM is a whole number of 16 KiB banks, at most 255 of them; CHR
    /// memory is not empty; PRG-RAM is 64 KiB and extended RAM 1 KiB.
    pub open spec fn wf(&self) -> bool {
        &&& self.prg_rom@.len() >= 0x4000
        &&& self.prg_rom@.len() % 0x4000 == 0
        &&& self.prg_rom@.len() <= 0xFF * 0x4000
        &&& self.chr@.len() > 0
        &&& self.prg_ram@.len() == 0x10000
        &&& self.exram@.len() == 0x400
    }

    /// The byte the CPU reads at `addr` in 0x4020..=0xFFFF.
    pub open spec fn prg_byte(&self, addr: u16) -> u8 {
        if let Some(i) = prg_ram_index_of(self.mapper, addr) {
            self.prg_ram@[i]
        } else if addr >= 0x8000 {
            self.prg_rom@[prg_index_of(self.mapper, addr, self.prg_rom@.len())]
        } else if let MapperKind::Mmc5(m) = self.mapper {
            if 0x5C00 <= addr < 0x6000 && m.exram_mode < 2 {
                self.exram@[addr - 0x5C00]
            } else {
                0
            }
        } else {
            0
        }
    }

    /// The byte the PPU reads at `addr` in 0x0000..=0x1FFF.
    pub open spec fn chr_byte(&self, addr: u16) -> u8 {
        if addr < 0x2000 {
            self.chr@[chr_index_of(self.mapper, addr, self.chr@.len())]
        } else {
            0
        }
    }

    /// Parses an iNES image: a 16-byte header, an optional 512-byte
    /// trainer (skipped), PRG-ROM, then CHR-ROM. A header declaring no
    /// CHR-ROM gets 8 KiB of CHR-RAM.
    pub fn from_ines(data: &Vec<u8>) -> (r: Result<Cartridge, CartridgeError>)
        ensures
            !ines_complete(data@) ==> r == Err::<Cartridge, CartridgeError>(
                CartridgeError::InvalidHeader,
            ),
            ines_complete(data@) && !supported_mapper(ines_mapper(data@)) ==> r == Err::<
                Cartridge,
                CartridgeError,
            >(CartridgeError::UnsupportedMapper(ines_mapper(data@))),
            ines_complete(data@) && supported_mapper(ines_mapper(data@)) ==> r is Ok,
            r matches Ok(c) ==> {
                let d = data@;
                let start = ines_prg_start(d);
                let prg_end = start + ines_prg_len(d);
                &&& c.wf()
                &&& c.prg_rom@ == d.subrange(start, prg_end)
                &&& c.chr_is_ram == (d[5] == 0)
                &&& (d[5] == 0 ==> c.chr@ == Seq::new(0x2000, |i: int| 0u8))
                &&& (d[5] != 0 ==> c.chr@ == d.subrange(prg_end, prg_end + ines_chr_len(d)))
                &&& c.prg_ram@ == Seq::new(0x10000, |i: int| 0u8)
                &&& c.exram@ == Seq::new(0x400, |i: int| 0u8)
                &&& c.header_mirroring == ines_mirroring(d)
                &&& c.mapper == initial_mapper(ines_mapper(d))
                &&& mapper_number_of(c.mapper) == ines_mapper(d)
            },
    {
        if data.len() < 16 || data[0] != 0x4E || data[1] != 0x45 || data[2] != 0x53 || data[3]
            != 0x1A || data[4] == 0 {
            return Err(CartridgeError::InvalidHeader);
        }
        let prg_start: usize = if data[6] & 0x04 != 0 {
            16 + 512
        } else {
            16
        };
        let prg_len = data[4] as usize * 0x4000;
        let chr_len = data[5] as usize * 0x2000;
        if data.len() < prg_start + prg_len + chr_len {
            return Err(CartridgeError::InvalidHeader);
        }
        let mapper_num = (data[6] >> 4) | (data[7] & 0xF0);
        let mapper = if mapper_num == 0 {
            MapperKind::Nrom(Mapper0::new())
        } else if mapper_num == 1 {
            MapperKind::Mmc1(Mapper1::new())
        } else if mapper_num == 2 {
            MapperKind::Uxrom(Mapper2::new())
        } else if mapper_num == 3 {
            MapperKind::Cnrom(Mapper3::new())
        } else if mapper_num == 4 {
            MapperKind::Mmc3(Mapper4::new())
        } else if mapper_num == 5 {
            MapperKind::Mmc5(Mapper5::new())
        } else if mapper_num == 7 {
            MapperKind::Axrom(Mapper7::new())
        } else if mapper_num == 9 {
            MapperKind::Mmc2(Mapper9::new())
        } else if mapper_num == 11 {
            MapperKind::Discrete(Mapper11::new())
        } else if mapper_num == 66 {
            MapperKind::Discrete(Mapper11::new_gxrom())
        } else {
            return Err(CartridgeError::UnsupportedMapper(mapper_num));
        };
        let mirroring = if data[6] & 0x08 != 0 {
            Mirroring::FourScreen
        } else if data[6] & 0x01 != 0 {
            Mirroring::Vertical
        } else {
            Mirroring::Horizontal
        };
        let prg_rom = copy_range(data, prg_start, prg_len);
        let chr_is_ram = chr_len == 0;
        let chr = if chr_is_ram {
            zeroed(0x2000)
        } else {
            copy_range(data, prg_start + prg_len, chr_len)
        };
        let prg_ram = zeroed(0x10000);
        let exram = zeroed(0x400);
        Ok(Cartridge { prg_rom, chr, chr_is_ram, prg_ram, exram, mapper, header_mirroring: mirroring })
    }

    /// Where a CPU access at `addr` lands in PRG-RAM, if it does.
    fn prg_ram_index(&self, addr: u16) -> (r: Option<usize>)
        requires
            self.wf(),
        ensures
            r matches Some(i) ==> prg_ram_index_of(self.mapper, addr) == Some(i as int) && i < 0x10000,
            r is None ==> prg_ram_index_of(self.mapper, addr) is None,
    {
        if let MapperKind::Mmc5(m) = &self.mapper {
            if 0x6000 <= addr && addr < 0x8000 {
                Some((m.prg_ram_bank % 8) as usize * 0x2000 + (addr - 0x6000) as usize)
            } else if addr >= 0x8000 {
                let (rom, i) = m.get_prg_bank(addr, self.prg_rom.len());
                if rom {
                    None
                } else {
                    Some(i)
                }
            } else {
                None
            }
        } else if 0x6000 <= addr && addr < 0x8000 {
            Some((addr - 0x6000) as usize)
        } else {
            None
        }
    }

    /// The byte the CPU reads at `addr`: PRG-RAM at 0x6000..=0x7FFF,
    /// PRG-ROM (or MMC5 RAM) through the mapper from 0x8000, MMC5 extended
    /// RAM at 0x5C00..=0x5FFF, 0 elsewhere.
    pub fn read_prg(&self, addr: u16) -> (r: u8)
        requires
            self.wf(),
        ensures
            r == self.prg_byte(addr),
    {
        if let Some(i) = self.prg_ram_index(addr) {
            self.prg_ram[i]
        } else if addr >= 0x8000 {
            match &self.mapper {
                MapperKind::Nrom(m) => m.read_prg(addr, &self.prg_rom),
                MapperKind::Mmc1(m) => m.read_prg(addr, &self.prg_rom),
                MapperKind::Uxrom(m) => m.read_prg(addr, &self.prg_rom),
                MapperKind::Cnrom(m) => m.read_prg(addr, &self.prg_rom),
            MapperKind::Mmc3(m) => m.read_prg(addr, &self.prg_rom),
            MapperKind::Mmc2(m) => m.read_prg(addr, &self.prg_rom),
                MapperKind::Mmc5(m) => {
                    let (_, i) = m.get_prg_bank(addr, self.prg_rom.len());
                    self.prg_rom[i]
                },
                MapperKind::Axrom(m) => m.read_prg(addr, &self.prg_rom),
                MapperKind::Discrete(m) => m.read_prg(addr, &self.prg_rom),
            }
        } else if let MapperKind::Mmc5(m) = &self.mapper {
            if 0x5C00 <= addr && addr < 0x6000 && m.exram_mode < 2 {
                self.exram[(addr - 0x5C00) as usize]
            } else {
                0
            }
        } else {
            0
        }
    }

    /// A CPU write: PRG-RAM at 0x6000..=0x7FFF; from 0x8000 a mapper
    /// register write, where boards with bus conflicts see the value ANDed
    /// with the ROM byte under the address.
    pub fn write_prg(&mut self, addr: u16, value: u8)
        requires
            old(self).wf(),
        ensures
            cart_write_rel(*old(self), addr, value, *final(self)),

    {
        if let Some(i) = self.prg_ram_index(addr) {
            self.prg_ram.set(i, value);
        } else if let MapperKind::Mmc5(m) = &mut self.mapper {
            if 0x5000 <= addr && addr < 0x5C00 {
                m.write_prg(addr, value);
            } else if 0x5C00 <= addr && addr < 0x6000 && m.exram_mode < 2 {
                self.exram.set((addr - 0x5C00) as usize, value);
            }
        } else if addr >= 0x8000 {
            let conflicts = match &self.mapper {
                MapperKind::Nrom(_) | MapperKind::Mmc1(_) | MapperKind::Mmc3(_) | MapperKind::Mmc2(_) | MapperKind::Mmc5(_) => false,
                _ => true,
            };
            let v = if conflicts {
                value & self.read_prg(addr)
            } else {
                value
            };
            match &mut self.mapper {
                MapperKind::Nrom(m) => m.write_prg(addr, v),
                MapperKind::Mmc1(m) => m.write_prg(addr, v),
                MapperKind::Uxrom(m) => m.write_prg(addr, v),
                MapperKind::Cnrom(m) => m.write_prg(addr, v),
            MapperKind::Mmc3(m) => m.write_prg(addr, v),
            MapperKind::Mmc2(m) => m.write_prg(addr, v),
            MapperKind::Mmc5(_) => {},
                MapperKind::Axrom(m) => m.write_prg(addr, v),
                MapperKind::Discrete(m) => m.write_prg(addr, v),
            }
        }
    }

    /// The index into CHR memory of PPU address `addr`.
    fn chr_index(&self, addr: u16) -> (r: usize)
        requires
            self.wf(),
            addr < 0x2000,
        ensures
            r as int == chr_index_of(self.mapper, addr, self.chr@.len()),
            r < self.chr@.len(),
    {
        let len = self.chr.len();
        match &self.mapper {
            MapperKind::Nrom(m) => m.chr_index(addr, len),
            MapperKind::Mmc1(m) => m.chr_index(addr, len),
            MapperKind::Uxrom(m) => m.chr_index(addr, len),
            MapperKind::Cnrom(m) => m.chr_index(addr, len),
            MapperKind::Mmc3(m) => m.chr_index(addr, len),
            MapperKind::Mmc2(m) => m.chr_index(addr, len),
            MapperKind::Mmc5(m) => m.chr_index(addr, len),
            MapperKind::Axrom(m) => m.chr_index(addr, len),
            MapperKind::Discrete(m) => m.chr_index(addr, len),
        }
    }

    /// The byte the PPU reads at `addr`; 0 above 0x1FFF.
    pub fn read_chr(&self, addr: u16) -> (r: u8)
        requires
            self.wf(),
        ensures
            r == self.chr_byte(addr),
    {
        if addr < 0x2000 {
            self.chr[self.chr_index(addr)]
        } else {
            0
        }
    }

    /// A PPU write: stored when CHR is RAM, ignored when it is ROM.
    pub fn write_chr(&mut self, addr: u16, value: u8)
        requires
            old(self).wf(),
        ensures
            final(self).wf(),
            final(self).chr@ == if old(self).chr_is_ram && addr < 0x2000 {
                old(self).chr@.update(
                    chr_index_of(old(self).mapper, addr, old(self).chr@.len()),
                    value,
                )
            } else {
                old(self).chr@
            },
            final(self).prg_rom == old(self).prg_rom,
            final(self).prg_ram == old(self).prg_ram,
            final(self).chr_is_ram == old(self).chr_is_ram,
            final(self).mapper == old(self).mapper,
            final(self).header_mirroring == old(self).header_mirroring,
    {
        if self.chr_is_ram && addr < 0x2000 {
            let i = self.chr_index(addr);
            self.chr.set(i, value);
        }
    }

    /// The nametable layout: chosen by the mapper for MMC1 and AxROM, by
    /// the header otherwise.
    pub open spec fn mirroring_spec(&self) -> Mirroring {
        match self.mapper {
                MapperKind::Mmc1(m) => match m.control % 4 {
                    0 => Mirroring::SingleScreenLow,
                    1 => Mirroring::SingleScreenHigh,
                    2 => Mirroring::Vertical,
                    _ => Mirroring::Horizontal,
                },
                MapperKind::Axrom(m) => if m.mirroring_mode == 0 {
                    Mirroring::SingleScreenLow
                } else {
                    Mirroring::SingleScreenHigh
                },
                MapperKind::Mmc3(m) => if self.header_mirroring == Mirroring::FourScreen {
                    Mirroring::FourScreen
                } else if m.mirroring_mode == 0 {
                    Mirroring::Vertical
                } else {
                    Mirroring::Horizontal
                },
                MapperKind::Mmc2(m) => if m.mirroring_mode == 0 {
                    Mirroring::Vertical
                } else {
                    Mirroring::Horizontal
                },
                MapperKind::Mmc5(m) => if m.nametable_mapping == 0x44 {
                    Mirroring::Vertical
                } else if m.nametable_mapping == 0x50 {
                    Mirroring::Horizontal
                } else if m.nametable_mapping == 0x00 {
                    Mirroring::SingleScreenLow
                } else if m.nametable_mapping == 0x55 {
                    Mirroring::SingleScreenHigh
                } else {
                    self.header_mirroring
                },
                _ => self.header_mirroring,
            }
    }

    /// The nametable layout in use.
    pub fn mirroring(&self) -> (r: Mirroring)
        ensures
            r == self.mirroring_spec(),
    {
        match &self.mapper {
            MapperKind::Mmc1(m) => m.mirroring(),
            MapperKind::Axrom(m) => m.mirroring(),
            MapperKind::Mmc3(m) => if self.header_mirroring == Mirroring::FourScreen {
                Mirroring::FourScreen
            } else {
                m.mirroring()
            },
            MapperKind::Mmc2(m) => m.mirroring(),
            MapperKind::Mmc5(m) => m.mirroring(self.header_mirroring),
            _ => self.header_mirroring,
        }
    }

    /// Reports a PPU address to the mapper: MMC3 clocks its scanline
    /// counter on rising edges of A12, MMC2 updates its CHR latches.
    pub fn clock_ppu_address(&mut self, addr: u16)
        requires
            old(self).wf(),
        ensures
            final(self).wf(),
            final(self).mapper == match old(self).mapper {
                MapperKind::Mmc3(m) => MapperKind::Mmc3(mmc3_clock_spec(m, addr)),
                MapperKind::Mmc2(m) => MapperKind::Mmc2(mmc2_latch_spec(m, addr)),
                _ => old(self).mapper,
            },
            final(self).prg_rom == old(self).prg_rom && final(self).chr == old(self).chr,
            final(self).prg_ram == old(self).prg_ram && final(self).chr_is_ram == old(self).chr_is_ram,
            final(self).header_mirroring == old(self).header_mirroring,
    {
        match &mut self.mapper {
            MapperKind::Mmc3(m) => m.clock_scanline(addr),
            MapperKind::Mmc2(m) => m.update_chr_latch(addr),
            _ => {},
        }
    }

    /// Whether the mapper holds its IRQ line asserted.
    pub open spec fn irq_spec(&self) -> bool {
        match self.mapper {
            MapperKind::Mmc3(m) => m.irq_pending,
            MapperKind::Mmc5(m) => m.irq_pending,
            _ => false,
        }
    }

    /// Whether the mapper holds its IRQ line asserted.
    pub fn irq_pending(&self) -> (r: bool)
        ensures
            r == match self.mapper {
                MapperKind::Mmc3(m) => m.irq_pending,
                MapperKind::Mmc5(m) => m.irq_pending,
                _ => false,
            },
    {
        match &self.mapper {
            MapperKind::Mmc3(m) => m.irq_pending,
            MapperKind::Mmc5(m) => m.irq_pending,
            _ => false,
        }
    }

    /// The iNES mapper number of the board.
    pub fn get_mapper_number(&self) -> (r: u8)
        ensures
            r == mapper_number_of(self.mapper),
    {
        match &self.mapper {
            MapperKind::Nrom(_) => 0,
            MapperKind::Mmc1(_) => 1,
            MapperKind::Uxrom(_) => 2,
            MapperKind::Cnrom(_) => 3,
            MapperKind::Mmc3(_) => 4,
            MapperKind::Mmc2(_) => 9,
            MapperKind::Mmc5(_) => 5,
            MapperKind::Axrom(_) => 7,
            MapperKind::Discrete(m) => if m.gxrom {
                66
            } else {
                11
            },
        }
    }

    /// The mapper's registers.
    pub fn get_mapper_state(&self) -> (r: MapperState)
        ensures
            r == mapper_state_of(self.mapper),
    {
        match &self.mapper {
            MapperKind::Nrom(m) => m.get_state(),
            MapperKind::Mmc1(m) => m.get_state(),
            MapperKind::Uxrom(m) => m.get_state(),
            MapperKind::Cnrom(m) => m.get_state(),
            MapperKind::Mmc3(m) => m.get_state(),
            MapperKind::Mmc2(m) => m.get_state(),
            MapperKind::Mmc5(m) => m.get_state(),
            MapperKind::Axrom(m) => m.get_state(),
            MapperKind::Discrete(m) => m.get_state(),
        }
    }

    /// Restores the mapper's registers from a state of the same board
    /// family; a state of another family changes nothing.
    pub fn set_mapper_state(&mut self, state: &MapperState)
        requires
            old(self).wf(),
        ensures
            final(self).wf(),
            final(self).prg_rom == old(self).prg_rom,
            final(self).chr == old(self).chr,
            final(self).prg_ram == old(self).prg_ram,
            final(self).chr_is_ram == old(self).chr_is_ram,
            final(self).header_mirroring == old(self).header_mirroring,
            mapper_state_of(old(self).mapper) == *state ==> final(self).mapper == old(self).mapper,
            mapper_number_of(final(self).mapper) == mapper_number_of(old(self).mapper),
            mapper_state_matches(old(self).mapper, *state) ==> mapper_state_of(final(self).mapper)
                == *state,
    {
        match &mut self.mapper {
            MapperKind::Nrom(_) => {},
            MapperKind::Mmc1(m) => m.set_state(state),
            MapperKind::Uxrom(m) => m.set_state(state),
            MapperKind::Cnrom(m) => m.set_state(state),
            MapperKind::Mmc3(m) => m.set_state(state),
            MapperKind::Mmc2(m) => m.set_state(state),
            MapperKind::Mmc5(m) => m.set_state(state),
            MapperKind::Axrom(m) => m.set_state(state),
            MapperKind::Discrete(m) => m.set_state(state),
        }
    }
}

/// The saved registers of a mapper.
pub open spec fn mapper_state_of(k: MapperKind) -> MapperState {
    match k {
        MapperKind::Nrom(_) => MapperState::Mapper0,
        MapperKind::Mmc1(m) => MapperState::Mapper1 {
            shift_register: m.shift_register,
            shift_count: m.shift_count,
            control: m.control,
            chr_bank0: m.chr_bank0,
            chr_bank1: m.chr_bank1,
            prg_bank: m.prg_bank,
        },
        MapperKind::Uxrom(m) => MapperState::Mapper2 { prg_bank: m.prg_bank },
        MapperKind::Cnrom(m) => MapperState::Mapper3 { chr_bank: m.chr_bank },
        MapperKind::Mmc3(m) => MapperState::Mapper4 { mmc3: m },
        MapperKind::Mmc2(m) => MapperState::Mapper9 { mmc2: m },
        MapperKind::Mmc5(m) => MapperState::Mapper5 { mmc5: m },
        MapperKind::Axrom(m) => MapperState::Mapper7 {
            prg_bank: m.prg_bank,
            mirroring_mode: m.mirroring_mode,
        },
        MapperKind::Discrete(m) => MapperState::Mapper11 { prg_bank: m.prg_bank, chr_bank: m.chr_bank },
    }
}

/// Whether a saved state belongs to the board family of `k`.
pub open spec fn mapper_state_matches(k: MapperKind, s: MapperState) -> bool {
    match (k, s) {
        (MapperKind::Nrom(_), MapperState::Mapper0) => true,
        (MapperKind::Mmc1(_), MapperState::Mapper1 { .. }) => true,
        (MapperKind::Uxrom(_), MapperState::Mapper2 { .. }) => true,
        (MapperKind::Cnrom(_), MapperState::Mapper3 { .. }) => true,
        (MapperKind::Mmc3(_), MapperState::Mapper4 { .. }) => true,
        (MapperKind::Mmc2(_), MapperState::Mapper9 { .. }) => true,
        (MapperKind::Mmc5(_), MapperState::Mapper5 { .. }) => true,
        (MapperKind::Axrom(_), MapperState::Mapper7 { .. }) => true,
        (MapperKind::Discrete(_), MapperState::Mapper11 { .. }) => true,
        _ => false,
    }
}

/// `len` bytes of `data` from `start`.
fn copy_range(data: &Vec<u8>, start: usize, len: usize) -> (r: Vec<u8>)
    requires
        start + len <= data@.len(),
    ensures
        r@ == data@.subrange(start as int, start + len),
{
    let n = data.len();
    let end = start + len;
    let mut r: Vec<u8> = Vec::with_capacity(len);
    let mut j: usize = start;
    while j < end
        invariant
            end == start + len,
            end <= data@.len(),
            start <= j <= end,
            r@ == data@.subrange(start as int, j as int),
        decreases end - j,
    {
        r.push(data[j]);
        j = j + 1;
        assert(r@ =~= data@.subrange(start as int, j as int));
    }
    r
}

/// `len` zero bytes.
fn zeroed(len: usize) -> (r: Vec<u8>)
    ensures
        r@ == Seq::new(len as nat, |i: int| 0u8),
{
    let mut r: Vec<u8> = Vec::with_capacity(len);
    let mut i: usize = 0;
    while i < len
        invariant
            i <= len,
            r@ == Seq::new(i as nat, |j: int| 0u8),
        decreases len - i,
    {
        r.push(0);
        i = i + 1;
        assert(r@ =~= Seq::new(i as nat, |j: int| 0u8));
    }
    r
}

} // verus!

verus! {

/// An NROM cartridge with one 16 KiB PRG bank shows the same bytes at
/// 0x8000..=0xBFFF and at 0xC000..=0xFFFF.
pub proof fn lemma_nrom_16k_mirror(c: Cartridge, addr: u16)
    requires
        c.wf(),
        c.mapper is Nrom,
        c.prg_rom@.len() == 0x4000,
        0x8000 <= addr <= 0xBFFF,
    ensures
        c.prg_byte(addr) == c.prg_byte((addr + 0x4000) as u16),
{
}

/// On a cartridge with CHR-RAM, a PPU write at `addr` below 0x2000 is read
/// back unchanged: `c2` is `c` as `write_chr` leaves it.
pub proof fn lemma_chr_ram_round_trip(c: Cartridge, c2: Cartridge, addr: u16, value: u8)
    requires
        c.wf(),
        c.chr_is_ram,
        addr < 0x2000,
        c2.mapper == c.mapper,
        c2.chr@ == c.chr@.update(chr_index_of(c.mapper, addr, c.chr@.len()), value),
    ensures
        c2.chr_byte(addr) == value,
{
    let len = c.chr@.len() as int;
    let i = chr_index_of(c.mapper, addr, c.chr@.len());
    assert(0 <= i < len) by {
        match c.mapper {
            MapperKind::Nrom(m) => {},
            MapperKind::Mmc1(m) => {},
            MapperKind::Uxrom(m) => {},
            MapperKind::Cnrom(m) => {},
            MapperKind::Mmc3(m) => {},
            MapperKind::Mmc2(m) => {},
            MapperKind::Mmc5(m) => {},
            MapperKind::Axrom(m) => {},
            MapperKind::Discrete(m) => {},
        }
    }
}

/// Restoring the state a mapper reports leaves the mapper as it was.
pub proof fn lemma_mapper_state_round_trip(k: MapperKind)
    ensures
        mapper_state_matches(k, mapper_state_of(k)),
{
}

} // verus!
