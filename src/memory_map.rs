//! The CPU address map and the PPU's nametable and palette address
//! folding, with the internal RAM they lead to.
use vstd::prelude::*;

use crate::cartridge::Mirroring;
use crate::ppu::Ppu;

verus! {

/// Where a CPU address goes.
#[derive(Clone, Copy, Debug, PartialEq, Eq, Structural)]
pub enum CpuTarget {
    /// Internal RAM, at this index of its 2 KiB.
    Ram(u16),
    /// PPU register 0..=7.
    PpuRegister(u8),
    /// An APU register (0x4000..=0x4013, 0x4015; 0x4017 on write).
    Apu(u16),
    /// The OAM-DMA trigger at 0x4014.
    OamDma,
    /// 0x4016: controller strobe on write, controller 1 on read.
    Controller1,
    /// 0x4017: controller 2 on read, APU frame counter on write.
    Controller2,
    /// 0x4018..=0x401F: disabled, reads give 0.
    Disabled,
    /// 0x4020..=0xFFFF: the cartridge.
    Cartridge,
}

/// The CPU memory map.
pub open spec fn cpu_target_spec(addr: u16) -> CpuTarget {
    if addr < 0x2000 {
        CpuTarget::Ram(addr % 0x800)
    } else if addr < 0x4000 {
        CpuTarget::PpuRegister((addr % 8) as u8)
    } else if addr == 0x4014 {
        CpuTarget::OamDma
    } else if addr == 0x4016 {
        CpuTarget::Controller1
    } else if addr == 0x4017 {
        CpuTarget::Controller2
    } else if addr < 0x4018 {
        CpuTarget::Apu(addr)
    } else if addr < 0x4020 {
        CpuTarget::Disabled
    } else {
        CpuTarget::Cartridge
    }
}

/// Decodes a CPU address.
pub fn cpu_target(addr: u16) -> (r: CpuTarget)
    ensures
        r == cpu_target_spec(addr),
{
    if addr < 0x2000 {
        CpuTarget::Ram(addr % 0x800)
    } else if addr < 0x4000 {
        CpuTarget::PpuRegister((addr % 8) as u8)
    } else if addr == 0x4014 {
        CpuTarget::OamDma
    } else if addr == 0x4016 {
        CpuTarget::Controller1
    } else if addr == 0x4017 {
        CpuTarget::Controller2
    } else if addr < 0x4018 {
        CpuTarget::Apu(addr)
    } else if addr < 0x4020 {
        CpuTarget::Disabled
    } else {
        CpuTarget::Cartridge
    }
}

/// The 2 KiB of CPU RAM, mirrored through 0x0000..=0x1FFF.
pub struct InternalRam {
    pub bytes: Vec<u8>,
}

impl InternalRam {
    pub open spec fn wf(&self) -> bool {
        self.bytes@.len() == 0x800
    }

    /// Zero-filled RAM.
    pub fn new() -> (r: InternalRam)
        ensures
            r.wf(),
            r.bytes@ == Seq::new(0x800, |i: int| 0u8),
    {
        let mut bytes: Vec<u8> = Vec::with_capacity(0x800);
        let mut i: usize = 0;
        while i < 0x800
            invariant
                i <= 0x800,
                bytes@ == Seq::new(i as nat, |j: int| 0u8),
            decreases 0x800 - i,
        {
            bytes.push(0);
            i = i + 1;
            assert(bytes@ =~= Seq::new(i as nat, |j: int| 0u8));
        }
        InternalRam { bytes }
    }

    /// The byte at `addr` in 0x0000..=0x1FFF: the low 11 bits pick it.
    pub fn read(&self, addr: u16) -> (r: u8)
        requires
            self.wf(),
            addr < 0x2000,
        ensures
            r == self.bytes@[(addr % 0x800) as int],
    {
        self.bytes[(addr % 0x800) as usize]
    }

    /// Writes the byte at `addr` in 0x0000..=0x1FFF.
    pub fn write(&mut self, addr: u16, value: u8)
        requires
            old(self).wf(),
            addr < 0x2000,
        ensures
            final(self).wf(),
            final(self).bytes@ == old(self).bytes@.update((addr % 0x800) as int, value),
    {
        self.bytes.set((addr % 0x800) as usize, value);
    }
}

/// After a write at `w`, a read at any `r` with the same low 11 bits sees
/// the written byte.
pub proof fn lemma_ram_mirror_round_trip(ram: Seq<u8>, w: u16, r: u16, value: u8)
    requires
        ram.len() == 0x800,
        w < 0x2000,
        r < 0x2000,
        w % 0x800 == r % 0x800,
    ensures
        ram.update((w % 0x800) as int, value)[(r % 0x800) as int] == value,
        r % 0x800 == r & 0x07FF,
{
    assert(r % 0x800 == r & 0x07FF) by (bit_vector);
}

/// PPU registers repeat every 8 bytes through 0x2000..=0x3FFF.
pub proof fn lemma_ppu_registers_alias(addr: u16)
    requires
        0x2000 <= addr < 0x3FF8,
    ensures
        cpu_target_spec(addr) == cpu_target_spec((addr + 8) as u16),
        cpu_target_spec(addr) == CpuTarget::PpuRegister((addr % 8) as u8),
{
}

/// The palette RAM index of a PPU address in 0x3F00..=0x3FFF: the low five
/// bits, with 0x10, 0x14, 0x18 and 0x1C folded onto 0x00, 0x04, 0x08 and
/// 0x0C.
pub open spec fn palette_index_spec(addr: u16) -> int {
    let i = addr % 0x20;
    if i >= 0x10 && i % 4 == 0 {
        i - 0x10
    } else {
        i as int
    }
}

pub fn palette_index(addr: u16) -> (r: usize)
    ensures
        r as int == palette_index_spec(addr),
        r < 0x20,
{
    let i = (addr % 0x20) as usize;
    if i >= 0x10 && i % 4 == 0 {
        i - 0x10
    } else {
        i
    }
}

/// The four sprite-palette backdrop entries share storage with the
/// background ones sixteen bytes below, so reads and writes through
/// either address meet.
pub proof fn lemma_palette_backdrop_mirror(p: u16)
    requires
        p == 0x3F10 || p == 0x3F14 || p == 0x3F18 || p == 0x3F1C,
    ensures
        palette_index_spec(p) == palette_index_spec((p - 0x10) as u16),
{
}

/// The index into the 2 KiB of nametable RAM (4 KiB under four-screen
/// mirroring) of PPU address `addr` in 0x2000..=0x3EFF.
pub open spec fn nametable_index_spec(addr: u16, m: Mirroring) -> int {
    let a = (addr - 0x2000) % 0x1000;
    let table = a / 0x400;
    let offset = a % 0x400;
    match m {
        Mirroring::Horizontal => (table / 2) * 0x400 + offset,
        Mirroring::Vertical => (table % 2) * 0x400 + offset,
        Mirroring::SingleScreenLow => offset,
        Mirroring::SingleScreenHigh => 0x400 + offset,
        Mirroring::FourScreen => a,
    }
}

pub fn nametable_index(addr: u16, m: Mirroring) -> (r: usize)
    requires
        0x2000 <= addr,
    ensures
        r as int == nametable_index_spec(addr, m),
        r < 0x1000,
        m != Mirroring::FourScreen ==> r < 0x800,
{
    let a = ((addr - 0x2000) % 0x1000) as usize;
    let table = a / 0x400;
    let offset = a % 0x400;
    match m {
        Mirroring::Horizontal => (table / 2) * 0x400 + offset,
        Mirroring::Vertical => (table % 2) * 0x400 + offset,
        Mirroring::SingleScreenLow => offset,
        Mirroring::SingleScreenHigh => 0x400 + offset,
        Mirroring::FourScreen => a,
    }
}


/// The CPU cycles an OAM DMA stalls for: 513, or 514 when it starts on an
/// odd CPU cycle.
pub fn oam_dma_cycles(cpu_cycle: u64) -> (r: u32)
    ensures
        r == if cpu_cycle % 2 == 1 {
            514u32
        } else {
            513u32
        },
{
    if cpu_cycle % 2 == 1 {
        514
    } else {
        513
    }
}

/// OAM DMA from a page of CPU RAM (pages 0x00-0x1F, mirrored): the 256
/// bytes of the page go to OAM from OAMADDR on, wrapping.
pub fn oam_dma_from_ram(ram: &InternalRam, page: u8, ppu: &mut Ppu)
    requires
        ram.wf(),
        old(ppu).wf(),
        page < 0x20,
    ensures
        final(ppu).wf(),
        forall|i: int|
            0 <= i < 0x100 ==> #[trigger] final(ppu).oam@[(old(ppu).oam_addr + i) % 0x100]
                == ram.bytes@[(page * 0x100 + i) % 0x800],
        final(ppu).oam_addr == old(ppu).oam_addr,
        final(ppu).vram == old(ppu).vram && final(ppu).palette == old(ppu).palette,
{
    let start = ppu.oam_addr;
    let mut i: u16 = 0;
    while i < 0x100
        invariant
            ram.wf(),
            ppu.wf(),
            page < 0x20,
            i <= 0x100,
            ppu.oam_addr == start,
            start == old(ppu).oam_addr,
            ppu.vram == old(ppu).vram && ppu.palette == old(ppu).palette,
            forall|k: int|
                0 <= k < i ==> #[trigger] ppu.oam@[(start + k) % 0x100] == ram.bytes@[(page
                    * 0x100 + k) % 0x800],
        decreases 0x100 - i,
    {
        let addr = (page as u16) * 0x100 + i;
        let value = ram.read(addr);
        let slot = ((start as u16 + i) % 0x100) as u8;
        let ghost before = ppu.oam@;
        ppu.write_oam_byte(slot, value);
        assert forall|k: int| 0 <= k < i + 1 implies #[trigger] ppu.oam@[(start + k) % 0x100]
            == ram.bytes@[(page * 0x100 + k) % 0x800] by {
            if k < i {
                assert((start + k) % 0x100 != (start + i) % 0x100);
                assert(ppu.oam@[(start + k) % 0x100] == before[(start + k) % 0x100]);
            }
        }
        i = i + 1;
    }
}

} // verus!
