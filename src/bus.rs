//! The console: the CPU bus with its devices behind the address map, and
//! the clocking of CPU, PPU and APU in the 1:3:1 ratio.
use vstd::prelude::*;

use crate::apu::{apu_read_rel, apu_write_rel, step_spec, Apu};
use crate::cartridge::{cart_write_rel, Cartridge};
use crate::controller::{serial_read_spec, strobe_spec, ControllerPort};
use crate::cpu::{Cpu, CpuBus};
use crate::memory_map::{
    cpu_target, cpu_target_spec, oam_dma_cycles, oam_dma_from_ram, CpuTarget, InternalRam,
};
use crate::ppu::{ppu_read_rel, ppu_write_rel, Ppu};

verus! {

/// CPU cycles in one NTSC frame, the budget of `run_frame`.
pub const FRAME_CYCLES: u64 = 29780;

pub struct Bus {
    pub ram: InternalRam,
    pub ppu: Ppu,
    pub apu: Apu,
    pub cartridge: Cartridge,
    pub port1: ControllerPort,
    pub port2: ControllerPort,
    /// A page written to the OAM-DMA register and not yet copied.
    pub oam_dma_page: Option<u8>,
}

/// The devices other than `which` are as in `b`.
pub open spec fn others_same(a: &Bus, b: &Bus, which: int) -> bool {
    &&& which != 0 ==> a.ram == b.ram
    &&& which != 1 ==> a.ppu == b.ppu
    &&& which != 2 ==> a.apu == b.apu
    &&& which != 3 ==> a.cartridge == b.cartridge
    &&& which != 4 ==> a.port1 == b.port1
    &&& which != 5 ==> a.port2 == b.port2
    &&& a.oam_dma_page == b.oam_dma_page
}

/// What a CPU read at `addr` does: `r` is the value, `q` the bus after it.
/// The address map picks the device: RAM through its 2 KiB mirror, a PPU
/// register by the low three bits, APU status, a controller port's serial
/// read, the cartridge; the DMA trigger and the disabled range read 0.
/// Every other device is left as it was.
pub open spec fn bus_read_rel(b: Bus, addr: u16, r: u8, q: Bus) -> bool {
    &&& q.wf()
    &&& match cpu_target_spec(addr) {
        CpuTarget::Ram(i) => r == b.ram.bytes@[i as int] && others_same(&q, &b, -1),
        CpuTarget::PpuRegister(reg) => others_same(&q, &b, 1) && ppu_read_rel(
            b.ppu,
            reg,
            &b.cartridge,
            q.ppu,
            r,
        ),
        CpuTarget::Apu(a) => others_same(&q, &b, 2) && apu_read_rel(b.apu, a, q.apu, r),
        CpuTarget::Controller1 => others_same(&q, &b, 4) && (q.port1, r) == serial_read_spec(b.port1),
        CpuTarget::Controller2 => others_same(&q, &b, 5) && (q.port2, r) == serial_read_spec(b.port2),
        CpuTarget::Cartridge => r == b.cartridge.prg_byte(addr) && others_same(&q, &b, -1),
        _ => r == 0 && others_same(&q, &b, -1),
    }
}

/// What a CPU write of `value` at `addr` does: `q` is the bus after it.
/// RAM changes one byte of its 2 KiB; a PPU register (by the low three
/// bits) is written as `ppu_write_rel` says; APU registers (and the frame
/// counter at 0x4017) as `apu_write_rel` says; the DMA trigger latches
/// the page; 0x4016 strobes both ports; the cartridge as `cart_write_rel`
/// says. Every other device is left as it was.
pub open spec fn bus_write_rel(b: Bus, addr: u16, value: u8, q: Bus) -> bool {
    &&& q.wf()
    &&& match cpu_target_spec(addr) {
        CpuTarget::Ram(i) => q.ram.bytes@ == b.ram.bytes@.update(i as int, value) && others_same(
            &q,
            &b,
            0,
        ),
        CpuTarget::PpuRegister(reg) => ppu_write_rel(b.ppu, reg, value, b.cartridge, q.ppu, q.cartridge)
            && q.ram == b.ram && q.apu == b.apu && q.port1 == b.port1 && q.port2 == b.port2
            && q.oam_dma_page == b.oam_dma_page,
        CpuTarget::Apu(a) => others_same(&q, &b, 2) && apu_write_rel(b.apu, a, value, q.apu),
        CpuTarget::Controller2 => others_same(&q, &b, 2) && apu_write_rel(b.apu, addr, value, q.apu),
        CpuTarget::OamDma => q.oam_dma_page == Some(value) && q.ram == b.ram && q.ppu == b.ppu
            && q.apu == b.apu && q.cartridge == b.cartridge && q.port1 == b.port1 && q.port2
            == b.port2,
        CpuTarget::Controller1 => q.port1 == strobe_spec(b.port1, value) && q.port2 == strobe_spec(
            b.port2,
            value,
        ) && q.ram == b.ram && q.ppu == b.ppu && q.apu == b.apu && q.cartridge == b.cartridge
            && q.oam_dma_page == b.oam_dma_page,
        CpuTarget::Cartridge => cart_write_rel(b.cartridge, addr, value, q.cartridge) && q.ram
            == b.ram && q.ppu == b.ppu && q.apu == b.apu && q.port1 == b.port1 && q.port2 == b.port2
            && q.oam_dma_page == b.oam_dma_page,
        CpuTarget::Disabled => others_same(&q, &b, -1),
    }
}

impl Ppu {
    /// Checks `wf` at run time.
    pub fn is_wf(&self) -> (r: bool)
        ensures
            r == self.wf(),
    {
        self.vram.len() == 0x1000 && self.palette.len() == 0x20 && self.oam.len() == 0x100
            && self.secondary_oam.len() == 0x20 && self.sprite_patterns_lo.len() == 8
            && self.sprite_patterns_hi.len() == 8 && self.sprite_positions.len() == 8
            && self.sprite_indexes.len() == 8 && self.sprite_attributes.len() == 8
            && self.sprite_count <= 8 && self.framebuffer.len() == 256 * 240 && -1 <= self.scanline
            && self.scanline <= 260 && self.cycle <= 340
    }
}

impl Cartridge {
    /// Checks `wf` at run time.
    pub fn is_wf(&self) -> (r: bool)
        ensures
            r == self.wf(),
    {
        self.prg_rom.len() >= 0x4000 && self.prg_rom.len() % 0x4000 == 0 && self.prg_rom.len()
            <= 0xFF * 0x4000 && self.chr.len() > 0 && self.prg_ram.len() == 0x10000
            && self.exram.len() == 0x400
    }
}

impl Bus {
    pub open spec fn wf(&self) -> bool {
        self.ram.wf() && self.ppu.wf() && self.cartridge.wf()
    }

    /// A powered-on console around `cartridge`.
    pub fn new(cartridge: Cartridge) -> (r: Bus)
        requires
            cartridge.wf(),
        ensures
            r.wf(),
            r.cartridge == cartridge,
            r.oam_dma_page is None,
    {
        Bus {
            ram: InternalRam::new(),
            ppu: Ppu::new(),
            apu: Apu::new(),
            cartridge,
            port1: ControllerPort::new(),
            port2: ControllerPort::new(),
            oam_dma_page: None,
        }
    }

    pub fn is_wf(&self) -> (r: bool)
        ensures
            r == self.wf(),
    {
        self.ram.bytes.len() == 0x800 && self.ppu.is_wf() && self.cartridge.is_wf()
    }

    pub fn set_controller1(&mut self, state: u8)
        ensures
            final(self).port1.buttons == state,
            others_same(final(self), old(self), 4),
            final(self).port1.shift == old(self).port1.shift,
            final(self).port1.strobe == old(self).port1.strobe,
    {
        self.port1.set_buttons(state);
    }

    pub fn set_controller2(&mut self, state: u8)
        ensures
            final(self).port2.buttons == state,
            others_same(final(self), old(self), 5),
            final(self).port2.shift == old(self).port2.shift,
            final(self).port2.strobe == old(self).port2.strobe,
    {
        self.port2.set_buttons(state);
    }

    /// A CPU read, dispatched by the address map: RAM (mirrored every 2
    /// KiB), a PPU register (mirrored every 8 bytes), APU status, the
    /// controller ports, 0 for the DMA trigger and the disabled range,
    /// and the cartridge.
    pub fn cpu_read(&mut self, addr: u16) -> (r: u8)
        requires
            old(self).wf(),
        ensures
            bus_read_rel(*old(self), addr, r, *final(self)),

    {
        match cpu_target(addr) {
            CpuTarget::Ram(_) => self.ram.read(addr),
            CpuTarget::PpuRegister(reg) => self.ppu.read_register(reg, &self.cartridge),
            CpuTarget::Apu(a) => self.apu.read_register(a),
            CpuTarget::Controller1 => self.port1.read(),
            CpuTarget::Controller2 => self.port2.read(),
            CpuTarget::Cartridge => self.cartridge.read_prg(addr),
            _ => 0,
        }
    }

    /// A CPU write, dispatched by the address map: RAM, a PPU register,
    /// an APU register (0x4017 goes to the frame counter), the OAM-DMA
    /// trigger (latched for the console), the controller strobe (both
    /// ports), and the cartridge.
    pub fn cpu_write(&mut self, addr: u16, value: u8)
        requires
            old(self).wf(),
        ensures
            bus_write_rel(*old(self), addr, value, *final(self)),

    {
        match cpu_target(addr) {
            CpuTarget::Ram(_) => self.ram.write(addr, value),
            CpuTarget::PpuRegister(reg) => self.ppu.write_register(reg, value, &mut self.cartridge),
            CpuTarget::Apu(a) => self.apu.write_register(a, value),
            CpuTarget::Controller2 => self.apu.write_register(addr, value),
            CpuTarget::OamDma => self.oam_dma_page = Some(value),
            CpuTarget::Controller1 => {
                self.port1.write_strobe(value);
                self.port2.write_strobe(value);
            },
            CpuTarget::Cartridge => self.cartridge.write_prg(addr, value),
            CpuTarget::Disabled => {},
        }
    }

    /// Copies page `page` into OAM from OAMADDR on, through the bus.
    pub fn run_oam_dma(&mut self, page: u8)
        requires
            old(self).wf(),
        ensures
            final(self).wf(),
            page < 0x20 ==> forall|i: int|
                0 <= i < 0x100 ==> #[trigger] final(self).ppu.oam@[(old(self).ppu.oam_addr + i)
                    % 0x100] == old(self).ram.bytes@[(page * 0x100 + i) % 0x800],
    {
        if page < 0x20 {
            oam_dma_from_ram(&self.ram, page, &mut self.ppu);
            return;
        }
        let start = self.ppu.oam_addr;
        let mut i: u16 = 0;
        while i < 0x100
            invariant
                self.wf(),
                i <= 0x100,
            decreases 0x100 - i,
        {
            let value = self.cpu_read((page as u16) * 0x100 + i);
            let slot = ((start as u16 + i) % 0x100) as u8;
            self.ppu.write_oam_byte(slot, value);
            i = i + 1;
        }
    }
}

/// The bus as the CPU sees it. Its registers have effects on reads, so it
/// is not plain memory; `cpu_read` and `cpu_write` state what it does.
impl CpuBus for Bus {
    open spec fn inv(&self) -> bool {
        self.wf()
    }

    open spec fn read_ok(&self, addr: u16, r: u8, post: &Self) -> bool {
        self.wf() ==> bus_read_rel(*self, addr, r, *post)
    }

    open spec fn write_ok(&self, addr: u16, value: u8, post: &Self) -> bool {
        self.wf() ==> bus_write_rel(*self, addr, value, *post)
    }

    fn read(&mut self, addr: u16) -> (r: u8) {
        if self.is_wf() {
            self.cpu_read(addr)
        } else {
            0
        }
    }

    fn write(&mut self, addr: u16, value: u8) {
        if self.is_wf() {
            self.cpu_write(addr, value);
        }
    }
}

/// The whole console.
pub struct Nes {
    pub cpu: Cpu,
    pub bus: Bus,
    /// CPU cycles since reset.
    pub cpu_cycles: u64,
}

/// One CPU cycle of the devices: whether the PPU raised an NMI edge and
/// whether an IRQ line is asserted.
pub struct TickEvents {
    pub nmi: bool,
    pub irq: bool,
}

impl Nes {
    pub open spec fn wf(&self) -> bool {
        self.bus.wf()
    }

    /// A console with `cartridge` inserted, reset.
    pub fn new(cartridge: Cartridge) -> (r: Nes)
        requires
            cartridge.wf(),
        ensures
            r.wf(),
            r.cpu_cycles == 0,
    {
        let mut nes = Nes { cpu: Cpu::new(), bus: Bus::new(cartridge), cpu_cycles: 0 };
        nes.reset();
        nes
    }

    /// RESET: the CPU loads its reset vector, the APU and the PPU's
    /// counters return to their power-on values, the cycle count restarts.
    pub fn reset(&mut self)
        requires
            old(self).wf(),
        ensures
            final(self).wf(),
            final(self).cpu_cycles == 0,
            final(self).cpu.a == 0 && final(self).cpu.x == 0 && final(self).cpu.y == 0,
            final(self).cpu.sp == 0xFD && final(self).cpu.status.bits == 0x24,
            final(self).bus.ppu.scanline == 0 && final(self).bus.ppu.cycle == 0,
            !final(self).bus.ppu.odd_frame && !final(self).bus.ppu.nmi_pending,
            final(self).bus.apu.frame_cycles == 0 && !final(self).bus.apu.frame_irq,
            final(self).bus.oam_dma_page is None,
    {
        self.cpu.reset(&mut self.bus);
        self.cpu.a = 0;
        self.cpu.x = 0;
        self.cpu.y = 0;
        self.cpu.sp = 0xFD;
        self.cpu.status.bits = 0x24;
        self.cpu.cycles = 0;
        self.cpu.stall_cycles = 0;
        self.cpu.nmi_pending = false;
        self.cpu.irq_pending = false;
        self.bus.apu = Apu::new();
        self.bus.ppu.scanline = 0;
        self.bus.ppu.cycle = 0;
        self.bus.ppu.odd_frame = false;
        self.bus.ppu.nmi_pending = false;
        self.bus.ppu.suppress_vbl = false;
        self.bus.oam_dma_page = None;
        self.cpu_cycles = 0;
    }

    /// One CPU cycle of the devices: three PPU dots and one APU cycle; a
    /// DMC sample fetch reads through the bus and stalls the CPU four
    /// cycles. An NMI edge is latched in the CPU; the IRQ line (APU or
    /// cartridge) is handed to the CPU as a level.
    pub fn tick(&mut self) -> (r: TickEvents)
        requires
            old(self).wf(),
        ensures
            final(self).wf(),
            r.nmi ==> final(self).cpu.nmi_pending,
            !r.nmi ==> final(self).cpu.nmi_pending == old(self).cpu.nmi_pending,
            r.irq == (final(self).bus.apu.irq_pending_spec() || final(self).bus.cartridge.irq_spec()),
            final(self).cpu.irq_pending == r.irq,
            final(self).cpu_cycles == old(self).cpu_cycles,
    {
        let a = self.bus.ppu.step(&mut self.bus.cartridge);
        let b = self.bus.ppu.step(&mut self.bus.cartridge);
        let c = self.bus.ppu.step(&mut self.bus.cartridge);
        let nmi = a || b || c;
        if nmi {
            self.cpu.trigger_nmi();
        }
        self.bus.apu.step();
        if let Some(addr) = self.bus.apu.dmc.fetch_address() {
            let byte = self.bus.cpu_read(addr);
            if self.bus.apu.dmc.bytes_remaining > 0 {
                self.bus.apu.dmc.load_sample(byte);
            }
            self.cpu.stall_cycles = self.cpu.stall_cycles.saturating_add(4);
        }
        let irq = self.bus.apu.irq_pending() || self.bus.cartridge.irq_pending();
        self.cpu.set_irq_line(irq);
        TickEvents { nmi, irq }
    }

    /// Runs one instruction (or one stalled cycle; a jammed CPU idles one
    /// cycle), then an OAM DMA if one was triggered (513 or 514 stall
    /// cycles), then the devices for each cycle used. Returns the cycles
    /// and the channel levels of each cycle, for the mixer.
    pub fn step(&mut self) -> (r: (u32, Vec<(u8, u8, u8, u8, u8)>))
        requires
            old(self).wf(),
            old(self).cpu_cycles < 0xFFFF_FFFF_0000_0000,
        ensures
            final(self).wf(),
            r.0 >= 1,
            r.1@.len() == r.0,
            final(self).cpu_cycles == old(self).cpu_cycles + r.0,
            final(self).bus.oam_dma_page is None,
    {
        let c = self.cpu.step(&mut self.bus);
        assert(self.bus.wf());
        let cycles: u32 = if c == 0 {
            1
        } else {
            c
        };
        if let Some(page) = self.bus.oam_dma_page {
            self.bus.oam_dma_page = None;
            self.bus.run_oam_dma(page);
            self.bus.oam_dma_page = None;
            let stall = oam_dma_cycles(self.cpu_cycles + cycles as u64);
            self.cpu.stall_cycles = self.cpu.stall_cycles.saturating_add(stall);
        }
        let mut levels: Vec<(u8, u8, u8, u8, u8)> = Vec::new();
        let mut i: u32 = 0;
        while i < cycles
            invariant
                self.wf(),
                i <= cycles,
                levels@.len() == i,
                self.bus.oam_dma_page is None,
                self.cpu_cycles == old(self).cpu_cycles,
            decreases cycles - i,
        {
            self.tick();
            levels.push(self.bus.apu.outputs());
            self.bus.oam_dma_page = None;
            i = i + 1;
        }
        self.cpu_cycles = self.cpu_cycles + cycles as u64;
        (cycles, levels)
    }

    /// Runs whole instructions until at least one frame's budget of CPU
    /// cycles has passed.
    pub fn run_frame(&mut self) -> (r: Vec<(u8, u8, u8, u8, u8)>)
        requires
            old(self).wf(),
            old(self).cpu_cycles < 0xFFFF_FFFE_0000_0000,
        ensures
            final(self).wf(),
            final(self).cpu_cycles >= old(self).cpu_cycles + FRAME_CYCLES,
            r@.len() == final(self).cpu_cycles - old(self).cpu_cycles,
    {
        let start = self.cpu_cycles;
        let target = start + FRAME_CYCLES;
        let mut all: Vec<(u8, u8, u8, u8, u8)> = Vec::new();
        while self.cpu_cycles < target
            invariant
                self.wf(),
                start <= self.cpu_cycles,
                self.cpu_cycles < target + 0x1_0000_0000,
                target == start + FRAME_CYCLES,
                start < 0xFFFF_FFFE_0000_0000,
                all@.len() == self.cpu_cycles - start,
            decreases target + 0x1_0000_0000 - self.cpu_cycles,
        {
            let (_, levels) = self.step();
            let mut k: usize = 0;
            let ghost before = all@.len();
            let ghost now = self.cpu_cycles;
            while k < levels.len()
                invariant
                    k <= levels@.len(),
                    all@.len() == before + k,
                    self.cpu_cycles == now,
                    self.wf(),
                decreases levels@.len() - k,
            {
                all.push(levels[k]);
                k = k + 1;
            }
        }
        all
    }

    pub fn get_framebuffer(&self) -> (r: &Vec<u32>)
        ensures
            r@ == self.bus.ppu.framebuffer@,
    {
        &self.bus.ppu.framebuffer
    }

    pub fn set_controller1(&mut self, state: u8)
        ensures
            final(self).bus.port1.buttons == state,
            final(self).bus.wf() == old(self).bus.wf(),
            final(self).cpu_cycles == old(self).cpu_cycles,
    {
        self.bus.set_controller1(state);
    }

    pub fn set_controller2(&mut self, state: u8)
        ensures
            final(self).bus.port2.buttons == state,
            final(self).bus.wf() == old(self).bus.wf(),
            final(self).cpu_cycles == old(self).cpu_cycles,
    {
        self.bus.set_controller2(state);
    }
}

} // verus!
