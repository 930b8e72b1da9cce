use ccnes_core::cartridge::Cartridge;
use ccnes_core::controller::ControllerPort;
use ccnes_core::cpu::{Cpu, CpuBus};
use ccnes_core::memory_map::{cpu_target, CpuTarget, InternalRam};
use ccnes_core::ppu::Ppu;
use ccnes_core::test_rom::{create_controller_test_rom, create_sprite_test_rom, create_test_rom};

struct Board {
    ram: InternalRam,
    ppu: Ppu,
    cart: Cartridge,
    port1: ControllerPort,
}

impl CpuBus for Board {
    fn read(&mut self, addr: u16) -> u8 {
        match cpu_target(addr) {
            CpuTarget::Ram(_) => self.ram.read(addr),
            CpuTarget::PpuRegister(r) => self.ppu.read_register(r, &self.cart),
            CpuTarget::Controller1 => self.port1.read(),
            CpuTarget::Cartridge => self.cart.read_prg(addr),
            _ => 0,
        }
    }

    fn write(&mut self, addr: u16, value: u8) {
        match cpu_target(addr) {
            CpuTarget::Ram(_) => self.ram.write(addr, value),
            CpuTarget::PpuRegister(r) => self.ppu.write_register(r, value, &mut self.cart),
            CpuTarget::Controller1 => self.port1.write_strobe(value),
            CpuTarget::Cartridge => self.cart.write_prg(addr, value),
            _ => {}
        }
    }
}

fn board(rom: Vec<u8>) -> (Cpu, Board) {
    let cart = Cartridge::from_ines(&rom).unwrap();
    let mut b = Board { ram: InternalRam::new(), ppu: Ppu::new(), cart, port1: ControllerPort::new() };
    let mut cpu = Cpu::new();
    cpu.reset(&mut b);
    (cpu, b)
}

/// Runs `cycles` CPU cycles with three PPU dots per cycle.
fn run(cpu: &mut Cpu, b: &mut Board, cycles: u64) {
    let start = cpu.cycles;
    while cpu.cycles - start < cycles {
        let n = cpu.step(b);
        let mut nmi = false;
        for _ in 0..3 * n {
            if b.ppu.step(&mut b.cart) {
                nmi = true;
            }
        }
        if nmi {
            cpu.trigger_nmi();
        }
    }
}

#[test]
fn controller_rom_reads_buttons_in_order() {
    let (mut cpu, mut b) = board(create_controller_test_rom());
    b.port1.set_buttons(0b1001_0110);
    // a read before the strobe must not matter
    b.port1.read();
    run(&mut cpu, &mut b, 200);
    assert_eq!(b.ram.read(0x0000), 0b1001_0110);
}

#[test]
fn test_rom_enables_rendering_and_nmi() {
    let (mut cpu, mut b) = board(create_test_rom());
    run(&mut cpu, &mut b, 29780 * 4);
    assert_eq!(b.ppu.mask & 0x08, 0x08);
    assert_eq!(b.ppu.ctrl & 0x80, 0x80);
    // backdrop colour 0x21 written at palette entry 0
    assert_eq!(b.ppu.palette[0], 0x21);
}

#[test]
fn sprite_rom_images_are_well_formed() {
    let rom = create_sprite_test_rom();
    assert_eq!(rom.len(), 16 + 0x4000 + 0x2000);
    let cart = Cartridge::from_ines(&rom).unwrap();
    assert_eq!(cart.read_prg(0xFFFC), 0x00);
    assert_eq!(cart.read_prg(0xFFFD), 0xC0);
    assert_eq!(cart.read_chr(0x10), 0b0011_1100);
}

#[test]
fn nmi_handler_runs_once_per_frame() {
    // reset: PPUCTRL = 0x80, then spin; NMI: INC $10, RTI
    let mut program = vec![0xA9, 0x80, 0x8D, 0x00, 0x20, 0x4C, 0x05, 0xC0];
    program.resize(0x100, 0xEA);
    program[0x80] = 0xE6; // INC $10
    program[0x81] = 0x10;
    program[0x82] = 0x40; // RTI
    let mut rom = vec![0x4E, 0x45, 0x53, 0x1A, 1, 1, 0, 0];
    rom.resize(16, 0);
    let mut prg = vec![0u8; 0x4000];
    prg[..program.len()].copy_from_slice(&program);
    prg[0x3FFA] = 0x80;
    prg[0x3FFB] = 0xC0;
    prg[0x3FFC] = 0x00;
    prg[0x3FFD] = 0xC0;
    rom.extend_from_slice(&prg);
    rom.extend(std::iter::repeat(0).take(0x2000));
    let (mut cpu, mut b) = board(rom);
    run(&mut cpu, &mut b, 29780);
    assert_eq!(b.ram.read(0x10), 1);
    run(&mut cpu, &mut b, 29780);
    assert_eq!(b.ram.read(0x10), 2);
}

#[test]
fn console_run_frame_uses_one_frame_budget() {
    let cart = Cartridge::from_ines(&create_test_rom()).unwrap();
    let mut nes = ccnes_core::Nes::new(cart);
    let before = nes.cpu_cycles;
    let levels = nes.run_frame();
    let spent = nes.cpu_cycles - before;
    assert!(spent >= 29780 && spent <= 29780 + 16);
    assert_eq!(levels.len() as u64, spent);
    for _ in 0..4 {
        nes.run_frame();
    }
    let frame = nes.get_framebuffer().clone();
    assert!(frame.iter().any(|&p| p != 0));
}

#[test]
fn console_reset_twice_is_reset_once() {
    let cart = Cartridge::from_ines(&create_test_rom()).unwrap();
    let mut nes = ccnes_core::Nes::new(cart);
    nes.run_frame();
    nes.reset();
    let once = nes.save_state_to_vec();
    nes.reset();
    assert_eq!(once, nes.save_state_to_vec());
}

#[test]
fn console_oam_dma_stalls_and_copies() {
    let cart = Cartridge::from_ines(&create_controller_test_rom()).unwrap();
    let mut nes = ccnes_core::Nes::new(cart);
    for i in 0..256u16 {
        nes.bus.cpu_write(0x0200 + i, i as u8);
    }
    nes.bus.cpu_write(0x4014, 0x02);
    let (c, _) = nes.step();
    assert!(c >= 1);
    for i in 0..256usize {
        assert_eq!(nes.bus.ppu.oam[i], i as u8);
    }
    let stall = nes.cpu.stall_cycles;
    assert!(stall == 513 || stall == 514);
}
