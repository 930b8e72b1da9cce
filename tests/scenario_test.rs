use ccnes_core::cartridge::Mirroring;
use ccnes_core::cpu::addressing::AddressingMode;
use ccnes_core::cpu::opcodes::{decode, Instruction};
use ccnes_core::cpu::{Cpu, CpuBus, StatusFlags};
use ccnes_core::memory_map::{
    cpu_target, nametable_index, oam_dma_cycles, oam_dma_from_ram, palette_index, CpuTarget,
    InternalRam,
};
use ccnes_core::ppu::Ppu;

struct FlatBus {
    memory: Vec<u8>,
}

impl FlatBus {
    fn with_program(program: &[u8], start: u16) -> FlatBus {
        let mut memory = vec![0u8; 0x10000];
        for (i, &b) in program.iter().enumerate() {
            memory[start as usize + i] = b;
        }
        memory[0xFFFC] = (start & 0xFF) as u8;
        memory[0xFFFD] = (start >> 8) as u8;
        FlatBus { memory }
    }
}

impl CpuBus for FlatBus {
    fn read(&mut self, addr: u16) -> u8 {
        self.memory[addr as usize]
    }

    fn write(&mut self, addr: u16, value: u8) {
        self.memory[addr as usize] = value;
    }
}

#[test]
fn lda_sta_lda_round_trip() {
    let mut bus = FlatBus::with_program(&[0xA9, 0x42, 0x85, 0x10, 0xA5, 0x10, 0x00], 0xC000);
    let mut cpu = Cpu::new();
    cpu.reset(&mut bus);
    assert_eq!(cpu.pc, 0xC000);
    assert_eq!(cpu.step(&mut bus), 2);
    assert_eq!(cpu.a, 0x42);
    assert_eq!(cpu.step(&mut bus), 3);
    assert_eq!(bus.memory[0x10], 0x42);
    cpu.a = 0;
    assert_eq!(cpu.step(&mut bus), 3);
    assert_eq!(cpu.a, 0x42);
    assert_eq!(cpu.cycles, 8);
}

#[test]
fn branch_taken_skips_the_load() {
    let mut bus =
        FlatBus::with_program(&[0xA9, 0x00, 0xF0, 0x02, 0xA9, 0xFF, 0xA9, 0x42], 0xC000);
    let mut cpu = Cpu::new();
    cpu.reset(&mut bus);
    assert_eq!(cpu.step(&mut bus), 2);
    assert_eq!(cpu.step(&mut bus), 3);
    assert_eq!(cpu.pc, 0xC006);
    assert_eq!(cpu.step(&mut bus), 2);
    assert_eq!(cpu.a, 0x42);
    assert_eq!(cpu.pc, 0xC008);
    assert_eq!(cpu.cycles, 7);
}

#[test]
fn branch_not_taken_costs_base() {
    let mut bus = FlatBus::with_program(&[0xA9, 0x01, 0xF0, 0x02, 0xA9, 0xFF], 0xC000);
    let mut cpu = Cpu::new();
    cpu.reset(&mut bus);
    cpu.step(&mut bus);
    assert_eq!(cpu.step(&mut bus), 2);
    assert_eq!(cpu.pc, 0xC004);
    cpu.step(&mut bus);
    assert_eq!(cpu.a, 0xFF);
}

#[test]
fn branch_across_page_costs_two_more() {
    // BNE +0x10 at 0xC0F0: the target 0xC102 lies on the next page.
    let mut program = vec![0xEA; 0x100];
    program[0xF0] = 0xD0;
    program[0xF1] = 0x10;
    let mut bus = FlatBus::with_program(&program, 0xC000);
    let mut cpu = Cpu::new();
    cpu.reset(&mut bus);
    cpu.pc = 0xC0F0;
    assert_eq!(cpu.step(&mut bus), 4);
    assert_eq!(cpu.pc, 0xC102);
}

#[test]
fn indirect_jmp_wraps_within_page() {
    let mut bus = FlatBus::with_program(&[0x6C, 0xFF, 0x02], 0xC000);
    bus.memory[0x02FF] = 0x34;
    bus.memory[0x0200] = 0x12;
    bus.memory[0x0300] = 0x99;
    let mut cpu = Cpu::new();
    cpu.reset(&mut bus);
    assert_eq!(cpu.step(&mut bus), 5);
    assert_eq!(cpu.pc, 0x1234);
}

#[test]
fn brk_pushes_pc_plus_two_and_status_with_break() {
    let mut bus = FlatBus::with_program(&[0x00, 0xEA], 0xC000);
    bus.memory[0xFFFE] = 0x00;
    bus.memory[0xFFFF] = 0x90;
    let mut cpu = Cpu::new();
    cpu.reset(&mut bus);
    assert_eq!(cpu.step(&mut bus), 7);
    assert_eq!(cpu.pc, 0x9000);
    assert_eq!(bus.memory[0x01FD], 0xC0);
    assert_eq!(bus.memory[0x01FC], 0x02);
    assert_eq!(bus.memory[0x01FB] & 0x30, 0x30);
    assert!(cpu.status.contains(StatusFlags::INTERRUPT));
    assert_eq!(cpu.sp, 0xFA);
}

#[test]
fn nmi_is_entered_before_the_next_fetch() {
    let mut bus = FlatBus::with_program(&[0xEA, 0xEA], 0xC000);
    bus.memory[0xFFFA] = 0x00;
    bus.memory[0xFFFB] = 0x80;
    bus.memory[0x8000] = 0xEA;
    let mut cpu = Cpu::new();
    cpu.reset(&mut bus);
    cpu.trigger_nmi();
    assert_eq!(cpu.step(&mut bus), 9);
    assert_eq!(cpu.pc, 0x8001);
    assert_eq!(bus.memory[0x01FB] & 0x10, 0);
    assert_eq!(bus.memory[0x01FB] & 0x20, 0x20);
}

#[test]
fn irq_waits_while_interrupts_are_disabled() {
    let mut bus = FlatBus::with_program(&[0xEA, 0x58, 0xEA], 0xC000);
    let mut cpu = Cpu::new();
    cpu.reset(&mut bus);
    cpu.trigger_irq();
    assert_eq!(cpu.step(&mut bus), 2);
    assert_eq!(cpu.pc, 0xC001);
}

#[test]
fn adc_sets_overflow_on_signed_overflow() {
    let mut bus = FlatBus::with_program(&[0xA9, 0x50, 0x69, 0x50], 0xC000);
    let mut cpu = Cpu::new();
    cpu.reset(&mut bus);
    cpu.step(&mut bus);
    cpu.step(&mut bus);
    assert_eq!(cpu.a, 0xA0);
    assert!(cpu.status.contains(StatusFlags::OVERFLOW));
    assert!(cpu.status.contains(StatusFlags::NEGATIVE));
    assert!(!cpu.status.contains(StatusFlags::CARRY));
}

#[test]
fn sbc_borrow_clears_carry() {
    let mut bus = FlatBus::with_program(&[0x38, 0xA9, 0x10, 0xE9, 0x20], 0xC000);
    let mut cpu = Cpu::new();
    cpu.reset(&mut bus);
    cpu.step(&mut bus);
    cpu.step(&mut bus);
    cpu.step(&mut bus);
    assert_eq!(cpu.a, 0xF0);
    assert!(!cpu.status.contains(StatusFlags::CARRY));
}

#[test]
fn absolute_x_page_cross_adds_a_cycle() {
    let mut bus = FlatBus::with_program(&[0xA2, 0x01, 0xBD, 0xFF, 0x02], 0xC000);
    bus.memory[0x0300] = 0x77;
    let mut cpu = Cpu::new();
    cpu.reset(&mut bus);
    cpu.step(&mut bus);
    assert_eq!(cpu.step(&mut bus), 5);
    assert_eq!(cpu.a, 0x77);
}

#[test]
fn reset_twice_gives_the_same_state() {
    let mut bus = FlatBus::with_program(&[0xA9, 0x42], 0xC000);
    let mut cpu = Cpu::new();
    cpu.reset(&mut bus);
    cpu.step(&mut bus);
    cpu.reset(&mut bus);
    let once = (cpu.a, cpu.x, cpu.y, cpu.sp, cpu.pc, cpu.status.bits(), cpu.cycles);
    cpu.reset(&mut bus);
    let twice = (cpu.a, cpu.x, cpu.y, cpu.sp, cpu.pc, cpu.status.bits(), cpu.cycles);
    assert_eq!(once, twice);
    assert_eq!(once, (0, 0, 0, 0xFD, 0xC000, 0x24, 0));
}

#[test]
fn opcode_table_cycles() {
    let lda = decode(0xA9).unwrap();
    assert_eq!(lda.instruction, Instruction::LDA);
    assert_eq!(lda.mode, AddressingMode::Immediate);
    assert_eq!(lda.cycles, 2);
    assert_eq!(decode(0x20).unwrap().cycles, 6);
    assert_eq!(decode(0x6C).unwrap().cycles, 5);
    assert_eq!(decode(0x00).unwrap().cycles, 7);
    for op in [0x10u8, 0x30, 0x50, 0x70, 0x90, 0xB0, 0xD0, 0xF0] {
        assert_eq!(decode(op).unwrap().cycles, 2);
    }
    assert!(decode(0x02).is_none());
    let count = (0..=255u8).filter(|&b| decode(b).is_some()).count();
    assert_eq!(count, 151);
}

#[test]
fn ram_mirrors_every_2k() {
    let mut ram = InternalRam::new();
    ram.write(0x0012, 0xAB);
    assert_eq!(ram.read(0x0812), 0xAB);
    assert_eq!(ram.read(0x1012), 0xAB);
    ram.write(0x1FFF, 0x5A);
    assert_eq!(ram.read(0x07FF), 0x5A);
}

#[test]
fn cpu_address_map() {
    assert_eq!(cpu_target(0x0805), CpuTarget::Ram(0x005));
    assert_eq!(cpu_target(0x2002), CpuTarget::PpuRegister(2));
    assert_eq!(cpu_target(0x3FFA), CpuTarget::PpuRegister(2));
    assert_eq!(cpu_target(0x4014), CpuTarget::OamDma);
    assert_eq!(cpu_target(0x4016), CpuTarget::Controller1);
    assert_eq!(cpu_target(0x4017), CpuTarget::Controller2);
    assert_eq!(cpu_target(0x4015), CpuTarget::Apu(0x4015));
    assert_eq!(cpu_target(0x401A), CpuTarget::Disabled);
    assert_eq!(cpu_target(0x4020), CpuTarget::Cartridge);
}

#[test]
fn palette_backdrop_mirrors() {
    assert_eq!(palette_index(0x3F10), palette_index(0x3F00));
    assert_eq!(palette_index(0x3F14), 0x04);
    assert_eq!(palette_index(0x3F1C), 0x0C);
    assert_eq!(palette_index(0x3F11), 0x11);
    assert_eq!(palette_index(0x3F25), 0x05);
}

#[test]
fn nametable_mirroring_layouts() {
    assert_eq!(nametable_index(0x2400, Mirroring::Horizontal), 0x000);
    assert_eq!(nametable_index(0x2800, Mirroring::Horizontal), 0x400);
    assert_eq!(nametable_index(0x2400, Mirroring::Vertical), 0x400);
    assert_eq!(nametable_index(0x2800, Mirroring::Vertical), 0x000);
    assert_eq!(nametable_index(0x2C05, Mirroring::SingleScreenHigh), 0x405);
    assert_eq!(nametable_index(0x3005, Mirroring::SingleScreenLow), 0x005);
    assert_eq!(nametable_index(0x2C05, Mirroring::FourScreen), 0xC05);
}

#[test]
fn oam_dma_copies_a_ram_page() {
    let mut ram = InternalRam::new();
    for i in 0..256u16 {
        ram.write(0x0200 + i, i as u8);
    }
    let mut ppu = Ppu::new();
    oam_dma_from_ram(&ram, 0x02, &mut ppu);
    for i in 0..256usize {
        assert_eq!(ppu.oam[i], i as u8);
    }
    assert_eq!(oam_dma_cycles(100), 513);
    assert_eq!(oam_dma_cycles(101), 514);
}

#[test]
fn oam_dma_starts_at_oamaddr() {
    let mut ram = InternalRam::new();
    ram.write(0x0300, 0xAA);
    ram.write(0x03FF, 0xBB);
    let mut ppu = Ppu::new();
    ppu.oam_addr = 0x10;
    oam_dma_from_ram(&ram, 0x03, &mut ppu);
    assert_eq!(ppu.oam[0x10], 0xAA);
    assert_eq!(ppu.oam[0x0F], 0xBB);
}
