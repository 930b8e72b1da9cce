use ccnes_core::cpu::CpuBus;
use ccnes_core::Cpu;

struct TestBus {
    memory: [u8; 0x10000],
}

impl CpuBus for TestBus {
    fn read(&mut self, addr: u16) -> u8 {
        self.memory[addr as usize]
    }

    fn write(&mut self, addr: u16, value: u8) {
        self.memory[addr as usize] = value;
    }
}

#[test] 
fn test_cpu_basic_instructions() {
    let mut cpu = Cpu::new();
    let mut bus = TestBus { memory: [0; 0x10000] };
    
    // Set reset vector
    bus.memory[0xFFFC] = 0x00;
    bus.memory[0xFFFD] = 0xC0;
    
    // Test LDA immediate
    bus.memory[0xC000] = 0xA9;  // LDA #$42
    bus.memory[0xC001] = 0x42;
    
    // Test STA zero page
    bus.memory[0xC002] = 0x85;  // STA $00
    bus.memory[0xC003] = 0x00;
    
    // Test NOP
    bus.memory[0xC004] = 0xEA;  // NOP
    
    // Initialize CPU
    cpu.reset(&mut bus);
    assert_eq!(cpu.pc, 0xC000);
    
    // Execute LDA
    cpu.step(&mut bus);
    assert_eq!(cpu.a, 0x42);
    
    // Execute STA
    cpu.step(&mut bus);
    assert_eq!(bus.memory[0], 0x42);
    
    // Execute NOP
    let cycles_before = cpu.cycles;
    cpu.step(&mut bus);
    assert_eq!(cpu.cycles - cycles_before, 2);
}