use ccnes_core::cpu::Cpu;
use ccnes_core::debugger::{BreakpointType, Debugger, DebuggerState};

#[test]
fn execution_breakpoint_pauses() {
    let mut dbg = Debugger::new();
    dbg.add_breakpoint(0x8000, BreakpointType::Execution);
    let mut cpu = Cpu::new();
    cpu.pc = 0x7FFF;
    dbg.update_after_step(&cpu);
    assert!(!dbg.is_paused());
    cpu.pc = 0x8000;
    dbg.update_after_step(&cpu);
    assert!(dbg.is_paused());
}

#[test]
fn toggle_disables_then_remove_clears() {
    let mut dbg = Debugger::new();
    dbg.toggle_breakpoint(0x1234, BreakpointType::Read);
    assert!(dbg.check_breakpoint(0x1234, BreakpointType::Read));
    dbg.resume();
    dbg.toggle_breakpoint(0x1234, BreakpointType::Read);
    assert!(!dbg.check_breakpoint(0x1234, BreakpointType::Read));
    assert_eq!(dbg.breakpoints.len(), 1);
    dbg.add_breakpoint(0x1234, BreakpointType::Write);
    dbg.remove_breakpoint(0x1234, BreakpointType::Read);
    assert_eq!(dbg.breakpoints.len(), 1);
    assert!(dbg.check_breakpoint(0x1234, BreakpointType::Write));
    dbg.clear_breakpoints();
    assert!(dbg.breakpoints.is_empty());
}

#[test]
fn step_instruction_pauses_after_one() {
    let mut dbg = Debugger::new();
    dbg.step_instruction();
    assert_eq!(dbg.state, DebuggerState::StepInstruction);
    dbg.update_after_step(&Cpu::new());
    assert!(dbg.is_paused());
    dbg.step_frame();
    dbg.update_after_frame();
    assert!(dbg.is_paused());
}

#[test]
fn watches_are_a_set() {
    let mut dbg = Debugger::new();
    dbg.add_watch(0x10);
    dbg.add_watch(0x10);
    dbg.add_watch(0x20);
    assert_eq!(dbg.get_watches(), &vec![0x10, 0x20]);
    dbg.remove_watch(0x10);
    assert_eq!(dbg.get_watches(), &vec![0x20]);
}

#[test]
fn trace_records_new_pcs_only() {
    let mut dbg = Debugger::new();
    dbg.enable_trace();
    let mut cpu = Cpu::new();
    cpu.pc = 0x8000;
    dbg.update_after_step(&cpu);
    dbg.update_after_step(&cpu);
    cpu.pc = 0x8002;
    cpu.a = 7;
    dbg.update_after_step(&cpu);
    let trace = dbg.get_trace();
    assert_eq!(trace.len(), 2);
    assert_eq!(trace[1].pc, 0x8002);
    assert_eq!(trace[1].a, 7);
    dbg.clear_trace();
    assert!(dbg.get_trace().is_empty());
    dbg.disable_trace();
    cpu.pc = 0x9000;
    dbg.update_after_step(&cpu);
    assert!(dbg.get_trace().is_empty());
}

#[test]
fn trace_drops_oldest_half_past_limit() {
    let mut dbg = Debugger::new();
    dbg.enable_trace();
    let mut cpu = Cpu::new();
    for i in 0..10001u32 {
        cpu.pc = (i % 2) as u16 + 1;
        dbg.update_after_step(&cpu);
    }
    assert_eq!(dbg.get_trace().len(), 5001);
}

struct Flat {
    memory: Vec<u8>,
}

impl ccnes_core::cpu::CpuBus for Flat {
    fn read(&mut self, addr: u16) -> u8 {
        self.memory[addr as usize]
    }

    fn write(&mut self, addr: u16, value: u8) {
        self.memory[addr as usize] = value;
    }
}

#[test]
fn disassembly_walks_instruction_lengths() {
    use_disassembler();
}

fn use_disassembler() {
    let mut bus = Flat { memory: vec![0; 0x10000] };
    let program = [0xA9, 0x42, 0x8D, 0x00, 0x20, 0xD0, 0xFB, 0x02, 0x00];
    bus.memory[0xC000..0xC000 + program.len()].copy_from_slice(&program);
    let list = ccnes_core::debugger::disassemble(&mut bus, 0xC000, 5);
    let addrs: Vec<u16> = list.iter().map(|d| d.address).collect();
    assert_eq!(addrs, vec![0xC000, 0xC002, 0xC005, 0xC007, 0xC008]);
    assert_eq!(list[0].operand, 0x42);
    assert_eq!(list[1].operand, 0x2000);
    assert_eq!(list[2].operand, 0xC002);
    assert!(list[3].info.is_none());
    assert_eq!(list[3].length, 1);
    assert_eq!(list[4].length, 1);
}
