//! A cycle-counting emulator core for the 8-bit console built around a
//! 6502-family CPU: the CPU interpreter, the picture and audio processors'
//! logic, the cartridge mappers, controllers and save states.
use vstd::prelude::*;

pub mod apu;
pub mod bus;
pub mod cartridge;
pub mod controller;
pub mod cpu;
pub mod debugger;
pub mod memory_map;
pub mod ppu;
pub mod savestate;
pub mod test_rom;

pub use apu::Apu;
pub use bus::{Bus, Nes};
pub use cartridge::Cartridge;
pub use controller::{Controller, ControllerButton};
pub use cpu::Cpu;
pub use debugger::{Breakpoint, BreakpointType, Debugger, DebuggerState};
pub use ppu::Ppu;
pub use savestate::{SaveState, SaveStateError};

verus! {

/// Elapsed cycles of the three processors.
#[derive(Clone, Copy, Debug, PartialEq, Eq, Structural)]
pub struct Clock {
    pub cpu_cycles: u64,
    pub ppu_cycles: u64,
    pub apu_cycles: u64,
}

} // verus!
