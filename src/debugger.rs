//! Debugger state: breakpoints, watched addresses, stepping modes and an
//! execution trace.
use vstd::prelude::*;

use crate::cpu::addressing::{offset16, AddressingMode};
use crate::cpu::opcodes::{decode, opcode_table, Opcode};
use crate::cpu::{add16, word, Cpu, CpuBus};

verus! {

#[derive(Clone, Copy, Debug, PartialEq, Eq, Structural)]
pub enum BreakpointType {
    Execution,
    Read,
    Write,
}

#[derive(Clone, Copy, Debug, PartialEq, Eq, Structural)]
pub struct Breakpoint {
    pub address: u16,
    pub bp_type: BreakpointType,
    pub enabled: bool,
}

#[derive(Clone, Copy, Debug, PartialEq, Eq, Structural)]
pub enum DebuggerState {
    Running,
    Paused,
    StepInstruction,
    StepFrame,
}

/// One line of the execution trace: the registers after an instruction.
#[derive(Clone, Copy, Debug, PartialEq, Eq, Structural)]
pub struct TraceEntry {
    pub pc: u16,
    pub a: u8,
    pub x: u8,
    pub y: u8,
    pub sp: u8,
    pub p: u8,
    pub cycles: u64,
}

/// The trace keeps at most this many entries; past it, the oldest half
/// goes.
pub const TRACE_LIMIT: usize = 10000;

pub struct Debugger {
    pub state: DebuggerState,
    pub breakpoints: Vec<Breakpoint>,
    pub step_count: u32,
    pub watch_addresses: Vec<u16>,
    pub trace_enabled: bool,
    pub trace_buffer: Vec<TraceEntry>,
    pub last_pc: u16,
}

/// The breakpoints of `s` other than those at `address` of type `t`.
pub open spec fn without(s: Seq<Breakpoint>, address: u16, t: BreakpointType) -> Seq<Breakpoint>
    decreases s.len(),
{
    if s.len() == 0 {
        s
    } else {
        let rest = without(s.drop_last(), address, t);
        let b = s.last();
        if b.address == address && b.bp_type == t {
            rest
        } else {
            rest.push(b)
        }
    }
}

/// Whether an enabled breakpoint at `address` of type `t` is in `s`.
pub open spec fn armed(s: Seq<Breakpoint>, address: u16, t: BreakpointType) -> bool {
    exists|i: int| 0 <= i < s.len() && s[i].address == address && s[i].bp_type == t && s[i].enabled
}

impl Debugger {
    /// Running, with no breakpoints, watches or trace.
    pub fn new() -> (r: Debugger)
        ensures
            r.state == DebuggerState::Running,
            r.breakpoints@.len() == 0 && r.watch_addresses@.len() == 0 && r.trace_buffer@.len() == 0,
            !r.trace_enabled,
    {
        Debugger {
            state: DebuggerState::Running,
            breakpoints: Vec::new(),
            step_count: 0,
            watch_addresses: Vec::new(),
            trace_enabled: false,
            trace_buffer: Vec::new(),
            last_pc: 0,
        }
    }

    /// Adds an enabled breakpoint.
    pub fn add_breakpoint(&mut self, address: u16, bp_type: BreakpointType)
        ensures
            final(self).breakpoints@ == old(self).breakpoints@.push(
                Breakpoint { address, bp_type, enabled: true },
            ),
            final(self).state == old(self).state,
    {
        self.breakpoints.push(Breakpoint { address, bp_type, enabled: true });
    }

    /// Removes every breakpoint at `address` of type `bp_type`.
    pub fn remove_breakpoint(&mut self, address: u16, bp_type: BreakpointType)
        ensures
            final(self).breakpoints@ == without(old(self).breakpoints@, address, bp_type),
            final(self).state == old(self).state,
    {
        let mut kept: Vec<Breakpoint> = Vec::new();
        let mut i: usize = 0;
        while i < self.breakpoints.len()
            invariant
                i <= self.breakpoints@.len(),
                self.breakpoints@ == old(self).breakpoints@,
                self.state == old(self).state,
                kept@ == without(self.breakpoints@.subrange(0, i as int), address, bp_type),
            decreases self.breakpoints@.len() - i,
        {
            let b = self.breakpoints[i];
            proof {
                assert(self.breakpoints@.subrange(0, i + 1).drop_last() =~= self.breakpoints@.subrange(0, i as int));
            }
            if !(b.address == address && b.bp_type == bp_type) {
                kept.push(b);
            }
            i = i + 1;
        }
        proof {
            assert(self.breakpoints@.subrange(0, i as int) =~= self.breakpoints@);
        }
        self.breakpoints = kept;
    }

    /// Flips the first breakpoint at `address` of type `bp_type`, or adds
    /// one when there is none.
    pub fn toggle_breakpoint(&mut self, address: u16, bp_type: BreakpointType)
        ensures
            final(self).state == old(self).state,
            ({
                let s = old(self).breakpoints@;
                let matching = exists|i: int| 0 <= i < s.len() && s[i].address == address && s[i].bp_type == bp_type;
                &&& !matching ==> final(self).breakpoints@ == s.push(Breakpoint { address, bp_type, enabled: true })
                &&& matching ==> exists|i: int|
                    0 <= i < s.len() && s[i].address == address && s[i].bp_type == bp_type
                        && (forall|j: int| 0 <= j < i ==> !(#[trigger] s[j].address == address && s[j].bp_type == bp_type))
                        && final(self).breakpoints@ == s.update(i, Breakpoint { enabled: !s[i].enabled, ..s[i] })
            }),
    {
        let mut i: usize = 0;
        while i < self.breakpoints.len()
            invariant
                i <= self.breakpoints@.len(),
                self.breakpoints@ == old(self).breakpoints@,
                self.state == old(self).state,
                forall|j: int| 0 <= j < i ==> !(#[trigger] self.breakpoints@[j].address == address && self.breakpoints@[j].bp_type == bp_type),
            decreases self.breakpoints@.len() - i,
        {
            let b = self.breakpoints[i];
            if b.address == address && b.bp_type == bp_type {
                self.breakpoints.set(i, Breakpoint { enabled: !b.enabled, ..b });
                return;
            }
            i = i + 1;
        }
        self.add_breakpoint(address, bp_type);
    }

    pub fn clear_breakpoints(&mut self)
        ensures
            final(self).breakpoints@.len() == 0,
            final(self).state == old(self).state,
    {
        self.breakpoints = Vec::new();
    }

    pub fn pause(&mut self)
        ensures
            final(self).state == DebuggerState::Paused,
    {
        self.state = DebuggerState::Paused;
    }

    pub fn resume(&mut self)
        ensures
            final(self).state == DebuggerState::Running,
    {
        self.state = DebuggerState::Running;
    }

    /// Runs one more instruction, then pauses.
    pub fn step_instruction(&mut self)
        ensures
            final(self).state == DebuggerState::StepInstruction,
            final(self).step_count == 1,
    {
        self.state = DebuggerState::StepInstruction;
        self.step_count = 1;
    }

    /// Runs to the end of the frame, then pauses.
    pub fn step_frame(&mut self)
        ensures
            final(self).state == DebuggerState::StepFrame,
    {
        self.state = DebuggerState::StepFrame;
    }

    pub fn is_paused(&self) -> (r: bool)
        ensures
            r == (self.state == DebuggerState::Paused),
    {
        self.state == DebuggerState::Paused
    }

    /// Watches `address` (once).
    pub fn add_watch(&mut self, address: u16)
        ensures
            final(self).watch_addresses@.to_set() == old(self).watch_addresses@.to_set().insert(address),
            old(self).watch_addresses@.no_duplicates() ==> final(self).watch_addresses@.no_duplicates(),
    {
        let mut i: usize = 0;
        while i < self.watch_addresses.len()
            invariant
                i <= self.watch_addresses@.len(),
                self.watch_addresses@ == old(self).watch_addresses@,
                forall|j: int| 0 <= j < i ==> self.watch_addresses@[j] != address,
            decreases self.watch_addresses@.len() - i,
        {
            if self.watch_addresses[i] == address {
                proof {
                    assert(old(self).watch_addresses@.to_set().insert(address) =~= old(self).watch_addresses@.to_set());
                }
                return;
            }
            i = i + 1;
        }
        self.watch_addresses.push(address);
        proof {
            assert(self.watch_addresses@ == old(self).watch_addresses@.push(address));
            old(self).watch_addresses@.lemma_push_to_set_commute(address);
        }
    }

    /// Stops watching `address`.
    pub fn remove_watch(&mut self, address: u16)
        ensures
            final(self).watch_addresses@.to_set() == old(self).watch_addresses@.to_set().remove(address),
    {
        let mut kept: Vec<u16> = Vec::new();
        let mut i: usize = 0;
        while i < self.watch_addresses.len()
            invariant
                i <= self.watch_addresses@.len(),
                self.watch_addresses@ == old(self).watch_addresses@,
                kept@.to_set() == self.watch_addresses@.subrange(0, i as int).to_set().remove(address),
            decreases self.watch_addresses@.len() - i,
        {
            let a = self.watch_addresses[i];
            let ghost before = kept@;
            proof {
                assert(self.watch_addresses@.subrange(0, i + 1) =~= self.watch_addresses@.subrange(0, i as int).push(a));
                self.watch_addresses@.subrange(0, i as int).lemma_push_to_set_commute(a);
                assert(self.watch_addresses@.subrange(0, i + 1).to_set() == self.watch_addresses@.subrange(
                    0,
                    i as int,
                ).to_set().insert(a));
            }
            if a != address {
                kept.push(a);
                proof {
                    before.lemma_push_to_set_commute(a);
                    assert(kept@.to_set() =~= self.watch_addresses@.subrange(0, i + 1).to_set().remove(address));
                }
            } else {
                assert(kept@.to_set() =~= self.watch_addresses@.subrange(0, i + 1).to_set().remove(address));
            }
            i = i + 1;
        }
        proof {
            assert(self.watch_addresses@.subrange(0, i as int) =~= self.watch_addresses@);
        }
        self.watch_addresses = kept;
    }

    pub fn get_watches(&self) -> (r: &Vec<u16>)
        ensures
            r@ == self.watch_addresses@,
    {
        &self.watch_addresses
    }

    pub fn enable_trace(&mut self)
        ensures
            final(self).trace_enabled,
            final(self).trace_buffer == old(self).trace_buffer,
    {
        self.trace_enabled = true;
    }

    pub fn disable_trace(&mut self)
        ensures
            !final(self).trace_enabled,
            final(self).trace_buffer == old(self).trace_buffer,
    {
        self.trace_enabled = false;
    }

    pub fn get_trace(&self) -> (r: &Vec<TraceEntry>)
        ensures
            r@ == self.trace_buffer@,
    {
        &self.trace_buffer
    }

    pub fn clear_trace(&mut self)
        ensures
            final(self).trace_buffer@.len() == 0,
            final(self).trace_enabled == old(self).trace_enabled,
    {
        self.trace_buffer = Vec::new();
    }

    /// Whether an enabled breakpoint matches; a match pauses.
    pub fn check_breakpoint(&mut self, address: u16, bp_type: BreakpointType) -> (r: bool)
        ensures
            r == armed(old(self).breakpoints@, address, bp_type),
            final(self).state == if r {
                DebuggerState::Paused
            } else {
                old(self).state
            },
            final(self).breakpoints == old(self).breakpoints,
            final(self).trace_buffer == old(self).trace_buffer,
            final(self).trace_enabled == old(self).trace_enabled,
            final(self).step_count == old(self).step_count,
            final(self).last_pc == old(self).last_pc,
    {
        let mut i: usize = 0;
        while i < self.breakpoints.len()
            invariant
                i <= self.breakpoints@.len(),
                self.breakpoints == old(self).breakpoints,
                self.state == old(self).state,
                self.trace_buffer == old(self).trace_buffer,
                self.trace_enabled == old(self).trace_enabled,
                self.step_count == old(self).step_count,
                self.last_pc == old(self).last_pc,
                forall|j: int|
                    0 <= j < i ==> !(#[trigger] self.breakpoints@[j].address == address
                        && self.breakpoints@[j].bp_type == bp_type && self.breakpoints@[j].enabled),
            decreases self.breakpoints@.len() - i,
        {
            let b = self.breakpoints[i];
            if b.enabled && b.bp_type == bp_type && b.address == address {
                self.state = DebuggerState::Paused;
                return true;
            }
            i = i + 1;
        }
        false
    }

    /// After each instruction: a step in progress counts down and pauses
    /// at zero; while running, an execution breakpoint at PC pauses; with
    /// tracing on, a new PC adds a trace entry (past the limit the oldest
    /// half is dropped).
    pub fn update_after_step(&mut self, cpu: &Cpu)
        ensures
            final(self).last_pc == cpu.pc,
            old(self).state == DebuggerState::StepInstruction ==> final(self).step_count == (if old(self).step_count > 0 {
                old(self).step_count - 1
            } else {
                0
            }) && final(self).state == (if final(self).step_count == 0 {
                DebuggerState::Paused
            } else {
                DebuggerState::StepInstruction
            }),
            old(self).state == DebuggerState::Running ==> final(self).state == (if armed(
                old(self).breakpoints@,
                cpu.pc,
                BreakpointType::Execution,
            ) {
                DebuggerState::Paused
            } else {
                DebuggerState::Running
            }),
            old(self).state == DebuggerState::Paused || old(self).state == DebuggerState::StepFrame
                ==> final(self).state == old(self).state,
            !(old(self).trace_enabled && cpu.pc != old(self).last_pc) ==> final(self).trace_buffer
                == old(self).trace_buffer,
            old(self).trace_enabled && cpu.pc != old(self).last_pc ==> {
                let entry = TraceEntry {
                    pc: cpu.pc,
                    a: cpu.a,
                    x: cpu.x,
                    y: cpu.y,
                    sp: cpu.sp,
                    p: cpu.status.bits,
                    cycles: cpu.cycles,
                };
                let grown = old(self).trace_buffer@.push(entry);
                final(self).trace_buffer@ == if grown.len() > TRACE_LIMIT {
                    grown.subrange(5000, grown.len() as int)
                } else {
                    grown
                }
            },
    {
        if self.state == DebuggerState::StepInstruction {
            if self.step_count > 0 {
                self.step_count = self.step_count - 1;
            }
            if self.step_count == 0 {
                self.state = DebuggerState::Paused;
            }
        } else if self.state == DebuggerState::Running {
            self.check_breakpoint(cpu.pc, BreakpointType::Execution);
        }
        if self.trace_enabled && cpu.pc != self.last_pc {
            self.trace_buffer.push(
                TraceEntry {
                    pc: cpu.pc,
                    a: cpu.a,
                    x: cpu.x,
                    y: cpu.y,
                    sp: cpu.sp,
                    p: cpu.status.bits,
                    cycles: cpu.cycles,
                },
            );
            if self.trace_buffer.len() > TRACE_LIMIT {
                let mut kept: Vec<TraceEntry> = Vec::new();
                let n = self.trace_buffer.len();
                let mut i: usize = 5000;
                while i < n
                    invariant
                        5000 <= i <= n,
                        n == self.trace_buffer@.len(),
                        kept@ == self.trace_buffer@.subrange(5000, i as int),
                    decreases n - i,
                {
                    kept.push(self.trace_buffer[i]);
                    i = i + 1;
                    assert(kept@ =~= self.trace_buffer@.subrange(5000, i as int));
                }
                self.trace_buffer = kept;
            }
        }
        self.last_pc = cpu.pc;
    }

    /// Ends a frame step.
    pub fn update_after_frame(&mut self)
        ensures
            final(self).state == if old(self).state == DebuggerState::StepFrame {
                DebuggerState::Paused
            } else {
                old(self).state
            },
    {
        if self.state == DebuggerState::StepFrame {
            self.state = DebuggerState::Paused;
        }
    }
}


/// One disassembled instruction: its address, opcode byte, table entry
/// (none for a byte outside the table), operand and length in bytes. The
/// operand of a branch is its target.
#[derive(Clone, Copy, Debug, PartialEq, Eq, Structural)]
pub struct DecodedInstruction {
    pub address: u16,
    pub opcode: u8,
    pub info: Option<Opcode>,
    pub operand: u16,
    pub length: u16,
}

/// Bytes taken by an instruction in `mode`, opcode included.
pub open spec fn mode_length(mode: AddressingMode) -> u16 {
    match mode {
        AddressingMode::Implicit | AddressingMode::Accumulator => 1,
        AddressingMode::Absolute | AddressingMode::AbsoluteX | AddressingMode::AbsoluteY
        | AddressingMode::Indirect => 3,
        _ => 2,
    }
}

/// The disassembly of the instruction at `addr` in memory `m`.
pub open spec fn decode_spec(m: Map<u16, u8>, addr: u16) -> DecodedInstruction {
    let op = m[addr];
    let b1 = m[add16(addr, 1)];
    let b2 = m[add16(addr, 2)];
    match opcode_table(op) {
        None => DecodedInstruction { address: addr, opcode: op, info: None, operand: 0, length: 1 },
        Some(o) => {
            let len = mode_length(o.mode);
            let operand = if o.mode == AddressingMode::Relative {
                add16(add16(addr, 2), offset16(b1))
            } else if len == 3 {
                word(b1, b2)
            } else if len == 2 {
                b1 as u16
            } else {
                0
            };
            DecodedInstruction { address: addr, opcode: op, info: Some(o), operand, length: len }
        },
    }
}

/// Disassembles the instruction at `addr`.
pub fn decode_instruction<B: CpuBus>(bus: &mut B, addr: u16) -> (r: DecodedInstruction)
    ensures
        old(bus).inv() ==> final(bus).inv(),
        r.address == addr,
        B::is_memory() ==> (r == decode_spec(old(bus).mem(), addr)),
        B::is_memory() ==> (final(bus).mem() == old(bus).mem()),
{
    let op = bus.read(addr);
    let b1 = bus.read(addr.wrapping_add(1));
    let b2 = bus.read(addr.wrapping_add(2));
    match decode(op) {
        None => DecodedInstruction { address: addr, opcode: op, info: None, operand: 0, length: 1 },
        Some(o) => {
            let len: u16 = match o.mode {
                AddressingMode::Implicit | AddressingMode::Accumulator => 1,
                AddressingMode::Absolute | AddressingMode::AbsoluteX | AddressingMode::AbsoluteY
                | AddressingMode::Indirect => 3,
                _ => 2,
            };
            let operand: u16 = if o.mode == AddressingMode::Relative {
                let delta: u16 = if b1 < 0x80 {
                    b1 as u16
                } else {
                    b1 as u16 + 0xFF00
                };
                addr.wrapping_add(2).wrapping_add(delta)
            } else if len == 3 {
                b2 as u16 * 0x100 + b1 as u16
            } else if len == 2 {
                b1 as u16
            } else {
                0
            };
            DecodedInstruction { address: addr, opcode: op, info: Some(o), operand, length: len }
        },
    }
}

/// Disassembles `count` instructions from `address` on, each starting
/// where the previous one ends.
pub fn disassemble<B: CpuBus>(bus: &mut B, address: u16, count: usize) -> (r: Vec<DecodedInstruction>)
    ensures
        old(bus).inv() ==> final(bus).inv(),
        r@.len() == count,
        B::is_memory() ==> (final(bus).mem() == old(bus).mem()),
        count > 0 ==> r@[0].address == address,
        B::is_memory() ==> (forall|i: int| 0 <= i < count ==> #[trigger] r@[i] == decode_spec(old(bus).mem(), r@[i].address)),
        forall|i: int|
            0 <= i < count - 1 ==> #[trigger] r@[i + 1].address == add16(r@[i].address, r@[i].length),
{
    let mut out: Vec<DecodedInstruction> = Vec::new();
    let mut addr = address;
    let mut k: usize = 0;
    while k < count
        invariant
            k <= count,
            out@.len() == k,
            B::is_memory() ==> bus.mem() == old(bus).mem(),
            old(bus).inv() ==> bus.inv(),
            k == 0 ==> addr == address,
            k > 0 ==> out@[0].address == address,
            k > 0 ==> addr == add16(out@[k - 1].address, out@[k - 1].length),
            B::is_memory() ==> forall|i: int| 0 <= i < k ==> #[trigger] out@[i] == decode_spec(old(bus).mem(), out@[i].address),
            forall|i: int| 0 <= i < k - 1 ==> #[trigger] out@[i + 1].address == add16(out@[i].address, out@[i].length),
        decreases count - k,
    {
        let d = decode_instruction(bus, addr);
        out.push(d);
        addr = addr.wrapping_add(d.length);
        k = k + 1;
    }
    out
}

} // verus!
