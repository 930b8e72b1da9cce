//! The 6502 interpreter: registers, flags, stack and interrupt entry.
use vstd::prelude::*;

pub mod addressing;
pub mod instructions;
pub mod opcodes;
pub mod optimized;

use self::addressing::AddressingMode;
use self::opcodes::{decode, opcode_table, Instruction, Opcode};
use self::instructions::{extra_cycles, instruction_spec, lemma_add_cycles_twice, lemma_instruction_cycles};

verus! {

/// The processor status register. Bit 5 always reads as 1 when pushed.
#[derive(Clone, Copy, Debug, PartialEq, Eq, Structural)]
pub struct StatusFlags {
    pub bits: u8,
}

impl StatusFlags {
    pub const CARRY: u8 = 0x01;
    pub const ZERO: u8 = 0x02;
    pub const INTERRUPT: u8 = 0x04;
    pub const DECIMAL: u8 = 0x08;
    pub const BREAK: u8 = 0x10;
    pub const UNUSED: u8 = 0x20;
    pub const OVERFLOW: u8 = 0x40;
    pub const NEGATIVE: u8 = 0x80;

    /// Whether every bit of `flag` is set.
    pub fn contains(&self, flag: u8) -> (r: bool)
        ensures
            r == has_flag(self.bits, flag),
    {
        self.bits & flag == flag
    }

    /// Sets or clears the bits of `flag`.
    pub fn set(&mut self, flag: u8, on: bool)
        ensures
            final(self).bits == set_flag(old(self).bits, flag, on),
    {
        if on {
            self.bits = self.bits | flag;
        } else {
            self.bits = self.bits & !flag;
        }
    }

    /// Sets the bits of `flag`.
    pub fn insert(&mut self, flag: u8)
        ensures
            final(self).bits == set_flag(old(self).bits, flag, true),
    {
        self.set(flag, true);
    }

    /// Clears the bits of `flag`.
    pub fn remove(&mut self, flag: u8)
        ensures
            final(self).bits == set_flag(old(self).bits, flag, false),
    {
        self.set(flag, false);
    }

    /// The raw register value.
    pub fn bits(&self) -> (r: u8)
        ensures
            r == self.bits,
    {
        self.bits
    }
}

/// Sum of two bytes, modulo 256.
pub open spec fn add8(a: u8, b: u8) -> u8 {
    if a + b < 0x100 {
        (a + b) as u8
    } else {
        (a + b - 0x100) as u8
    }
}

/// Difference of two bytes, modulo 256.
pub open spec fn sub8(a: u8, b: u8) -> u8 {
    if a >= b {
        (a - b) as u8
    } else {
        (a - b + 0x100) as u8
    }
}

/// Sum of two addresses, modulo 65536.
pub open spec fn add16(a: u16, b: u16) -> u16 {
    if a + b < 0x10000 {
        (a + b) as u16
    } else {
        (a + b - 0x10000) as u16
    }
}

/// Difference of two addresses, modulo 65536.
pub open spec fn sub16(a: u16, b: u16) -> u16 {
    if a >= b {
        (a - b) as u16
    } else {
        (a - b + 0x10000) as u16
    }
}

/// The little-endian word made of `lo` and `hi`.
pub open spec fn word(lo: u8, hi: u8) -> u16 {
    (hi * 0x100 + lo) as u16
}

/// The 256-byte page an address lies in.
pub open spec fn page(a: u16) -> u16 {
    a / 0x100
}

/// The free-running cycle counter advanced by `n`.
pub open spec fn add_cycles(c: u64, n: u64) -> u64 {
    if c + n < 0x1_0000_0000_0000_0000 {
        (c + n) as u64
    } else {
        (c + n - 0x1_0000_0000_0000_0000) as u64
    }
}

/// `bits` with the bits of `flag` set or cleared.
pub open spec fn set_flag(bits: u8, flag: u8, on: bool) -> u8 {
    if on {
        bits | flag
    } else {
        bits & !flag
    }
}

/// Whether all bits of `flag` are set in `bits`.
pub open spec fn has_flag(bits: u8, flag: u8) -> bool {
    bits & flag == flag
}

/// `bits` with Z and N describing `v`.
pub open spec fn zn(bits: u8, v: u8) -> u8 {
    set_flag(set_flag(bits, StatusFlags::ZERO, v == 0), StatusFlags::NEGATIVE, v & 0x80 != 0)
}

/// The stack address for stack pointer `sp`.
pub open spec fn stack_addr(sp: u8) -> u16 {
    (0x100 + sp) as u16
}

/// The byte pushed for the status register by an interrupt (B clear, U set).
pub open spec fn interrupt_status_byte(bits: u8) -> u8 {
    bits & !StatusFlags::BREAK | StatusFlags::UNUSED
}

/// The byte pushed for the status register by BRK and PHP (B and U set).
pub open spec fn pushed_status_byte(bits: u8) -> u8 {
    bits | StatusFlags::BREAK | StatusFlags::UNUSED
}

/// What the CPU sees of the machine: a 16-bit address space.
///
/// A bus that behaves as plain memory (`is_memory`) describes itself by
/// `mem`: a read returns the byte there and changes nothing, a write
/// replaces that one byte. The CPU's contracts speak of such buses. A bus
/// with devices behind some addresses (registers whose reads have effects)
/// keeps the defaults, and the CPU promises nothing about its memory.
pub trait CpuBus {
    /// Whether reads and writes act as on plain memory.
    open spec fn is_memory() -> bool {
        false
    }

    /// What the bus keeps true of itself across reads and writes.
    open spec fn inv(&self) -> bool {
        true
    }

    /// What a read of `addr` returning `r` may do, leaving `post`.
    open spec fn read_ok(&self, addr: u16, r: u8, post: &Self) -> bool {
        true
    }

    /// What a write of `value` at `addr` may do, leaving `post`.
    open spec fn write_ok(&self, addr: u16, value: u8, post: &Self) -> bool {
        true
    }

    /// The byte at each address, for a bus that is plain memory.
    open spec fn mem(&self) -> Map<u16, u8> {
        Map::empty()
    }

    fn read(&mut self, addr: u16) -> (r: u8)
        ensures
            Self::is_memory() ==> r == old(self).mem()[addr] && final(self).mem() == old(self).mem(),
            old(self).inv() ==> final(self).inv(),
            old(self).read_ok(addr, r, final(self)),
    ;

    fn write(&mut self, addr: u16, value: u8)
        ensures
            Self::is_memory() ==> final(self).mem() == old(self).mem().insert(addr, value),
            old(self).inv() ==> final(self).inv(),
            old(self).write_ok(addr, value, final(self)),
    ;
}

/// 64 KiB of plain memory as a bus.
pub struct FlatMemory {
    pub bytes: [u8; 0x10000],
}

impl CpuBus for FlatMemory {
    open spec fn is_memory() -> bool {
        true
    }

    open spec fn mem(&self) -> Map<u16, u8> {
        Map::new(|a: u16| true, |a: u16| self.bytes@[a as int])
    }

    fn read(&mut self, addr: u16) -> (r: u8) {
        self.bytes[addr as usize]
    }

    fn write(&mut self, addr: u16, value: u8) {
        let ghost before = self.mem();
        self.bytes[addr as usize] = value;
        assert forall|a: u16| #[trigger] self.mem()[a] == before.insert(addr, value)[a] by {
            if a != addr {
                assert(a as int != addr as int);
            }
        }
        assert(self.mem() =~= before.insert(addr, value));
    }
}

impl FlatMemory {
    /// All zeros.
    pub fn new() -> (r: FlatMemory)
        ensures
            forall|a: u16| #[trigger] r.mem()[a] == 0,
    {
        FlatMemory { bytes: [0u8; 0x10000] }
    }
}

#[derive(Clone, Copy, Debug)]
pub struct Cpu {
    pub a: u8,
    pub x: u8,
    pub y: u8,
    pub sp: u8,
    pub pc: u16,
    pub status: StatusFlags,
    pub cycles: u64,
    pub stall_cycles: u32,
    pub nmi_pending: bool,
    pub irq_pending: bool,
}

/// A state of the CPU together with the memory it sees.
pub type Machine = (Cpu, Map<u16, u8>);

/// The state of the CPU after power-on, before the reset vector is read.
pub open spec fn power_on_cpu() -> Cpu {
    Cpu {
        a: 0,
        x: 0,
        y: 0,
        sp: 0xFD,
        pc: 0,
        status: StatusFlags { bits: 0x24 },
        cycles: 0,
        stall_cycles: 0,
        nmi_pending: false,
        irq_pending: false,
    }
}

/// The CPU after RESET: power-on registers and PC from the reset vector.
pub open spec fn reset_spec(m: Map<u16, u8>) -> Cpu {
    Cpu { pc: word_at(m, 0xFFFC), ..power_on_cpu() }
}

/// RESET leaves memory alone and forgets the CPU state it starts from, so
/// a second reset lands in the state the first one left.
pub proof fn lemma_reset_idempotent(s: Machine)
    ensures
        ({
            let once: Machine = (reset_spec(s.1), s.1);
            let twice: Machine = (reset_spec(once.1), once.1);
            twice == once
        }),
{
}

/// Pushing `v`: the byte goes to the current stack slot and `sp` decrements.
pub open spec fn push_spec(s: Machine, v: u8) -> Machine {
    (
        Cpu { sp: sub8(s.0.sp, 1), ..s.0 },
        s.1.insert(stack_addr(s.0.sp), v),
    )
}

/// Pushing a word: high byte first.
pub open spec fn push_word_spec(s: Machine, v: u16) -> Machine {
    push_spec(push_spec(s, (v / 0x100) as u8), (v % 0x100) as u8)
}

/// Pulling a byte: `sp` increments, then the byte at the new slot is read.
pub open spec fn pop_spec(s: Machine) -> (Machine, u8) {
    let sp = add8(s.0.sp, 1);
    ((Cpu { sp: sp, ..s.0 }, s.1), s.1[stack_addr(sp)])
}

/// Pulling a word: low byte first.
pub open spec fn pop_word_spec(s: Machine) -> (Machine, u16) {
    let (s1, lo) = pop_spec(s);
    let (s2, hi) = pop_spec(s1);
    (s2, word(lo, hi))
}

/// The little-endian word at `addr` and `addr + 1`.
pub open spec fn word_at(m: Map<u16, u8>, addr: u16) -> u16 {
    word(m[addr], m[add16(addr, 1)])
}

/// Entering an interrupt handler through `vector`: push PC and P (B clear),
/// set I, load PC from the vector, and spend 7 cycles.
pub open spec fn interrupt_entry_spec(s: Machine, vector: u16) -> Machine {
    let s1 = push_word_spec(s, s.0.pc);
    let s2 = push_spec(s1, interrupt_status_byte(s.0.status.bits));
    (
        Cpu {
            pc: word_at(s2.1, vector),
            status: StatusFlags {
                bits: set_flag(s.0.status.bits, StatusFlags::INTERRUPT, true),
            },
            cycles: add_cycles(s.0.cycles, 7),
            ..s2.0
        },
        s2.1,
    )
}

/// Interrupt servicing before a fetch: NMI first, then IRQ while I is clear.
pub open spec fn interrupts_spec(s: Machine) -> Machine {
    if s.0.nmi_pending {
        interrupt_entry_spec((Cpu { nmi_pending: false, ..s.0 }, s.1), 0xFFFA)
    } else if s.0.irq_pending && !has_flag(s.0.status.bits, StatusFlags::INTERRUPT) {
        interrupt_entry_spec((Cpu { irq_pending: false, ..s.0 }, s.1), 0xFFFE)
    } else {
        s
    }
}

/// The state in which an instruction is fetched: no stall left and
/// pending interrupts entered.
pub open spec fn fetch_state(s: Machine) -> Machine {
    interrupts_spec(s)
}

/// Whether the next `step` from `s` meets a byte of the opcode table.
pub open spec fn step_is_defined(s: Machine) -> bool {
    s.0.stall_cycles > 0 || opcode_table(fetch_state(s).1[fetch_state(s).0.pc]) is Some
}

/// One `step`: a stalled CPU burns one cycle; otherwise interrupts are
/// entered, then one instruction is fetched and executed.
pub open spec fn step_spec(s: Machine) -> (Machine, u64) {
    if s.0.stall_cycles > 0 {
        ((Cpu { stall_cycles: (s.0.stall_cycles - 1) as u32, ..s.0 }, s.1), 1)
    } else {
        let f = fetch_state(s);
        let op = opcode_table(f.1[f.0.pc]).unwrap();
        let fetched = (
            Cpu { pc: add16(f.0.pc, 1), cycles: add_cycles(f.0.cycles, op.cycles as u64), ..f.0 },
            f.1,
        );
        let done = instruction_spec(op.instruction, op.mode, fetched);
        (done, cycles_between(s.0.cycles, done.0.cycles))
    }
}

/// Cycles elapsed between two readings of the wrapping counter.
pub open spec fn cycles_between(start: u64, end: u64) -> u64 {
    if end >= start {
        (end - start) as u64
    } else {
        (end - start + 0x1_0000_0000_0000_0000) as u64
    }
}

/// Reading the counter back after advancing it by `k` gives `k`.
pub proof fn lemma_cycles_between(c: u64, k: u64)
    ensures
        cycles_between(c, add_cycles(c, k)) == k,
{
}

impl Cpu {
    /// A CPU in its power-on state.
    pub fn new() -> (r: Cpu)
        ensures
            r == power_on_cpu(),
    {
        Cpu {
            a: 0,
            x: 0,
            y: 0,
            sp: 0xFD,
            pc: 0,
            status: StatusFlags { bits: 0x24 },
            cycles: 0,
            stall_cycles: 0,
            nmi_pending: false,
            irq_pending: false,
        }
    }

    /// Clears the registers, sets S to 0xFD and P to I|U, and loads PC
    /// from the reset vector at 0xFFFC.
    pub fn reset<B: CpuBus>(&mut self, bus: &mut B)
        ensures
            old(bus).inv() ==> final(bus).inv(),
            B::is_memory() ==> (*final(self) == reset_spec(old(bus).mem())),
            B::is_memory() ==> (final(bus).mem() == old(bus).mem()),
    {
        self.a = 0;
        self.x = 0;
        self.y = 0;
        self.sp = 0xFD;
        self.status = StatusFlags { bits: 0x24 };
        let lo = bus.read(0xFFFC) as u16;
        let hi = bus.read(0xFFFD) as u16;
        self.pc = hi * 0x100 + lo;
        self.cycles = 0;
        self.stall_cycles = 0;
        self.nmi_pending = false;
        self.irq_pending = false;
    }

    /// Runs one instruction (or one stalled cycle) and returns the cycles
    /// it took.
    pub fn step<B: CpuBus>(&mut self, bus: &mut B) -> (r: u32)
        requires
            B::is_memory() ==> (step_is_defined((*old(self), old(bus).mem()))),
        ensures
            old(bus).inv() ==> final(bus).inv(),
            B::is_memory() ==> ((*final(self), final(bus).mem()) == step_spec((*old(self), old(bus).mem())).0),
            B::is_memory() ==> (r as u64 == step_spec((*old(self), old(bus).mem())).1),
    {
        if self.stall_cycles > 0 {
            self.stall_cycles = self.stall_cycles - 1;
            return 1;
        }
        let start = self.cycles;
        self.handle_interrupts(bus);
        let ghost interrupt_cycles: u64 = if self.cycles == start { 0 } else { 7 };
        let opcode = bus.read(self.pc);
        if decode(opcode).is_none() {
            // Outside the table the processor jams: nothing more runs.
            return 0;
        }
        self.pc = self.pc.wrapping_add(1);
        let ghost fetched = *self;
        let ghost fetched_mem = bus.mem();
        self.execute_instruction(opcode, bus);
        proof {
            let op = opcode_table(opcode).unwrap();
            let based = (
                Cpu { cycles: add_cycles(fetched.cycles, op.cycles as u64), ..fetched },
                fetched_mem,
            );
            lemma_instruction_cycles(op.instruction, op.mode, based);
            let extra = extra_cycles(op.instruction, op.mode, based);
            assert(add_cycles(start, 0) == start);
            lemma_add_cycles_twice(start, interrupt_cycles, op.cycles as u64);
            lemma_add_cycles_twice(start, (interrupt_cycles + op.cycles) as u64, extra);
            lemma_cycles_between(start, (interrupt_cycles + op.cycles + extra) as u64);
        }
        let spent = self.cycles.wrapping_sub(start);
        spent as u32
    }

    /// Adds the opcode's base cycles and runs its instruction.
    fn execute_instruction<B: CpuBus>(&mut self, opcode_byte: u8, bus: &mut B)
        requires
            opcode_table(opcode_byte) is Some,
        ensures
            old(bus).inv() ==> final(bus).inv(),
            B::is_memory() ==> (({
                let op = opcode_table(opcode_byte).unwrap();
                (*final(self), final(bus).mem()) == instruction_spec(
                    op.instruction,
                    op.mode,
                    (
                        Cpu { cycles: add_cycles(old(self).cycles, op.cycles as u64), ..*old(self) },
                        old(bus).mem(),
                    ),
                )
            })),
    {
        let opcode = decode(opcode_byte).unwrap();
        self.cycles = self.cycles.wrapping_add(opcode.cycles as u64);
        self.run(opcode, bus);
    }

    /// Runs the instruction of a decoded opcode.
    fn run<B: CpuBus>(&mut self, opcode: Opcode, bus: &mut B)
        ensures
            old(bus).inv() ==> final(bus).inv(),
            B::is_memory() ==> ((*final(self), final(bus).mem()) == instruction_spec(
                opcode.instruction,
                opcode.mode,
                (*old(self), old(bus).mem()),
            )),
    {
        if opcode.instruction == Instruction::LDA || opcode.instruction == Instruction::LDX || opcode.instruction == Instruction::LDY || opcode.instruction == Instruction::STA || opcode.instruction == Instruction::STX || opcode.instruction == Instruction::STY || opcode.instruction == Instruction::TAX || opcode.instruction == Instruction::TAY || opcode.instruction == Instruction::TXA || opcode.instruction == Instruction::TYA || opcode.instruction == Instruction::TSX || opcode.instruction == Instruction::TXS || opcode.instruction == Instruction::PHA || opcode.instruction == Instruction::PHP || opcode.instruction == Instruction::PLA || opcode.instruction == Instruction::PLP || opcode.instruction == Instruction::AND || opcode.instruction == Instruction::EOR || opcode.instruction == Instruction::ORA || opcode.instruction == Instruction::BIT || opcode.instruction == Instruction::ADC || opcode.instruction == Instruction::SBC || opcode.instruction == Instruction::CMP || opcode.instruction == Instruction::CPX || opcode.instruction == Instruction::CPY || opcode.instruction == Instruction::INC || opcode.instruction == Instruction::INX || opcode.instruction == Instruction::INY {
            self.run_first(opcode, bus);
        } else {
            self.run_second(opcode, bus);
        }
    }

    /// Runs an instruction of the first half of the set.
    fn run_first<B: CpuBus>(&mut self, opcode: Opcode, bus: &mut B)
        requires
            opcode.instruction == Instruction::LDA || opcode.instruction == Instruction::LDX || opcode.instruction == Instruction::LDY || opcode.instruction == Instruction::STA || opcode.instruction == Instruction::STX || opcode.instruction == Instruction::STY || opcode.instruction == Instruction::TAX || opcode.instruction == Instruction::TAY || opcode.instruction == Instruction::TXA || opcode.instruction == Instruction::TYA || opcode.instruction == Instruction::TSX || opcode.instruction == Instruction::TXS || opcode.instruction == Instruction::PHA || opcode.instruction == Instruction::PHP || opcode.instruction == Instruction::PLA || opcode.instruction == Instruction::PLP || opcode.instruction == Instruction::AND || opcode.instruction == Instruction::EOR || opcode.instruction == Instruction::ORA || opcode.instruction == Instruction::BIT || opcode.instruction == Instruction::ADC || opcode.instruction == Instruction::SBC || opcode.instruction == Instruction::CMP || opcode.instruction == Instruction::CPX || opcode.instruction == Instruction::CPY || opcode.instruction == Instruction::INC || opcode.instruction == Instruction::INX || opcode.instruction == Instruction::INY,
        ensures
            old(bus).inv() ==> final(bus).inv(),
            B::is_memory() ==> ((*final(self), final(bus).mem()) == instruction_spec(
                opcode.instruction,
                opcode.mode,
                (*old(self), old(bus).mem()),
            )),
    {
        let mode = opcode.mode;
        match opcode.instruction {
            Instruction::LDA => self.lda(bus, mode),
            Instruction::LDX => self.ldx(bus, mode),
            Instruction::LDY => self.ldy(bus, mode),
            Instruction::STA => self.sta(bus, mode),
            Instruction::STX => self.stx(bus, mode),
            Instruction::STY => self.sty(bus, mode),
            Instruction::TAX => {
                self.tax();
                proof {
                    reveal(instruction_spec);
                }
            },
            Instruction::TAY => {
                self.tay();
                proof {
                    reveal(instruction_spec);
                }
            },
            Instruction::TXA => {
                self.txa();
                proof {
                    reveal(instruction_spec);
                }
            },
            Instruction::TYA => {
                self.tya();
                proof {
                    reveal(instruction_spec);
                }
            },
            Instruction::TSX => {
                self.tsx();
                proof {
                    reveal(instruction_spec);
                }
            },
            Instruction::TXS => {
                self.txs();
                proof {
                    reveal(instruction_spec);
                }
            },
            Instruction::PHA => {
                self.pha(bus);
                proof {
                    reveal(instruction_spec);
                }
            },
            Instruction::PHP => {
                self.php(bus);
                proof {
                    reveal(instruction_spec);
                }
            },
            Instruction::PLA => {
                self.pla(bus);
                proof {
                    reveal(instruction_spec);
                }
            },
            Instruction::PLP => {
                self.plp(bus);
                proof {
                    reveal(instruction_spec);
                }
            },
            Instruction::AND => self.and(bus, mode),
            Instruction::EOR => self.eor(bus, mode),
            Instruction::ORA => self.ora(bus, mode),
            Instruction::BIT => self.bit(bus, mode),
            Instruction::ADC => self.adc(bus, mode),
            Instruction::SBC => self.sbc(bus, mode),
            Instruction::CMP => self.cmp(bus, mode),
            Instruction::CPX => self.cpx(bus, mode),
            Instruction::CPY => self.cpy(bus, mode),
            Instruction::INC => self.inc(bus, mode),
            Instruction::INX => {
                self.inx();
                proof {
                    reveal(instruction_spec);
                }
            },
            Instruction::INY => {
                self.iny();
                proof {
                    reveal(instruction_spec);
                }
            },
            _ => {},
        }
    }

    /// Runs an instruction of the second half of the set.
    fn run_second<B: CpuBus>(&mut self, opcode: Opcode, bus: &mut B)
        requires
            opcode.instruction == Instruction::DEC || opcode.instruction == Instruction::DEX || opcode.instruction == Instruction::DEY || opcode.instruction == Instruction::ASL || opcode.instruction == Instruction::LSR || opcode.instruction == Instruction::ROL || opcode.instruction == Instruction::ROR || opcode.instruction == Instruction::JMP || opcode.instruction == Instruction::JSR || opcode.instruction == Instruction::RTS || opcode.instruction == Instruction::RTI || opcode.instruction == Instruction::BCC || opcode.instruction == Instruction::BCS || opcode.instruction == Instruction::BEQ || opcode.instruction == Instruction::BNE || opcode.instruction == Instruction::BMI || opcode.instruction == Instruction::BPL || opcode.instruction == Instruction::BVC || opcode.instruction == Instruction::BVS || opcode.instruction == Instruction::CLC || opcode.instruction == Instruction::CLD || opcode.instruction == Instruction::CLI || opcode.instruction == Instruction::CLV || opcode.instruction == Instruction::SEC || opcode.instruction == Instruction::SED || opcode.instruction == Instruction::SEI || opcode.instruction == Instruction::BRK || opcode.instruction == Instruction::NOP,
        ensures
            old(bus).inv() ==> final(bus).inv(),
            B::is_memory() ==> ((*final(self), final(bus).mem()) == instruction_spec(
                opcode.instruction,
                opcode.mode,
                (*old(self), old(bus).mem()),
            )),
    {
        let mode = opcode.mode;
        match opcode.instruction {
            Instruction::DEC => self.dec(bus, mode),
            Instruction::DEX => {
                self.dex();
                proof {
                    reveal(instruction_spec);
                }
            },
            Instruction::DEY => {
                self.dey();
                proof {
                    reveal(instruction_spec);
                }
            },
            Instruction::ASL => self.asl(bus, mode),
            Instruction::LSR => self.lsr(bus, mode),
            Instruction::ROL => self.rol(bus, mode),
            Instruction::ROR => self.ror(bus, mode),
            Instruction::JMP => {
                let (addr, _) = self.get_operand_address(mode, bus);
                self.jmp(bus, mode, addr);
                proof {
                    reveal(instruction_spec);
                }
            },
            Instruction::JSR => {
                let (addr, _) = self.get_operand_address(mode, bus);
                self.jsr(bus, addr);
                proof {
                    reveal(instruction_spec);
                }
            },
            Instruction::RTS => {
                self.rts(bus);
                proof {
                    reveal(instruction_spec);
                }
            },
            Instruction::RTI => {
                self.rti(bus);
                proof {
                    reveal(instruction_spec);
                }
            },
            Instruction::BCC => {
                self.bcc(bus);
                proof {
                    reveal(instruction_spec);
                }
            },
            Instruction::BCS => {
                self.bcs(bus);
                proof {
                    reveal(instruction_spec);
                }
            },
            Instruction::BEQ => {
                self.beq(bus);
                proof {
                    reveal(instruction_spec);
                }
            },
            Instruction::BNE => {
                self.bne(bus);
                proof {
                    reveal(instruction_spec);
                }
            },
            Instruction::BMI => {
                self.bmi(bus);
                proof {
                    reveal(instruction_spec);
                }
            },
            Instruction::BPL => {
                self.bpl(bus);
                proof {
                    reveal(instruction_spec);
                }
            },
            Instruction::BVC => {
                self.bvc(bus);
                proof {
                    reveal(instruction_spec);
                }
            },
            Instruction::BVS => {
                self.bvs(bus);
                proof {
                    reveal(instruction_spec);
                }
            },
            Instruction::CLC => {
                self.clc();
                proof {
                    reveal(instruction_spec);
                }
            },
            Instruction::CLD => {
                self.cld();
                proof {
                    reveal(instruction_spec);
                }
            },
            Instruction::CLI => {
                self.cli();
                proof {
                    reveal(instruction_spec);
                }
            },
            Instruction::CLV => {
                self.clv();
                proof {
                    reveal(instruction_spec);
                }
            },
            Instruction::SEC => {
                self.sec();
                proof {
                    reveal(instruction_spec);
                }
            },
            Instruction::SED => {
                self.sed();
                proof {
                    reveal(instruction_spec);
                }
            },
            Instruction::SEI => {
                self.sei();
                proof {
                    reveal(instruction_spec);
                }
            },
            Instruction::BRK => {
                self.brk(bus);
                proof {
                    reveal(instruction_spec);
                }
            },
            Instruction::NOP => {
                self.nop();
                proof {
                    reveal(instruction_spec);
                }
            },
            _ => {},
        }
    }

    /// Software interrupt: pushes PC + 1 (the address after the padding
    /// byte) and P with B set, sets I, and continues at the IRQ vector.
    pub fn brk<B: CpuBus>(&mut self, bus: &mut B)
        ensures
            old(bus).inv() ==> final(bus).inv(),
            B::is_memory() ==> ((*final(self), final(bus).mem()) == instruction_spec(
                Instruction::BRK,
                AddressingMode::Implicit,
                (*old(self), old(bus).mem()),
            )),
    {
        let bits = self.status.bits;
        self.pc = self.pc.wrapping_add(1);
        proof {
            reveal(instruction_spec);
        }
        let pc = self.pc;
        self.push_word(pc, bus);
        self.push(bits | StatusFlags::BREAK | StatusFlags::UNUSED, bus);
        self.status.insert(StatusFlags::INTERRUPT);
        self.pc = self.read_word(0xFFFE, bus);
    }

    /// Does nothing.
    pub fn nop(&mut self)
        ensures
            *final(self) == *old(self),
    {
    }

    /// Writes `value` at the stack slot and decrements S.
    pub fn push<B: CpuBus>(&mut self, value: u8, bus: &mut B)
        ensures
            old(bus).inv() ==> final(bus).inv(),
            B::is_memory() ==> ((*final(self), final(bus).mem()) == push_spec((*old(self), old(bus).mem()), value)),
    {
        bus.write(0x100 + self.sp as u16, value);
        self.sp = self.sp.wrapping_sub(1);
    }

    /// Pushes a word, high byte first.
    pub fn push_word<B: CpuBus>(&mut self, value: u16, bus: &mut B)
        ensures
            old(bus).inv() ==> final(bus).inv(),
            B::is_memory() ==> ((*final(self), final(bus).mem()) == push_word_spec((*old(self), old(bus).mem()), value)),
    {
        self.push((value / 0x100) as u8, bus);
        self.push((value % 0x100) as u8, bus);
    }

    /// Increments S and reads the byte at the new stack slot.
    pub fn pop<B: CpuBus>(&mut self, bus: &mut B) -> (r: u8)
        ensures
            old(bus).inv() ==> final(bus).inv(),
            B::is_memory() ==> (((*final(self), final(bus).mem()), r) == pop_spec((*old(self), old(bus).mem()))),
    {
        self.sp = self.sp.wrapping_add(1);
        bus.read(0x100 + self.sp as u16)
    }

    /// Reads the little-endian word at `addr`.
    pub fn read_word<B: CpuBus>(&self, addr: u16, bus: &mut B) -> (r: u16)
        ensures
            old(bus).inv() ==> final(bus).inv(),
            B::is_memory() ==> (r == word_at(old(bus).mem(), addr)),
            B::is_memory() ==> (final(bus).mem() == old(bus).mem()),
    {
        let lo = bus.read(addr) as u16;
        let hi = bus.read(addr.wrapping_add(1)) as u16;
        hi * 0x100 + lo
    }

    /// Latches a non-maskable interrupt for the next instruction boundary.
    pub fn trigger_nmi(&mut self)
        ensures
            *final(self) == (Cpu { nmi_pending: true, ..*old(self) }),
    {
        self.nmi_pending = true;
    }

    /// Raises the IRQ line; it stays pending until serviced or lowered,
    /// and is serviced only while I is clear.
    pub fn trigger_irq(&mut self)
        ensures
            *final(self) == (Cpu { irq_pending: true, ..*old(self) }),
    {
        self.irq_pending = true;
    }

    /// Sets the IRQ line to `level` (the devices hold it as a level).
    pub fn set_irq_line(&mut self, level: bool)
        ensures
            *final(self) == (Cpu { irq_pending: level, ..*old(self) }),
    {
        self.irq_pending = level;
    }

    /// Enters the handler of a pending NMI, or of a pending IRQ while I is
    /// clear.
    fn handle_interrupts<B: CpuBus>(&mut self, bus: &mut B)
        ensures
            old(bus).inv() ==> final(bus).inv(),
            B::is_memory() ==> ((*final(self), final(bus).mem()) == interrupts_spec((*old(self), old(bus).mem()))),
    {
        if self.nmi_pending {
            self.nmi_pending = false;
            self.enter_interrupt(0xFFFA, bus);
        } else if self.irq_pending && !self.status.contains(StatusFlags::INTERRUPT) {
            self.irq_pending = false;
            self.enter_interrupt(0xFFFE, bus);
        }
    }

    /// Pushes PC and P (B clear, U set), sets I and jumps through `vector`.
    fn enter_interrupt<B: CpuBus>(&mut self, vector: u16, bus: &mut B)
        ensures
            old(bus).inv() ==> final(bus).inv(),
            B::is_memory() ==> ((*final(self), final(bus).mem()) == interrupt_entry_spec((*old(self), old(bus).mem()), vector)),
    {
        let bits = self.status.bits;
        let pc = self.pc;
        self.push_word(pc, bus);
        self.push(bits & !StatusFlags::BREAK | StatusFlags::UNUSED, bus);
        self.status.insert(StatusFlags::INTERRUPT);
        self.pc = self.read_word(vector, bus);
        self.cycles = self.cycles.wrapping_add(7);
    }
}

} // verus!
