//! The official instruction set: what each instruction does to the
//! registers, the flags, the stack and memory.
use vstd::prelude::*;

use crate::cpu::addressing::{operand_spec, offset16, AddressingMode};
use crate::cpu::opcodes::{Instruction, Opcode};
use crate::cpu::{
    add16, add8, add_cycles, has_flag, page, word, pop_spec, pop_word_spec, push_spec, push_word_spec,
    pushed_status_byte, set_flag, sub16, sub8, word_at, zn, Cpu, CpuBus, Machine, StatusFlags,
};

verus! {

/// `c` with status register `bits`.
pub open spec fn with_status(c: Cpu, bits: u8) -> Cpu {
    Cpu { status: StatusFlags { bits: bits }, ..c }
}

/// `c` with one more cycle spent when `crossed`.
pub open spec fn page_penalty(c: Cpu, crossed: bool) -> Cpu {
    if crossed {
        Cpu { cycles: add_cycles(c.cycles, 1), ..c }
    } else {
        c
    }
}

/// The carry flag as 0 or 1.
pub open spec fn carry_in(c: Cpu) -> u8 {
    if has_flag(c.status.bits, StatusFlags::CARRY) {
        1
    } else {
        0
    }
}

/// The status after comparing register `r` with memory `v`.
pub open spec fn compare_bits(bits: u8, r: u8, v: u8) -> u8 {
    set_flag(
        set_flag(set_flag(bits, StatusFlags::CARRY, r >= v), StatusFlags::ZERO, r == v),
        StatusFlags::NEGATIVE,
        sub8(r, v) & 0x80 != 0,
    )
}

/// The status pulled by PLP and RTI: B ignored, U forced.
pub open spec fn pulled_status(v: u8) -> u8 {
    set_flag(v | StatusFlags::UNUSED, StatusFlags::BREAK, false)
}

/// Binary add with carry: the result byte, the carry out and the overflow.
pub open spec fn adc_spec(a: u8, v: u8, carry: u8) -> (u8, bool, bool) {
    let sum = a + v + carry;
    let r = (sum % 0x100) as u8;
    (r, sum > 0xFF, (a ^ r) & (v ^ r) & 0x80 != 0)
}

/// Binary subtract with borrow: the result byte, the carry out (no
/// borrow) and the overflow.
pub open spec fn sbc_spec(a: u8, v: u8, carry: u8) -> (u8, bool, bool) {
    let diff = a - v - (1 - carry);
    let r = ((diff + 0x100) % 0x100) as u8;
    (r, diff >= 0, (a ^ r) & (a ^ v) & 0x80 != 0)
}

/// The status after an arithmetic result with carry and overflow.
pub open spec fn arith_bits(bits: u8, r: u8, carry: bool, overflow: bool) -> u8 {
    zn(set_flag(set_flag(bits, StatusFlags::CARRY, carry), StatusFlags::OVERFLOW, overflow), r)
}

/// Which of the read-modify-write operations is meant.
pub open spec fn shift_spec(ins: Instruction, v: u8, carry: u8) -> (u8, bool) {
    match ins {
        Instruction::ASL => (v << 1u8, v & 0x80 != 0),
        Instruction::LSR => (v >> 1u8, v & 0x01 != 0),
        Instruction::ROL => ((v << 1u8) | carry, v & 0x80 != 0),
        _ => ((v >> 1u8) | (carry * 0x80) as u8, v & 0x01 != 0),
    }
}

/// The branch condition of a branch instruction.
pub open spec fn branch_condition(ins: Instruction, bits: u8) -> bool {
    match ins {
        Instruction::BCC => !has_flag(bits, StatusFlags::CARRY),
        Instruction::BCS => has_flag(bits, StatusFlags::CARRY),
        Instruction::BEQ => has_flag(bits, StatusFlags::ZERO),
        Instruction::BNE => !has_flag(bits, StatusFlags::ZERO),
        Instruction::BMI => has_flag(bits, StatusFlags::NEGATIVE),
        Instruction::BPL => !has_flag(bits, StatusFlags::NEGATIVE),
        Instruction::BVC => !has_flag(bits, StatusFlags::OVERFLOW),
        _ => has_flag(bits, StatusFlags::OVERFLOW),
    }
}

/// Whether `ins` is one of the eight conditional branches.
pub open spec fn is_branch(ins: Instruction) -> bool {
    ins == Instruction::BCC || ins == Instruction::BCS || ins == Instruction::BEQ || ins
        == Instruction::BNE || ins == Instruction::BMI || ins == Instruction::BPL || ins
        == Instruction::BVC || ins == Instruction::BVS
}

/// A branch from a CPU whose PC points at the offset byte: one extra
/// cycle when taken, one more when the target lies on another page.
pub open spec fn branch_spec(c: Cpu, taken: bool, off: u8) -> Cpu {
    let pc1 = add16(c.pc, 1);
    let target = add16(pc1, offset16(off));
    if taken {
        let c1 = Cpu { pc: target, cycles: add_cycles(c.cycles, 1), ..c };
        page_penalty(c1, page(pc1) != page(target))
    } else {
        Cpu { pc: pc1, ..c }
    }
}

/// Whether `ins` spends one more cycle when indexing crosses a page.
pub open spec fn has_page_penalty(ins: Instruction) -> bool {
    ins == Instruction::LDA || ins == Instruction::LDX || ins == Instruction::LDY || ins
        == Instruction::AND || ins == Instruction::EOR || ins == Instruction::ORA || ins
        == Instruction::ADC || ins == Instruction::SBC || ins == Instruction::CMP
}

/// The cycles an instruction spends beyond its base count: for a branch,
/// one when taken and one more when the target is on another page; for the
/// indexed reads, one when indexing crossed a page; none otherwise.
pub open spec fn extra_cycles(ins: Instruction, mode: AddressingMode, s: Machine) -> u64 {
    if is_branch(ins) {
        let pc1 = add16(s.0.pc, 1);
        let target = add16(pc1, offset16(s.1[s.0.pc]));
        if !branch_condition(ins, s.0.status.bits) {
            0
        } else if page(pc1) != page(target) {
            2
        } else {
            1
        }
    } else if has_page_penalty(ins) && operand_spec(s.0, s.1, mode).1 {
        1
    } else {
        0
    }
}

/// Two advances of the cycle counter add up.
pub proof fn lemma_add_cycles_twice(c: u64, a: u64, b: u64)
    requires
        a + b < 0x1_0000_0000_0000_0000,
    ensures
        add_cycles(add_cycles(c, a), b) == add_cycles(c, (a + b) as u64),
{
}

/// An instruction advances the cycle counter by exactly its extra cycles,
/// which are at most two.
pub proof fn lemma_instruction_cycles(ins: Instruction, mode: AddressingMode, s: Machine)
    ensures
        instruction_spec(ins, mode, s).0.cycles == add_cycles(s.0.cycles, extra_cycles(ins, mode, s)),
        extra_cycles(ins, mode, s) <= 2,
{
    reveal(instruction_spec);
    lemma_add_cycles_twice(s.0.cycles, 1, 1);
    assert(add_cycles(s.0.cycles, 0) == s.0.cycles);
}

/// What executing `ins` in `mode` does, from the state right after the
/// opcode byte was fetched and its base cycles counted.
#[verifier::opaque]
pub open spec fn instruction_spec(ins: Instruction, mode: AddressingMode, s: Machine) -> Machine {
    let c = s.0;
    let m = s.1;
    let (addr, crossed, pc) = operand_spec(c, m, mode);
    let cp = Cpu { pc: pc, ..c };
    let v = m[addr];
    let bits = c.status.bits;
    match ins {
        Instruction::LDA => (page_penalty(with_status(Cpu { a: v, ..cp }, zn(bits, v)), crossed), m),
        Instruction::LDX => (page_penalty(with_status(Cpu { x: v, ..cp }, zn(bits, v)), crossed), m),
        Instruction::LDY => (page_penalty(with_status(Cpu { y: v, ..cp }, zn(bits, v)), crossed), m),
        Instruction::STA => (cp, m.insert(addr, c.a)),
        Instruction::STX => (cp, m.insert(addr, c.x)),
        Instruction::STY => (cp, m.insert(addr, c.y)),
        Instruction::TAX => (with_status(Cpu { x: c.a, ..c }, zn(bits, c.a)), m),
        Instruction::TAY => (with_status(Cpu { y: c.a, ..c }, zn(bits, c.a)), m),
        Instruction::TXA => (with_status(Cpu { a: c.x, ..c }, zn(bits, c.x)), m),
        Instruction::TYA => (with_status(Cpu { a: c.y, ..c }, zn(bits, c.y)), m),
        Instruction::TSX => (with_status(Cpu { x: c.sp, ..c }, zn(bits, c.sp)), m),
        Instruction::TXS => (Cpu { sp: c.x, ..c }, m),
        Instruction::PHA => push_spec(s, c.a),
        Instruction::PHP => push_spec(s, pushed_status_byte(bits)),
        Instruction::PLA => {
            let (s1, p) = pop_spec(s);
            (with_status(Cpu { a: p, ..s1.0 }, zn(bits, p)), s1.1)
        },
        Instruction::PLP => {
            let (s1, p) = pop_spec(s);
            (with_status(s1.0, pulled_status(p)), s1.1)
        },
        Instruction::AND => {
            let r = c.a & v;
            (page_penalty(with_status(Cpu { a: r, ..cp }, zn(bits, r)), crossed), m)
        },
        Instruction::EOR => {
            let r = c.a ^ v;
            (page_penalty(with_status(Cpu { a: r, ..cp }, zn(bits, r)), crossed), m)
        },
        Instruction::ORA => {
            let r = c.a | v;
            (page_penalty(with_status(Cpu { a: r, ..cp }, zn(bits, r)), crossed), m)
        },
        Instruction::BIT => {
            let b1 = set_flag(bits, StatusFlags::ZERO, c.a & v == 0);
            let b2 = set_flag(b1, StatusFlags::OVERFLOW, v & 0x40 != 0);
            (with_status(cp, set_flag(b2, StatusFlags::NEGATIVE, v & 0x80 != 0)), m)
        },
        Instruction::ADC => {
            let (r, cy, ov) = adc_spec(c.a, v, carry_in(c));
            (page_penalty(with_status(Cpu { a: r, ..cp }, arith_bits(bits, r, cy, ov)), crossed), m)
        },
        Instruction::SBC => {
            let (r, cy, ov) = sbc_spec(c.a, v, carry_in(c));
            (page_penalty(with_status(Cpu { a: r, ..cp }, arith_bits(bits, r, cy, ov)), crossed), m)
        },
        Instruction::CMP => (page_penalty(with_status(cp, compare_bits(bits, c.a, v)), crossed), m),
        Instruction::CPX => (with_status(cp, compare_bits(bits, c.x, v)), m),
        Instruction::CPY => (with_status(cp, compare_bits(bits, c.y, v)), m),
        Instruction::INC => {
            let r = add8(v, 1);
            (with_status(cp, zn(bits, r)), m.insert(addr, r))
        },
        Instruction::DEC => {
            let r = sub8(v, 1);
            (with_status(cp, zn(bits, r)), m.insert(addr, r))
        },
        Instruction::INX => (with_status(Cpu { x: add8(c.x, 1), ..c }, zn(bits, add8(c.x, 1))), m),
        Instruction::INY => (with_status(Cpu { y: add8(c.y, 1), ..c }, zn(bits, add8(c.y, 1))), m),
        Instruction::DEX => (with_status(Cpu { x: sub8(c.x, 1), ..c }, zn(bits, sub8(c.x, 1))), m),
        Instruction::DEY => (with_status(Cpu { y: sub8(c.y, 1), ..c }, zn(bits, sub8(c.y, 1))), m),
        Instruction::ASL | Instruction::LSR | Instruction::ROL | Instruction::ROR => {
            if mode == AddressingMode::Accumulator {
                let (r, cy) = shift_spec(ins, c.a, carry_in(c));
                (with_status(Cpu { a: r, ..c }, zn(set_flag(bits, StatusFlags::CARRY, cy), r)), m)
            } else {
                let (r, cy) = shift_spec(ins, v, carry_in(c));
                (with_status(cp, zn(set_flag(bits, StatusFlags::CARRY, cy), r)), m.insert(addr, r))
            }
        },
        Instruction::JMP => (Cpu { pc: addr, ..c }, m),
        Instruction::JSR => {
            let s1 = push_word_spec((cp, m), sub16(pc, 1));
            (Cpu { pc: addr, ..s1.0 }, s1.1)
        },
        Instruction::RTS => {
            let (s1, w) = pop_word_spec(s);
            (Cpu { pc: add16(w, 1), ..s1.0 }, s1.1)
        },
        Instruction::RTI => {
            let (s1, p) = pop_spec(s);
            let (s2, w) = pop_word_spec((with_status(s1.0, pulled_status(p)), s1.1));
            (Cpu { pc: w, ..s2.0 }, s2.1)
        },
        Instruction::BCC | Instruction::BCS | Instruction::BEQ | Instruction::BNE
        | Instruction::BMI | Instruction::BPL | Instruction::BVC | Instruction::BVS => (
            branch_spec(c, branch_condition(ins, bits), m[c.pc]),
            m,
        ),
        Instruction::CLC => (with_status(c, set_flag(bits, StatusFlags::CARRY, false)), m),
        Instruction::CLD => (with_status(c, set_flag(bits, StatusFlags::DECIMAL, false)), m),
        Instruction::CLI => (with_status(c, set_flag(bits, StatusFlags::INTERRUPT, false)), m),
        Instruction::CLV => (with_status(c, set_flag(bits, StatusFlags::OVERFLOW, false)), m),
        Instruction::SEC => (with_status(c, set_flag(bits, StatusFlags::CARRY, true)), m),
        Instruction::SED => (with_status(c, set_flag(bits, StatusFlags::DECIMAL, true)), m),
        Instruction::SEI => (with_status(c, set_flag(bits, StatusFlags::INTERRUPT, true)), m),
        Instruction::BRK => {
            let pc1 = add16(c.pc, 1);
            let s1 = push_word_spec((Cpu { pc: pc1, ..c }, m), pc1);
            let s2 = push_spec(s1, pushed_status_byte(bits));
            (
                with_status(
                    Cpu { pc: word_at(s2.1, 0xFFFE), ..s2.0 },
                    set_flag(bits, StatusFlags::INTERRUPT, true),
                ),
                s2.1,
            )
        },
        Instruction::NOP => s,
    }
}


impl Cpu {
    /// Loads A from the operand and sets N and Z from it; one more cycle when
    /// indexing crossed a page.
    pub fn lda<B: CpuBus>(&mut self, bus: &mut B, mode: AddressingMode)
        ensures
            old(bus).inv() ==> final(bus).inv(),
            B::is_memory() ==> ((*final(self), final(bus).mem()) == instruction_spec(
                Instruction::LDA,
                mode,
                (*old(self), old(bus).mem()),
            )),
    {
        proof {
            reveal(instruction_spec);
        }
        let (addr, page_crossed) = self.get_operand_address(mode, bus);
        let value = self.read_byte(bus, addr, mode);
        self.a = value;
        self.set_zn_flags(value);
        if page_crossed {
            self.add_cycle();
        }
    }

    /// Loads X from the operand and sets N and Z from it; one more cycle when
    /// indexing crossed a page.
    pub fn ldx<B: CpuBus>(&mut self, bus: &mut B, mode: AddressingMode)
        ensures
            old(bus).inv() ==> final(bus).inv(),
            B::is_memory() ==> ((*final(self), final(bus).mem()) == instruction_spec(
                Instruction::LDX,
                mode,
                (*old(self), old(bus).mem()),
            )),
    {
        proof {
            reveal(instruction_spec);
        }
        let (addr, page_crossed) = self.get_operand_address(mode, bus);
        let value = self.read_byte(bus, addr, mode);
        self.x = value;
        self.set_zn_flags(value);
        if page_crossed {
            self.add_cycle();
        }
    }

    /// Loads Y from the operand and sets N and Z from it; one more cycle when
    /// indexing crossed a page.
    pub fn ldy<B: CpuBus>(&mut self, bus: &mut B, mode: AddressingMode)
        ensures
            old(bus).inv() ==> final(bus).inv(),
            B::is_memory() ==> ((*final(self), final(bus).mem()) == instruction_spec(
                Instruction::LDY,
                mode,
                (*old(self), old(bus).mem()),
            )),
    {
        proof {
            reveal(instruction_spec);
        }
        let (addr, page_crossed) = self.get_operand_address(mode, bus);
        let value = self.read_byte(bus, addr, mode);
        self.y = value;
        self.set_zn_flags(value);
        if page_crossed {
            self.add_cycle();
        }
    }

    /// Stores A at the operand address; no flag changes.
    pub fn sta<B: CpuBus>(&mut self, bus: &mut B, mode: AddressingMode)
        ensures
            old(bus).inv() ==> final(bus).inv(),
            B::is_memory() ==> ((*final(self), final(bus).mem()) == instruction_spec(
                Instruction::STA,
                mode,
                (*old(self), old(bus).mem()),
            )),
    {
        proof {
            reveal(instruction_spec);
        }
        let (addr, _) = self.get_operand_address(mode, bus);
        let value = self.a;
        self.write_byte(bus, addr, value, mode);
    }

    /// Stores X at the operand address; no flag changes.
    pub fn stx<B: CpuBus>(&mut self, bus: &mut B, mode: AddressingMode)
        ensures
            old(bus).inv() ==> final(bus).inv(),
            B::is_memory() ==> ((*final(self), final(bus).mem()) == instruction_spec(
                Instruction::STX,
                mode,
                (*old(self), old(bus).mem()),
            )),
    {
        proof {
            reveal(instruction_spec);
        }
        let (addr, _) = self.get_operand_address(mode, bus);
        let value = self.x;
        self.write_byte(bus, addr, value, mode);
    }

    /// Stores Y at the operand address; no flag changes.
    pub fn sty<B: CpuBus>(&mut self, bus: &mut B, mode: AddressingMode)
        ensures
            old(bus).inv() ==> final(bus).inv(),
            B::is_memory() ==> ((*final(self), final(bus).mem()) == instruction_spec(
                Instruction::STY,
                mode,
                (*old(self), old(bus).mem()),
            )),
    {
        proof {
            reveal(instruction_spec);
        }
        let (addr, _) = self.get_operand_address(mode, bus);
        let value = self.y;
        self.write_byte(bus, addr, value, mode);
    }

    /// Copies A into X and sets N and Z from it.
    pub fn tax(&mut self)
        ensures
            *final(self) == with_status(
                Cpu { x: old(self).a, ..*old(self) },
                zn(old(self).status.bits, old(self).a),
            ),
    {
        let value = self.a;
        self.x = value;
        self.set_zn_flags(value);
    }

    /// Copies A into Y and sets N and Z from it.
    pub fn tay(&mut self)
        ensures
            *final(self) == with_status(
                Cpu { y: old(self).a, ..*old(self) },
                zn(old(self).status.bits, old(self).a),
            ),
    {
        let value = self.a;
        self.y = value;
        self.set_zn_flags(value);
    }

    /// Copies X into A and sets N and Z from it.
    pub fn txa(&mut self)
        ensures
            *final(self) == with_status(
                Cpu { a: old(self).x, ..*old(self) },
                zn(old(self).status.bits, old(self).x),
            ),
    {
        let value = self.x;
        self.a = value;
        self.set_zn_flags(value);
    }

    /// Copies Y into A and sets N and Z from it.
    pub fn tya(&mut self)
        ensures
            *final(self) == with_status(
                Cpu { a: old(self).y, ..*old(self) },
                zn(old(self).status.bits, old(self).y),
            ),
    {
        let value = self.y;
        self.a = value;
        self.set_zn_flags(value);
    }

    /// Copies SP into X and sets N and Z from it.
    pub fn tsx(&mut self)
        ensures
            *final(self) == with_status(
                Cpu { x: old(self).sp, ..*old(self) },
                zn(old(self).status.bits, old(self).sp),
            ),
    {
        let value = self.sp;
        self.x = value;
        self.set_zn_flags(value);
    }

    /// Copies X into S; no flag changes.
    pub fn txs(&mut self)
        ensures
            *final(self) == (Cpu { sp: old(self).x, ..*old(self) }),
    {
        self.sp = self.x;
    }

    /// Pushes A.
    pub fn pha<B: CpuBus>(&mut self, bus: &mut B)
        ensures
            old(bus).inv() ==> final(bus).inv(),
            B::is_memory() ==> ((*final(self), final(bus).mem()) == instruction_spec(
                Instruction::PHA,
                AddressingMode::Implicit,
                (*old(self), old(bus).mem()),
            )),
    {
        proof {
            reveal(instruction_spec);
        }
        let value = self.a;
        self.push(value, bus);
    }

    /// Pushes P with B and U set.
    pub fn php<B: CpuBus>(&mut self, bus: &mut B)
        ensures
            old(bus).inv() ==> final(bus).inv(),
            B::is_memory() ==> ((*final(self), final(bus).mem()) == instruction_spec(
                Instruction::PHP,
                AddressingMode::Implicit,
                (*old(self), old(bus).mem()),
            )),
    {
        proof {
            reveal(instruction_spec);
        }
        let value = self.status.bits | StatusFlags::BREAK | StatusFlags::UNUSED;
        self.push(value, bus);
    }

    /// Pulls A and sets N and Z from it.
    pub fn pla<B: CpuBus>(&mut self, bus: &mut B)
        ensures
            old(bus).inv() ==> final(bus).inv(),
            B::is_memory() ==> ((*final(self), final(bus).mem()) == instruction_spec(
                Instruction::PLA,
                AddressingMode::Implicit,
                (*old(self), old(bus).mem()),
            )),
    {
        proof {
            reveal(instruction_spec);
        }
        let value = self.pop(bus);
        self.a = value;
        self.set_zn_flags(value);
    }

    /// Pulls P, ignoring B and forcing U.
    pub fn plp<B: CpuBus>(&mut self, bus: &mut B)
        ensures
            old(bus).inv() ==> final(bus).inv(),
            B::is_memory() ==> ((*final(self), final(bus).mem()) == instruction_spec(
                Instruction::PLP,
                AddressingMode::Implicit,
                (*old(self), old(bus).mem()),
            )),
    {
        proof {
            reveal(instruction_spec);
        }
        let value = self.pop(bus);
        self.status = StatusFlags { bits: (value | StatusFlags::UNUSED) & !StatusFlags::BREAK };
    }

    /// A &= operand; sets N and Z; one more cycle when indexing crossed a page.
    pub fn and<B: CpuBus>(&mut self, bus: &mut B, mode: AddressingMode)
        ensures
            old(bus).inv() ==> final(bus).inv(),
            B::is_memory() ==> ((*final(self), final(bus).mem()) == instruction_spec(
                Instruction::AND,
                mode,
                (*old(self), old(bus).mem()),
            )),
    {
        proof {
            reveal(instruction_spec);
        }
        let (addr, page_crossed) = self.get_operand_address(mode, bus);
        let value = self.read_byte(bus, addr, mode);
        let result = self.a & value;
        self.a = result;
        self.set_zn_flags(result);
        if page_crossed {
            self.add_cycle();
        }
    }

    /// A ^= operand; sets N and Z; one more cycle when indexing crossed a page.
    pub fn eor<B: CpuBus>(&mut self, bus: &mut B, mode: AddressingMode)
        ensures
            old(bus).inv() ==> final(bus).inv(),
            B::is_memory() ==> ((*final(self), final(bus).mem()) == instruction_spec(
                Instruction::EOR,
                mode,
                (*old(self), old(bus).mem()),
            )),
    {
        proof {
            reveal(instruction_spec);
        }
        let (addr, page_crossed) = self.get_operand_address(mode, bus);
        let value = self.read_byte(bus, addr, mode);
        let result = self.a ^ value;
        self.a = result;
        self.set_zn_flags(result);
        if page_crossed {
            self.add_cycle();
        }
    }

    /// A |= operand; sets N and Z; one more cycle when indexing crossed a page.
    pub fn ora<B: CpuBus>(&mut self, bus: &mut B, mode: AddressingMode)
        ensures
            old(bus).inv() ==> final(bus).inv(),
            B::is_memory() ==> ((*final(self), final(bus).mem()) == instruction_spec(
                Instruction::ORA,
                mode,
                (*old(self), old(bus).mem()),
            )),
    {
        proof {
            reveal(instruction_spec);
        }
        let (addr, page_crossed) = self.get_operand_address(mode, bus);
        let value = self.read_byte(bus, addr, mode);
        let result = self.a | value;
        self.a = result;
        self.set_zn_flags(result);
        if page_crossed {
            self.add_cycle();
        }
    }

    /// Z from A & operand, V and N from bits 6 and 7 of the operand.
    pub fn bit<B: CpuBus>(&mut self, bus: &mut B, mode: AddressingMode)
        ensures
            old(bus).inv() ==> final(bus).inv(),
            B::is_memory() ==> ((*final(self), final(bus).mem()) == instruction_spec(
                Instruction::BIT,
                mode,
                (*old(self), old(bus).mem()),
            )),
    {
        proof {
            reveal(instruction_spec);
        }
        let (addr, _) = self.get_operand_address(mode, bus);
        let value = self.read_byte(bus, addr, mode);
        let result = self.a & value;
        self.status.set(StatusFlags::ZERO, result == 0);
        self.status.set(StatusFlags::OVERFLOW, value & 0x40 != 0);
        self.status.set(StatusFlags::NEGATIVE, value & 0x80 != 0);
    }

    /// Binary add with carry (decimal mode has no effect).
    pub fn adc<B: CpuBus>(&mut self, bus: &mut B, mode: AddressingMode)
        ensures
            old(bus).inv() ==> final(bus).inv(),
            B::is_memory() ==> ((*final(self), final(bus).mem()) == instruction_spec(
                Instruction::ADC,
                mode,
                (*old(self), old(bus).mem()),
            )),
    {
        proof {
            reveal(instruction_spec);
        }
        let (addr, page_crossed) = self.get_operand_address(mode, bus);
        let value = self.read_byte(bus, addr, mode);
        let carry: u16 = if self.status.contains(StatusFlags::CARRY) { 1 } else { 0 };
        let a = self.a;
        let sum: u16 = a as u16 + value as u16 + carry;
        let result = (sum % 0x100) as u8;
        self.status.set(StatusFlags::CARRY, sum > 0xFF);
        self.status.set(StatusFlags::OVERFLOW, (a ^ result) & (value ^ result) & 0x80 != 0);
        self.a = result;
        self.set_zn_flags(result);
        if page_crossed {
            self.add_cycle();
        }
    }

    /// Binary subtract with borrow (decimal mode has no effect).
    pub fn sbc<B: CpuBus>(&mut self, bus: &mut B, mode: AddressingMode)
        ensures
            old(bus).inv() ==> final(bus).inv(),
            B::is_memory() ==> ((*final(self), final(bus).mem()) == instruction_spec(
                Instruction::SBC,
                mode,
                (*old(self), old(bus).mem()),
            )),
    {
        proof {
            reveal(instruction_spec);
        }
        let (addr, page_crossed) = self.get_operand_address(mode, bus);
        let value = self.read_byte(bus, addr, mode);
        let borrow: i16 = if self.status.contains(StatusFlags::CARRY) { 0 } else { 1 };
        let a = self.a;
        let diff: i16 = a as i16 - value as i16 - borrow;
        let result = ((diff + 0x100) % 0x100) as u8;
        self.status.set(StatusFlags::CARRY, diff >= 0);
        self.status.set(StatusFlags::OVERFLOW, (a ^ result) & (a ^ value) & 0x80 != 0);
        self.a = result;
        self.set_zn_flags(result);
        if page_crossed {
            self.add_cycle();
        }
    }

    /// Compares A with the operand; one more cycle when indexing crossed a page.
    pub fn cmp<B: CpuBus>(&mut self, bus: &mut B, mode: AddressingMode)
        ensures
            old(bus).inv() ==> final(bus).inv(),
            B::is_memory() ==> ((*final(self), final(bus).mem()) == instruction_spec(
                Instruction::CMP,
                mode,
                (*old(self), old(bus).mem()),
            )),
    {
        proof {
            reveal(instruction_spec);
        }
        let (addr, page_crossed) = self.get_operand_address(mode, bus);
        let value = self.read_byte(bus, addr, mode);
        let a = self.a;
        self.compare(a, value);
        if page_crossed {
            self.add_cycle();
        }
    }

    /// Compares X with the operand.
    pub fn cpx<B: CpuBus>(&mut self, bus: &mut B, mode: AddressingMode)
        ensures
            old(bus).inv() ==> final(bus).inv(),
            B::is_memory() ==> ((*final(self), final(bus).mem()) == instruction_spec(
                Instruction::CPX,
                mode,
                (*old(self), old(bus).mem()),
            )),
    {
        proof {
            reveal(instruction_spec);
        }
        let (addr, _) = self.get_operand_address(mode, bus);
        let value = self.read_byte(bus, addr, mode);
        let r = self.x;
        self.compare(r, value);
    }

    /// Compares Y with the operand.
    pub fn cpy<B: CpuBus>(&mut self, bus: &mut B, mode: AddressingMode)
        ensures
            old(bus).inv() ==> final(bus).inv(),
            B::is_memory() ==> ((*final(self), final(bus).mem()) == instruction_spec(
                Instruction::CPY,
                mode,
                (*old(self), old(bus).mem()),
            )),
    {
        proof {
            reveal(instruction_spec);
        }
        let (addr, _) = self.get_operand_address(mode, bus);
        let value = self.read_byte(bus, addr, mode);
        let r = self.y;
        self.compare(r, value);
    }

    /// Increments the byte at the operand address and sets N and Z from it.
    pub fn inc<B: CpuBus>(&mut self, bus: &mut B, mode: AddressingMode)
        ensures
            old(bus).inv() ==> final(bus).inv(),
            B::is_memory() ==> ((*final(self), final(bus).mem()) == instruction_spec(
                Instruction::INC,
                mode,
                (*old(self), old(bus).mem()),
            )),
    {
        proof {
            reveal(instruction_spec);
        }
        let (addr, _) = self.get_operand_address(mode, bus);
        let value = self.read_byte(bus, addr, mode).wrapping_add(1);
        self.write_byte(bus, addr, value, mode);
        self.set_zn_flags(value);
    }

    /// Decrements the byte at the operand address and sets N and Z from it.
    pub fn dec<B: CpuBus>(&mut self, bus: &mut B, mode: AddressingMode)
        ensures
            old(bus).inv() ==> final(bus).inv(),
            B::is_memory() ==> ((*final(self), final(bus).mem()) == instruction_spec(
                Instruction::DEC,
                mode,
                (*old(self), old(bus).mem()),
            )),
    {
        proof {
            reveal(instruction_spec);
        }
        let (addr, _) = self.get_operand_address(mode, bus);
        let value = self.read_byte(bus, addr, mode).wrapping_sub(1);
        self.write_byte(bus, addr, value, mode);
        self.set_zn_flags(value);
    }

    /// Increments X (wrapping) and sets N and Z from it.
    pub fn inx(&mut self)
        ensures
            *final(self) == with_status(
                Cpu { x: add8(old(self).x, 1), ..*old(self) },
                zn(old(self).status.bits, add8(old(self).x, 1)),
            ),
    {
        let value = self.x.wrapping_add(1);
        self.x = value;
        self.set_zn_flags(value);
    }

    /// Increments Y (wrapping) and sets N and Z from it.
    pub fn iny(&mut self)
        ensures
            *final(self) == with_status(
                Cpu { y: add8(old(self).y, 1), ..*old(self) },
                zn(old(self).status.bits, add8(old(self).y, 1)),
            ),
    {
        let value = self.y.wrapping_add(1);
        self.y = value;
        self.set_zn_flags(value);
    }

    /// Decrements X (wrapping) and sets N and Z from it.
    pub fn dex(&mut self)
        ensures
            *final(self) == with_status(
                Cpu { x: sub8(old(self).x, 1), ..*old(self) },
                zn(old(self).status.bits, sub8(old(self).x, 1)),
            ),
    {
        let value = self.x.wrapping_sub(1);
        self.x = value;
        self.set_zn_flags(value);
    }

    /// Decrements Y (wrapping) and sets N and Z from it.
    pub fn dey(&mut self)
        ensures
            *final(self) == with_status(
                Cpu { y: sub8(old(self).y, 1), ..*old(self) },
                zn(old(self).status.bits, sub8(old(self).y, 1)),
            ),
    {
        let value = self.y.wrapping_sub(1);
        self.y = value;
        self.set_zn_flags(value);
    }

    /// Shifts left; C takes the old bit 7. Works on A in accumulator mode, else on memory.
    pub fn asl<B: CpuBus>(&mut self, bus: &mut B, mode: AddressingMode)
        ensures
            old(bus).inv() ==> final(bus).inv(),
            B::is_memory() ==> ((*final(self), final(bus).mem()) == instruction_spec(
                Instruction::ASL,
                mode,
                (*old(self), old(bus).mem()),
            )),
    {
        proof {
            reveal(instruction_spec);
        }
        let carry: u8 = if self.status.contains(StatusFlags::CARRY) { 1 } else { 0 };
        if mode == AddressingMode::Accumulator {
            let value = self.a;
            let result = value << 1u8;
            self.status.set(StatusFlags::CARRY, value & 0x80 != 0);
            self.a = result;
            self.set_zn_flags(result);
        } else {
            let (addr, _) = self.get_operand_address(mode, bus);
            let value = self.read_byte(bus, addr, mode);
            let result = value << 1u8;
            self.status.set(StatusFlags::CARRY, value & 0x80 != 0);
            self.write_byte(bus, addr, result, mode);
            self.set_zn_flags(result);
        }
    }

    /// Shifts right; C takes the old bit 0. Works on A in accumulator mode, else on memory.
    pub fn lsr<B: CpuBus>(&mut self, bus: &mut B, mode: AddressingMode)
        ensures
            old(bus).inv() ==> final(bus).inv(),
            B::is_memory() ==> ((*final(self), final(bus).mem()) == instruction_spec(
                Instruction::LSR,
                mode,
                (*old(self), old(bus).mem()),
            )),
    {
        proof {
            reveal(instruction_spec);
        }
        let carry: u8 = if self.status.contains(StatusFlags::CARRY) { 1 } else { 0 };
        if mode == AddressingMode::Accumulator {
            let value = self.a;
            let result = value >> 1u8;
            self.status.set(StatusFlags::CARRY, value & 0x01 != 0);
            self.a = result;
            self.set_zn_flags(result);
        } else {
            let (addr, _) = self.get_operand_address(mode, bus);
            let value = self.read_byte(bus, addr, mode);
            let result = value >> 1u8;
            self.status.set(StatusFlags::CARRY, value & 0x01 != 0);
            self.write_byte(bus, addr, result, mode);
            self.set_zn_flags(result);
        }
    }

    /// Rotates left through C. Works on A in accumulator mode, else on memory.
    pub fn rol<B: CpuBus>(&mut self, bus: &mut B, mode: AddressingMode)
        ensures
            old(bus).inv() ==> final(bus).inv(),
            B::is_memory() ==> ((*final(self), final(bus).mem()) == instruction_spec(
                Instruction::ROL,
                mode,
                (*old(self), old(bus).mem()),
            )),
    {
        proof {
            reveal(instruction_spec);
        }
        let carry: u8 = if self.status.contains(StatusFlags::CARRY) { 1 } else { 0 };
        if mode == AddressingMode::Accumulator {
            let value = self.a;
            let result = (value << 1u8) | carry;
            self.status.set(StatusFlags::CARRY, value & 0x80 != 0);
            self.a = result;
            self.set_zn_flags(result);
        } else {
            let (addr, _) = self.get_operand_address(mode, bus);
            let value = self.read_byte(bus, addr, mode);
            let result = (value << 1u8) | carry;
            self.status.set(StatusFlags::CARRY, value & 0x80 != 0);
            self.write_byte(bus, addr, result, mode);
            self.set_zn_flags(result);
        }
    }

    /// Rotates right through C. Works on A in accumulator mode, else on memory.
    pub fn ror<B: CpuBus>(&mut self, bus: &mut B, mode: AddressingMode)
        ensures
            old(bus).inv() ==> final(bus).inv(),
            B::is_memory() ==> ((*final(self), final(bus).mem()) == instruction_spec(
                Instruction::ROR,
                mode,
                (*old(self), old(bus).mem()),
            )),
    {
        proof {
            reveal(instruction_spec);
        }
        let carry: u8 = if self.status.contains(StatusFlags::CARRY) { 1 } else { 0 };
        if mode == AddressingMode::Accumulator {
            let value = self.a;
            let result = (value >> 1u8) | carry * 0x80;
            self.status.set(StatusFlags::CARRY, value & 0x01 != 0);
            self.a = result;
            self.set_zn_flags(result);
        } else {
            let (addr, _) = self.get_operand_address(mode, bus);
            let value = self.read_byte(bus, addr, mode);
            let result = (value >> 1u8) | carry * 0x80;
            self.status.set(StatusFlags::CARRY, value & 0x01 != 0);
            self.write_byte(bus, addr, result, mode);
            self.set_zn_flags(result);
        }
    }

    /// Continues at `addr`, the operand address already computed.
    pub fn jmp<B: CpuBus>(&mut self, bus: &mut B, mode: AddressingMode, addr: u16)
        ensures
            old(bus).inv() ==> final(bus).inv(),
            *final(self) == (Cpu { pc: addr, ..*old(self) }),
            B::is_memory() ==> (final(bus).mem() == old(bus).mem()),
    {
        self.pc = addr;
    }

    /// Pushes the address of the last operand byte and continues at `addr`.
    pub fn jsr<B: CpuBus>(&mut self, bus: &mut B, addr: u16)
        ensures
            old(bus).inv() ==> final(bus).inv(),
            B::is_memory() ==> (({
                let s1 = push_word_spec((*old(self), old(bus).mem()), sub16(old(self).pc, 1));
                (*final(self), final(bus).mem()) == (Cpu { pc: addr, ..s1.0 }, s1.1)
            })),
    {
        let return_addr = self.pc.wrapping_sub(1);
        self.push_word(return_addr, bus);
        self.pc = addr;
    }

    /// Pulls the return address and continues one past it.
    pub fn rts<B: CpuBus>(&mut self, bus: &mut B)
        ensures
            old(bus).inv() ==> final(bus).inv(),
            B::is_memory() ==> ((*final(self), final(bus).mem()) == instruction_spec(
                Instruction::RTS,
                AddressingMode::Implicit,
                (*old(self), old(bus).mem()),
            )),
    {
        proof {
            reveal(instruction_spec);
        }
        let return_addr = self.pop_word(bus);
        self.pc = return_addr.wrapping_add(1);
    }

    /// Pulls P, then PC (no +1, unlike RTS).
    pub fn rti<B: CpuBus>(&mut self, bus: &mut B)
        ensures
            old(bus).inv() ==> final(bus).inv(),
            B::is_memory() ==> ((*final(self), final(bus).mem()) == instruction_spec(
                Instruction::RTI,
                AddressingMode::Implicit,
                (*old(self), old(bus).mem()),
            )),
    {
        proof {
            reveal(instruction_spec);
        }
        self.plp(bus);
        self.pc = self.pop_word(bus);
    }

    /// Moves PC by `offset` when `condition` holds: one more cycle, and
    /// another when the target is on a different page.
    pub fn branch(&mut self, condition: bool, offset: i8)
        ensures
            *final(self) == if condition {
                let target = add16(old(self).pc, if offset >= 0 {
                    offset as u16
                } else {
                    (offset + 0x10000) as u16
                });
                page_penalty(
                    Cpu { pc: target, cycles: add_cycles(old(self).cycles, 1), ..*old(self) },
                    page(old(self).pc) != page(target),
                )
            } else {
                *old(self)
            },
    {
        if condition {
            let old_pc = self.pc;
            let delta: u16 = if offset >= 0 {
                offset as u16
            } else {
                (offset as i32 + 0x10000) as u16
            };
            self.pc = self.pc.wrapping_add(delta);
            self.add_cycle();
            if old_pc / 0x100 != self.pc / 0x100 {
                self.add_cycle();
            }
        }
    }

    /// Reads the offset byte and branches on `condition`.
    fn branch_on<B: CpuBus>(&mut self, bus: &mut B, condition: bool)
        ensures
            old(bus).inv() ==> final(bus).inv(),
            B::is_memory() ==> (*final(self) == branch_spec(*old(self), condition, old(bus).mem()[old(self).pc])),
            B::is_memory() ==> (final(bus).mem() == old(bus).mem()),
    {
        let raw = bus.read(self.pc);
        self.pc = self.pc.wrapping_add(1);
        let offset: i8 = if raw < 0x80 {
            raw as i8
        } else {
            (raw as i16 - 0x100) as i8
        };
        self.branch(condition, offset);
    }

    /// Branches when C is clear.
    pub fn bcc<B: CpuBus>(&mut self, bus: &mut B)
        ensures
            old(bus).inv() ==> final(bus).inv(),
            B::is_memory() ==> ((*final(self), final(bus).mem()) == instruction_spec(
                Instruction::BCC,
                AddressingMode::Relative,
                (*old(self), old(bus).mem()),
            )),
    {
        proof {
            reveal(instruction_spec);
        }
        let condition = !self.status.contains(StatusFlags::CARRY);
        self.branch_on(bus, condition);
    }

    /// Branches when C is set.
    pub fn bcs<B: CpuBus>(&mut self, bus: &mut B)
        ensures
            old(bus).inv() ==> final(bus).inv(),
            B::is_memory() ==> ((*final(self), final(bus).mem()) == instruction_spec(
                Instruction::BCS,
                AddressingMode::Relative,
                (*old(self), old(bus).mem()),
            )),
    {
        proof {
            reveal(instruction_spec);
        }
        let condition = self.status.contains(StatusFlags::CARRY);
        self.branch_on(bus, condition);
    }

    /// Branches when Z is set.
    pub fn beq<B: CpuBus>(&mut self, bus: &mut B)
        ensures
            old(bus).inv() ==> final(bus).inv(),
            B::is_memory() ==> ((*final(self), final(bus).mem()) == instruction_spec(
                Instruction::BEQ,
                AddressingMode::Relative,
                (*old(self), old(bus).mem()),
            )),
    {
        proof {
            reveal(instruction_spec);
        }
        let condition = self.status.contains(StatusFlags::ZERO);
        self.branch_on(bus, condition);
    }

    /// Branches when Z is clear.
    pub fn bne<B: CpuBus>(&mut self, bus: &mut B)
        ensures
            old(bus).inv() ==> final(bus).inv(),
            B::is_memory() ==> ((*final(self), final(bus).mem()) == instruction_spec(
                Instruction::BNE,
                AddressingMode::Relative,
                (*old(self), old(bus).mem()),
            )),
    {
        proof {
            reveal(instruction_spec);
        }
        let condition = !self.status.contains(StatusFlags::ZERO);
        self.branch_on(bus, condition);
    }

    /// Branches when N is set.
    pub fn bmi<B: CpuBus>(&mut self, bus: &mut B)
        ensures
            old(bus).inv() ==> final(bus).inv(),
            B::is_memory() ==> ((*final(self), final(bus).mem()) == instruction_spec(
                Instruction::BMI,
                AddressingMode::Relative,
                (*old(self), old(bus).mem()),
            )),
    {
        proof {
            reveal(instruction_spec);
        }
        let condition = self.status.contains(StatusFlags::NEGATIVE);
        self.branch_on(bus, condition);
    }

    /// Branches when N is clear.
    pub fn bpl<B: CpuBus>(&mut self, bus: &mut B)
        ensures
            old(bus).inv() ==> final(bus).inv(),
            B::is_memory() ==> ((*final(self), final(bus).mem()) == instruction_spec(
                Instruction::BPL,
                AddressingMode::Relative,
                (*old(self), old(bus).mem()),
            )),
    {
        proof {
            reveal(instruction_spec);
        }
        let condition = !self.status.contains(StatusFlags::NEGATIVE);
        self.branch_on(bus, condition);
    }

    /// Branches when O is clear.
    pub fn bvc<B: CpuBus>(&mut self, bus: &mut B)
        ensures
            old(bus).inv() ==> final(bus).inv(),
            B::is_memory() ==> ((*final(self), final(bus).mem()) == instruction_spec(
                Instruction::BVC,
                AddressingMode::Relative,
                (*old(self), old(bus).mem()),
            )),
    {
        proof {
            reveal(instruction_spec);
        }
        let condition = !self.status.contains(StatusFlags::OVERFLOW);
        self.branch_on(bus, condition);
    }

    /// Branches when O is set.
    pub fn bvs<B: CpuBus>(&mut self, bus: &mut B)
        ensures
            old(bus).inv() ==> final(bus).inv(),
            B::is_memory() ==> ((*final(self), final(bus).mem()) == instruction_spec(
                Instruction::BVS,
                AddressingMode::Relative,
                (*old(self), old(bus).mem()),
            )),
    {
        proof {
            reveal(instruction_spec);
        }
        let condition = self.status.contains(StatusFlags::OVERFLOW);
        self.branch_on(bus, condition);
    }

    /// Clears CARRY.
    pub fn clc(&mut self)
        ensures
            *final(self) == with_status(
                *old(self),
                set_flag(old(self).status.bits, StatusFlags::CARRY, false),
            ),
    {
        self.status.remove(StatusFlags::CARRY);
    }

    /// Clears DECIMAL.
    pub fn cld(&mut self)
        ensures
            *final(self) == with_status(
                *old(self),
                set_flag(old(self).status.bits, StatusFlags::DECIMAL, false),
            ),
    {
        self.status.remove(StatusFlags::DECIMAL);
    }

    /// Clears INTERRUPT.
    pub fn cli(&mut self)
        ensures
            *final(self) == with_status(
                *old(self),
                set_flag(old(self).status.bits, StatusFlags::INTERRUPT, false),
            ),
    {
        self.status.remove(StatusFlags::INTERRUPT);
    }

    /// Clears OVERFLOW.
    pub fn clv(&mut self)
        ensures
            *final(self) == with_status(
                *old(self),
                set_flag(old(self).status.bits, StatusFlags::OVERFLOW, false),
            ),
    {
        self.status.remove(StatusFlags::OVERFLOW);
    }

    /// Sets CARRY.
    pub fn sec(&mut self)
        ensures
            *final(self) == with_status(
                *old(self),
                set_flag(old(self).status.bits, StatusFlags::CARRY, true),
            ),
    {
        self.status.insert(StatusFlags::CARRY);
    }

    /// Sets DECIMAL.
    pub fn sed(&mut self)
        ensures
            *final(self) == with_status(
                *old(self),
                set_flag(old(self).status.bits, StatusFlags::DECIMAL, true),
            ),
    {
        self.status.insert(StatusFlags::DECIMAL);
    }

    /// Sets INTERRUPT.
    pub fn sei(&mut self)
        ensures
            *final(self) == with_status(
                *old(self),
                set_flag(old(self).status.bits, StatusFlags::INTERRUPT, true),
            ),
    {
        self.status.insert(StatusFlags::INTERRUPT);
    }

    /// Sets Z and N from `value`.
    fn set_zn_flags(&mut self, value: u8)
        ensures
            *final(self) == with_status(*old(self), zn(old(self).status.bits, value)),
    {
        self.status.set(StatusFlags::ZERO, value == 0);
        self.status.set(StatusFlags::NEGATIVE, value & 0x80 != 0);
    }

    /// Sets C, Z and N from comparing `a` with `b`.
    fn compare(&mut self, a: u8, b: u8)
        ensures
            *final(self) == with_status(*old(self), compare_bits(old(self).status.bits, a, b)),
    {
        let result = a.wrapping_sub(b);
        self.status.set(StatusFlags::CARRY, a >= b);
        self.status.set(StatusFlags::ZERO, a == b);
        self.status.set(StatusFlags::NEGATIVE, result & 0x80 != 0);
    }

    /// Reads the operand byte.
    fn read_byte<B: CpuBus>(&self, bus: &mut B, addr: u16, mode: AddressingMode) -> (r: u8)
        ensures
            old(bus).inv() ==> final(bus).inv(),
            B::is_memory() ==> (r == old(bus).mem()[addr]),
            B::is_memory() ==> (final(bus).mem() == old(bus).mem()),
    {
        bus.read(addr)
    }

    /// Writes the result byte.
    fn write_byte<B: CpuBus>(&self, bus: &mut B, addr: u16, value: u8, mode: AddressingMode)
        ensures
            old(bus).inv() ==> final(bus).inv(),
            B::is_memory() ==> (final(bus).mem() == old(bus).mem().insert(addr, value)),
    {
        bus.write(addr, value);
    }

    /// Pulls a word, low byte first.
    fn pop_word<B: CpuBus>(&mut self, bus: &mut B) -> (r: u16)
        ensures
            old(bus).inv() ==> final(bus).inv(),
            B::is_memory() ==> (((*final(self), final(bus).mem()), r) == pop_word_spec((*old(self), old(bus).mem()))),
    {
        let lo = self.pop(bus) as u16;
        let hi = self.pop(bus) as u16;
        hi * 0x100 + lo
    }

    /// Spends one more cycle.
    fn add_cycle(&mut self)
        ensures
            *final(self) == (Cpu { cycles: add_cycles(old(self).cycles, 1), ..*old(self) }),
    {
        self.cycles = self.cycles.wrapping_add(1);
    }
}

} // verus!

verus! {

/// Indirect JMP through a pointer whose low byte is 0xFF takes the high
/// byte of its target from the start of the pointer's page, not the next
/// page.
pub proof fn lemma_indirect_jmp_page_wrap(s: Machine)
    requires
        s.1[s.0.pc] == 0xFF,
    ensures
        ({
            let ptr = word(0xFF, s.1[add16(s.0.pc, 1)]);
            instruction_spec(Instruction::JMP, AddressingMode::Indirect, s).0.pc == word(
                s.1[ptr],
                s.1[ptr & 0xFF00],
            )
        }),
{
    reveal(instruction_spec);
    reveal(operand_spec);
    let hi = s.1[add16(s.0.pc, 1)];
    let ptr = word(0xFF, hi);
    let h: u16 = hi as u16;
    assert(ptr == (h * 256 + 255) as u16);
    assert(ptr & 0xFF00 == (h * 256) as u16) by (bit_vector)
        requires
            ptr == (h * 256 + 255) as u16,
            h < 256,
    ;
    assert(word(0, hi) == (h * 256) as u16);
}

/// Cycle accounting of one instruction: a branch costs its base count,
/// plus one when taken, plus one more when the target is on another page;
/// an instruction other than a branch or an indexed read costs exactly
/// its base count.
pub proof fn lemma_branch_and_base_cycles(ins: Instruction, mode: AddressingMode, s: Machine)
    ensures
        ({
            let e = extra_cycles(ins, mode, s);
            let pc1 = add16(s.0.pc, 1);
            let target = add16(pc1, offset16(s.1[s.0.pc]));
            let taken = branch_condition(ins, s.0.status.bits);
            &&& instruction_spec(ins, mode, s).0.cycles == add_cycles(s.0.cycles, e)
            &&& is_branch(ins) ==> (e == if !taken {
                0u64
            } else if page(pc1) == page(target) {
                1u64
            } else {
                2u64
            })
            &&& !is_branch(ins) && !has_page_penalty(ins) ==> e == 0
        }),
{
    lemma_instruction_cycles(ins, mode, s);
}

} // verus!
