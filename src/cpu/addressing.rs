//! Operand address calculation for the thirteen addressing modes.
use vstd::prelude::*;

use crate::cpu::{add16, add8, page, word, Cpu, CpuBus};

verus! {

#[derive(Clone, Copy, Debug, PartialEq, Eq, Structural)]
pub enum AddressingMode {
    Implicit,
    Accumulator,
    Immediate,
    ZeroPage,
    ZeroPageX,
    ZeroPageY,
    Absolute,
    AbsoluteX,
    AbsoluteY,
    Indirect,
    IndirectX,
    IndirectY,
    Relative,
}

/// A signed 8-bit branch offset as a 16-bit two's-complement addend.
pub open spec fn offset16(off: u8) -> u16 {
    if off < 0x80 {
        off as u16
    } else {
        (off + 0xFF00) as u16
    }
}

/// The effective address of an operand, whether indexing crossed a page,
/// and the PC after the operand bytes, for a CPU whose PC points at the
/// first operand byte.
///
/// Indirect reproduces the page-wrap bug: when the pointer's low byte is
/// 0xFF the high byte of the target comes from the start of the same page.
#[verifier::opaque]
pub open spec fn operand_spec(c: Cpu, m: Map<u16, u8>, mode: AddressingMode) -> (u16, bool, u16) {
    let pc = c.pc;
    let pc1 = add16(pc, 1);
    let pc2 = add16(pc, 2);
    match mode {
        AddressingMode::Implicit => (0, false, pc),
        AddressingMode::Accumulator => (0, false, pc),
        AddressingMode::Immediate => (pc, false, pc1),
        AddressingMode::ZeroPage => (m[pc] as u16, false, pc1),
        AddressingMode::ZeroPageX => (add8(m[pc], c.x) as u16, false, pc1),
        AddressingMode::ZeroPageY => (add8(m[pc], c.y) as u16, false, pc1),
        AddressingMode::Absolute => (word(m[pc], m[pc1]), false, pc2),
        AddressingMode::AbsoluteX => {
            let base = word(m[pc], m[pc1]);
            let addr = add16(base, c.x as u16);
            (addr, page(base) != page(addr), pc2)
        },
        AddressingMode::AbsoluteY => {
            let base = word(m[pc], m[pc1]);
            let addr = add16(base, c.y as u16);
            (addr, page(base) != page(addr), pc2)
        },
        AddressingMode::Indirect => {
            let lo = m[pc];
            let hi = m[pc1];
            let ptr = word(lo, hi);
            let hi_addr = if lo == 0xFF {
                word(0, hi)
            } else {
                add16(ptr, 1)
            };
            (word(m[ptr], m[hi_addr]), false, pc2)
        },
        AddressingMode::IndirectX => {
            let p = add8(m[pc], c.x);
            (word(m[p as u16], m[add8(p, 1) as u16]), false, pc1)
        },
        AddressingMode::IndirectY => {
            let b = m[pc];
            let base = word(m[b as u16], m[add8(b, 1) as u16]);
            let addr = add16(base, c.y as u16);
            (addr, page(base) != page(addr), pc1)
        },
        AddressingMode::Relative => (add16(pc1, offset16(m[pc])), false, pc1),
    }
}

/// Reads a little-endian word through the bus.
fn fetch_word<B: CpuBus>(bus: &mut B, lo_addr: u16, hi_addr: u16) -> (r: u16)
    ensures
        old(bus).inv() ==> final(bus).inv(),
        B::is_memory() ==> (r == word(old(bus).mem()[lo_addr], old(bus).mem()[hi_addr])),
        B::is_memory() ==> (final(bus).mem() == old(bus).mem()),
{
    let lo = bus.read(lo_addr) as u16;
    let hi = bus.read(hi_addr) as u16;
    hi * 0x100 + lo
}

impl Cpu {
    /// Computes the operand address for `mode`, advancing PC past the
    /// operand bytes; the flag says whether indexing crossed a page.
    pub fn get_operand_address<B: CpuBus>(&mut self, mode: AddressingMode, bus: &mut B) -> (r: (
        u16,
        bool,
    ))
        ensures
            old(bus).inv() ==> final(bus).inv(),
            B::is_memory() ==> (({
                let (addr, crossed, pc) = operand_spec(*old(self), old(bus).mem(), mode);
                &&& r == (addr, crossed)
                &&& *final(self) == (Cpu { pc: pc, ..*old(self) })
            })),
            B::is_memory() ==> (final(bus).mem() == old(bus).mem()),
    {
        proof {
            reveal(operand_spec);
        }
        let pc = self.pc;
        let pc1 = pc.wrapping_add(1);
        match mode {
            AddressingMode::Implicit => (0, false),
            AddressingMode::Accumulator => (0, false),
            AddressingMode::Immediate => {
                self.pc = pc1;
                (pc, false)
            },
            AddressingMode::ZeroPage => {
                let addr = bus.read(pc) as u16;
                self.pc = pc1;
                (addr, false)
            },
            AddressingMode::ZeroPageX => {
                let base = bus.read(pc);
                self.pc = pc1;
                (base.wrapping_add(self.x) as u16, false)
            },
            AddressingMode::ZeroPageY => {
                let base = bus.read(pc);
                self.pc = pc1;
                (base.wrapping_add(self.y) as u16, false)
            },
            AddressingMode::Absolute => {
                let addr = fetch_word(bus, pc, pc1);
                self.pc = pc.wrapping_add(2);
                (addr, false)
            },
            AddressingMode::AbsoluteX => {
                let base = fetch_word(bus, pc, pc1);
                self.pc = pc.wrapping_add(2);
                let addr = base.wrapping_add(self.x as u16);
                (addr, base / 0x100 != addr / 0x100)
            },
            AddressingMode::AbsoluteY => {
                let base = fetch_word(bus, pc, pc1);
                self.pc = pc.wrapping_add(2);
                let addr = base.wrapping_add(self.y as u16);
                (addr, base / 0x100 != addr / 0x100)
            },
            AddressingMode::Indirect => {
                let ptr_lo = bus.read(pc);
                let ptr_hi = bus.read(pc1);
                self.pc = pc.wrapping_add(2);
                let ptr = ptr_hi as u16 * 0x100 + ptr_lo as u16;
                let hi_addr = if ptr_lo == 0xFF {
                    ptr_hi as u16 * 0x100
                } else {
                    ptr.wrapping_add(1)
                };
                (fetch_word(bus, ptr, hi_addr), false)
            },
            AddressingMode::IndirectX => {
                let base = bus.read(pc);
                self.pc = pc1;
                let ptr = base.wrapping_add(self.x);
                (fetch_word(bus, ptr as u16, ptr.wrapping_add(1) as u16), false)
            },
            AddressingMode::IndirectY => {
                let base = bus.read(pc);
                self.pc = pc1;
                let base_addr = fetch_word(bus, base as u16, base.wrapping_add(1) as u16);
                let addr = base_addr.wrapping_add(self.y as u16);
                (addr, base_addr / 0x100 != addr / 0x100)
            },
            AddressingMode::Relative => {
                let offset = bus.read(pc);
                self.pc = pc1;
                let delta: u16 = if offset < 0x80 {
                    offset as u16
                } else {
                    offset as u16 + 0xFF00
                };
                (pc1.wrapping_add(delta), false)
            },
        }
    }
}

} // verus!
