//! Free helpers for bus access, page checks and flag updates.
use vstd::prelude::*;

use crate::cpu::instructions::{page_penalty, with_status};
use crate::cpu::{add16, add8, add_cycles, page, set_flag, word, word_at, zn, Cpu, CpuBus, StatusFlags};

verus! {

/// Reads the byte at `addr`.
pub fn read_byte_fast<B: CpuBus>(bus: &mut B, addr: u16) -> (r: u8)
    ensures
        old(bus).inv() ==> final(bus).inv(),
        B::is_memory() ==> (r == old(bus).mem()[addr]),
        B::is_memory() ==> (final(bus).mem() == old(bus).mem()),
{
    bus.read(addr)
}

/// Writes the byte at `addr`.
pub fn write_byte_fast<B: CpuBus>(bus: &mut B, addr: u16, value: u8)
    ensures
        old(bus).inv() ==> final(bus).inv(),
        B::is_memory() ==> (final(bus).mem() == old(bus).mem().insert(addr, value)),
{
    bus.write(addr, value);
}

/// Reads the byte at zero-page address `addr`.
pub fn read_zero_page<B: CpuBus>(bus: &mut B, addr: u8) -> (r: u8)
    ensures
        old(bus).inv() ==> final(bus).inv(),
        B::is_memory() ==> (r == old(bus).mem()[addr as u16]),
        B::is_memory() ==> (final(bus).mem() == old(bus).mem()),
{
    bus.read(addr as u16)
}

/// Writes the byte at zero-page address `addr`.
pub fn write_zero_page<B: CpuBus>(bus: &mut B, addr: u8, value: u8)
    ensures
        old(bus).inv() ==> final(bus).inv(),
        B::is_memory() ==> (final(bus).mem() == old(bus).mem().insert(addr as u16, value)),
{
    bus.write(addr as u16, value);
}

/// Reads the little-endian word at `addr`.
pub fn read_word<B: CpuBus>(bus: &mut B, addr: u16) -> (r: u16)
    ensures
        old(bus).inv() ==> final(bus).inv(),
        B::is_memory() ==> (r == word_at(old(bus).mem(), addr)),
        B::is_memory() ==> (final(bus).mem() == old(bus).mem()),
{
    let lo = bus.read(addr) as u16;
    let hi = bus.read(addr.wrapping_add(1)) as u16;
    hi * 0x100 + lo
}

/// Reads a little-endian word from the zero page; the high byte of a
/// pointer at 0xFF comes from 0x00.
pub fn read_zero_page_word<B: CpuBus>(bus: &mut B, addr: u8) -> (r: u16)
    ensures
        old(bus).inv() ==> final(bus).inv(),
        B::is_memory() ==> (r == word(old(bus).mem()[addr as u16], old(bus).mem()[add8(addr, 1) as u16])),
        B::is_memory() ==> (final(bus).mem() == old(bus).mem()),
{
    let lo = bus.read(addr as u16) as u16;
    let hi = bus.read(addr.wrapping_add(1) as u16) as u16;
    hi * 0x100 + lo
}

/// Whether two addresses lie on different pages.
pub fn page_crossed(addr1: u16, addr2: u16) -> (r: bool)
    ensures
        r == (page(addr1) != page(addr2)),
{
    addr1 / 0x100 != addr2 / 0x100
}

/// Moves `pc` by `offset` and counts the taken-branch cycle, plus one
/// when the target is on another page.
pub fn branch_relative(pc: &mut u16, offset: i8, cycles: &mut u64)
    ensures
        *final(pc) == add16(*old(pc), if offset >= 0 {
            offset as u16
        } else {
            (offset + 0x10000) as u16
        }),
        *final(cycles) == add_cycles(
            *old(cycles),
            if page(*old(pc)) != page(*final(pc)) {
                2
            } else {
                1
            },
        ),
{
    let old_pc = *pc;
    let delta: u16 = if offset >= 0 {
        offset as u16
    } else {
        (offset as i32 + 0x10000) as u16
    };
    *pc = old_pc.wrapping_add(delta);
    if page_crossed(old_pc, *pc) {
        *cycles = cycles.wrapping_add(2);
    } else {
        *cycles = cycles.wrapping_add(1);
    }
}

/// Sets Z and N of `cpu` from `value`.
pub fn set_nz(cpu: &mut Cpu, value: u8)
    ensures
        *final(cpu) == with_status(*old(cpu), zn(old(cpu).status.bits, value)),
{
    cpu.status.set(StatusFlags::ZERO, value == 0);
    cpu.status.set(StatusFlags::NEGATIVE, value & 0x80 != 0);
}

/// Sets or clears C of `cpu`.
pub fn set_carry(cpu: &mut Cpu, value: bool)
    ensures
        *final(cpu) == with_status(*old(cpu), set_flag(old(cpu).status.bits, StatusFlags::CARRY, value)),
{
    cpu.status.set(StatusFlags::CARRY, value);
}

/// Sets or clears V of `cpu`.
pub fn set_overflow(cpu: &mut Cpu, value: bool)
    ensures
        *final(cpu) == with_status(*old(cpu), set_flag(old(cpu).status.bits, StatusFlags::OVERFLOW, value)),
{
    cpu.status.set(StatusFlags::OVERFLOW, value);
}

} // verus!
