//! Save states: a snapshot of the whole machine (CPU registers and
//! latches, PPU registers, counters, pipeline latches and memories, APU
//! channels and frame counter, mapper registers, CPU RAM, cartridge RAM,
//! controller ports) and its byte format ("CCNS", a version, then the
//! fields in a fixed order). The framebuffer, an output, is left out.
use vstd::prelude::*;

use crate::apu::{Apu, DmcChannel, Envelope, NoiseChannel, PulseChannel, TriangleChannel};
use crate::bus::Nes;
use crate::cartridge::mapper1::Mapper1;
use crate::cartridge::mapper4::Mapper4;
use crate::cartridge::mapper5::Mapper5;
use crate::cartridge::mapper9::Mapper9;
use crate::cartridge::mappers::{Mapper0, Mapper11, Mapper2, Mapper3, Mapper7};
use crate::cartridge::{mapper_number_of, MapperKind};
use crate::controller::ControllerPort;
use crate::cpu::{Cpu, StatusFlags};

verus! {

/// The format version written after the magic, little-endian.
pub const SAVE_STATE_VERSION: u32 = 3;

/// The length of an encoding.
pub const STATE_LEN: usize = 81454;

#[derive(Clone, Copy, Debug, PartialEq, Eq, Structural)]
pub enum SaveStateError {
    /// The magic or the version does not match.
    InvalidVersion,
    /// The data is shorter or longer than a save state.
    Truncated,
    /// A field holds a value no machine state has.
    Corrupt,
    /// The state belongs to a cartridge with another mapper.
    WrongCartridge,
}

/// The PPU's registers, counters and pipeline latches.
#[derive(Clone, Copy, Debug, PartialEq, Eq, Structural)]
pub struct PpuRegisters {
    pub ctrl: u8,
    pub mask: u8,
    pub status: u8,
    pub oam_addr: u8,
    pub v: u16,
    pub t: u16,
    pub x: u8,
    pub w: bool,
    pub buffer: u8,
    pub open_bus: u8,
    pub scanline: i32,
    pub cycle: u16,
    pub frame: u64,
    pub odd_frame: bool,
    pub suppress_vbl: bool,
    pub nmi_pending: bool,
    pub bg_shift_pattern_lo: u16,
    pub bg_shift_pattern_hi: u16,
    pub bg_shift_attrib_lo: u16,
    pub bg_shift_attrib_hi: u16,
    pub bg_next_tile_id: u8,
    pub bg_next_tile_attrib: u8,
    pub bg_next_tile_lsb: u8,
    pub bg_next_tile_msb: u8,
    pub sprite_count: u8,
}

pub struct SaveState {
    pub cpu: Cpu,
    pub ppu: PpuRegisters,
    pub apu: Apu,
    pub port1: ControllerPort,
    pub port2: ControllerPort,
    pub mapper: MapperKind,
    pub ram: Vec<u8>,
    pub ppu_vram: Vec<u8>,
    pub ppu_palette: Vec<u8>,
    pub ppu_oam: Vec<u8>,
    pub ppu_secondary_oam: Vec<u8>,
    pub ppu_sprite_patterns_lo: Vec<u8>,
    pub ppu_sprite_patterns_hi: Vec<u8>,
    pub ppu_sprite_positions: Vec<u8>,
    pub ppu_sprite_indexes: Vec<u8>,
    pub ppu_sprite_attributes: Vec<u8>,
    pub prg_ram: Vec<u8>,
    pub exram: Vec<u8>,
    pub chr_ram: Vec<u8>,
}

/// The eight little-endian bytes of `c`.
pub open spec fn u64_bytes(c: u64) -> Seq<u8> {
    seq![
        (c & 0xFF) as u8,
        ((c >> 8u64) & 0xFF) as u8,
        ((c >> 16u64) & 0xFF) as u8,
        ((c >> 24u64) & 0xFF) as u8,
        ((c >> 32u64) & 0xFF) as u8,
        ((c >> 40u64) & 0xFF) as u8,
        ((c >> 48u64) & 0xFF) as u8,
        ((c >> 56u64) & 0xFF) as u8,
    ]
}

/// The four little-endian bytes of `c`.
pub open spec fn u32_bytes(c: u32) -> Seq<u8> {
    seq![(c & 0xFF) as u8, ((c >> 8u32) & 0xFF) as u8, ((c >> 16u32) & 0xFF) as u8, ((c >> 24u32) & 0xFF) as u8]
}

/// The two little-endian bytes of `v`.
pub open spec fn u16_bytes(v: u16) -> Seq<u8> {
    seq![(v & 0xFF) as u8, (v >> 8u16) as u8]
}

/// The CPU registers, counters and interrupt latches, as bytes.
#[verifier::opaque]
pub open spec fn cpu_bytes(x: Cpu) -> Seq<u8> {
    seq![x.a, x.x, x.y, x.sp, u16_bytes(x.pc)[0], u16_bytes(x.pc)[1], x.status.bits, u64_bytes(x.cycles)[0], u64_bytes(x.cycles)[1], u64_bytes(x.cycles)[2], u64_bytes(x.cycles)[3], u64_bytes(x.cycles)[4], u64_bytes(x.cycles)[5], u64_bytes(x.cycles)[6], u64_bytes(x.cycles)[7], u32_bytes(x.stall_cycles)[0], u32_bytes(x.stall_cycles)[1], u32_bytes(x.stall_cycles)[2], u32_bytes(x.stall_cycles)[3], (if x.nmi_pending { 1u8 } else { 0u8 }), (if x.irq_pending { 1u8 } else { 0u8 })]
}

#[verifier::rlimit(100)]
fn push_cpu(out: &mut Vec<u8>, x: Cpu)
    ensures
        final(out)@ == old(out)@ + cpu_bytes(x),
{
    reveal(cpu_bytes);
    let ghost start = out@;
    out.push(x.a);
    out.push(x.x);
    out.push(x.y);
    out.push(x.sp);
    push_u16(out, x.pc);
    out.push(x.status.bits);
    push_u64(out, x.cycles);
    push_u32(out, x.stall_cycles);
    out.push(if x.nmi_pending { 1 } else { 0 });
    out.push(if x.irq_pending { 1 } else { 0 });
    assert(out@ =~= start + cpu_bytes(x));
}

#[verifier::rlimit(100)]
fn decode_cpu(data: &Vec<u8>, at: usize) -> (r: Option<Cpu>)
    requires
        at + 21 <= data@.len(),
    ensures
        (exists|w: Cpu| #[trigger] cpu_bytes(w) == data@.subrange(at as int, at + 21)) ==> r is Some,
        r matches Some(x) ==> cpu_bytes(x) == data@.subrange(at as int, at + 21),
{
    let n = data.len();
    let ghost has_w = exists|w: Cpu| #[trigger] cpu_bytes(w) == data@.subrange(at as int, at + 21);
    let ghost w = choose|w: Cpu| #[trigger] cpu_bytes(w) == data@.subrange(at as int, at + 21);
    proof {
        reveal(cpu_bytes);
        if has_w {
            assert forall|i: int| 0 <= i < 21 implies #[trigger] data@[at + i] == cpu_bytes(w)[i] by {
                assert(data@.subrange(at as int, at + 21)[i] == data@[at + i]);
            }
        }
    }
    if data[at + 19] > 1 || data[at + 20] > 1 {
        return None;
    }
    let v0 = data[at];
    let v1 = data[at + 1];
    let v2 = data[at + 2];
    let v3 = data[at + 3];
    let v4 = read_u16(data, at + 4);
    let v5 = data[at + 6];
    let v6 = read_u64(data, at + 7);
    let v7 = read_u32(data, at + 15);
    let v8 = data[at + 19] == 1;
    let v9 = data[at + 20] == 1;
    reveal(cpu_bytes);
    let x = Cpu { a: v0, x: v1, y: v2, sp: v3, pc: v4, status: StatusFlags { bits: v5 }, cycles: v6, stall_cycles: v7, nmi_pending: v8, irq_pending: v9 };
    assert(cpu_bytes(x) =~= data@.subrange(at as int, at + 21));
    Some(x)
}

/// The cpu bytes always take 21 bytes.
pub proof fn lemma_cpu_len(x: Cpu)
    ensures
        cpu_bytes(x).len() == 21,
{
    reveal(cpu_bytes);
}

#[verifier::rlimit(100)]
proof fn lemma_cpu_bytes_injective(a: Cpu, b: Cpu)
    requires
        cpu_bytes(a) == cpu_bytes(b),
    ensures
        a == b,
{
    reveal(cpu_bytes);
    let x = cpu_bytes(a);
    let y = cpu_bytes(b);
    assert(x[0] == y[0]);
    assert(x[1] == y[1]);
    assert(x[2] == y[2]);
    assert(x[3] == y[3]);
    assert(x[4] == y[4] && x[5] == y[5]);
    assert(u16_bytes(a.pc) =~= u16_bytes(b.pc));
    lemma_u16_bytes_injective(a.pc, b.pc);
    assert(x[6] == y[6]);
    assert(x[7] == y[7] && x[8] == y[8] && x[9] == y[9] && x[10] == y[10] && x[11] == y[11] && x[12] == y[12] && x[13] == y[13] && x[14] == y[14]);
    assert(u64_bytes(a.cycles) =~= u64_bytes(b.cycles));
    lemma_u64_bytes_injective(a.cycles, b.cycles);
    assert(x[15] == y[15] && x[16] == y[16] && x[17] == y[17] && x[18] == y[18]);
    assert(u32_bytes(a.stall_cycles) =~= u32_bytes(b.stall_cycles));
    lemma_u32_bytes_injective(a.stall_cycles, b.stall_cycles);
    assert(x[19] == y[19]);
    assert(x[20] == y[20]);
}

/// The PPU registers, counters and pipeline latches, as bytes.
#[verifier::opaque]
pub open spec fn ppu_bytes(x: PpuRegisters) -> Seq<u8> {
    seq![x.ctrl, x.mask, x.status, x.oam_addr, u16_bytes(x.v)[0], u16_bytes(x.v)[1], u16_bytes(x.t)[0], u16_bytes(x.t)[1], x.x, (if x.w { 1u8 } else { 0u8 }), x.buffer, x.open_bus, u16_bytes((x.scanline + 1) as u16)[0], u16_bytes((x.scanline + 1) as u16)[1], u16_bytes(x.cycle)[0], u16_bytes(x.cycle)[1], u64_bytes(x.frame)[0], u64_bytes(x.frame)[1], u64_bytes(x.frame)[2], u64_bytes(x.frame)[3], u64_bytes(x.frame)[4], u64_bytes(x.frame)[5], u64_bytes(x.frame)[6], u64_bytes(x.frame)[7], (if x.odd_frame { 1u8 } else { 0u8 }), (if x.suppress_vbl { 1u8 } else { 0u8 }), (if x.nmi_pending { 1u8 } else { 0u8 }), u16_bytes(x.bg_shift_pattern_lo)[0], u16_bytes(x.bg_shift_pattern_lo)[1], u16_bytes(x.bg_shift_pattern_hi)[0], u16_bytes(x.bg_shift_pattern_hi)[1], u16_bytes(x.bg_shift_attrib_lo)[0], u16_bytes(x.bg_shift_attrib_lo)[1], u16_bytes(x.bg_shift_attrib_hi)[0], u16_bytes(x.bg_shift_attrib_hi)[1], x.bg_next_tile_id, x.bg_next_tile_attrib, x.bg_next_tile_lsb, x.bg_next_tile_msb, x.sprite_count]
}

#[verifier::rlimit(100)]
fn push_ppu(out: &mut Vec<u8>, x: PpuRegisters)
    requires
        -1 <= x.scanline <= 260,
    ensures
        final(out)@ == old(out)@ + ppu_bytes(x),
{
    reveal(ppu_bytes);
    let ghost start = out@;
    out.push(x.ctrl);
    out.push(x.mask);
    out.push(x.status);
    out.push(x.oam_addr);
    push_u16(out, x.v);
    push_u16(out, x.t);
    out.push(x.x);
    out.push(if x.w { 1 } else { 0 });
    out.push(x.buffer);
    out.push(x.open_bus);
    push_u16(out, (x.scanline + 1) as u16);
    push_u16(out, x.cycle);
    push_u64(out, x.frame);
    out.push(if x.odd_frame { 1 } else { 0 });
    out.push(if x.suppress_vbl { 1 } else { 0 });
    out.push(if x.nmi_pending { 1 } else { 0 });
    push_u16(out, x.bg_shift_pattern_lo);
    push_u16(out, x.bg_shift_pattern_hi);
    push_u16(out, x.bg_shift_attrib_lo);
    push_u16(out, x.bg_shift_attrib_hi);
    out.push(x.bg_next_tile_id);
    out.push(x.bg_next_tile_attrib);
    out.push(x.bg_next_tile_lsb);
    out.push(x.bg_next_tile_msb);
    out.push(x.sprite_count);
    assert(out@ =~= start + ppu_bytes(x));
}

#[verifier::rlimit(100)]
fn decode_ppu(data: &Vec<u8>, at: usize) -> (r: Option<PpuRegisters>)
    requires
        at + 40 <= data@.len(),
    ensures
        (exists|w: PpuRegisters| #[trigger] ppu_bytes(w) == data@.subrange(at as int, at + 40) && -1 <= w.scanline <= 260) ==> r is Some,
        r matches Some(x) ==> ppu_bytes(x) == data@.subrange(at as int, at + 40) && -1 <= x.scanline <= 260,
{
    let n = data.len();
    let ghost has_w = exists|w: PpuRegisters| #[trigger] ppu_bytes(w) == data@.subrange(at as int, at + 40) && -1 <= w.scanline <= 260;
    let ghost w = choose|w: PpuRegisters| #[trigger] ppu_bytes(w) == data@.subrange(at as int, at + 40) && -1 <= w.scanline <= 260;
    proof {
        reveal(ppu_bytes);
        if has_w {
            assert forall|i: int| 0 <= i < 40 implies #[trigger] data@[at + i] == ppu_bytes(w)[i] by {
                assert(data@.subrange(at as int, at + 40)[i] == data@[at + i]);
            }
        }
    }
    if data[at + 9] > 1 || data[at + 24] > 1 || data[at + 25] > 1 || data[at + 26] > 1 {
        return None;
    }
    let v0 = data[at];
    let v1 = data[at + 1];
    let v2 = data[at + 2];
    let v3 = data[at + 3];
    let v4 = read_u16(data, at + 4);
    let v5 = read_u16(data, at + 6);
    let v6 = data[at + 8];
    let v7 = data[at + 9] == 1;
    let v8 = data[at + 10];
    let v9 = data[at + 11];
    let v10raw = read_u16(data, at + 12);
    proof { if has_w { assert(u16_bytes(v10raw) =~= u16_bytes((w.scanline + 1) as u16)); lemma_u16_bytes_injective(v10raw, (w.scanline + 1) as u16); } }
    if v10raw > 261 { return None; }
    let v10: i32 = v10raw as i32 - 1;
    let v11 = read_u16(data, at + 14);
    let v12 = read_u64(data, at + 16);
    let v13 = data[at + 24] == 1;
    let v14 = data[at + 25] == 1;
    let v15 = data[at + 26] == 1;
    let v16 = read_u16(data, at + 27);
    let v17 = read_u16(data, at + 29);
    let v18 = read_u16(data, at + 31);
    let v19 = read_u16(data, at + 33);
    let v20 = data[at + 35];
    let v21 = data[at + 36];
    let v22 = data[at + 37];
    let v23 = data[at + 38];
    let v24 = data[at + 39];
    reveal(ppu_bytes);
    let x = PpuRegisters { ctrl: v0, mask: v1, status: v2, oam_addr: v3, v: v4, t: v5, x: v6, w: v7, buffer: v8, open_bus: v9, scanline: v10, cycle: v11, frame: v12, odd_frame: v13, suppress_vbl: v14, nmi_pending: v15, bg_shift_pattern_lo: v16, bg_shift_pattern_hi: v17, bg_shift_attrib_lo: v18, bg_shift_attrib_hi: v19, bg_next_tile_id: v20, bg_next_tile_attrib: v21, bg_next_tile_lsb: v22, bg_next_tile_msb: v23, sprite_count: v24 };
    assert(ppu_bytes(x) =~= data@.subrange(at as int, at + 40));
    Some(x)
}

/// The ppu bytes always take 40 bytes.
pub proof fn lemma_ppu_len(x: PpuRegisters)
    ensures
        ppu_bytes(x).len() == 40,
{
    reveal(ppu_bytes);
}

#[verifier::rlimit(100)]
proof fn lemma_ppu_bytes_injective(a: PpuRegisters, b: PpuRegisters)
    requires
        ppu_bytes(a) == ppu_bytes(b),
        -1 <= a.scanline <= 260,
        -1 <= b.scanline <= 260,
    ensures
        a == b,
{
    reveal(ppu_bytes);
    let x = ppu_bytes(a);
    let y = ppu_bytes(b);
    assert(x[0] == y[0]);
    assert(x[1] == y[1]);
    assert(x[2] == y[2]);
    assert(x[3] == y[3]);
    assert(x[4] == y[4] && x[5] == y[5]);
    assert(u16_bytes(a.v) =~= u16_bytes(b.v));
    lemma_u16_bytes_injective(a.v, b.v);
    assert(x[6] == y[6] && x[7] == y[7]);
    assert(u16_bytes(a.t) =~= u16_bytes(b.t));
    lemma_u16_bytes_injective(a.t, b.t);
    assert(x[8] == y[8]);
    assert(x[9] == y[9]);
    assert(x[10] == y[10]);
    assert(x[11] == y[11]);
    assert(x[12] == y[12] && x[13] == y[13]);
    assert(u16_bytes((a.scanline + 1) as u16) =~= u16_bytes((b.scanline + 1) as u16));
    lemma_u16_bytes_injective((a.scanline + 1) as u16, (b.scanline + 1) as u16);
    assert(x[14] == y[14] && x[15] == y[15]);
    assert(u16_bytes(a.cycle) =~= u16_bytes(b.cycle));
    lemma_u16_bytes_injective(a.cycle, b.cycle);
    assert(x[16] == y[16] && x[17] == y[17] && x[18] == y[18] && x[19] == y[19] && x[20] == y[20] && x[21] == y[21] && x[22] == y[22] && x[23] == y[23]);
    assert(u64_bytes(a.frame) =~= u64_bytes(b.frame));
    lemma_u64_bytes_injective(a.frame, b.frame);
    assert(x[24] == y[24]);
    assert(x[25] == y[25]);
    assert(x[26] == y[26]);
    assert(x[27] == y[27] && x[28] == y[28]);
    assert(u16_bytes(a.bg_shift_pattern_lo) =~= u16_bytes(b.bg_shift_pattern_lo));
    lemma_u16_bytes_injective(a.bg_shift_pattern_lo, b.bg_shift_pattern_lo);
    assert(x[29] == y[29] && x[30] == y[30]);
    assert(u16_bytes(a.bg_shift_pattern_hi) =~= u16_bytes(b.bg_shift_pattern_hi));
    lemma_u16_bytes_injective(a.bg_shift_pattern_hi, b.bg_shift_pattern_hi);
    assert(x[31] == y[31] && x[32] == y[32]);
    assert(u16_bytes(a.bg_shift_attrib_lo) =~= u16_bytes(b.bg_shift_attrib_lo));
    lemma_u16_bytes_injective(a.bg_shift_attrib_lo, b.bg_shift_attrib_lo);
    assert(x[33] == y[33] && x[34] == y[34]);
    assert(u16_bytes(a.bg_shift_attrib_hi) =~= u16_bytes(b.bg_shift_attrib_hi));
    lemma_u16_bytes_injective(a.bg_shift_attrib_hi, b.bg_shift_attrib_hi);
    assert(x[35] == y[35]);
    assert(x[36] == y[36]);
    assert(x[37] == y[37]);
    assert(x[38] == y[38]);
    assert(x[39] == y[39]);
}

/// A pulse channel, as bytes.
#[verifier::opaque]
pub open spec fn pulse_bytes(x: PulseChannel) -> Seq<u8> {
    seq![(if x.enabled { 1u8 } else { 0u8 }), x.duty, x.duty_position, x.length_counter, u16_bytes(x.timer)[0], u16_bytes(x.timer)[1], u16_bytes(x.timer_period)[0], u16_bytes(x.timer_period)[1], (if x.envelope.start { 1u8 } else { 0u8 }), x.envelope.divider, x.envelope.decay, x.envelope.period, (if x.envelope.constant { 1u8 } else { 0u8 }), (if x.envelope.looping { 1u8 } else { 0u8 }), (if x.sweep_enabled { 1u8 } else { 0u8 }), (if x.sweep_negate { 1u8 } else { 0u8 }), x.sweep_shift, (if x.twos_complement { 1u8 } else { 0u8 })]
}

#[verifier::rlimit(100)]
fn push_pulse(out: &mut Vec<u8>, x: PulseChannel)
    ensures
        final(out)@ == old(out)@ + pulse_bytes(x),
{
    reveal(pulse_bytes);
    let ghost start = out@;
    out.push(if x.enabled { 1 } else { 0 });
    out.push(x.duty);
    out.push(x.duty_position);
    out.push(x.length_counter);
    push_u16(out, x.timer);
    push_u16(out, x.timer_period);
    out.push(if x.envelope.start { 1 } else { 0 });
    out.push(x.envelope.divider);
    out.push(x.envelope.decay);
    out.push(x.envelope.period);
    out.push(if x.envelope.constant { 1 } else { 0 });
    out.push(if x.envelope.looping { 1 } else { 0 });
    out.push(if x.sweep_enabled { 1 } else { 0 });
    out.push(if x.sweep_negate { 1 } else { 0 });
    out.push(x.sweep_shift);
    out.push(if x.twos_complement { 1 } else { 0 });
    assert(out@ =~= start + pulse_bytes(x));
}

#[verifier::rlimit(100)]
fn decode_pulse(data: &Vec<u8>, at: usize) -> (r: Option<PulseChannel>)
    requires
        at + 18 <= data@.len(),
    ensures
        (exists|w: PulseChannel| #[trigger] pulse_bytes(w) == data@.subrange(at as int, at + 18)) ==> r is Some,
        r matches Some(x) ==> pulse_bytes(x) == data@.subrange(at as int, at + 18),
{
    let n = data.len();
    let ghost has_w = exists|w: PulseChannel| #[trigger] pulse_bytes(w) == data@.subrange(at as int, at + 18);
    let ghost w = choose|w: PulseChannel| #[trigger] pulse_bytes(w) == data@.subrange(at as int, at + 18);
    proof {
        reveal(pulse_bytes);
        if has_w {
            assert forall|i: int| 0 <= i < 18 implies #[trigger] data@[at + i] == pulse_bytes(w)[i] by {
                assert(data@.subrange(at as int, at + 18)[i] == data@[at + i]);
            }
        }
    }
    if data[at] > 1 || data[at + 8] > 1 || data[at + 12] > 1 || data[at + 13] > 1 || data[at + 14] > 1 || data[at + 15] > 1 || data[at + 17] > 1 {
        return None;
    }
    let v0 = data[at] == 1;
    let v1 = data[at + 1];
    let v2 = data[at + 2];
    let v3 = data[at + 3];
    let v4 = read_u16(data, at + 4);
    let v5 = read_u16(data, at + 6);
    let v6 = data[at + 8] == 1;
    let v7 = data[at + 9];
    let v8 = data[at + 10];
    let v9 = data[at + 11];
    let v10 = data[at + 12] == 1;
    let v11 = data[at + 13] == 1;
    let v12 = data[at + 14] == 1;
    let v13 = data[at + 15] == 1;
    let v14 = data[at + 16];
    let v15 = data[at + 17] == 1;
    reveal(pulse_bytes);
    let x = PulseChannel { enabled: v0, duty: v1, duty_position: v2, length_counter: v3, timer: v4, timer_period: v5, envelope: Envelope { start: v6, divider: v7, decay: v8, period: v9, constant: v10, looping: v11 }, sweep_enabled: v12, sweep_negate: v13, sweep_shift: v14, twos_complement: v15 };
    assert(pulse_bytes(x) =~= data@.subrange(at as int, at + 18));
    Some(x)
}

/// The pulse bytes always take 18 bytes.
pub proof fn lemma_pulse_len(x: PulseChannel)
    ensures
        pulse_bytes(x).len() == 18,
{
    reveal(pulse_bytes);
}

#[verifier::rlimit(100)]
proof fn lemma_pulse_bytes_injective(a: PulseChannel, b: PulseChannel)
    requires
        pulse_bytes(a) == pulse_bytes(b),
    ensures
        a == b,
{
    reveal(pulse_bytes);
    let x = pulse_bytes(a);
    let y = pulse_bytes(b);
    assert(x[0] == y[0]);
    assert(x[1] == y[1]);
    assert(x[2] == y[2]);
    assert(x[3] == y[3]);
    assert(x[4] == y[4] && x[5] == y[5]);
    assert(u16_bytes(a.timer) =~= u16_bytes(b.timer));
    lemma_u16_bytes_injective(a.timer, b.timer);
    assert(x[6] == y[6] && x[7] == y[7]);
    assert(u16_bytes(a.timer_period) =~= u16_bytes(b.timer_period));
    lemma_u16_bytes_injective(a.timer_period, b.timer_period);
    assert(x[8] == y[8]);
    assert(x[9] == y[9]);
    assert(x[10] == y[10]);
    assert(x[11] == y[11]);
    assert(x[12] == y[12]);
    assert(x[13] == y[13]);
    assert(x[14] == y[14]);
    assert(x[15] == y[15]);
    assert(x[16] == y[16]);
    assert(x[17] == y[17]);
}

/// The triangle channel, as bytes.
#[verifier::opaque]
pub open spec fn triangle_bytes(x: TriangleChannel) -> Seq<u8> {
    seq![(if x.enabled { 1u8 } else { 0u8 }), x.length_counter, u16_bytes(x.timer)[0], u16_bytes(x.timer)[1], u16_bytes(x.timer_period)[0], u16_bytes(x.timer_period)[1], x.linear_counter, x.linear_reload, (if x.reload_flag { 1u8 } else { 0u8 }), (if x.control_flag { 1u8 } else { 0u8 }), x.sequence_position]
}

#[verifier::rlimit(100)]
fn push_triangle(out: &mut Vec<u8>, x: TriangleChannel)
    ensures
        final(out)@ == old(out)@ + triangle_bytes(x),
{
    reveal(triangle_bytes);
    let ghost start = out@;
    out.push(if x.enabled { 1 } else { 0 });
    out.push(x.length_counter);
    push_u16(out, x.timer);
    push_u16(out, x.timer_period);
    out.push(x.linear_counter);
    out.push(x.linear_reload);
    out.push(if x.reload_flag { 1 } else { 0 });
    out.push(if x.control_flag { 1 } else { 0 });
    out.push(x.sequence_position);
    assert(out@ =~= start + triangle_bytes(x));
}

#[verifier::rlimit(100)]
fn decode_triangle(data: &Vec<u8>, at: usize) -> (r: Option<TriangleChannel>)
    requires
        at + 11 <= data@.len(),
    ensures
        (exists|w: TriangleChannel| #[trigger] triangle_bytes(w) == data@.subrange(at as int, at + 11)) ==> r is Some,
        r matches Some(x) ==> triangle_bytes(x) == data@.subrange(at as int, at + 11),
{
    let n = data.len();
    let ghost has_w = exists|w: TriangleChannel| #[trigger] triangle_bytes(w) == data@.subrange(at as int, at + 11);
    let ghost w = choose|w: TriangleChannel| #[trigger] triangle_bytes(w) == data@.subrange(at as int, at + 11);
    proof {
        reveal(triangle_bytes);
        if has_w {
            assert forall|i: int| 0 <= i < 11 implies #[trigger] data@[at + i] == triangle_bytes(w)[i] by {
                assert(data@.subrange(at as int, at + 11)[i] == data@[at + i]);
            }
        }
    }
    if data[at] > 1 || data[at + 8] > 1 || data[at + 9] > 1 {
        return None;
    }
    let v0 = data[at] == 1;
    let v1 = data[at + 1];
    let v2 = read_u16(data, at + 2);
    let v3 = read_u16(data, at + 4);
    let v4 = data[at + 6];
    let v5 = data[at + 7];
    let v6 = data[at + 8] == 1;
    let v7 = data[at + 9] == 1;
    let v8 = data[at + 10];
    reveal(triangle_bytes);
    let x = TriangleChannel { enabled: v0, length_counter: v1, timer: v2, timer_period: v3, linear_counter: v4, linear_reload: v5, reload_flag: v6, control_flag: v7, sequence_position: v8 };
    assert(triangle_bytes(x) =~= data@.subrange(at as int, at + 11));
    Some(x)
}

/// The triangle bytes always take 11 bytes.
pub proof fn lemma_triangle_len(x: TriangleChannel)
    ensures
        triangle_bytes(x).len() == 11,
{
    reveal(triangle_bytes);
}

#[verifier::rlimit(100)]
proof fn lemma_triangle_bytes_injective(a: TriangleChannel, b: TriangleChannel)
    requires
        triangle_bytes(a) == triangle_bytes(b),
    ensures
        a == b,
{
    reveal(triangle_bytes);
    let x = triangle_bytes(a);
    let y = triangle_bytes(b);
    assert(x[0] == y[0]);
    assert(x[1] == y[1]);
    assert(x[2] == y[2] && x[3] == y[3]);
    assert(u16_bytes(a.timer) =~= u16_bytes(b.timer));
    lemma_u16_bytes_injective(a.timer, b.timer);
    assert(x[4] == y[4] && x[5] == y[5]);
    assert(u16_bytes(a.timer_period) =~= u16_bytes(b.timer_period));
    lemma_u16_bytes_injective(a.timer_period, b.timer_period);
    assert(x[6] == y[6]);
    assert(x[7] == y[7]);
    assert(x[8] == y[8]);
    assert(x[9] == y[9]);
    assert(x[10] == y[10]);
}

/// The noise channel, as bytes.
#[verifier::opaque]
pub open spec fn noise_bytes(x: NoiseChannel) -> Seq<u8> {
    seq![(if x.enabled { 1u8 } else { 0u8 }), x.length_counter, u16_bytes(x.timer)[0], u16_bytes(x.timer)[1], u16_bytes(x.timer_period)[0], u16_bytes(x.timer_period)[1], (if x.envelope.start { 1u8 } else { 0u8 }), x.envelope.divider, x.envelope.decay, x.envelope.period, (if x.envelope.constant { 1u8 } else { 0u8 }), (if x.envelope.looping { 1u8 } else { 0u8 }), (if x.mode { 1u8 } else { 0u8 }), u16_bytes(x.shift_register)[0], u16_bytes(x.shift_register)[1]]
}

#[verifier::rlimit(100)]
fn push_noise(out: &mut Vec<u8>, x: NoiseChannel)
    ensures
        final(out)@ == old(out)@ + noise_bytes(x),
{
    reveal(noise_bytes);
    let ghost start = out@;
    out.push(if x.enabled { 1 } else { 0 });
    out.push(x.length_counter);
    push_u16(out, x.timer);
    push_u16(out, x.timer_period);
    out.push(if x.envelope.start { 1 } else { 0 });
    out.push(x.envelope.divider);
    out.push(x.envelope.decay);
    out.push(x.envelope.period);
    out.push(if x.envelope.constant { 1 } else { 0 });
    out.push(if x.envelope.looping { 1 } else { 0 });
    out.push(if x.mode { 1 } else { 0 });
    push_u16(out, x.shift_register);
    assert(out@ =~= start + noise_bytes(x));
}

#[verifier::rlimit(100)]
fn decode_noise(data: &Vec<u8>, at: usize) -> (r: Option<NoiseChannel>)
    requires
        at + 15 <= data@.len(),
    ensures
        (exists|w: NoiseChannel| #[trigger] noise_bytes(w) == data@.subrange(at as int, at + 15)) ==> r is Some,
        r matches Some(x) ==> noise_bytes(x) == data@.subrange(at as int, at + 15),
{
    let n = data.len();
    let ghost has_w = exists|w: NoiseChannel| #[trigger] noise_bytes(w) == data@.subrange(at as int, at + 15);
    let ghost w = choose|w: NoiseChannel| #[trigger] noise_bytes(w) == data@.subrange(at as int, at + 15);
    proof {
        reveal(noise_bytes);
        if has_w {
            assert forall|i: int| 0 <= i < 15 implies #[trigger] data@[at + i] == noise_bytes(w)[i] by {
                assert(data@.subrange(at as int, at + 15)[i] == data@[at + i]);
            }
        }
    }
    if data[at] > 1 || data[at + 6] > 1 || data[at + 10] > 1 || data[at + 11] > 1 || data[at + 12] > 1 {
        return None;
    }
    let v0 = data[at] == 1;
    let v1 = data[at + 1];
    let v2 = read_u16(data, at + 2);
    let v3 = read_u16(data, at + 4);
    let v4 = data[at + 6] == 1;
    let v5 = data[at + 7];
    let v6 = data[at + 8];
    let v7 = data[at + 9];
    let v8 = data[at + 10] == 1;
    let v9 = data[at + 11] == 1;
    let v10 = data[at + 12] == 1;
    let v11 = read_u16(data, at + 13);
    reveal(noise_bytes);
    let x = NoiseChannel { enabled: v0, length_counter: v1, timer: v2, timer_period: v3, envelope: Envelope { start: v4, divider: v5, decay: v6, period: v7, constant: v8, looping: v9 }, mode: v10, shift_register: v11 };
    assert(noise_bytes(x) =~= data@.subrange(at as int, at + 15));
    Some(x)
}

/// The noise bytes always take 15 bytes.
pub proof fn lemma_noise_len(x: NoiseChannel)
    ensures
        noise_bytes(x).len() == 15,
{
    reveal(noise_bytes);
}

#[verifier::rlimit(100)]
proof fn lemma_noise_bytes_injective(a: NoiseChannel, b: NoiseChannel)
    requires
        noise_bytes(a) == noise_bytes(b),
    ensures
        a == b,
{
    reveal(noise_bytes);
    let x = noise_bytes(a);
    let y = noise_bytes(b);
    assert(x[0] == y[0]);
    assert(x[1] == y[1]);
    assert(x[2] == y[2] && x[3] == y[3]);
    assert(u16_bytes(a.timer) =~= u16_bytes(b.timer));
    lemma_u16_bytes_injective(a.timer, b.timer);
    assert(x[4] == y[4] && x[5] == y[5]);
    assert(u16_bytes(a.timer_period) =~= u16_bytes(b.timer_period));
    lemma_u16_bytes_injective(a.timer_period, b.timer_period);
    assert(x[6] == y[6]);
    assert(x[7] == y[7]);
    assert(x[8] == y[8]);
    assert(x[9] == y[9]);
    assert(x[10] == y[10]);
    assert(x[11] == y[11]);
    assert(x[12] == y[12]);
    assert(x[13] == y[13] && x[14] == y[14]);
    assert(u16_bytes(a.shift_register) =~= u16_bytes(b.shift_register));
    lemma_u16_bytes_injective(a.shift_register, b.shift_register);
}

/// The DMC channel, as bytes.
#[verifier::opaque]
pub open spec fn dmc_bytes(x: DmcChannel) -> Seq<u8> {
    seq![(if x.enabled { 1u8 } else { 0u8 }), u16_bytes(x.timer)[0], u16_bytes(x.timer)[1], u16_bytes(x.timer_period)[0], u16_bytes(x.timer_period)[1], u16_bytes(x.sample_address)[0], u16_bytes(x.sample_address)[1], u16_bytes(x.sample_length)[0], u16_bytes(x.sample_length)[1], u16_bytes(x.current_address)[0], u16_bytes(x.current_address)[1], u16_bytes(x.bytes_remaining)[0], u16_bytes(x.bytes_remaining)[1], (if x.sample_buffer is Some { 1u8 } else { 0u8 }), (match x.sample_buffer { Some(v) => v, None => 0u8 }), x.shift_register, x.bits_remaining, x.output_level, (if x.silence { 1u8 } else { 0u8 }), (if x.loop_flag { 1u8 } else { 0u8 }), (if x.irq_enabled { 1u8 } else { 0u8 }), (if x.interrupt { 1u8 } else { 0u8 })]
}

#[verifier::rlimit(100)]
fn push_dmc(out: &mut Vec<u8>, x: DmcChannel)
    ensures
        final(out)@ == old(out)@ + dmc_bytes(x),
{
    reveal(dmc_bytes);
    let ghost start = out@;
    out.push(if x.enabled { 1 } else { 0 });
    push_u16(out, x.timer);
    push_u16(out, x.timer_period);
    push_u16(out, x.sample_address);
    push_u16(out, x.sample_length);
    push_u16(out, x.current_address);
    push_u16(out, x.bytes_remaining);
    match x.sample_buffer { Some(v) => { out.push(1); out.push(v); }, None => { out.push(0); out.push(0); } }
    out.push(x.shift_register);
    out.push(x.bits_remaining);
    out.push(x.output_level);
    out.push(if x.silence { 1 } else { 0 });
    out.push(if x.loop_flag { 1 } else { 0 });
    out.push(if x.irq_enabled { 1 } else { 0 });
    out.push(if x.interrupt { 1 } else { 0 });
    assert(out@ =~= start + dmc_bytes(x));
}

#[verifier::rlimit(100)]
fn decode_dmc(data: &Vec<u8>, at: usize) -> (r: Option<DmcChannel>)
    requires
        at + 22 <= data@.len(),
    ensures
        (exists|w: DmcChannel| #[trigger] dmc_bytes(w) == data@.subrange(at as int, at + 22)) ==> r is Some,
        r matches Some(x) ==> dmc_bytes(x) == data@.subrange(at as int, at + 22),
{
    let n = data.len();
    let ghost has_w = exists|w: DmcChannel| #[trigger] dmc_bytes(w) == data@.subrange(at as int, at + 22);
    let ghost w = choose|w: DmcChannel| #[trigger] dmc_bytes(w) == data@.subrange(at as int, at + 22);
    proof {
        reveal(dmc_bytes);
        if has_w {
            assert forall|i: int| 0 <= i < 22 implies #[trigger] data@[at + i] == dmc_bytes(w)[i] by {
                assert(data@.subrange(at as int, at + 22)[i] == data@[at + i]);
            }
        }
    }
    if data[at] > 1 || data[at + 13] > 1 || (data[at + 13] == 0 && data[at + 14] != 0) || data[at + 18] > 1 || data[at + 19] > 1 || data[at + 20] > 1 || data[at + 21] > 1 {
        return None;
    }
    let v0 = data[at] == 1;
    let v1 = read_u16(data, at + 1);
    let v2 = read_u16(data, at + 3);
    let v3 = read_u16(data, at + 5);
    let v4 = read_u16(data, at + 7);
    let v5 = read_u16(data, at + 9);
    let v6 = read_u16(data, at + 11);
    let v7: Option<u8> = if data[at + 13] == 1 { Some(data[at + 14]) } else { None };
    let v8 = data[at + 15];
    let v9 = data[at + 16];
    let v10 = data[at + 17];
    let v11 = data[at + 18] == 1;
    let v12 = data[at + 19] == 1;
    let v13 = data[at + 20] == 1;
    let v14 = data[at + 21] == 1;
    reveal(dmc_bytes);
    let x = DmcChannel { enabled: v0, timer: v1, timer_period: v2, sample_address: v3, sample_length: v4, current_address: v5, bytes_remaining: v6, sample_buffer: v7, shift_register: v8, bits_remaining: v9, output_level: v10, silence: v11, loop_flag: v12, irq_enabled: v13, interrupt: v14 };
    assert(dmc_bytes(x) =~= data@.subrange(at as int, at + 22));
    Some(x)
}

/// The dmc bytes always take 22 bytes.
pub proof fn lemma_dmc_len(x: DmcChannel)
    ensures
        dmc_bytes(x).len() == 22,
{
    reveal(dmc_bytes);
}

#[verifier::rlimit(100)]
proof fn lemma_dmc_bytes_injective(a: DmcChannel, b: DmcChannel)
    requires
        dmc_bytes(a) == dmc_bytes(b),
    ensures
        a == b,
{
    reveal(dmc_bytes);
    let x = dmc_bytes(a);
    let y = dmc_bytes(b);
    assert(x[0] == y[0]);
    assert(x[1] == y[1] && x[2] == y[2]);
    assert(u16_bytes(a.timer) =~= u16_bytes(b.timer));
    lemma_u16_bytes_injective(a.timer, b.timer);
    assert(x[3] == y[3] && x[4] == y[4]);
    assert(u16_bytes(a.timer_period) =~= u16_bytes(b.timer_period));
    lemma_u16_bytes_injective(a.timer_period, b.timer_period);
    assert(x[5] == y[5] && x[6] == y[6]);
    assert(u16_bytes(a.sample_address) =~= u16_bytes(b.sample_address));
    lemma_u16_bytes_injective(a.sample_address, b.sample_address);
    assert(x[7] == y[7] && x[8] == y[8]);
    assert(u16_bytes(a.sample_length) =~= u16_bytes(b.sample_length));
    lemma_u16_bytes_injective(a.sample_length, b.sample_length);
    assert(x[9] == y[9] && x[10] == y[10]);
    assert(u16_bytes(a.current_address) =~= u16_bytes(b.current_address));
    lemma_u16_bytes_injective(a.current_address, b.current_address);
    assert(x[11] == y[11] && x[12] == y[12]);
    assert(u16_bytes(a.bytes_remaining) =~= u16_bytes(b.bytes_remaining));
    lemma_u16_bytes_injective(a.bytes_remaining, b.bytes_remaining);
    assert(x[13] == y[13] && x[14] == y[14]);
    assert(x[15] == y[15]);
    assert(x[16] == y[16]);
    assert(x[17] == y[17]);
    assert(x[18] == y[18]);
    assert(x[19] == y[19]);
    assert(x[20] == y[20]);
    assert(x[21] == y[21]);
}

/// The frame counter and cycle count of the APU, as bytes.
#[verifier::opaque]
pub open spec fn apuframe_bytes(x: Apu) -> Seq<u8> {
    seq![(if x.frame_mode { 1u8 } else { 0u8 }), (if x.frame_irq_inhibit { 1u8 } else { 0u8 }), (if x.frame_irq { 1u8 } else { 0u8 }), u32_bytes(x.frame_cycles)[0], u32_bytes(x.frame_cycles)[1], u32_bytes(x.frame_cycles)[2], u32_bytes(x.frame_cycles)[3], u64_bytes(x.cycles)[0], u64_bytes(x.cycles)[1], u64_bytes(x.cycles)[2], u64_bytes(x.cycles)[3], u64_bytes(x.cycles)[4], u64_bytes(x.cycles)[5], u64_bytes(x.cycles)[6], u64_bytes(x.cycles)[7]]
}

#[verifier::rlimit(100)]
fn push_apuframe(out: &mut Vec<u8>, x: Apu)
    ensures
        final(out)@ == old(out)@ + apuframe_bytes(x),
{
    reveal(apuframe_bytes);
    let ghost start = out@;
    out.push(if x.frame_mode { 1 } else { 0 });
    out.push(if x.frame_irq_inhibit { 1 } else { 0 });
    out.push(if x.frame_irq { 1 } else { 0 });
    push_u32(out, x.frame_cycles);
    push_u64(out, x.cycles);
    assert(out@ =~= start + apuframe_bytes(x));
}

#[verifier::rlimit(100)]
fn decode_apuframe(data: &Vec<u8>, at: usize, base: Apu) -> (r: Option<Apu>)
    requires
        at + 15 <= data@.len(),
    ensures
        (exists|w: Apu| #[trigger] apuframe_bytes(w) == data@.subrange(at as int, at + 15)) ==> r is Some,
        r matches Some(x) ==> apuframe_bytes(x) == data@.subrange(at as int, at + 15) && x.pulse1 == base.pulse1 && x.pulse2 == base.pulse2 && x.triangle == base.triangle && x.noise == base.noise && x.dmc == base.dmc,
{
    let n = data.len();
    let ghost has_w = exists|w: Apu| #[trigger] apuframe_bytes(w) == data@.subrange(at as int, at + 15);
    let ghost w = choose|w: Apu| #[trigger] apuframe_bytes(w) == data@.subrange(at as int, at + 15);
    proof {
        reveal(apuframe_bytes);
        if has_w {
            assert forall|i: int| 0 <= i < 15 implies #[trigger] data@[at + i] == apuframe_bytes(w)[i] by {
                assert(data@.subrange(at as int, at + 15)[i] == data@[at + i]);
            }
        }
    }
    if data[at] > 1 || data[at + 1] > 1 || data[at + 2] > 1 {
        return None;
    }
    let v0 = data[at] == 1;
    let v1 = data[at + 1] == 1;
    let v2 = data[at + 2] == 1;
    let v3 = read_u32(data, at + 3);
    let v4 = read_u64(data, at + 7);
    reveal(apuframe_bytes);
    let x = Apu { frame_mode: v0, frame_irq_inhibit: v1, frame_irq: v2, frame_cycles: v3, cycles: v4, ..base };
    assert(apuframe_bytes(x) =~= data@.subrange(at as int, at + 15));
    Some(x)
}

/// The apuframe bytes always take 15 bytes.
pub proof fn lemma_apuframe_len(x: Apu)
    ensures
        apuframe_bytes(x).len() == 15,
{
    reveal(apuframe_bytes);
}

#[verifier::rlimit(100)]
proof fn lemma_apuframe_bytes_injective(a: Apu, b: Apu)
    requires
        apuframe_bytes(a) == apuframe_bytes(b),
    ensures
        a.frame_mode == b.frame_mode && a.frame_irq_inhibit == b.frame_irq_inhibit && a.frame_irq == b.frame_irq && a.frame_cycles == b.frame_cycles && a.cycles == b.cycles,
{
    reveal(apuframe_bytes);
    let x = apuframe_bytes(a);
    let y = apuframe_bytes(b);
    assert(x[0] == y[0]);
    assert(x[1] == y[1]);
    assert(x[2] == y[2]);
    assert(x[3] == y[3] && x[4] == y[4] && x[5] == y[5] && x[6] == y[6]);
    assert(u32_bytes(a.frame_cycles) =~= u32_bytes(b.frame_cycles));
    lemma_u32_bytes_injective(a.frame_cycles, b.frame_cycles);
    assert(x[7] == y[7] && x[8] == y[8] && x[9] == y[9] && x[10] == y[10] && x[11] == y[11] && x[12] == y[12] && x[13] == y[13] && x[14] == y[14]);
    assert(u64_bytes(a.cycles) =~= u64_bytes(b.cycles));
    lemma_u64_bytes_injective(a.cycles, b.cycles);
}

/// The two controller ports, as bytes.
#[verifier::opaque]
pub open spec fn ports_bytes(x: (ControllerPort, ControllerPort)) -> Seq<u8> {
    seq![x.0.buttons, x.0.shift, (if x.0.strobe { 1u8 } else { 0u8 }), x.1.buttons, x.1.shift, (if x.1.strobe { 1u8 } else { 0u8 })]
}

#[verifier::rlimit(100)]
fn push_ports(out: &mut Vec<u8>, x: (ControllerPort, ControllerPort))
    ensures
        final(out)@ == old(out)@ + ports_bytes(x),
{
    reveal(ports_bytes);
    let ghost start = out@;
    out.push(x.0.buttons);
    out.push(x.0.shift);
    out.push(if x.0.strobe { 1 } else { 0 });
    out.push(x.1.buttons);
    out.push(x.1.shift);
    out.push(if x.1.strobe { 1 } else { 0 });
    assert(out@ =~= start + ports_bytes(x));
}

#[verifier::rlimit(100)]
fn decode_ports(data: &Vec<u8>, at: usize) -> (r: Option<(ControllerPort, ControllerPort)>)
    requires
        at + 6 <= data@.len(),
    ensures
        (exists|w: (ControllerPort, ControllerPort)| #[trigger] ports_bytes(w) == data@.subrange(at as int, at + 6)) ==> r is Some,
        r matches Some(x) ==> ports_bytes(x) == data@.subrange(at as int, at + 6),
{
    let n = data.len();
    let ghost has_w = exists|w: (ControllerPort, ControllerPort)| #[trigger] ports_bytes(w) == data@.subrange(at as int, at + 6);
    let ghost w = choose|w: (ControllerPort, ControllerPort)| #[trigger] ports_bytes(w) == data@.subrange(at as int, at + 6);
    proof {
        reveal(ports_bytes);
        if has_w {
            assert forall|i: int| 0 <= i < 6 implies #[trigger] data@[at + i] == ports_bytes(w)[i] by {
                assert(data@.subrange(at as int, at + 6)[i] == data@[at + i]);
            }
        }
    }
    if data[at + 2] > 1 || data[at + 5] > 1 {
        return None;
    }
    let v0 = data[at];
    let v1 = data[at + 1];
    let v2 = data[at + 2] == 1;
    let v3 = data[at + 3];
    let v4 = data[at + 4];
    let v5 = data[at + 5] == 1;
    reveal(ports_bytes);
    let x = (ControllerPort { buttons: v0, shift: v1, strobe: v2 }, ControllerPort { buttons: v3, shift: v4, strobe: v5 });
    assert(ports_bytes(x) =~= data@.subrange(at as int, at + 6));
    Some(x)
}

/// The ports bytes always take 6 bytes.
pub proof fn lemma_ports_len(x: (ControllerPort, ControllerPort))
    ensures
        ports_bytes(x).len() == 6,
{
    reveal(ports_bytes);
}

#[verifier::rlimit(100)]
proof fn lemma_ports_bytes_injective(a: (ControllerPort, ControllerPort), b: (ControllerPort, ControllerPort))
    requires
        ports_bytes(a) == ports_bytes(b),
    ensures
        a == b,
{
    reveal(ports_bytes);
    let x = ports_bytes(a);
    let y = ports_bytes(b);
    assert(x[0] == y[0]);
    assert(x[1] == y[1]);
    assert(x[2] == y[2]);
    assert(x[3] == y[3]);
    assert(x[4] == y[4]);
    assert(x[5] == y[5]);
}


/// The 24 bytes of a mapper's registers: its number, then its fields in
/// order (booleans as 0 or 1), then zeros.
pub open spec fn mapper_bytes(k: MapperKind) -> Seq<u8> {
    match k {
        MapperKind::Nrom(_) => seq![0u8, 0u8, 0u8, 0u8, 0u8, 0u8, 0u8, 0u8, 0u8, 0u8, 0u8, 0u8, 0u8, 0u8, 0u8, 0u8, 0u8, 0u8, 0u8, 0u8, 0u8, 0u8, 0u8, 0u8],
        MapperKind::Mmc1(m) => seq![1u8, m.shift_register, m.shift_count, m.control, m.chr_bank0, m.chr_bank1, m.prg_bank, 0u8, 0u8, 0u8, 0u8, 0u8, 0u8, 0u8, 0u8, 0u8, 0u8, 0u8, 0u8, 0u8, 0u8, 0u8, 0u8, 0u8],
        MapperKind::Uxrom(m) => seq![2u8, m.prg_bank, 0u8, 0u8, 0u8, 0u8, 0u8, 0u8, 0u8, 0u8, 0u8, 0u8, 0u8, 0u8, 0u8, 0u8, 0u8, 0u8, 0u8, 0u8, 0u8, 0u8, 0u8, 0u8],
        MapperKind::Cnrom(m) => seq![3u8, m.chr_bank, 0u8, 0u8, 0u8, 0u8, 0u8, 0u8, 0u8, 0u8, 0u8, 0u8, 0u8, 0u8, 0u8, 0u8, 0u8, 0u8, 0u8, 0u8, 0u8, 0u8, 0u8, 0u8],
        MapperKind::Mmc3(m) => seq![4u8, m.bank_select, m.r0, m.r1, m.r2, m.r3, m.r4, m.r5, m.r6, m.r7, m.mirroring_mode, (if m.irq_enabled { 1u8 } else { 0u8 }), m.irq_counter, m.irq_latch, (if m.irq_reload { 1u8 } else { 0u8 }), (if m.irq_pending { 1u8 } else { 0u8 }), (if m.last_a12 { 1u8 } else { 0u8 }), m.a12_filter, 0u8, 0u8, 0u8, 0u8, 0u8, 0u8],
        MapperKind::Mmc5(m) => seq![5u8, m.prg_mode, m.chr_mode, m.exram_mode, m.nametable_mapping, m.fill_tile, m.fill_attr, m.prg_ram_bank, m.prg0, m.prg1, m.prg2, m.prg3, m.chr0, m.chr1, m.chr2, m.chr3, m.chr4, m.chr5, m.chr6, m.chr7, m.irq_compare, (if m.irq_enabled { 1u8 } else { 0u8 }), (if m.irq_pending { 1u8 } else { 0u8 }), 0u8],
        MapperKind::Axrom(m) => seq![7u8, m.prg_bank, m.mirroring_mode, 0u8, 0u8, 0u8, 0u8, 0u8, 0u8, 0u8, 0u8, 0u8, 0u8, 0u8, 0u8, 0u8, 0u8, 0u8, 0u8, 0u8, 0u8, 0u8, 0u8, 0u8],
        MapperKind::Mmc2(m) => seq![9u8, m.prg_bank, m.chr0_fd, m.chr0_fe, m.chr1_fd, m.chr1_fe, (if m.latch0_fe { 1u8 } else { 0u8 }), (if m.latch1_fe { 1u8 } else { 0u8 }), m.mirroring_mode, 0u8, 0u8, 0u8, 0u8, 0u8, 0u8, 0u8, 0u8, 0u8, 0u8, 0u8, 0u8, 0u8, 0u8, 0u8],
        MapperKind::Discrete(m) => seq![11u8, m.prg_bank, m.chr_bank, (if m.gxrom { 1u8 } else { 0u8 }), 0u8, 0u8, 0u8, 0u8, 0u8, 0u8, 0u8, 0u8, 0u8, 0u8, 0u8, 0u8, 0u8, 0u8, 0u8, 0u8, 0u8, 0u8, 0u8, 0u8],
    }
}

fn push_mapper(out: &mut Vec<u8>, k: MapperKind)
    ensures
        final(out)@ == old(out)@ + mapper_bytes(k),
{
    let ghost start = out@;
    match k {
            MapperKind::Nrom(_) => {
                out.push(0);
                push_zeros(out, 23);
            },
            MapperKind::Mmc1(m) => {
                out.push(1);
                out.push(m.shift_register);
                out.push(m.shift_count);
                out.push(m.control);
                out.push(m.chr_bank0);
                out.push(m.chr_bank1);
                out.push(m.prg_bank);
                push_zeros(out, 17);
            },
            MapperKind::Uxrom(m) => {
                out.push(2);
                out.push(m.prg_bank);
                push_zeros(out, 22);
            },
            MapperKind::Cnrom(m) => {
                out.push(3);
                out.push(m.chr_bank);
                push_zeros(out, 22);
            },
            MapperKind::Mmc3(m) => {
                out.push(4);
                out.push(m.bank_select);
                out.push(m.r0);
                out.push(m.r1);
                out.push(m.r2);
                out.push(m.r3);
                out.push(m.r4);
                out.push(m.r5);
                out.push(m.r6);
                out.push(m.r7);
                out.push(m.mirroring_mode);
                out.push(if m.irq_enabled { 1 } else { 0 });
                out.push(m.irq_counter);
                out.push(m.irq_latch);
                out.push(if m.irq_reload { 1 } else { 0 });
                out.push(if m.irq_pending { 1 } else { 0 });
                out.push(if m.last_a12 { 1 } else { 0 });
                out.push(m.a12_filter);
                push_zeros(out, 6);
            },
            MapperKind::Mmc5(m) => {
                out.push(5);
                out.push(m.prg_mode);
                out.push(m.chr_mode);
                out.push(m.exram_mode);
                out.push(m.nametable_mapping);
                out.push(m.fill_tile);
                out.push(m.fill_attr);
                out.push(m.prg_ram_bank);
                out.push(m.prg0);
                out.push(m.prg1);
                out.push(m.prg2);
                out.push(m.prg3);
                out.push(m.chr0);
                out.push(m.chr1);
                out.push(m.chr2);
                out.push(m.chr3);
                out.push(m.chr4);
                out.push(m.chr5);
                out.push(m.chr6);
                out.push(m.chr7);
                out.push(m.irq_compare);
                out.push(if m.irq_enabled { 1 } else { 0 });
                out.push(if m.irq_pending { 1 } else { 0 });
                push_zeros(out, 1);
            },
            MapperKind::Axrom(m) => {
                out.push(7);
                out.push(m.prg_bank);
                out.push(m.mirroring_mode);
                push_zeros(out, 21);
            },
            MapperKind::Mmc2(m) => {
                out.push(9);
                out.push(m.prg_bank);
                out.push(m.chr0_fd);
                out.push(m.chr0_fe);
                out.push(m.chr1_fd);
                out.push(m.chr1_fe);
                out.push(if m.latch0_fe { 1 } else { 0 });
                out.push(if m.latch1_fe { 1 } else { 0 });
                out.push(m.mirroring_mode);
                push_zeros(out, 15);
            },
            MapperKind::Discrete(m) => {
                out.push(11);
                out.push(m.prg_bank);
                out.push(m.chr_bank);
                out.push(if m.gxrom { 1 } else { 0 });
                push_zeros(out, 20);
            },
    }
    assert(out@ =~= start + mapper_bytes(k));
}

/// Decodes the 24 mapper bytes at `at`.
fn decode_mapper(data: &Vec<u8>, at: usize) -> (r: Option<MapperKind>)
    requires
        at + 24 <= data@.len(),
    ensures
        (exists|w: MapperKind| #[trigger] mapper_bytes(w) == data@.subrange(at as int, at + 24)) ==> r is Some,
        r matches Some(m) ==> mapper_bytes(m) == data@.subrange(at as int, at + 24),
{
    let n = data.len();
    let ghost has_w = exists|w: MapperKind| #[trigger] mapper_bytes(w) == data@.subrange(at as int, at + 24);
    let ghost w = choose|w: MapperKind| #[trigger] mapper_bytes(w) == data@.subrange(at as int, at + 24);
    proof {
        if has_w {
            assert forall|i: int| 0 <= i < 24 implies #[trigger] data@[at + i] == mapper_bytes(w)[i] by {
                assert(data@.subrange(at as int, at + 24)[i] == data@[at + i]);
            }
        }
    }
    let tag = data[at];
        if tag == 0 {
            if false || !all_zero(data, at + 1, at + 24) {
                return None;
            }
            let m = MapperKind::Nrom(Mapper0 {  });
            assert(mapper_bytes(m) =~= data@.subrange(at as int, at + 24));
            return Some(m);
        }
        if tag == 1 {
            if false || !all_zero(data, at + 7, at + 24) {
                return None;
            }
            let m = MapperKind::Mmc1(Mapper1 { shift_register: data[at + 1], shift_count: data[at + 2], control: data[at + 3], chr_bank0: data[at + 4], chr_bank1: data[at + 5], prg_bank: data[at + 6] });
            assert(mapper_bytes(m) =~= data@.subrange(at as int, at + 24));
            return Some(m);
        }
        if tag == 2 {
            if false || !all_zero(data, at + 2, at + 24) {
                return None;
            }
            let m = MapperKind::Uxrom(Mapper2 { prg_bank: data[at + 1] });
            assert(mapper_bytes(m) =~= data@.subrange(at as int, at + 24));
            return Some(m);
        }
        if tag == 3 {
            if false || !all_zero(data, at + 2, at + 24) {
                return None;
            }
            let m = MapperKind::Cnrom(Mapper3 { chr_bank: data[at + 1] });
            assert(mapper_bytes(m) =~= data@.subrange(at as int, at + 24));
            return Some(m);
        }
        if tag == 4 {
            if data[at + 11] > 1 || data[at + 14] > 1 || data[at + 15] > 1 || data[at + 16] > 1 || !all_zero(data, at + 18, at + 24) {
                return None;
            }
            let m = MapperKind::Mmc3(Mapper4 { bank_select: data[at + 1], r0: data[at + 2], r1: data[at + 3], r2: data[at + 4], r3: data[at + 5], r4: data[at + 6], r5: data[at + 7], r6: data[at + 8], r7: data[at + 9], mirroring_mode: data[at + 10], irq_enabled: data[at + 11] == 1, irq_counter: data[at + 12], irq_latch: data[at + 13], irq_reload: data[at + 14] == 1, irq_pending: data[at + 15] == 1, last_a12: data[at + 16] == 1, a12_filter: data[at + 17] });
            assert(mapper_bytes(m) =~= data@.subrange(at as int, at + 24));
            return Some(m);
        }
        if tag == 5 {
            if data[at + 21] > 1 || data[at + 22] > 1 || !all_zero(data, at + 23, at + 24) {
                return None;
            }
            let m = MapperKind::Mmc5(Mapper5 { prg_mode: data[at + 1], chr_mode: data[at + 2], exram_mode: data[at + 3], nametable_mapping: data[at + 4], fill_tile: data[at + 5], fill_attr: data[at + 6], prg_ram_bank: data[at + 7], prg0: data[at + 8], prg1: data[at + 9], prg2: data[at + 10], prg3: data[at + 11], chr0: data[at + 12], chr1: data[at + 13], chr2: data[at + 14], chr3: data[at + 15], chr4: data[at + 16], chr5: data[at + 17], chr6: data[at + 18], chr7: data[at + 19], irq_compare: data[at + 20], irq_enabled: data[at + 21] == 1, irq_pending: data[at + 22] == 1 });
            assert(mapper_bytes(m) =~= data@.subrange(at as int, at + 24));
            return Some(m);
        }
        if tag == 7 {
            if false || !all_zero(data, at + 3, at + 24) {
                return None;
            }
            let m = MapperKind::Axrom(Mapper7 { prg_bank: data[at + 1], mirroring_mode: data[at + 2] });
            assert(mapper_bytes(m) =~= data@.subrange(at as int, at + 24));
            return Some(m);
        }
        if tag == 9 {
            if data[at + 6] > 1 || data[at + 7] > 1 || !all_zero(data, at + 9, at + 24) {
                return None;
            }
            let m = MapperKind::Mmc2(Mapper9 { prg_bank: data[at + 1], chr0_fd: data[at + 2], chr0_fe: data[at + 3], chr1_fd: data[at + 4], chr1_fe: data[at + 5], latch0_fe: data[at + 6] == 1, latch1_fe: data[at + 7] == 1, mirroring_mode: data[at + 8] });
            assert(mapper_bytes(m) =~= data@.subrange(at as int, at + 24));
            return Some(m);
        }
        if tag == 11 {
            if data[at + 3] > 1 || !all_zero(data, at + 4, at + 24) {
                return None;
            }
            let m = MapperKind::Discrete(Mapper11 { prg_bank: data[at + 1], chr_bank: data[at + 2], gxrom: data[at + 3] == 1 });
            assert(mapper_bytes(m) =~= data@.subrange(at as int, at + 24));
            return Some(m);
        }
    None
}

/// Equal register bytes come from equal mappers.
pub proof fn lemma_mapper_bytes_injective(a: MapperKind, b: MapperKind)
    requires
        mapper_bytes(a) == mapper_bytes(b),
    ensures
        a == b,
{
    let x = mapper_bytes(a);
    let y = mapper_bytes(b);
    assert(forall|i: int| 0 <= i < 24 ==> x[i] == y[i]);
    assert(x[0] == y[0]);
    assert(x[1] == y[1] && x[2] == y[2] && x[3] == y[3] && x[4] == y[4] && x[5] == y[5] && x[6] == y[6]);
    assert(x[7] == y[7] && x[8] == y[8] && x[9] == y[9] && x[10] == y[10] && x[11] == y[11] && x[12] == y[12]);
    assert(x[13] == y[13] && x[14] == y[14] && x[15] == y[15] && x[16] == y[16] && x[17] == y[17] && x[18] == y[18]);
    assert(x[19] == y[19] && x[20] == y[20] && x[21] == y[21] && x[22] == y[22]);
}


/// `s` holds the state of `nes`.
pub open spec fn captures(s: SaveState, nes: Nes) -> bool {
    &&& (s.wf())
    &&& (s.cpu == nes.cpu && s.apu == nes.bus.apu && s.mapper == nes.bus.cartridge.mapper)
    &&& (s.port1 == nes.bus.port1 && s.port2 == nes.bus.port2)
    &&& (s.ppu == (PpuRegisters { ctrl: nes.bus.ppu.ctrl, mask: nes.bus.ppu.mask, status: nes.bus.ppu.status, oam_addr: nes.bus.ppu.oam_addr, v: nes.bus.ppu.v, t: nes.bus.ppu.t, x: nes.bus.ppu.x, w: nes.bus.ppu.w, buffer: nes.bus.ppu.buffer, open_bus: nes.bus.ppu.open_bus, scanline: nes.bus.ppu.scanline, cycle: nes.bus.ppu.cycle, frame: nes.bus.ppu.frame, odd_frame: nes.bus.ppu.odd_frame, suppress_vbl: nes.bus.ppu.suppress_vbl, nmi_pending: nes.bus.ppu.nmi_pending, bg_shift_pattern_lo: nes.bus.ppu.bg_shift_pattern_lo, bg_shift_pattern_hi: nes.bus.ppu.bg_shift_pattern_hi, bg_shift_attrib_lo: nes.bus.ppu.bg_shift_attrib_lo, bg_shift_attrib_hi: nes.bus.ppu.bg_shift_attrib_hi, bg_next_tile_id: nes.bus.ppu.bg_next_tile_id, bg_next_tile_attrib: nes.bus.ppu.bg_next_tile_attrib, bg_next_tile_lsb: nes.bus.ppu.bg_next_tile_lsb, bg_next_tile_msb: nes.bus.ppu.bg_next_tile_msb, sprite_count: nes.bus.ppu.sprite_count }))
    &&& (s.ram@ == nes.bus.ram.bytes@)
    &&& (s.ppu_vram@ == nes.bus.ppu.vram@)
    &&& (s.ppu_palette@ == nes.bus.ppu.palette@)
    &&& (s.ppu_oam@ == nes.bus.ppu.oam@)
    &&& (s.ppu_secondary_oam@ == nes.bus.ppu.secondary_oam@)
    &&& (s.ppu_sprite_patterns_lo@ == nes.bus.ppu.sprite_patterns_lo@)
    &&& (s.ppu_sprite_patterns_hi@ == nes.bus.ppu.sprite_patterns_hi@)
    &&& (s.ppu_sprite_positions@ == nes.bus.ppu.sprite_positions@)
    &&& (s.ppu_sprite_indexes@ == nes.bus.ppu.sprite_indexes@)
    &&& (s.ppu_sprite_attributes@ == nes.bus.ppu.sprite_attributes@)
    &&& (s.prg_ram@ == nes.bus.cartridge.prg_ram@)
    &&& (s.exram@ == nes.bus.cartridge.exram@)
    &&& (nes.bus.cartridge.chr_is_ram && nes.bus.cartridge.chr@.len() == 0x2000 ==> s.chr_ram@
                == nes.bus.cartridge.chr@)
}

/// `new` is `old` with the state `s` put back.
pub open spec fn restored(before: Nes, s: SaveState, new: Nes) -> bool {
    &&& (new.cpu == s.cpu && new.bus.apu == s.apu
                && new.bus.cartridge.mapper == s.mapper)
    &&& (new.bus.port1 == s.port1 && new.bus.port2 == s.port2)
    &&& (new.bus.ram.bytes@ == s.ram@)
    &&& (new.bus.ppu.vram@ == s.ppu_vram@)
    &&& (new.bus.ppu.palette@ == s.ppu_palette@)
    &&& (new.bus.ppu.oam@ == s.ppu_oam@)
    &&& (new.bus.ppu.secondary_oam@ == s.ppu_secondary_oam@)
    &&& (new.bus.ppu.sprite_patterns_lo@ == s.ppu_sprite_patterns_lo@)
    &&& (new.bus.ppu.sprite_patterns_hi@ == s.ppu_sprite_patterns_hi@)
    &&& (new.bus.ppu.sprite_positions@ == s.ppu_sprite_positions@)
    &&& (new.bus.ppu.sprite_indexes@ == s.ppu_sprite_indexes@)
    &&& (new.bus.ppu.sprite_attributes@ == s.ppu_sprite_attributes@)
    &&& (new.bus.cartridge.prg_ram@ == s.prg_ram@)
    &&& (new.bus.cartridge.exram@ == s.exram@)
    &&& (new.bus.ppu.ctrl == s.ppu.ctrl)
    &&& (new.bus.ppu.mask == s.ppu.mask)
    &&& (new.bus.ppu.status == s.ppu.status)
    &&& (new.bus.ppu.oam_addr == s.ppu.oam_addr)
    &&& (new.bus.ppu.v == s.ppu.v)
    &&& (new.bus.ppu.t == s.ppu.t)
    &&& (new.bus.ppu.x == s.ppu.x)
    &&& (new.bus.ppu.w == s.ppu.w)
    &&& (new.bus.ppu.buffer == s.ppu.buffer)
    &&& (new.bus.ppu.open_bus == s.ppu.open_bus)
    &&& (new.bus.ppu.scanline == s.ppu.scanline)
    &&& (new.bus.ppu.cycle == s.ppu.cycle)
    &&& (new.bus.ppu.frame == s.ppu.frame)
    &&& (new.bus.ppu.odd_frame == s.ppu.odd_frame)
    &&& (new.bus.ppu.suppress_vbl == s.ppu.suppress_vbl)
    &&& (new.bus.ppu.nmi_pending == s.ppu.nmi_pending)
    &&& (new.bus.ppu.bg_shift_pattern_lo == s.ppu.bg_shift_pattern_lo)
    &&& (new.bus.ppu.bg_shift_pattern_hi == s.ppu.bg_shift_pattern_hi)
    &&& (new.bus.ppu.bg_shift_attrib_lo == s.ppu.bg_shift_attrib_lo)
    &&& (new.bus.ppu.bg_shift_attrib_hi == s.ppu.bg_shift_attrib_hi)
    &&& (new.bus.ppu.bg_next_tile_id == s.ppu.bg_next_tile_id)
    &&& (new.bus.ppu.bg_next_tile_attrib == s.ppu.bg_next_tile_attrib)
    &&& (new.bus.ppu.bg_next_tile_lsb == s.ppu.bg_next_tile_lsb)
    &&& (new.bus.ppu.bg_next_tile_msb == s.ppu.bg_next_tile_msb)
    &&& (new.bus.ppu.sprite_count == s.ppu.sprite_count)
    &&& ((before.bus.cartridge.chr_is_ram && before.bus.cartridge.chr@.len() == 0x2000) ==> (new.bus.cartridge.chr@ == s.chr_ram@))
}

impl SaveState {
    /// The memories have their hardware sizes; the PPU counters are in
    /// range.
    pub open spec fn wf(&self) -> bool {
        &&& self.ram@.len() == 0x800
        &&& self.ppu_vram@.len() == 0x1000
        &&& self.ppu_palette@.len() == 0x20
        &&& self.ppu_oam@.len() == 0x100
        &&& self.ppu_secondary_oam@.len() == 0x20
        &&& self.ppu_sprite_patterns_lo@.len() == 8
        &&& self.ppu_sprite_patterns_hi@.len() == 8
        &&& self.ppu_sprite_positions@.len() == 8
        &&& self.ppu_sprite_indexes@.len() == 8
        &&& self.ppu_sprite_attributes@.len() == 8
        &&& self.prg_ram@.len() == 0x10000
        &&& self.exram@.len() == 0x400
        &&& self.chr_ram@.len() == 0x2000
        &&& -1 <= self.ppu.scanline <= 260
        &&& self.ppu.cycle <= 340
        &&& self.ppu.sprite_count <= 8
    }

    /// The byte encoding of a state: magic and version, the register
    /// groups (booleans as 0 or 1, words little-endian, the scanline plus
    /// one), the mapper registers, then the memories.
    pub open spec fn bytes(&self) -> Seq<u8> {
        seq![0x43u8, 0x43, 0x4E, 0x53, 3, 0, 0, 0] + cpu_bytes(self.cpu) + ppu_bytes(self.ppu) + pulse_bytes(self.apu.pulse1) + pulse_bytes(self.apu.pulse2) + triangle_bytes(self.apu.triangle) + noise_bytes(self.apu.noise) + dmc_bytes(self.apu.dmc) + apuframe_bytes(self.apu) + ports_bytes((self.port1, self.port2)) + mapper_bytes(self.mapper) + self.ram@ + self.ppu_vram@ + self.ppu_palette@ + self.ppu_oam@ + self.ppu_secondary_oam@ + self.ppu_sprite_patterns_lo@ + self.ppu_sprite_patterns_hi@ + self.ppu_sprite_positions@ + self.ppu_sprite_indexes@ + self.ppu_sprite_attributes@ + self.prg_ram@ + self.exram@ + self.chr_ram@
    }

    /// Two states hold the same values.
    pub open spec fn same(&self, o: &SaveState) -> bool {
        &&& self.cpu == o.cpu && self.ppu == o.ppu && self.apu == o.apu && self.mapper == o.mapper
        &&& self.port1 == o.port1 && self.port2 == o.port2
        &&& self.ram@ == o.ram@ && self.ppu_vram@ == o.ppu_vram@ && self.ppu_palette@ == o.ppu_palette@ && self.ppu_oam@ == o.ppu_oam@ && self.ppu_secondary_oam@ == o.ppu_secondary_oam@ && self.ppu_sprite_patterns_lo@ == o.ppu_sprite_patterns_lo@ && self.ppu_sprite_patterns_hi@ == o.ppu_sprite_patterns_hi@ && self.ppu_sprite_positions@ == o.ppu_sprite_positions@ && self.ppu_sprite_indexes@ == o.ppu_sprite_indexes@ && self.ppu_sprite_attributes@ == o.ppu_sprite_attributes@ && self.prg_ram@ == o.prg_ram@ && self.exram@ == o.exram@ && self.chr_ram@ == o.chr_ram@
    }

    /// Encodes the state.
    pub fn save_state_to_vec(&self) -> (r: Vec<u8>)
        requires
            self.wf(),
        ensures
            r@ == self.bytes(),
            r@.len() == STATE_LEN,
    {
        let mut out: Vec<u8> = Vec::new();
        out.push(0x43);
        out.push(0x43);
        out.push(0x4E);
        out.push(0x53);
        out.push(SAVE_STATE_VERSION as u8);
        out.push(0);
        out.push(0);
        out.push(0);
        push_cpu(&mut out, self.cpu);
        push_ppu(&mut out, self.ppu);
        push_pulse(&mut out, self.apu.pulse1);
        push_pulse(&mut out, self.apu.pulse2);
        push_triangle(&mut out, self.apu.triangle);
        push_noise(&mut out, self.apu.noise);
        push_dmc(&mut out, self.apu.dmc);
        push_apuframe(&mut out, self.apu);
        push_ports(&mut out, (self.port1, self.port2));
        push_mapper(&mut out, self.mapper);
        append_all(&mut out, &self.ram);
        append_all(&mut out, &self.ppu_vram);
        append_all(&mut out, &self.ppu_palette);
        append_all(&mut out, &self.ppu_oam);
        append_all(&mut out, &self.ppu_secondary_oam);
        append_all(&mut out, &self.ppu_sprite_patterns_lo);
        append_all(&mut out, &self.ppu_sprite_patterns_hi);
        append_all(&mut out, &self.ppu_sprite_positions);
        append_all(&mut out, &self.ppu_sprite_indexes);
        append_all(&mut out, &self.ppu_sprite_attributes);
        append_all(&mut out, &self.prg_ram);
        append_all(&mut out, &self.exram);
        append_all(&mut out, &self.chr_ram);
        proof {
            lemma_cpu_len(self.cpu); lemma_ppu_len(self.ppu); lemma_pulse_len(self.apu.pulse1); lemma_pulse_len(self.apu.pulse2); lemma_triangle_len(self.apu.triangle); lemma_noise_len(self.apu.noise); lemma_dmc_len(self.apu.dmc); lemma_apuframe_len(self.apu); lemma_ports_len((self.port1, self.port2));
        }
        assert(out@ =~= self.bytes());
        out
    }

    /// Decodes a state: exactly one encoding with the right magic and
    /// version, every field in range.
    #[verifier::rlimit(100)]
    pub fn load_state_from_slice(data: &Vec<u8>) -> (r: Result<SaveState, SaveStateError>)
        ensures
            data@.len() != STATE_LEN ==> r == Err::<SaveState, SaveStateError>(
                SaveStateError::Truncated,
            ),
            data@.len() == STATE_LEN && data@.subrange(0, 8) != seq![0x43u8, 0x43, 0x4E, 0x53, 3, 0, 0, 0]
                ==> r == Err::<SaveState, SaveStateError>(SaveStateError::InvalidVersion),
            r matches Err(e) ==> e != SaveStateError::WrongCartridge,
            r matches Ok(s) ==> s.wf() && s.bytes() == data@,
            (exists|t: SaveState| t.wf() && #[trigger] t.bytes() == data@) ==> r is Ok,
    {
        let ghost has_t = exists|t: SaveState| t.wf() && #[trigger] t.bytes() == data@;
        let ghost t = choose|t: SaveState| t.wf() && #[trigger] t.bytes() == data@;
        proof {
            if has_t {
                lemma_cpu_len(t.cpu); lemma_ppu_len(t.ppu); lemma_pulse_len(t.apu.pulse1); lemma_pulse_len(t.apu.pulse2); lemma_triangle_len(t.apu.triangle); lemma_noise_len(t.apu.noise); lemma_dmc_len(t.apu.dmc); lemma_apuframe_len(t.apu); lemma_ports_len((t.port1, t.port2));
                assert(seq![0x43u8, 0x43, 0x4E, 0x53, 3, 0, 0, 0] =~= data@.subrange(0int, 8int));
                assert(cpu_bytes(t.cpu) =~= data@.subrange(8int, 29int));
                assert(ppu_bytes(t.ppu) =~= data@.subrange(29int, 69int));
                assert(pulse_bytes(t.apu.pulse1) =~= data@.subrange(69int, 87int));
                assert(pulse_bytes(t.apu.pulse2) =~= data@.subrange(87int, 105int));
                assert(triangle_bytes(t.apu.triangle) =~= data@.subrange(105int, 116int));
                assert(noise_bytes(t.apu.noise) =~= data@.subrange(116int, 131int));
                assert(dmc_bytes(t.apu.dmc) =~= data@.subrange(131int, 153int));
                assert(apuframe_bytes(t.apu) =~= data@.subrange(153int, 168int));
                assert(ports_bytes((t.port1, t.port2)) =~= data@.subrange(168int, 174int));
                assert(mapper_bytes(t.mapper) =~= data@.subrange(174int, 198int));
                assert(t.ram@ =~= data@.subrange(198int, 2246int));
                assert(t.ppu_vram@ =~= data@.subrange(2246int, 6342int));
                assert(t.ppu_palette@ =~= data@.subrange(6342int, 6374int));
                assert(t.ppu_oam@ =~= data@.subrange(6374int, 6630int));
                assert(t.ppu_secondary_oam@ =~= data@.subrange(6630int, 6662int));
                assert(t.ppu_sprite_patterns_lo@ =~= data@.subrange(6662int, 6670int));
                assert(t.ppu_sprite_patterns_hi@ =~= data@.subrange(6670int, 6678int));
                assert(t.ppu_sprite_positions@ =~= data@.subrange(6678int, 6686int));
                assert(t.ppu_sprite_indexes@ =~= data@.subrange(6686int, 6694int));
                assert(t.ppu_sprite_attributes@ =~= data@.subrange(6694int, 6702int));
                assert(t.prg_ram@ =~= data@.subrange(6702int, 72238int));
                assert(t.exram@ =~= data@.subrange(72238int, 73262int));
                assert(t.chr_ram@ =~= data@.subrange(73262int, 81454int));
                assert(data@.subrange(0, 8)[0] == data@[0] && data@.subrange(0, 8)[1] == data@[1]);
                assert(data@.subrange(0, 8)[2] == data@[2] && data@.subrange(0, 8)[3] == data@[3]);
                assert(data@.subrange(0, 8)[4] == data@[4] && data@.subrange(0, 8)[5] == data@[5]);
                assert(data@.subrange(0, 8)[6] == data@[6] && data@.subrange(0, 8)[7] == data@[7]);
            }
        }
        if data.len() != STATE_LEN {
            return Err(SaveStateError::Truncated);
        }
        if data[0] != 0x43 || data[1] != 0x43 || data[2] != 0x4E || data[3] != 0x53 || data[4]
            != 3 || data[5] != 0 || data[6] != 0 || data[7] != 0 {
            proof {
                let h = seq![0x43u8, 0x43, 0x4E, 0x53, 3, 0, 0, 0];
                if data@.subrange(0, 8) == h {
                    assert(data@.subrange(0, 8)[0] == data@[0]);
                    assert(data@.subrange(0, 8)[1] == data@[1]);
                    assert(data@.subrange(0, 8)[2] == data@[2]);
                    assert(data@.subrange(0, 8)[3] == data@[3]);
                    assert(data@.subrange(0, 8)[4] == data@[4]);
                    assert(data@.subrange(0, 8)[5] == data@[5]);
                    assert(data@.subrange(0, 8)[6] == data@[6]);
                    assert(data@.subrange(0, 8)[7] == data@[7]);
                }
            }
            return Err(SaveStateError::InvalidVersion);
        }
        assert(data@.subrange(0, 8) =~= seq![0x43u8, 0x43, 0x4E, 0x53, 3, 0, 0, 0]);
        let cpu = match decode_cpu(data, 8) {
            Some(v) => v,
            None => {
                return Err(SaveStateError::Corrupt);
            },
        };
        let ppu = match decode_ppu(data, 29) {
            Some(v) => v,
            None => {
                return Err(SaveStateError::Corrupt);
            },
        };
        let pulse1 = match decode_pulse(data, 69) {
            Some(v) => v,
            None => {
                return Err(SaveStateError::Corrupt);
            },
        };
        let pulse2 = match decode_pulse(data, 87) {
            Some(v) => v,
            None => {
                return Err(SaveStateError::Corrupt);
            },
        };
        let triangle = match decode_triangle(data, 105) {
            Some(v) => v,
            None => {
                return Err(SaveStateError::Corrupt);
            },
        };
        let noise = match decode_noise(data, 116) {
            Some(v) => v,
            None => {
                return Err(SaveStateError::Corrupt);
            },
        };
        let dmc = match decode_dmc(data, 131) {
            Some(v) => v,
            None => {
                return Err(SaveStateError::Corrupt);
            },
        };
        let apu = match decode_apuframe(data, 153, Apu { pulse1, pulse2, triangle, noise, dmc, frame_mode: false, frame_irq_inhibit: false, frame_irq: false, frame_cycles: 0, cycles: 0 }) {
            Some(v) => v,
            None => {
                return Err(SaveStateError::Corrupt);
            },
        };
        let ports = match decode_ports(data, 168) {
            Some(v) => v,
            None => {
                return Err(SaveStateError::Corrupt);
            },
        };
        let (port1, port2) = ports;
        proof {
            if has_t {
                lemma_ppu_bytes_injective(ppu, t.ppu);
            }
        }
        if ppu.cycle > 340 || ppu.sprite_count > 8 {
            return Err(SaveStateError::Corrupt);
        }
        let mapper = match decode_mapper(data, 174) {
            Some(m) => m,
            None => {
                return Err(SaveStateError::Corrupt);
            },
        };
        let s = SaveState {
            cpu,
            ppu,
            apu,
            port1,
            port2,
            mapper,
            ram: copy_bytes(data, 198, 2048),
            ppu_vram: copy_bytes(data, 2246, 4096),
            ppu_palette: copy_bytes(data, 6342, 32),
            ppu_oam: copy_bytes(data, 6374, 256),
            ppu_secondary_oam: copy_bytes(data, 6630, 32),
            ppu_sprite_patterns_lo: copy_bytes(data, 6662, 8),
            ppu_sprite_patterns_hi: copy_bytes(data, 6670, 8),
            ppu_sprite_positions: copy_bytes(data, 6678, 8),
            ppu_sprite_indexes: copy_bytes(data, 6686, 8),
            ppu_sprite_attributes: copy_bytes(data, 6694, 8),
            prg_ram: copy_bytes(data, 6702, 65536),
            exram: copy_bytes(data, 72238, 1024),
            chr_ram: copy_bytes(data, 73262, 8192),
        };
        proof {
            lemma_cpu_len(s.cpu); lemma_ppu_len(s.ppu); lemma_pulse_len(s.apu.pulse1); lemma_pulse_len(s.apu.pulse2); lemma_triangle_len(s.apu.triangle); lemma_noise_len(s.apu.noise); lemma_dmc_len(s.apu.dmc); lemma_apuframe_len(s.apu); lemma_ports_len((s.port1, s.port2));
            let d = data@;
            assert(seq![0x43u8, 0x43, 0x4E, 0x53, 3, 0, 0, 0] =~= d.subrange(0int, 8int));
            assert(cpu_bytes(s.cpu) =~= d.subrange(8int, 29int));
            assert(ppu_bytes(s.ppu) =~= d.subrange(29int, 69int));
            assert(pulse_bytes(s.apu.pulse1) =~= d.subrange(69int, 87int));
            assert(pulse_bytes(s.apu.pulse2) =~= d.subrange(87int, 105int));
            assert(triangle_bytes(s.apu.triangle) =~= d.subrange(105int, 116int));
            assert(noise_bytes(s.apu.noise) =~= d.subrange(116int, 131int));
            assert(dmc_bytes(s.apu.dmc) =~= d.subrange(131int, 153int));
            assert(apuframe_bytes(s.apu) =~= d.subrange(153int, 168int));
            assert(ports_bytes((s.port1, s.port2)) =~= d.subrange(168int, 174int));
            assert(mapper_bytes(s.mapper) =~= d.subrange(174int, 198int));
            assert(s.ram@ =~= d.subrange(198int, 2246int));
            assert(s.ppu_vram@ =~= d.subrange(2246int, 6342int));
            assert(s.ppu_palette@ =~= d.subrange(6342int, 6374int));
            assert(s.ppu_oam@ =~= d.subrange(6374int, 6630int));
            assert(s.ppu_secondary_oam@ =~= d.subrange(6630int, 6662int));
            assert(s.ppu_sprite_patterns_lo@ =~= d.subrange(6662int, 6670int));
            assert(s.ppu_sprite_patterns_hi@ =~= d.subrange(6670int, 6678int));
            assert(s.ppu_sprite_positions@ =~= d.subrange(6678int, 6686int));
            assert(s.ppu_sprite_indexes@ =~= d.subrange(6686int, 6694int));
            assert(s.ppu_sprite_attributes@ =~= d.subrange(6694int, 6702int));
            assert(s.prg_ram@ =~= d.subrange(6702int, 72238int));
            assert(s.exram@ =~= d.subrange(72238int, 73262int));
            assert(s.chr_ram@ =~= d.subrange(73262int, 81454int));
            assert(s.bytes() =~= d);
        }
        Ok(s)
    }

    /// Captures the machine.
    pub fn create_quick_save(nes: &Nes) -> (r: SaveState)
        requires
            nes.wf(),
        ensures
            (r.wf()),
            (r.cpu == nes.cpu && r.apu == nes.bus.apu && r.mapper == nes.bus.cartridge.mapper),
            (r.port1 == nes.bus.port1 && r.port2 == nes.bus.port2),
            (r.ppu == (PpuRegisters { ctrl: nes.bus.ppu.ctrl, mask: nes.bus.ppu.mask, status: nes.bus.ppu.status, oam_addr: nes.bus.ppu.oam_addr, v: nes.bus.ppu.v, t: nes.bus.ppu.t, x: nes.bus.ppu.x, w: nes.bus.ppu.w, buffer: nes.bus.ppu.buffer, open_bus: nes.bus.ppu.open_bus, scanline: nes.bus.ppu.scanline, cycle: nes.bus.ppu.cycle, frame: nes.bus.ppu.frame, odd_frame: nes.bus.ppu.odd_frame, suppress_vbl: nes.bus.ppu.suppress_vbl, nmi_pending: nes.bus.ppu.nmi_pending, bg_shift_pattern_lo: nes.bus.ppu.bg_shift_pattern_lo, bg_shift_pattern_hi: nes.bus.ppu.bg_shift_pattern_hi, bg_shift_attrib_lo: nes.bus.ppu.bg_shift_attrib_lo, bg_shift_attrib_hi: nes.bus.ppu.bg_shift_attrib_hi, bg_next_tile_id: nes.bus.ppu.bg_next_tile_id, bg_next_tile_attrib: nes.bus.ppu.bg_next_tile_attrib, bg_next_tile_lsb: nes.bus.ppu.bg_next_tile_lsb, bg_next_tile_msb: nes.bus.ppu.bg_next_tile_msb, sprite_count: nes.bus.ppu.sprite_count })),
            (r.ram@ == nes.bus.ram.bytes@),
            (r.ppu_vram@ == nes.bus.ppu.vram@),
            (r.ppu_palette@ == nes.bus.ppu.palette@),
            (r.ppu_oam@ == nes.bus.ppu.oam@),
            (r.ppu_secondary_oam@ == nes.bus.ppu.secondary_oam@),
            (r.ppu_sprite_patterns_lo@ == nes.bus.ppu.sprite_patterns_lo@),
            (r.ppu_sprite_patterns_hi@ == nes.bus.ppu.sprite_patterns_hi@),
            (r.ppu_sprite_positions@ == nes.bus.ppu.sprite_positions@),
            (r.ppu_sprite_indexes@ == nes.bus.ppu.sprite_indexes@),
            (r.ppu_sprite_attributes@ == nes.bus.ppu.sprite_attributes@),
            (r.prg_ram@ == nes.bus.cartridge.prg_ram@),
            (r.exram@ == nes.bus.cartridge.exram@),
            (nes.bus.cartridge.chr_is_ram && nes.bus.cartridge.chr@.len() == 0x2000 ==> r.chr_ram@ == nes.bus.cartridge.chr@),

    {
        let chr_ram = if nes.bus.cartridge.chr_is_ram && nes.bus.cartridge.chr.len() == 0x2000 {
            copy_bytes(&nes.bus.cartridge.chr, 0, 0x2000)
        } else {
            zeros(0x2000)
        };
        SaveState {
            cpu: nes.cpu,
            ppu: PpuRegisters { ctrl: nes.bus.ppu.ctrl, mask: nes.bus.ppu.mask, status: nes.bus.ppu.status, oam_addr: nes.bus.ppu.oam_addr, v: nes.bus.ppu.v, t: nes.bus.ppu.t, x: nes.bus.ppu.x, w: nes.bus.ppu.w, buffer: nes.bus.ppu.buffer, open_bus: nes.bus.ppu.open_bus, scanline: nes.bus.ppu.scanline, cycle: nes.bus.ppu.cycle, frame: nes.bus.ppu.frame, odd_frame: nes.bus.ppu.odd_frame, suppress_vbl: nes.bus.ppu.suppress_vbl, nmi_pending: nes.bus.ppu.nmi_pending, bg_shift_pattern_lo: nes.bus.ppu.bg_shift_pattern_lo, bg_shift_pattern_hi: nes.bus.ppu.bg_shift_pattern_hi, bg_shift_attrib_lo: nes.bus.ppu.bg_shift_attrib_lo, bg_shift_attrib_hi: nes.bus.ppu.bg_shift_attrib_hi, bg_next_tile_id: nes.bus.ppu.bg_next_tile_id, bg_next_tile_attrib: nes.bus.ppu.bg_next_tile_attrib, bg_next_tile_lsb: nes.bus.ppu.bg_next_tile_lsb, bg_next_tile_msb: nes.bus.ppu.bg_next_tile_msb, sprite_count: nes.bus.ppu.sprite_count },
            apu: nes.bus.apu,
            port1: nes.bus.port1,
            port2: nes.bus.port2,
            mapper: nes.bus.cartridge.mapper,
            ram: copy_bytes(&nes.bus.ram.bytes, 0, 0x800),
            ppu_vram: copy_bytes(&nes.bus.ppu.vram, 0, 0x1000),
            ppu_palette: copy_bytes(&nes.bus.ppu.palette, 0, 0x20),
            ppu_oam: copy_bytes(&nes.bus.ppu.oam, 0, 0x100),
            ppu_secondary_oam: copy_bytes(&nes.bus.ppu.secondary_oam, 0, 0x20),
            ppu_sprite_patterns_lo: copy_bytes(&nes.bus.ppu.sprite_patterns_lo, 0, 8),
            ppu_sprite_patterns_hi: copy_bytes(&nes.bus.ppu.sprite_patterns_hi, 0, 8),
            ppu_sprite_positions: copy_bytes(&nes.bus.ppu.sprite_positions, 0, 8),
            ppu_sprite_indexes: copy_bytes(&nes.bus.ppu.sprite_indexes, 0, 8),
            ppu_sprite_attributes: copy_bytes(&nes.bus.ppu.sprite_attributes, 0, 8),
            prg_ram: copy_bytes(&nes.bus.cartridge.prg_ram, 0, 0x10000),
            exram: copy_bytes(&nes.bus.cartridge.exram, 0, 0x400),
            chr_ram,
        }
    }

    /// Puts the captured machine back, unless it belongs to a cartridge
    /// with another mapper; on that error nothing changes.
    #[verifier::rlimit(100)]
    pub fn restore_quick_save(&self, nes: &mut Nes) -> (r: Result<(), SaveStateError>)
        requires
            self.wf(),
            old(nes).wf(),
        ensures
            final(nes).wf(),
            (r is Err) == (mapper_number_of(self.mapper) != mapper_number_of(old(nes).bus.cartridge.mapper)),
            r is Err ==> *final(nes) == *old(nes),
            r is Ok ==> (final(nes).cpu == self.cpu && final(nes).bus.apu == self.apu && final(nes).bus.cartridge.mapper == self.mapper),
            r is Ok ==> (final(nes).bus.port1 == self.port1 && final(nes).bus.port2 == self.port2),
            r is Ok ==> (final(nes).bus.ram.bytes@ == self.ram@),
            r is Ok ==> (final(nes).bus.ppu.vram@ == self.ppu_vram@),
            r is Ok ==> (final(nes).bus.ppu.palette@ == self.ppu_palette@),
            r is Ok ==> (final(nes).bus.ppu.oam@ == self.ppu_oam@),
            r is Ok ==> (final(nes).bus.ppu.secondary_oam@ == self.ppu_secondary_oam@),
            r is Ok ==> (final(nes).bus.ppu.sprite_patterns_lo@ == self.ppu_sprite_patterns_lo@),
            r is Ok ==> (final(nes).bus.ppu.sprite_patterns_hi@ == self.ppu_sprite_patterns_hi@),
            r is Ok ==> (final(nes).bus.ppu.sprite_positions@ == self.ppu_sprite_positions@),
            r is Ok ==> (final(nes).bus.ppu.sprite_indexes@ == self.ppu_sprite_indexes@),
            r is Ok ==> (final(nes).bus.ppu.sprite_attributes@ == self.ppu_sprite_attributes@),
            r is Ok ==> (final(nes).bus.cartridge.prg_ram@ == self.prg_ram@),
            r is Ok ==> (final(nes).bus.cartridge.exram@ == self.exram@),
            r is Ok ==> (final(nes).bus.ppu.ctrl == self.ppu.ctrl),
            r is Ok ==> (final(nes).bus.ppu.mask == self.ppu.mask),
            r is Ok ==> (final(nes).bus.ppu.status == self.ppu.status),
            r is Ok ==> (final(nes).bus.ppu.oam_addr == self.ppu.oam_addr),
            r is Ok ==> (final(nes).bus.ppu.v == self.ppu.v),
            r is Ok ==> (final(nes).bus.ppu.t == self.ppu.t),
            r is Ok ==> (final(nes).bus.ppu.x == self.ppu.x),
            r is Ok ==> (final(nes).bus.ppu.w == self.ppu.w),
            r is Ok ==> (final(nes).bus.ppu.buffer == self.ppu.buffer),
            r is Ok ==> (final(nes).bus.ppu.open_bus == self.ppu.open_bus),
            r is Ok ==> (final(nes).bus.ppu.scanline == self.ppu.scanline),
            r is Ok ==> (final(nes).bus.ppu.cycle == self.ppu.cycle),
            r is Ok ==> (final(nes).bus.ppu.frame == self.ppu.frame),
            r is Ok ==> (final(nes).bus.ppu.odd_frame == self.ppu.odd_frame),
            r is Ok ==> (final(nes).bus.ppu.suppress_vbl == self.ppu.suppress_vbl),
            r is Ok ==> (final(nes).bus.ppu.nmi_pending == self.ppu.nmi_pending),
            r is Ok ==> (final(nes).bus.ppu.bg_shift_pattern_lo == self.ppu.bg_shift_pattern_lo),
            r is Ok ==> (final(nes).bus.ppu.bg_shift_pattern_hi == self.ppu.bg_shift_pattern_hi),
            r is Ok ==> (final(nes).bus.ppu.bg_shift_attrib_lo == self.ppu.bg_shift_attrib_lo),
            r is Ok ==> (final(nes).bus.ppu.bg_shift_attrib_hi == self.ppu.bg_shift_attrib_hi),
            r is Ok ==> (final(nes).bus.ppu.bg_next_tile_id == self.ppu.bg_next_tile_id),
            r is Ok ==> (final(nes).bus.ppu.bg_next_tile_attrib == self.ppu.bg_next_tile_attrib),
            r is Ok ==> (final(nes).bus.ppu.bg_next_tile_lsb == self.ppu.bg_next_tile_lsb),
            r is Ok ==> (final(nes).bus.ppu.bg_next_tile_msb == self.ppu.bg_next_tile_msb),
            r is Ok ==> (final(nes).bus.ppu.sprite_count == self.ppu.sprite_count),
            r is Ok ==> ((old(nes).bus.cartridge.chr_is_ram && old(nes).bus.cartridge.chr@.len() == 0x2000) ==> (final(nes).bus.cartridge.chr@ == self.chr_ram@)),

    {
        if self.mapper_number() != nes.bus.cartridge.get_mapper_number() {
            return Err(SaveStateError::WrongCartridge);
        }
        nes.cpu = self.cpu;
        nes.bus.apu = self.apu;
        nes.bus.cartridge.mapper = self.mapper;
        nes.bus.port1 = self.port1;
        nes.bus.port2 = self.port2;
        nes.bus.oam_dma_page = None;
        nes.bus.ppu.ctrl = self.ppu.ctrl;
        nes.bus.ppu.mask = self.ppu.mask;
        nes.bus.ppu.status = self.ppu.status;
        nes.bus.ppu.oam_addr = self.ppu.oam_addr;
        nes.bus.ppu.v = self.ppu.v;
        nes.bus.ppu.t = self.ppu.t;
        nes.bus.ppu.x = self.ppu.x;
        nes.bus.ppu.w = self.ppu.w;
        nes.bus.ppu.buffer = self.ppu.buffer;
        nes.bus.ppu.open_bus = self.ppu.open_bus;
        nes.bus.ppu.scanline = self.ppu.scanline;
        nes.bus.ppu.cycle = self.ppu.cycle;
        nes.bus.ppu.frame = self.ppu.frame;
        nes.bus.ppu.odd_frame = self.ppu.odd_frame;
        nes.bus.ppu.suppress_vbl = self.ppu.suppress_vbl;
        nes.bus.ppu.nmi_pending = self.ppu.nmi_pending;
        nes.bus.ppu.bg_shift_pattern_lo = self.ppu.bg_shift_pattern_lo;
        nes.bus.ppu.bg_shift_pattern_hi = self.ppu.bg_shift_pattern_hi;
        nes.bus.ppu.bg_shift_attrib_lo = self.ppu.bg_shift_attrib_lo;
        nes.bus.ppu.bg_shift_attrib_hi = self.ppu.bg_shift_attrib_hi;
        nes.bus.ppu.bg_next_tile_id = self.ppu.bg_next_tile_id;
        nes.bus.ppu.bg_next_tile_attrib = self.ppu.bg_next_tile_attrib;
        nes.bus.ppu.bg_next_tile_lsb = self.ppu.bg_next_tile_lsb;
        nes.bus.ppu.bg_next_tile_msb = self.ppu.bg_next_tile_msb;
        nes.bus.ppu.sprite_count = self.ppu.sprite_count;
        nes.bus.ram.bytes = copy_bytes(&self.ram, 0, 0x800);
        nes.bus.ppu.vram = copy_bytes(&self.ppu_vram, 0, 0x1000);
        nes.bus.ppu.palette = copy_bytes(&self.ppu_palette, 0, 0x20);
        nes.bus.ppu.oam = copy_bytes(&self.ppu_oam, 0, 0x100);
        nes.bus.ppu.secondary_oam = copy_bytes(&self.ppu_secondary_oam, 0, 0x20);
        nes.bus.ppu.sprite_patterns_lo = copy_bytes(&self.ppu_sprite_patterns_lo, 0, 8);
        nes.bus.ppu.sprite_patterns_hi = copy_bytes(&self.ppu_sprite_patterns_hi, 0, 8);
        nes.bus.ppu.sprite_positions = copy_bytes(&self.ppu_sprite_positions, 0, 8);
        nes.bus.ppu.sprite_indexes = copy_bytes(&self.ppu_sprite_indexes, 0, 8);
        nes.bus.ppu.sprite_attributes = copy_bytes(&self.ppu_sprite_attributes, 0, 8);
        nes.bus.cartridge.prg_ram = copy_bytes(&self.prg_ram, 0, 0x10000);
        nes.bus.cartridge.exram = copy_bytes(&self.exram, 0, 0x400);
        if nes.bus.cartridge.chr_is_ram && nes.bus.cartridge.chr.len() == 0x2000 {
            nes.bus.cartridge.chr = copy_bytes(&self.chr_ram, 0, 0x2000);
        }
        Ok(())
    }

    fn mapper_number(&self) -> (r: u8)
        ensures
            r == mapper_number_of(self.mapper),
    {
        match &self.mapper {
            MapperKind::Nrom(_) => 0,
            MapperKind::Mmc1(_) => 1,
            MapperKind::Uxrom(_) => 2,
            MapperKind::Cnrom(_) => 3,
            MapperKind::Mmc3(_) => 4,
            MapperKind::Mmc5(_) => 5,
            MapperKind::Axrom(_) => 7,
            MapperKind::Mmc2(_) => 9,
            MapperKind::Discrete(m) => if m.gxrom {
                66
            } else {
                11
            },
        }
    }
}

impl Nes {
    /// The machine state as bytes.
    pub fn save_state_to_vec(&self) -> (r: Vec<u8>)
        requires
            self.wf(),
        ensures
            exists|s: SaveState| s.wf() && captures(s, *self) && #[trigger] s.bytes() == r@,
    {
        let s = SaveState::create_quick_save(self);
        let r = s.save_state_to_vec();
        assert(s.wf() && captures(s, *self) && s.bytes() == r@);
        r
    }

    /// Restores a state saved by `save_state_to_vec`. It is decoded whole
    /// before anything changes; on an error nothing changes.
    pub fn load_state_from_slice(&mut self, data: &Vec<u8>) -> (r: Result<(), SaveStateError>)
        requires
            old(self).wf(),
        ensures
            final(self).wf(),
            data@.len() != STATE_LEN ==> r == Err::<(), SaveStateError>(SaveStateError::Truncated),
            data@.len() == STATE_LEN && data@.subrange(0, 8) != seq![0x43u8, 0x43, 0x4E, 0x53, 3, 0, 0, 0]
                ==> r == Err::<(), SaveStateError>(SaveStateError::InvalidVersion),
            r is Err ==> *final(self) == *old(self),
            (exists|t: SaveState| t.wf() && #[trigger] t.bytes() == data@ && mapper_number_of(t.mapper)
                == mapper_number_of(old(self).bus.cartridge.mapper)) ==> r is Ok,
            r is Ok ==> exists|s: SaveState| s.wf() && #[trigger] s.bytes() == data@ && restored(*old(self), s, *final(self)),
    {
        let ghost has_t = exists|t: SaveState| t.wf() && #[trigger] t.bytes() == data@
            && mapper_number_of(t.mapper) == mapper_number_of(self.bus.cartridge.mapper);
        let ghost t = choose|t: SaveState| t.wf() && #[trigger] t.bytes() == data@
            && mapper_number_of(t.mapper) == mapper_number_of(self.bus.cartridge.mapper);
        let s = match SaveState::load_state_from_slice(data) {
            Ok(s) => s,
            Err(e) => {
                return Err(e);
            },
        };
        proof {
            if has_t {
                lemma_save_load_round_trip(&t, &s);
            }
        }
        let r = s.restore_quick_save(self);
        proof {
            if r is Ok {
                assert(s.wf() && s.bytes() == data@ && restored(*old(self), s, *self));
            }
        }
        r
    }
}

/// Loading what was saved gives back the same state.
#[verifier::rlimit(100)]
pub proof fn lemma_save_load_round_trip(s: &SaveState, loaded: &SaveState)
    requires
        s.wf(),
        loaded.wf(),
        loaded.bytes() == s.bytes(),
    ensures
        loaded.same(s),
{
    let b = s.bytes();
    lemma_cpu_len(s.cpu); lemma_ppu_len(s.ppu); lemma_pulse_len(s.apu.pulse1); lemma_pulse_len(s.apu.pulse2); lemma_triangle_len(s.apu.triangle); lemma_noise_len(s.apu.noise); lemma_dmc_len(s.apu.dmc); lemma_apuframe_len(s.apu); lemma_ports_len((s.port1, s.port2));
    lemma_cpu_len(loaded.cpu); lemma_ppu_len(loaded.ppu); lemma_pulse_len(loaded.apu.pulse1); lemma_pulse_len(loaded.apu.pulse2); lemma_triangle_len(loaded.apu.triangle); lemma_noise_len(loaded.apu.noise); lemma_dmc_len(loaded.apu.dmc); lemma_apuframe_len(loaded.apu); lemma_ports_len((loaded.port1, loaded.port2));
    assert(seq![0x43u8, 0x43, 0x4E, 0x53, 3, 0, 0, 0] =~= b.subrange(0int, 8int));
    assert(cpu_bytes(loaded.cpu) =~= b.subrange(8int, 29int));
    assert(ppu_bytes(loaded.ppu) =~= b.subrange(29int, 69int));
    assert(pulse_bytes(loaded.apu.pulse1) =~= b.subrange(69int, 87int));
    assert(pulse_bytes(loaded.apu.pulse2) =~= b.subrange(87int, 105int));
    assert(triangle_bytes(loaded.apu.triangle) =~= b.subrange(105int, 116int));
    assert(noise_bytes(loaded.apu.noise) =~= b.subrange(116int, 131int));
    assert(dmc_bytes(loaded.apu.dmc) =~= b.subrange(131int, 153int));
    assert(apuframe_bytes(loaded.apu) =~= b.subrange(153int, 168int));
    assert(ports_bytes((loaded.port1, loaded.port2)) =~= b.subrange(168int, 174int));
    assert(mapper_bytes(loaded.mapper) =~= b.subrange(174int, 198int));
    assert(loaded.ram@ =~= b.subrange(198int, 2246int));
    assert(loaded.ppu_vram@ =~= b.subrange(2246int, 6342int));
    assert(loaded.ppu_palette@ =~= b.subrange(6342int, 6374int));
    assert(loaded.ppu_oam@ =~= b.subrange(6374int, 6630int));
    assert(loaded.ppu_secondary_oam@ =~= b.subrange(6630int, 6662int));
    assert(loaded.ppu_sprite_patterns_lo@ =~= b.subrange(6662int, 6670int));
    assert(loaded.ppu_sprite_patterns_hi@ =~= b.subrange(6670int, 6678int));
    assert(loaded.ppu_sprite_positions@ =~= b.subrange(6678int, 6686int));
    assert(loaded.ppu_sprite_indexes@ =~= b.subrange(6686int, 6694int));
    assert(loaded.ppu_sprite_attributes@ =~= b.subrange(6694int, 6702int));
    assert(loaded.prg_ram@ =~= b.subrange(6702int, 72238int));
    assert(loaded.exram@ =~= b.subrange(72238int, 73262int));
    assert(loaded.chr_ram@ =~= b.subrange(73262int, 81454int));
    assert(seq![0x43u8, 0x43, 0x4E, 0x53, 3, 0, 0, 0] =~= b.subrange(0int, 8int));
    assert(cpu_bytes(s.cpu) =~= b.subrange(8int, 29int));
    assert(ppu_bytes(s.ppu) =~= b.subrange(29int, 69int));
    assert(pulse_bytes(s.apu.pulse1) =~= b.subrange(69int, 87int));
    assert(pulse_bytes(s.apu.pulse2) =~= b.subrange(87int, 105int));
    assert(triangle_bytes(s.apu.triangle) =~= b.subrange(105int, 116int));
    assert(noise_bytes(s.apu.noise) =~= b.subrange(116int, 131int));
    assert(dmc_bytes(s.apu.dmc) =~= b.subrange(131int, 153int));
    assert(apuframe_bytes(s.apu) =~= b.subrange(153int, 168int));
    assert(ports_bytes((s.port1, s.port2)) =~= b.subrange(168int, 174int));
    assert(mapper_bytes(s.mapper) =~= b.subrange(174int, 198int));
    assert(s.ram@ =~= b.subrange(198int, 2246int));
    assert(s.ppu_vram@ =~= b.subrange(2246int, 6342int));
    assert(s.ppu_palette@ =~= b.subrange(6342int, 6374int));
    assert(s.ppu_oam@ =~= b.subrange(6374int, 6630int));
    assert(s.ppu_secondary_oam@ =~= b.subrange(6630int, 6662int));
    assert(s.ppu_sprite_patterns_lo@ =~= b.subrange(6662int, 6670int));
    assert(s.ppu_sprite_patterns_hi@ =~= b.subrange(6670int, 6678int));
    assert(s.ppu_sprite_positions@ =~= b.subrange(6678int, 6686int));
    assert(s.ppu_sprite_indexes@ =~= b.subrange(6686int, 6694int));
    assert(s.ppu_sprite_attributes@ =~= b.subrange(6694int, 6702int));
    assert(s.prg_ram@ =~= b.subrange(6702int, 72238int));
    assert(s.exram@ =~= b.subrange(72238int, 73262int));
    assert(s.chr_ram@ =~= b.subrange(73262int, 81454int));
    lemma_cpu_bytes_injective(loaded.cpu, s.cpu);
    lemma_ppu_bytes_injective(loaded.ppu, s.ppu);
    lemma_pulse_bytes_injective(loaded.apu.pulse1, s.apu.pulse1);
    lemma_pulse_bytes_injective(loaded.apu.pulse2, s.apu.pulse2);
    lemma_triangle_bytes_injective(loaded.apu.triangle, s.apu.triangle);
    lemma_noise_bytes_injective(loaded.apu.noise, s.apu.noise);
    lemma_dmc_bytes_injective(loaded.apu.dmc, s.apu.dmc);
    lemma_apuframe_bytes_injective(loaded.apu, s.apu);
    lemma_ports_bytes_injective((loaded.port1, loaded.port2), (s.port1, s.port2));
    lemma_mapper_bytes_injective(loaded.mapper, s.mapper);
}

/// Different words have different byte pairs.
pub proof fn lemma_u16_bytes_injective(a: u16, b: u16)
    requires
        u16_bytes(a) == u16_bytes(b),
    ensures
        a == b,
{
    assert(u16_bytes(a)[0] == u16_bytes(b)[0]);
    assert(u16_bytes(a)[1] == u16_bytes(b)[1]);
    assert(((a & 0xFF) as u8 == (b & 0xFF) as u8 && (a >> 8u16) as u8 == (b >> 8u16) as u8) ==> a
        == b) by (bit_vector);
}

/// Different 32-bit values have different byte strings.
pub proof fn lemma_u32_bytes_injective(a: u32, b: u32)
    requires
        u32_bytes(a) == u32_bytes(b),
    ensures
        a == b,
{
    let x = u32_bytes(a);
    let y = u32_bytes(b);
    assert(x[0] == y[0] && x[1] == y[1] && x[2] == y[2] && x[3] == y[3]);
    assert((a & 0xFF) as u8 == (b & 0xFF) as u8 && ((a >> 8u32) & 0xFF) as u8 == ((b >> 8u32)
        & 0xFF) as u8 && ((a >> 16u32) & 0xFF) as u8 == ((b >> 16u32) & 0xFF) as u8 && ((a
        >> 24u32) & 0xFF) as u8 == ((b >> 24u32) & 0xFF) as u8 ==> a == b) by (bit_vector);
}

/// Different 64-bit values have different byte strings.
pub proof fn lemma_u64_bytes_injective(a: u64, b: u64)
    requires
        u64_bytes(a) == u64_bytes(b),
    ensures
        a == b,
{
    let x = u64_bytes(a);
    let y = u64_bytes(b);
    assert(x[0] == y[0] && x[1] == y[1] && x[2] == y[2] && x[3] == y[3]);
    assert(x[4] == y[4] && x[5] == y[5] && x[6] == y[6] && x[7] == y[7]);
    assert((a & 0xFF) as u8 == (b & 0xFF) as u8 && ((a >> 8u64) & 0xFF) as u8 == ((b >> 8u64)
        & 0xFF) as u8 && ((a >> 16u64) & 0xFF) as u8 == ((b >> 16u64) & 0xFF) as u8 && ((a
        >> 24u64) & 0xFF) as u8 == ((b >> 24u64) & 0xFF) as u8 && ((a >> 32u64) & 0xFF) as u8
        == ((b >> 32u64) & 0xFF) as u8 && ((a >> 40u64) & 0xFF) as u8 == ((b >> 40u64) & 0xFF) as u8
        && ((a >> 48u64) & 0xFF) as u8 == ((b >> 48u64) & 0xFF) as u8 && ((a >> 56u64) & 0xFF) as u8
        == ((b >> 56u64) & 0xFF) as u8 ==> a == b) by (bit_vector);
}

fn push_u16(out: &mut Vec<u8>, v: u16)
    ensures
        final(out)@ == old(out)@ + u16_bytes(v),
{
    out.push((v & 0xFF) as u8);
    out.push((v >> 8) as u8);
    assert(final(out)@ =~= old(out)@ + u16_bytes(v));
}

fn push_u32(out: &mut Vec<u8>, c: u32)
    ensures
        final(out)@ == old(out)@ + u32_bytes(c),
{
    out.push((c & 0xFF) as u8);
    out.push(((c >> 8) & 0xFF) as u8);
    out.push(((c >> 16) & 0xFF) as u8);
    out.push(((c >> 24) & 0xFF) as u8);
    assert(final(out)@ =~= old(out)@ + u32_bytes(c));
}

fn push_u64(out: &mut Vec<u8>, c: u64)
    ensures
        final(out)@ == old(out)@ + u64_bytes(c),
{
    out.push((c & 0xFF) as u8);
    out.push(((c >> 8) & 0xFF) as u8);
    out.push(((c >> 16) & 0xFF) as u8);
    out.push(((c >> 24) & 0xFF) as u8);
    out.push(((c >> 32) & 0xFF) as u8);
    out.push(((c >> 40) & 0xFF) as u8);
    out.push(((c >> 48) & 0xFF) as u8);
    out.push(((c >> 56) & 0xFF) as u8);
    assert(final(out)@ =~= old(out)@ + u64_bytes(c));
}

fn push_zeros(out: &mut Vec<u8>, n: usize)
    ensures
        final(out)@ == old(out)@ + Seq::new(n as nat, |i: int| 0u8),
{
    let mut i: usize = 0;
    while i < n
        invariant
            i <= n,
            out@ == old(out)@ + Seq::new(i as nat, |j: int| 0u8),
        decreases n - i,
    {
        out.push(0);
        i = i + 1;
        assert(out@ =~= old(out)@ + Seq::new(i as nat, |j: int| 0u8));
    }
}

/// Whether bytes `from..to` of `data` are zero.
fn all_zero(data: &Vec<u8>, from: usize, to: usize) -> (r: bool)
    requires
        from <= to <= data@.len(),
    ensures
        r == forall|i: int| from <= i < to ==> data@[i] == 0,
{
    let mut i = from;
    while i < to
        invariant
            from <= i <= to <= data@.len(),
            forall|k: int| from <= k < i ==> data@[k] == 0,
        decreases to - i,
    {
        if data[i] != 0 {
            return false;
        }
        i = i + 1;
    }
    true
}

fn zeros(n: usize) -> (r: Vec<u8>)
    ensures
        r@ == Seq::new(n as nat, |i: int| 0u8),
{
    let mut r: Vec<u8> = Vec::new();
    push_zeros(&mut r, n);
    assert(r@ =~= Seq::new(n as nat, |i: int| 0u8));
    r
}

/// The little-endian word at `at`.
fn read_u16(data: &Vec<u8>, at: usize) -> (r: u16)
    requires
        at + 2 <= data@.len(),
    ensures
        u16_bytes(r) == data@.subrange(at as int, at + 2),
{
    let n = data.len();
    let lo = data[at];
    let hi = data[at + 1];
    let r = (hi as u16) << 8 | lo as u16;
    assert((r & 0xFF) as u8 == lo && (r >> 8u16) as u8 == hi) by (bit_vector)
        requires
            r == (hi as u16) << 8u16 | lo as u16,
    ;
    assert(u16_bytes(r) =~= data@.subrange(at as int, at + 2));
    r
}

/// The little-endian 32-bit value at `at`.
fn read_u32(data: &Vec<u8>, at: usize) -> (r: u32)
    requires
        at + 4 <= data@.len(),
    ensures
        u32_bytes(r) == data@.subrange(at as int, at + 4),
{
    let n = data.len();
    let b0 = data[at] as u32;
    let b1 = data[at + 1] as u32;
    let b2 = data[at + 2] as u32;
    let b3 = data[at + 3] as u32;
    let r = b0 | b1 << 8 | b2 << 16 | b3 << 24;
    assert((r & 0xFF) == b0 && ((r >> 8u32) & 0xFF) == b1 && ((r >> 16u32) & 0xFF) == b2 && ((r
        >> 24u32) & 0xFF) == b3) by (bit_vector)
        requires
            b0 < 256 && b1 < 256 && b2 < 256 && b3 < 256,
            r == b0 | b1 << 8u32 | b2 << 16u32 | b3 << 24u32,
    ;
    assert(u32_bytes(r) =~= data@.subrange(at as int, at + 4));
    r
}

/// The little-endian 64-bit value at `at`.
fn read_u64(data: &Vec<u8>, at: usize) -> (r: u64)
    requires
        at + 8 <= data@.len(),
    ensures
        u64_bytes(r) == data@.subrange(at as int, at + 8),
{
    let n = data.len();
    let b0 = data[at] as u64;
    let b1 = data[at + 1] as u64;
    let b2 = data[at + 2] as u64;
    let b3 = data[at + 3] as u64;
    let b4 = data[at + 4] as u64;
    let b5 = data[at + 5] as u64;
    let b6 = data[at + 6] as u64;
    let b7 = data[at + 7] as u64;
    let r = b0 | b1 << 8 | b2 << 16 | b3 << 24 | b4 << 32 | b5 << 40 | b6 << 48 | b7 << 56;
    assert((r & 0xFF) == b0 && ((r >> 8u64) & 0xFF) == b1 && ((r >> 16u64) & 0xFF) == b2 && ((r
        >> 24u64) & 0xFF) == b3 && ((r >> 32u64) & 0xFF) == b4 && ((r >> 40u64) & 0xFF) == b5 && ((
    r >> 48u64) & 0xFF) == b6 && ((r >> 56u64) & 0xFF) == b7) by (bit_vector)
        requires
            b0 < 256 && b1 < 256 && b2 < 256 && b3 < 256 && b4 < 256 && b5 < 256 && b6 < 256 && b7
                < 256,
            r == b0 | b1 << 8u64 | b2 << 16u64 | b3 << 24u64 | b4 << 32u64 | b5 << 40u64 | b6
                << 48u64 | b7 << 56u64,
    ;
    assert(u64_bytes(r) =~= data@.subrange(at as int, at + 8));
    r
}

/// `len` bytes of `data` from `start`.
fn copy_bytes(data: &Vec<u8>, start: usize, len: usize) -> (r: Vec<u8>)
    requires
        start + len <= data@.len(),
    ensures
        r@ == data@.subrange(start as int, start + len),
{
    let n = data.len();
    let end = start + len;
    let mut r: Vec<u8> = Vec::with_capacity(len);
    let mut j: usize = start;
    while j < end
        invariant
            end == start + len,
            end <= data@.len(),
            start <= j <= end,
            r@ == data@.subrange(start as int, j as int),
        decreases end - j,
    {
        r.push(data[j]);
        j = j + 1;
        assert(r@ =~= data@.subrange(start as int, j as int));
    }
    r
}

/// Appends all of `src` to `out`.
fn append_all(out: &mut Vec<u8>, src: &Vec<u8>)
    ensures
        final(out)@ == old(out)@ + src@,
{
    let mut i: usize = 0;
    while i < src.len()
        invariant
            i <= src@.len(),
            out@ == old(out)@ + src@.subrange(0, i as int),
        decreases src@.len() - i,
    {
        out.push(src[i]);
        i = i + 1;
        assert(out@ =~= old(out)@ + src@.subrange(0, i as int));
    }
    assert(src@.subrange(0, src@.len() as int) =~= src@);
}

} // verus!
