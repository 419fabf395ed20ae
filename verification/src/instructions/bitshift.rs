use vstd::prelude::*;

use crate::cpu::{r8_of, same_int_state, set_r8_spec, with_flags, with_pc, Cpu, Flags, R8};
use crate::memory::{read_spec, write_rel, Memory};
use crate::Mnemonic;

use super::{Instruction, InstructionResult};

verus! {

/// The flags of a CB-prefixed rotate or shift: Z from the result, N and H
/// clear, C from the bit shifted out.
pub open spec fn shift_flags_spec(result: u8, carry: bool) -> Flags {
    Flags { zero: result == 0, subtraction: false, half_carry: false, carry }
}

/// The flags of the accumulator rotates RLA, RLCA, RRA, RRCA: Z, N and H
/// always clear, C from the bit shifted out.
pub open spec fn rotate_a_flags_spec(carry: bool) -> Flags {
    Flags { zero: false, subtraction: false, half_carry: false, carry }
}

/// A byte rotated left through a carry-in bit.
pub open spec fn rl_val(v: u8, cin: bool) -> u8 {
    (v << 1) | (if cin {
        1u8
    } else {
        0u8
    })
}

/// A byte rotated left, bit 7 wrapping to bit 0.
pub open spec fn rlc_val(v: u8) -> u8 {
    (v << 1) | (v >> 7)
}

/// A byte rotated right through a carry-in bit.
pub open spec fn rr_val(v: u8, cin: bool) -> u8 {
    (v >> 1) | (if cin {
        0x80u8
    } else {
        0u8
    })
}

/// A byte rotated right, bit 0 wrapping to bit 7.
pub open spec fn rrc_val(v: u8) -> u8 {
    (v >> 1) | ((v & 1) << 7)
}

/// RL r8: rotate register r8 left through the carry flag.
pub fn rl_r8(r8: R8, cpu: &mut Cpu) -> (r: InstructionResult<Instruction>)
    requires
        old(cpu).registers.wf(),
    ensures
        final(cpu).registers.wf(),
        same_int_state(*old(cpu), *final(cpu)),
        ({
            let v = r8_of(old(cpu).registers, r8);
            let nv = rl_val(v, old(cpu).registers.flags.carry);
            final(cpu).registers == with_pc(
                with_flags(
                    set_r8_spec(old(cpu).registers, r8, nv),
                    shift_flags_spec(nv, v >> 7 == 1),
                ),
                old(cpu).registers.pc.wrapping_add(2),
            )
        }),
        r == Ok::<Instruction, crate::errors::DecodeError>(
            (Instruction { mnemonic: Mnemonic::RL, bytes: 2, cycles: 2 }),
        ),
{
    let v = cpu.registers.get_r8(r8);
    let cin: u8 = if cpu.registers.flags.carry {
        1
    } else {
        0
    };
    let nv = (v << 1) | cin;
    cpu.registers.set_r8(r8, nv);
    cpu.registers.set_flags(
        Flags { zero: nv == 0, subtraction: false, half_carry: false, carry: v >> 7 == 1 },
    );
    cpu.registers.pc = cpu.registers.pc.wrapping_add(2);
    Ok(Instruction { mnemonic: Mnemonic::RL, bytes: 2, cycles: 2 })
}

/// RL [HL]: rotate the byte pointed to by HL left through the carry flag.
pub fn rl_hl(cpu: &mut Cpu, mem: &mut Memory) -> (r: InstructionResult<Instruction>)
    requires
        old(cpu).registers.wf(),
        old(mem).wf(),
    ensures
        final(cpu).registers.wf(),
        final(mem).wf(),
        same_int_state(*old(cpu), *final(cpu)),
        ({
            let v = read_spec(*old(mem), old(cpu).registers.hl as int);
            let nv = rl_val(v, old(cpu).registers.flags.carry);
            &&& write_rel(*old(mem), *final(mem), old(cpu).registers.hl as int, nv)
            &&& final(cpu).registers == with_pc(
                with_flags(old(cpu).registers, shift_flags_spec(nv, v >> 7 == 1)),
                old(cpu).registers.pc.wrapping_add(2),
            )
        }),
        r == Ok::<Instruction, crate::errors::DecodeError>(
            (Instruction { mnemonic: Mnemonic::RL, bytes: 2, cycles: 4 }),
        ),
{
    let hl = cpu.registers.hl;
    let v = mem.read(hl as usize);
    let cin: u8 = if cpu.registers.flags.carry {
        1
    } else {
        0
    };
    let nv = (v << 1) | cin;
    mem.write(hl as usize, nv);
    cpu.registers.set_flags(
        Flags { zero: nv == 0, subtraction: false, half_carry: false, carry: v >> 7 == 1 },
    );
    cpu.registers.pc = cpu.registers.pc.wrapping_add(2);
    Ok(Instruction { mnemonic: Mnemonic::RL, bytes: 2, cycles: 4 })
}

/// RLA: rotate the accumulator left through the carry flag; Z always clears.
pub fn rla(cpu: &mut Cpu) -> (r: InstructionResult<Instruction>)
    requires
        old(cpu).registers.wf(),
    ensures
        final(cpu).registers.wf(),
        same_int_state(*old(cpu), *final(cpu)),
        ({
            let v = old(cpu).registers.a;
            let nv = rl_val(v, old(cpu).registers.flags.carry);
            final(cpu).registers == with_pc(
                with_flags(
                    set_r8_spec(old(cpu).registers, R8::A, nv),
                    rotate_a_flags_spec(v >> 7 == 1),
                ),
                old(cpu).registers.pc.wrapping_add(1),
            )
        }),
        r == Ok::<Instruction, crate::errors::DecodeError>(
            (Instruction { mnemonic: Mnemonic::RLA, bytes: 1, cycles: 1 }),
        ),
{
    let v = cpu.registers.a;
    let cin: u8 = if cpu.registers.flags.carry {
        1
    } else {
        0
    };
    let nv = (v << 1) | cin;
    cpu.registers.set_r8(R8::A, nv);
    cpu.registers.set_flags(
        Flags { zero: false, subtraction: false, half_carry: false, carry: v >> 7 == 1 },
    );
    cpu.registers.pc = cpu.registers.pc.wrapping_add(1);
    Ok(Instruction { mnemonic: Mnemonic::RLA, bytes: 1, cycles: 1 })
}

/// RLC r8: rotate register r8 left; bit 7 wraps to bit 0 and the carry.
pub fn rlc_r8(r8: R8, cpu: &mut Cpu) -> (r: InstructionResult<Instruction>)
    requires
        old(cpu).registers.wf(),
    ensures
        final(cpu).registers.wf(),
        same_int_state(*old(cpu), *final(cpu)),
        ({
            let v = r8_of(old(cpu).registers, r8);
            let nv = rlc_val(v);
            final(cpu).registers == with_pc(
                with_flags(
                    set_r8_spec(old(cpu).registers, r8, nv),
                    shift_flags_spec(nv, v >> 7 == 1),
                ),
                old(cpu).registers.pc.wrapping_add(2),
            )
        }),
        r == Ok::<Instruction, crate::errors::DecodeError>(
            (Instruction { mnemonic: Mnemonic::RLC, bytes: 2, cycles: 2 }),
        ),
{
    let v = cpu.registers.get_r8(r8);
    let nv = (v << 1) | (v >> 7);
    cpu.registers.set_r8(r8, nv);
    cpu.registers.set_flags(
        Flags { zero: nv == 0, subtraction: false, half_carry: false, carry: v >> 7 == 1 },
    );
    cpu.registers.pc = cpu.registers.pc.wrapping_add(2);
    Ok(Instruction { mnemonic: Mnemonic::RLC, bytes: 2, cycles: 2 })
}

/// RLC [HL]: rotate the byte pointed to by HL left; bit 7 wraps around.
pub fn rlc_hl(cpu: &mut Cpu, mem: &mut Memory) -> (r: InstructionResult<Instruction>)
    requires
        old(cpu).registers.wf(),
        old(mem).wf(),
    ensures
        final(cpu).registers.wf(),
        final(mem).wf(),
        same_int_state(*old(cpu), *final(cpu)),
        ({
            let v = read_spec(*old(mem), old(cpu).registers.hl as int);
            let nv = rlc_val(v);
            &&& write_rel(*old(mem), *final(mem), old(cpu).registers.hl as int, nv)
            &&& final(cpu).registers == with_pc(
                with_flags(old(cpu).registers, shift_flags_spec(nv, v >> 7 == 1)),
                old(cpu).registers.pc.wrapping_add(2),
            )
        }),
        r == Ok::<Instruction, crate::errors::DecodeError>(
            (Instruction { mnemonic: Mnemonic::RLC, bytes: 2, cycles: 4 }),
        ),
{
    let hl = cpu.registers.hl;
    let v = mem.read(hl as usize);
    let nv = (v << 1) | (v >> 7);
    mem.write(hl as usize, nv);
    cpu.registers.set_flags(
        Flags { zero: nv == 0, subtraction: false, half_carry: false, carry: v >> 7 == 1 },
    );
    cpu.registers.pc = cpu.registers.pc.wrapping_add(2);
    Ok(Instruction { mnemonic: Mnemonic::RLC, bytes: 2, cycles: 4 })
}

/// RLCA: rotate the accumulator left; bit 7 wraps around; Z always clears.
pub fn rlca(cpu: &mut Cpu) -> (r: InstructionResult<Instruction>)
    requires
        old(cpu).registers.wf(),
    ensures
        final(cpu).registers.wf(),
        same_int_state(*old(cpu), *final(cpu)),
        ({
            let v = old(cpu).registers.a;
            let nv = rlc_val(v);
            final(cpu).registers == with_pc(
                with_flags(
                    set_r8_spec(old(cpu).registers, R8::A, nv),
                    rotate_a_flags_spec(v >> 7 == 1),
                ),
                old(cpu).registers.pc.wrapping_add(1),
            )
        }),
        r == Ok::<Instruction, crate::errors::DecodeError>(
            (Instruction { mnemonic: Mnemonic::RLCA, bytes: 1, cycles: 1 }),
        ),
{
    let v = cpu.registers.a;
    let nv = (v << 1) | (v >> 7);
    cpu.registers.set_r8(R8::A, nv);
    cpu.registers.set_flags(
        Flags { zero: false, subtraction: false, half_carry: false, carry: v >> 7 == 1 },
    );
    cpu.registers.pc = cpu.registers.pc.wrapping_add(1);
    Ok(Instruction { mnemonic: Mnemonic::RLCA, bytes: 1, cycles: 1 })
}

/// RR r8: rotate register r8 right through the carry flag.
pub fn rr_r8(r8: R8, cpu: &mut Cpu) -> (r: InstructionResult<Instruction>)
    requires
        old(cpu).registers.wf(),
    ensures
        final(cpu).registers.wf(),
        same_int_state(*old(cpu), *final(cpu)),
        ({
            let v = r8_of(old(cpu).registers, r8);
            let nv = rr_val(v, old(cpu).registers.flags.carry);
            final(cpu).registers == with_pc(
                with_flags(
                    set_r8_spec(old(cpu).registers, r8, nv),
                    shift_flags_spec(nv, v & 1 == 1),
                ),
                old(cpu).registers.pc.wrapping_add(2),
            )
        }),
        r == Ok::<Instruction, crate::errors::DecodeError>(
            (Instruction { mnemonic: Mnemonic::RR, bytes: 2, cycles: 2 }),
        ),
{
    let v = cpu.registers.get_r8(r8);
    let cin: u8 = if cpu.registers.flags.carry {
        0x80
    } else {
        0
    };
    let nv = (v >> 1) | cin;
    cpu.registers.set_r8(r8, nv);
    cpu.registers.set_flags(
        Flags { zero: nv == 0, subtraction: false, half_carry: false, carry: v & 1 == 1 },
    );
    cpu.registers.pc = cpu.registers.pc.wrapping_add(2);
    Ok(Instruction { mnemonic: Mnemonic::RR, bytes: 2, cycles: 2 })
}

/// RR [HL]: rotate the byte pointed to by HL right through the carry flag.
pub fn rr_hl(cpu: &mut Cpu, mem: &mut Memory) -> (r: InstructionResult<Instruction>)
    requires
        old(cpu).registers.wf(),
        old(mem).wf(),
    ensures
        final(cpu).registers.wf(),
        final(mem).wf(),
        same_int_state(*old(cpu), *final(cpu)),
        ({
            let v = read_spec(*old(mem), old(cpu).registers.hl as int);
            let nv = rr_val(v, old(cpu).registers.flags.carry);
            &&& write_rel(*old(mem), *final(mem), old(cpu).registers.hl as int, nv)
            &&& final(cpu).registers == with_pc(
                with_flags(old(cpu).registers, shift_flags_spec(nv, v & 1 == 1)),
                old(cpu).registers.pc.wrapping_add(2),
            )
        }),
        r == Ok::<Instruction, crate::errors::DecodeError>(
            (Instruction { mnemonic: Mnemonic::RR, bytes: 2, cycles: 4 }),
        ),
{
    let hl = cpu.registers.hl;
    let v = mem.read(hl as usize);
    let cin: u8 = if cpu.registers.flags.carry {
        0x80
    } else {
        0
    };
    let nv = (v >> 1) | cin;
    mem.write(hl as usize, nv);
    cpu.registers.set_flags(
        Flags { zero: nv == 0, subtraction: false, half_carry: false, carry: v & 1 == 1 },
    );
    cpu.registers.pc = cpu.registers.pc.wrapping_add(2);
    Ok(Instruction { mnemonic: Mnemonic::RR, bytes: 2, cycles: 4 })
}

/// RRA: rotate the accumulator right through the carry flag; Z always
/// clears.
pub fn rra(cpu: &mut Cpu) -> (r: InstructionResult<Instruction>)
    requires
        old(cpu).registers.wf(),
    ensures
        final(cpu).registers.wf(),
        same_int_state(*old(cpu), *final(cpu)),
        ({
            let v = old(cpu).registers.a;
            let nv = rr_val(v, old(cpu).registers.flags.carry);
            final(cpu).registers == with_pc(
                with_flags(
                    set_r8_spec(old(cpu).registers, R8::A, nv),
                    rotate_a_flags_spec(v & 1 == 1),
                ),
                old(cpu).registers.pc.wrapping_add(1),
            )
        }),
        r == Ok::<Instruction, crate::errors::DecodeError>(
            (Instruction { mnemonic: Mnemonic::RRA, bytes: 1, cycles: 1 }),
        ),
{
    let v = cpu.registers.a;
    let cin: u8 = if cpu.registers.flags.carry {
        0x80
    } else {
        0
    };
    let nv = (v >> 1) | cin;
    cpu.registers.set_r8(R8::A, nv);
    cpu.registers.set_flags(
        Flags { zero: false, subtraction: false, half_carry: false, carry: v & 1 == 1 },
    );
    cpu.registers.pc = cpu.registers.pc.wrapping_add(1);
    Ok(Instruction { mnemonic: Mnemonic::RRA, bytes: 1, cycles: 1 })
}

/// RRC r8: rotate register r8 right; bit 0 wraps to bit 7 and the carry.
pub fn rrc_r8(r8: R8, cpu: &mut Cpu) -> (r: InstructionResult<Instruction>)
    requires
        old(cpu).registers.wf(),
    ensures
        final(cpu).registers.wf(),
        same_int_state(*old(cpu), *final(cpu)),
        ({
            let v = r8_of(old(cpu).registers, r8);
            let nv = rrc_val(v);
            final(cpu).registers == with_pc(
                with_flags(
                    set_r8_spec(old(cpu).registers, r8, nv),
                    shift_flags_spec(nv, v & 1 == 1),
                ),
                old(cpu).registers.pc.wrapping_add(2),
            )
        }),
        r == Ok::<Instruction, crate::errors::DecodeError>(
            (Instruction { mnemonic: Mnemonic::RRC, bytes: 2, cycles: 2 }),
        ),
{
    let v = cpu.registers.get_r8(r8);
    let nv = (v >> 1) | ((v & 1) << 7);
    cpu.registers.set_r8(r8, nv);
    cpu.registers.set_flags(
        Flags { zero: nv == 0, subtraction: false, half_carry: false, carry: v & 1 == 1 },
    );
    cpu.registers.pc = cpu.registers.pc.wrapping_add(2);
    Ok(Instruction { mnemonic: Mnemonic::RRC, bytes: 2, cycles: 2 })
}

/// RRC [HL]: rotate the byte pointed to by HL right; bit 0 wraps around.
pub fn rrc_hl(cpu: &mut Cpu, mem: &mut Memory) -> (r: InstructionResult<Instruction>)
    requires
        old(cpu).registers.wf(),
        old(mem).wf(),
    ensures
        final(cpu).registers.wf(),
        final(mem).wf(),
        same_int_state(*old(cpu), *final(cpu)),
        ({
            let v = read_spec(*old(mem), old(cpu).registers.hl as int);
            let nv = rrc_val(v);
            &&& write_rel(*old(mem), *final(mem), old(cpu).registers.hl as int, nv)
            &&& final(cpu).registers == with_pc(
                with_flags(old(cpu).registers, shift_flags_spec(nv, v & 1 == 1)),
                old(cpu).registers.pc.wrapping_add(2),
            )
        }),
        r == Ok::<Instruction, crate::errors::DecodeError>(
            (Instruction { mnemonic: Mnemonic::RRC, bytes: 2, cycles: 4 }),
        ),
{
    let hl = cpu.registers.hl;
    let v = mem.read(hl as usize);
    let nv = (v >> 1) | ((v & 1) << 7);
    mem.write(hl as usize, nv);
    cpu.registers.set_flags(
        Flags { zero: nv == 0, subtraction: false, half_carry: false, carry: v & 1 == 1 },
    );
    cpu.registers.pc = cpu.registers.pc.wrapping_add(2);
    Ok(Instruction { mnemonic: Mnemonic::RRC, bytes: 2, cycles: 4 })
}

/// RRCA: rotate the accumulator right; bit 0 wraps around; Z always clears.
pub fn rrca(cpu: &mut Cpu) -> (r: InstructionResult<Instruction>)
    requires
        old(cpu).registers.wf(),
    ensures
        final(cpu).registers.wf(),
        same_int_state(*old(cpu), *final(cpu)),
        ({
            let v = old(cpu).registers.a;
            let nv = rrc_val(v);
            final(cpu).registers == with_pc(
                with_flags(
                    set_r8_spec(old(cpu).registers, R8::A, nv),
                    rotate_a_flags_spec(v & 1 == 1),
                ),
                old(cpu).registers.pc.wrapping_add(1),
            )
        }),
        r == Ok::<Instruction, crate::errors::DecodeError>(
            (Instruction { mnemonic: Mnemonic::RRCA, bytes: 1, cycles: 1 }),
        ),
{
    let v = cpu.registers.a;
    let nv = (v >> 1) | ((v & 1) << 7);
    cpu.registers.set_r8(R8::A, nv);
    cpu.registers.set_flags(
        Flags { zero: false, subtraction: false, half_carry: false, carry: v & 1 == 1 },
    );
    cpu.registers.pc = cpu.registers.pc.wrapping_add(1);
    Ok(Instruction { mnemonic: Mnemonic::RRCA, bytes: 1, cycles: 1 })
}

/// SLA r8: shift register r8 left arithmetically; bit 7 goes to the carry.
pub fn sla_r8(r8: R8, cpu: &mut Cpu) -> (r: InstructionResult<Instruction>)
    requires
        old(cpu).registers.wf(),
    ensures
        final(cpu).registers.wf(),
        same_int_state(*old(cpu), *final(cpu)),
        ({
            let v = r8_of(old(cpu).registers, r8);
            final(cpu).registers == with_pc(
                with_flags(
                    set_r8_spec(old(cpu).registers, r8, v << 1),
                    shift_flags_spec(v << 1, v >> 7 == 1),
                ),
                old(cpu).registers.pc.wrapping_add(2),
            )
        }),
        r == Ok::<Instruction, crate::errors::DecodeError>(
            (Instruction { mnemonic: Mnemonic::SLA, bytes: 2, cycles: 2 }),
        ),
{
    let v = cpu.registers.get_r8(r8);
    let nv = v << 1;
    cpu.registers.set_r8(r8, nv);
    cpu.registers.set_flags(
        Flags { zero: nv == 0, subtraction: false, half_carry: false, carry: v >> 7 == 1 },
    );
    cpu.registers.pc = cpu.registers.pc.wrapping_add(2);
    Ok(Instruction { mnemonic: Mnemonic::SLA, bytes: 2, cycles: 2 })
}

/// SLA [HL]: shift the byte pointed to by HL left arithmetically.
pub fn sla_hl(cpu: &mut Cpu, mem: &mut Memory) -> (r: InstructionResult<Instruction>)
    requires
        old(cpu).registers.wf(),
        old(mem).wf(),
    ensures
        final(cpu).registers.wf(),
        final(mem).wf(),
        same_int_state(*old(cpu), *final(cpu)),
        ({
            let v = read_spec(*old(mem), old(cpu).registers.hl as int);
            &&& write_rel(*old(mem), *final(mem), old(cpu).registers.hl as int, v << 1)
            &&& final(cpu).registers == with_pc(
                with_flags(old(cpu).registers, shift_flags_spec(v << 1, v >> 7 == 1)),
                old(cpu).registers.pc.wrapping_add(2),
            )
        }),
        r == Ok::<Instruction, crate::errors::DecodeError>(
            (Instruction { mnemonic: Mnemonic::SLA, bytes: 2, cycles: 4 }),
        ),
{
    let hl = cpu.registers.hl;
    let v = mem.read(hl as usize);
    let nv = v << 1;
    mem.write(hl as usize, nv);
    cpu.registers.set_flags(
        Flags { zero: nv == 0, subtraction: false, half_carry: false, carry: v >> 7 == 1 },
    );
    cpu.registers.pc = cpu.registers.pc.wrapping_add(2);
    Ok(Instruction { mnemonic: Mnemonic::SLA, bytes: 2, cycles: 4 })
}

/// SRA r8: shift register r8 right arithmetically; bit 7 is kept, bit 0
/// goes to the carry.
pub fn sra_r8(r8: R8, cpu: &mut Cpu) -> (r: InstructionResult<Instruction>)
    requires
        old(cpu).registers.wf(),
    ensures
        final(cpu).registers.wf(),
        same_int_state(*old(cpu), *final(cpu)),
        ({
            let v = r8_of(old(cpu).registers, r8);
            let nv = (v >> 1) | (v & 0x80);
            final(cpu).registers == with_pc(
                with_flags(
                    set_r8_spec(old(cpu).registers, r8, nv),
                    shift_flags_spec(nv, v & 1 == 1),
                ),
                old(cpu).registers.pc.wrapping_add(2),
            )
        }),
        r == Ok::<Instruction, crate::errors::DecodeError>(
            (Instruction { mnemonic: Mnemonic::SRA, bytes: 2, cycles: 2 }),
        ),
{
    let v = cpu.registers.get_r8(r8);
    let nv = (v >> 1) | (v & 0x80);
    cpu.registers.set_r8(r8, nv);
    cpu.registers.set_flags(
        Flags { zero: nv == 0, subtraction: false, half_carry: false, carry: v & 1 == 1 },
    );
    cpu.registers.pc = cpu.registers.pc.wrapping_add(2);
    Ok(Instruction { mnemonic: Mnemonic::SRA, bytes: 2, cycles: 2 })
}

/// SRA [HL]: shift the byte pointed to by HL right arithmetically; bit 7 is
/// kept.
pub fn sra_hl(cpu: &mut Cpu, mem: &mut Memory) -> (r: InstructionResult<Instruction>)
    requires
        old(cpu).registers.wf(),
        old(mem).wf(),
    ensures
        final(cpu).registers.wf(),
        final(mem).wf(),
        same_int_state(*old(cpu), *final(cpu)),
        ({
            let v = read_spec(*old(mem), old(cpu).registers.hl as int);
            let nv = (v >> 1) | (v & 0x80);
            &&& write_rel(*old(mem), *final(mem), old(cpu).registers.hl as int, nv)
            &&& final(cpu).registers == with_pc(
                with_flags(old(cpu).registers, shift_flags_spec(nv, v & 1 == 1)),
                old(cpu).registers.pc.wrapping_add(2),
            )
        }),
        r == Ok::<Instruction, crate::errors::DecodeError>(
            (Instruction { mnemonic: Mnemonic::SRA, bytes: 2, cycles: 4 }),
        ),
{
    let hl = cpu.registers.hl;
    let v = mem.read(hl as usize);
    let nv = (v >> 1) | (v & 0x80);
    mem.write(hl as usize, nv);
    cpu.registers.set_flags(
        Flags { zero: nv == 0, subtraction: false, half_carry: false, carry: v & 1 == 1 },
    );
    cpu.registers.pc = cpu.registers.pc.wrapping_add(2);
    Ok(Instruction { mnemonic: Mnemonic::SRA, bytes: 2, cycles: 4 })
}

/// SRL r8: shift register r8 right logically; bit 0 goes to the carry.
pub fn srl_r8(r8: R8, cpu: &mut Cpu) -> (r: InstructionResult<Instruction>)
    requires
        old(cpu).registers.wf(),
    ensures
        final(cpu).registers.wf(),
        same_int_state(*old(cpu), *final(cpu)),
        ({
            let v = r8_of(old(cpu).registers, r8);
            final(cpu).registers == with_pc(
                with_flags(
                    set_r8_spec(old(cpu).registers, r8, v >> 1),
                    shift_flags_spec(v >> 1, v & 1 == 1),
                ),
                old(cpu).registers.pc.wrapping_add(2),
            )
        }),
        r == Ok::<Instruction, crate::errors::DecodeError>(
            (Instruction { mnemonic: Mnemonic::SRL, bytes: 2, cycles: 2 }),
        ),
{
    let v = cpu.registers.get_r8(r8);
    let nv = v >> 1;
    cpu.registers.set_r8(r8, nv);
    cpu.registers.set_flags(
        Flags { zero: nv == 0, subtraction: false, half_carry: false, carry: v & 1 == 1 },
    );
    cpu.registers.pc = cpu.registers.pc.wrapping_add(2);
    Ok(Instruction { mnemonic: Mnemonic::SRL, bytes: 2, cycles: 2 })
}

/// SRL [HL]: shift the byte pointed to by HL right logically.
pub fn srl_hl(cpu: &mut Cpu, mem: &mut Memory) -> (r: InstructionResult<Instruction>)
    requires
        old(cpu).registers.wf(),
        old(mem).wf(),
    ensures
        final(cpu).registers.wf(),
        final(mem).wf(),
        same_int_state(*old(cpu), *final(cpu)),
        ({
            let v = read_spec(*old(mem), old(cpu).registers.hl as int);
            &&& write_rel(*old(mem), *final(mem), old(cpu).registers.hl as int, v >> 1)
            &&& final(cpu).registers == with_pc(
                with_flags(old(cpu).registers, shift_flags_spec(v >> 1, v & 1 == 1)),
                old(cpu).registers.pc.wrapping_add(2),
            )
        }),
        r == Ok::<Instruction, crate::errors::DecodeError>(
            (Instruction { mnemonic: Mnemonic::SRL, bytes: 2, cycles: 4 }),
        ),
{
    let hl = cpu.registers.hl;
    let v = mem.read(hl as usize);
    let nv = v >> 1;
    mem.write(hl as usize, nv);
    cpu.registers.set_flags(
        Flags { zero: nv == 0, subtraction: false, half_carry: false, carry: v & 1 == 1 },
    );
    cpu.registers.pc = cpu.registers.pc.wrapping_add(2);
    Ok(Instruction { mnemonic: Mnemonic::SRL, bytes: 2, cycles: 4 })
}

/// SWAP r8: swap the two nibbles of register r8; only Z can set.
pub fn swap_r8(r8: R8, cpu: &mut Cpu) -> (r: InstructionResult<Instruction>)
    requires
        old(cpu).registers.wf(),
    ensures
        final(cpu).registers.wf(),
        same_int_state(*old(cpu), *final(cpu)),
        ({
            let v = r8_of(old(cpu).registers, r8);
            let nv = (v << 4) | (v >> 4);
            final(cpu).registers == with_pc(
                with_flags(set_r8_spec(old(cpu).registers, r8, nv), shift_flags_spec(nv, false)),
                old(cpu).registers.pc.wrapping_add(2),
            )
        }),
        r == Ok::<Instruction, crate::errors::DecodeError>(
            (Instruction { mnemonic: Mnemonic::SWAP, bytes: 2, cycles: 2 }),
        ),
{
    let v = cpu.registers.get_r8(r8);
    let nv = (v << 4) | (v >> 4);
    cpu.registers.set_r8(r8, nv);
    cpu.registers.set_flags(
        Flags { zero: nv == 0, subtraction: false, half_carry: false, carry: false },
    );
    cpu.registers.pc = cpu.registers.pc.wrapping_add(2);
    Ok(Instruction { mnemonic: Mnemonic::SWAP, bytes: 2, cycles: 2 })
}

/// SWAP [HL]: swap the two nibbles of the byte pointed to by HL.
pub fn swap_hl(cpu: &mut Cpu, mem: &mut Memory) -> (r: InstructionResult<Instruction>)
    requires
        old(cpu).registers.wf(),
        old(mem).wf(),
    ensures
        final(cpu).registers.wf(),
        final(mem).wf(),
        same_int_state(*old(cpu), *final(cpu)),
        ({
            let v = read_spec(*old(mem), old(cpu).registers.hl as int);
            let nv = (v << 4) | (v >> 4);
            &&& write_rel(*old(mem), *final(mem), old(cpu).registers.hl as int, nv)
            &&& final(cpu).registers == with_pc(
                with_flags(old(cpu).registers, shift_flags_spec(nv, false)),
                old(cpu).registers.pc.wrapping_add(2),
            )
        }),
        r == Ok::<Instruction, crate::errors::DecodeError>(
            (Instruction { mnemonic: Mnemonic::SWAP, bytes: 2, cycles: 4 }),
        ),
{
    let hl = cpu.registers.hl;
    let v = mem.read(hl as usize);
    let nv = (v << 4) | (v >> 4);
    mem.write(hl as usize, nv);
    cpu.registers.set_flags(
        Flags { zero: nv == 0, subtraction: false, half_carry: false, carry: false },
    );
    cpu.registers.pc = cpu.registers.pc.wrapping_add(2);
    Ok(Instruction { mnemonic: Mnemonic::SWAP, bytes: 2, cycles: 4 })
}

} // verus!
