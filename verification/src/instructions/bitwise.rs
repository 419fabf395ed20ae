use vstd::prelude::*;

use crate::cpu::{r8_of, same_int_state, set_r8_spec, with_flags, with_pc, Cpu, Flags, R8};
use crate::memory::{read_spec, Memory};
use crate::Mnemonic;

use super::{Instruction, InstructionResult};

verus! {

/// The flags of an AND: Z from the result, H set, N and C clear.
pub open spec fn and_flags_spec(result: u8) -> Flags {
    Flags { zero: result == 0, subtraction: false, half_carry: true, carry: false }
}

/// The flags of an OR or XOR: Z from the result, everything else clear.
pub open spec fn logic_flags_spec(result: u8) -> Flags {
    Flags { zero: result == 0, subtraction: false, half_carry: false, carry: false }
}

/// AND A,r8: set A to the bitwise AND of A and the value in r8.
pub fn and_a_r8(r8: R8, cpu: &mut Cpu) -> (r: InstructionResult<Instruction>)
    requires
        old(cpu).registers.wf(),
    ensures
        final(cpu).registers.wf(),
        same_int_state(*old(cpu), *final(cpu)),
        ({
            let v = old(cpu).registers.a & r8_of(old(cpu).registers, r8);
            final(cpu).registers == with_pc(
                with_flags(set_r8_spec(old(cpu).registers, R8::A, v), and_flags_spec(v)),
                old(cpu).registers.pc.wrapping_add(1),
            )
        }),
        r == Ok::<Instruction, crate::errors::DecodeError>(
            (Instruction { mnemonic: Mnemonic::AND, bytes: 1, cycles: 1 }),
        ),
{
    let v = cpu.registers.a & cpu.registers.get_r8(r8);
    cpu.registers.set_r8(R8::A, v);
    cpu.registers.set_flags(
        Flags { zero: v == 0, subtraction: false, half_carry: true, carry: false },
    );
    cpu.registers.pc = cpu.registers.pc.wrapping_add(1);
    Ok(Instruction { mnemonic: Mnemonic::AND, bytes: 1, cycles: 1 })
}

/// AND A,[HL]: set A to the bitwise AND of A and the byte pointed to by HL.
pub fn and_a_immed_hl(cpu: &mut Cpu, mem: &mut Memory) -> (r: InstructionResult<Instruction>)
    requires
        old(cpu).registers.wf(),
        old(mem).wf(),
    ensures
        final(cpu).registers.wf(),
        *final(mem) == *old(mem),
        same_int_state(*old(cpu), *final(cpu)),
        ({
            let v = old(cpu).registers.a & read_spec(*old(mem), old(cpu).registers.hl as int);
            final(cpu).registers == with_pc(
                with_flags(set_r8_spec(old(cpu).registers, R8::A, v), and_flags_spec(v)),
                old(cpu).registers.pc.wrapping_add(1),
            )
        }),
        r == Ok::<Instruction, crate::errors::DecodeError>(
            (Instruction { mnemonic: Mnemonic::AND, bytes: 1, cycles: 2 }),
        ),
{
    let hl = cpu.registers.hl;
    let b = mem.read(hl as usize);
    let v = cpu.registers.a & b;
    cpu.registers.set_r8(R8::A, v);
    cpu.registers.set_flags(
        Flags { zero: v == 0, subtraction: false, half_carry: true, carry: false },
    );
    cpu.registers.pc = cpu.registers.pc.wrapping_add(1);
    Ok(Instruction { mnemonic: Mnemonic::AND, bytes: 1, cycles: 2 })
}

/// AND A,n8: set A to the bitwise AND of A and the value n8.
pub fn and_a_n8(n8: u8, cpu: &mut Cpu) -> (r: InstructionResult<Instruction>)
    requires
        old(cpu).registers.wf(),
    ensures
        final(cpu).registers.wf(),
        same_int_state(*old(cpu), *final(cpu)),
        ({
            let v = old(cpu).registers.a & n8;
            final(cpu).registers == with_pc(
                with_flags(set_r8_spec(old(cpu).registers, R8::A, v), and_flags_spec(v)),
                old(cpu).registers.pc.wrapping_add(2),
            )
        }),
        r == Ok::<Instruction, crate::errors::DecodeError>(
            (Instruction { mnemonic: Mnemonic::AND, bytes: 2, cycles: 2 }),
        ),
{
    let v = cpu.registers.a & n8;
    cpu.registers.set_r8(R8::A, v);
    cpu.registers.set_flags(
        Flags { zero: v == 0, subtraction: false, half_carry: true, carry: false },
    );
    cpu.registers.pc = cpu.registers.pc.wrapping_add(2);
    Ok(Instruction { mnemonic: Mnemonic::AND, bytes: 2, cycles: 2 })
}

/// CPL: complement the accumulator; N and H are set, Z and C are kept.
pub fn cpl(cpu: &mut Cpu) -> (r: InstructionResult<Instruction>)
    requires
        old(cpu).registers.wf(),
    ensures
        final(cpu).registers.wf(),
        same_int_state(*old(cpu), *final(cpu)),
        final(cpu).registers == with_pc(
            with_flags(
                set_r8_spec(old(cpu).registers, R8::A, !old(cpu).registers.a),
                (Flags {
                    zero: old(cpu).registers.flags.zero,
                    subtraction: true,
                    half_carry: true,
                    carry: old(cpu).registers.flags.carry,
                }),
            ),
            old(cpu).registers.pc.wrapping_add(1),
        ),
        r == Ok::<Instruction, crate::errors::DecodeError>(
            (Instruction { mnemonic: Mnemonic::CPL, bytes: 1, cycles: 1 }),
        ),
{
    let a = cpu.registers.a;
    cpu.registers.set_r8(R8::A, !a);
    let f = Flags {
        zero: cpu.registers.flags.zero,
        subtraction: true,
        half_carry: true,
        carry: cpu.registers.flags.carry,
    };
    cpu.registers.set_flags(f);
    cpu.registers.pc = cpu.registers.pc.wrapping_add(1);
    Ok(Instruction { mnemonic: Mnemonic::CPL, bytes: 1, cycles: 1 })
}

/// OR A,r8: set A to the bitwise OR of A and the value in r8.
pub fn or_a_r8(r8: R8, cpu: &mut Cpu) -> (r: InstructionResult<Instruction>)
    requires
        old(cpu).registers.wf(),
    ensures
        final(cpu).registers.wf(),
        same_int_state(*old(cpu), *final(cpu)),
        ({
            let v = old(cpu).registers.a | r8_of(old(cpu).registers, r8);
            final(cpu).registers == with_pc(
                with_flags(set_r8_spec(old(cpu).registers, R8::A, v), logic_flags_spec(v)),
                old(cpu).registers.pc.wrapping_add(1),
            )
        }),
        r == Ok::<Instruction, crate::errors::DecodeError>(
            (Instruction { mnemonic: Mnemonic::OR, bytes: 1, cycles: 1 }),
        ),
{
    let v = cpu.registers.a | cpu.registers.get_r8(r8);
    cpu.registers.set_r8(R8::A, v);
    cpu.registers.set_flags(
        Flags { zero: v == 0, subtraction: false, half_carry: false, carry: false },
    );
    cpu.registers.pc = cpu.registers.pc.wrapping_add(1);
    Ok(Instruction { mnemonic: Mnemonic::OR, bytes: 1, cycles: 1 })
}

/// OR A,[HL]: set A to the bitwise OR of A and the byte pointed to by HL.
pub fn or_a_hl(cpu: &mut Cpu, mem: &mut Memory) -> (r: InstructionResult<Instruction>)
    requires
        old(cpu).registers.wf(),
        old(mem).wf(),
    ensures
        final(cpu).registers.wf(),
        *final(mem) == *old(mem),
        same_int_state(*old(cpu), *final(cpu)),
        ({
            let v = old(cpu).registers.a | read_spec(*old(mem), old(cpu).registers.hl as int);
            final(cpu).registers == with_pc(
                with_flags(set_r8_spec(old(cpu).registers, R8::A, v), logic_flags_spec(v)),
                old(cpu).registers.pc.wrapping_add(1),
            )
        }),
        r == Ok::<Instruction, crate::errors::DecodeError>(
            (Instruction { mnemonic: Mnemonic::OR, bytes: 1, cycles: 2 }),
        ),
{
    let hl = cpu.registers.hl;
    let b = mem.read(hl as usize);
    let v = cpu.registers.a | b;
    cpu.registers.set_r8(R8::A, v);
    cpu.registers.set_flags(
        Flags { zero: v == 0, subtraction: false, half_carry: false, carry: false },
    );
    cpu.registers.pc = cpu.registers.pc.wrapping_add(1);
    Ok(Instruction { mnemonic: Mnemonic::OR, bytes: 1, cycles: 2 })
}

/// OR A,n8: set A to the bitwise OR of A and the value n8.
pub fn or_a_n8(n8: u8, cpu: &mut Cpu) -> (r: InstructionResult<Instruction>)
    requires
        old(cpu).registers.wf(),
    ensures
        final(cpu).registers.wf(),
        same_int_state(*old(cpu), *final(cpu)),
        ({
            let v = old(cpu).registers.a | n8;
            final(cpu).registers == with_pc(
                with_flags(set_r8_spec(old(cpu).registers, R8::A, v), logic_flags_spec(v)),
                old(cpu).registers.pc.wrapping_add(2),
            )
        }),
        r == Ok::<Instruction, crate::errors::DecodeError>(
            (Instruction { mnemonic: Mnemonic::OR, bytes: 2, cycles: 2 }),
        ),
{
    let v = cpu.registers.a | n8;
    cpu.registers.set_r8(R8::A, v);
    cpu.registers.set_flags(
        Flags { zero: v == 0, subtraction: false, half_carry: false, carry: false },
    );
    cpu.registers.pc = cpu.registers.pc.wrapping_add(2);
    Ok(Instruction { mnemonic: Mnemonic::OR, bytes: 2, cycles: 2 })
}

/// XOR A,r8: set A to the bitwise XOR of A and the value in r8.
pub fn xor_a_r8(r8: R8, cpu: &mut Cpu) -> (r: InstructionResult<Instruction>)
    requires
        old(cpu).registers.wf(),
    ensures
        final(cpu).registers.wf(),
        same_int_state(*old(cpu), *final(cpu)),
        ({
            let v = old(cpu).registers.a ^ r8_of(old(cpu).registers, r8);
            final(cpu).registers == with_pc(
                with_flags(set_r8_spec(old(cpu).registers, R8::A, v), logic_flags_spec(v)),
                old(cpu).registers.pc.wrapping_add(1),
            )
        }),
        r == Ok::<Instruction, crate::errors::DecodeError>(
            (Instruction { mnemonic: Mnemonic::XOR, bytes: 1, cycles: 1 }),
        ),
{
    let v = cpu.registers.a ^ cpu.registers.get_r8(r8);
    cpu.registers.set_r8(R8::A, v);
    cpu.registers.set_flags(
        Flags { zero: v == 0, subtraction: false, half_carry: false, carry: false },
    );
    cpu.registers.pc = cpu.registers.pc.wrapping_add(1);
    Ok(Instruction { mnemonic: Mnemonic::XOR, bytes: 1, cycles: 1 })
}

/// XOR A,[HL]: set A to the bitwise XOR of A and the byte pointed to by HL.
pub fn xor_a_immed_hl(cpu: &mut Cpu, mem: &mut Memory) -> (r: InstructionResult<Instruction>)
    requires
        old(cpu).registers.wf(),
        old(mem).wf(),
    ensures
        final(cpu).registers.wf(),
        *final(mem) == *old(mem),
        same_int_state(*old(cpu), *final(cpu)),
        ({
            let v = old(cpu).registers.a ^ read_spec(*old(mem), old(cpu).registers.hl as int);
            final(cpu).registers == with_pc(
                with_flags(set_r8_spec(old(cpu).registers, R8::A, v), logic_flags_spec(v)),
                old(cpu).registers.pc.wrapping_add(1),
            )
        }),
        r == Ok::<Instruction, crate::errors::DecodeError>(
            (Instruction { mnemonic: Mnemonic::XOR, bytes: 1, cycles: 2 }),
        ),
{
    let hl = cpu.registers.hl;
    let b = mem.read(hl as usize);
    let v = cpu.registers.a ^ b;
    cpu.registers.set_r8(R8::A, v);
    cpu.registers.set_flags(
        Flags { zero: v == 0, subtraction: false, half_carry: false, carry: false },
    );
    cpu.registers.pc = cpu.registers.pc.wrapping_add(1);
    Ok(Instruction { mnemonic: Mnemonic::XOR, bytes: 1, cycles: 2 })
}

/// XOR A,n8: set A to the bitwise XOR of A and the value n8.
pub fn xor_a_n8(n8: u8, cpu: &mut Cpu) -> (r: InstructionResult<Instruction>)
    requires
        old(cpu).registers.wf(),
    ensures
        final(cpu).registers.wf(),
        same_int_state(*old(cpu), *final(cpu)),
        ({
            let v = old(cpu).registers.a ^ n8;
            final(cpu).registers == with_pc(
                with_flags(set_r8_spec(old(cpu).registers, R8::A, v), logic_flags_spec(v)),
                old(cpu).registers.pc.wrapping_add(2),
            )
        }),
        r == Ok::<Instruction, crate::errors::DecodeError>(
            (Instruction { mnemonic: Mnemonic::XOR, bytes: 2, cycles: 2 }),
        ),
{
    let v = cpu.registers.a ^ n8;
    cpu.registers.set_r8(R8::A, v);
    cpu.registers.set_flags(
        Flags { zero: v == 0, subtraction: false, half_carry: false, carry: false },
    );
    cpu.registers.pc = cpu.registers.pc.wrapping_add(2);
    Ok(Instruction { mnemonic: Mnemonic::XOR, bytes: 2, cycles: 2 })
}

} // verus!
