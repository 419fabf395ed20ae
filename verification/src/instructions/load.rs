use vstd::prelude::*;

use crate::cpu::{
    r16_of, r8_of, same_int_state, set_r16_spec, set_r8_spec, with_pc, Cpu, R16, R8,
};
use crate::memory::{
    lemma_write_read_roundtrip, read_spec, writable_now, write_rel, Memory,
};
use crate::Mnemonic;

use super::{Instruction, InstructionResult};

verus! {

/// Storing the accumulator at a writable address and loading it back leaves
/// the accumulator unchanged: the round trip of LD [n16],A followed by
/// LD A,[n16], stated over the two instructions' state transitions.
pub proof fn lemma_store_load_a_roundtrip(
    c0: Cpu,
    m0: Memory,
    c1: Cpu,
    m1: Memory,
    c2: Cpu,
    n16: u16,
)
    requires
        m0.wf(),
        !m0.dma_active,
        writable_now(m0, n16 as int),
        write_rel(m0, m1, n16 as int, c0.registers.a),
        c1.registers == with_pc(c0.registers, c0.registers.pc.wrapping_add(3)),
        c2.registers == with_pc(
            set_r8_spec(c1.registers, R8::A, read_spec(m1, n16 as int)),
            c1.registers.pc.wrapping_add(3),
        ),
    ensures
        c2.registers.a == c0.registers.a,
{
    lemma_write_read_roundtrip(m0, m1, n16 as int, c0.registers.a);
}

/// LD r8,r8: copy the source register into the destination register.
pub fn ld_r8_r8(source: R8, dest: R8, cpu: &mut Cpu) -> (r: InstructionResult<Instruction>)
    requires
        old(cpu).registers.wf(),
    ensures
        final(cpu).registers.wf(),
        same_int_state(*old(cpu), *final(cpu)),
        final(cpu).registers == with_pc(
            set_r8_spec(old(cpu).registers, dest, r8_of(old(cpu).registers, source)),
            old(cpu).registers.pc.wrapping_add(1),
        ),
        r == Ok::<Instruction, crate::errors::DecodeError>(
            (Instruction { mnemonic: Mnemonic::LD, bytes: 1, cycles: 1 }),
        ),
{
    let v = cpu.registers.get_r8(source);
    cpu.registers.set_r8(dest, v);
    cpu.registers.pc = cpu.registers.pc.wrapping_add(1);
    Ok(Instruction { mnemonic: Mnemonic::LD, bytes: 1, cycles: 1 })
}

/// LD r8,n8: copy the value n8 into register r8.
pub fn ld_r8_n8(r8: R8, n8: u8, cpu: &mut Cpu) -> (r: InstructionResult<Instruction>)
    requires
        old(cpu).registers.wf(),
    ensures
        final(cpu).registers.wf(),
        same_int_state(*old(cpu), *final(cpu)),
        final(cpu).registers == with_pc(
            set_r8_spec(old(cpu).registers, r8, n8),
            old(cpu).registers.pc.wrapping_add(2),
        ),
        r == Ok::<Instruction, crate::errors::DecodeError>(
            (Instruction { mnemonic: Mnemonic::LD, bytes: 2, cycles: 2 }),
        ),
{
    cpu.registers.set_r8(r8, n8);
    cpu.registers.pc = cpu.registers.pc.wrapping_add(2);
    Ok(Instruction { mnemonic: Mnemonic::LD, bytes: 2, cycles: 2 })
}

/// LD r16,n16: copy the value n16 into register r16.
pub fn ld_r16_n16(r16: R16, n16: u16, cpu: &mut Cpu) -> (r: InstructionResult<Instruction>)
    requires
        old(cpu).registers.wf(),
    ensures
        final(cpu).registers.wf(),
        same_int_state(*old(cpu), *final(cpu)),
        final(cpu).registers == (if r16 == R16::PC {
            set_r16_spec(old(cpu).registers, r16, n16)
        } else {
            with_pc(
                set_r16_spec(old(cpu).registers, r16, n16),
                old(cpu).registers.pc.wrapping_add(3),
            )
        }),
        r == Ok::<Instruction, crate::errors::DecodeError>(
            (Instruction { mnemonic: Mnemonic::LD, bytes: 3, cycles: 3 }),
        ),
{
    cpu.registers.set_r16(r16, n16);
    if r16 != R16::PC {
        cpu.registers.pc = cpu.registers.pc.wrapping_add(3);
    }
    Ok(Instruction { mnemonic: Mnemonic::LD, bytes: 3, cycles: 3 })
}

/// LD [HL],r8: copy register r8 into the byte pointed to by HL.
pub fn ld_r8_hl(r8: R8, cpu: &mut Cpu, mem: &mut Memory) -> (r: InstructionResult<Instruction>)
    requires
        old(cpu).registers.wf(),
        old(mem).wf(),
    ensures
        final(cpu).registers.wf(),
        final(mem).wf(),
        same_int_state(*old(cpu), *final(cpu)),
        write_rel(
            *old(mem),
            *final(mem),
            old(cpu).registers.hl as int,
            r8_of(old(cpu).registers, r8),
        ),
        final(cpu).registers == with_pc(
            old(cpu).registers,
            old(cpu).registers.pc.wrapping_add(1),
        ),
        r == Ok::<Instruction, crate::errors::DecodeError>(
            (Instruction { mnemonic: Mnemonic::LD, bytes: 1, cycles: 2 }),
        ),
{
    let hl = cpu.registers.hl;
    let v = cpu.registers.get_r8(r8);
    mem.write(hl as usize, v);
    cpu.registers.pc = cpu.registers.pc.wrapping_add(1);
    Ok(Instruction { mnemonic: Mnemonic::LD, bytes: 1, cycles: 2 })
}

/// LD [HL],n8: copy the value n8 into the byte pointed to by HL.
pub fn ld_n8_hl(n8: u8, cpu: &mut Cpu, mem: &mut Memory) -> (r: InstructionResult<Instruction>)
    requires
        old(cpu).registers.wf(),
        old(mem).wf(),
    ensures
        final(cpu).registers.wf(),
        final(mem).wf(),
        same_int_state(*old(cpu), *final(cpu)),
        write_rel(*old(mem), *final(mem), old(cpu).registers.hl as int, n8),
        final(cpu).registers == with_pc(
            old(cpu).registers,
            old(cpu).registers.pc.wrapping_add(2),
        ),
        r == Ok::<Instruction, crate::errors::DecodeError>(
            (Instruction { mnemonic: Mnemonic::LD, bytes: 2, cycles: 3 }),
        ),
{
    let hl = cpu.registers.hl;
    mem.write(hl as usize, n8);
    cpu.registers.pc = cpu.registers.pc.wrapping_add(2);
    Ok(Instruction { mnemonic: Mnemonic::LD, bytes: 2, cycles: 3 })
}

/// LD r8,[HL]: copy the byte pointed to by HL into register r8.
pub fn ld_hl_r8(r8: R8, cpu: &mut Cpu, mem: &mut Memory) -> (r: InstructionResult<Instruction>)
    requires
        old(cpu).registers.wf(),
        old(mem).wf(),
    ensures
        final(cpu).registers.wf(),
        *final(mem) == *old(mem),
        same_int_state(*old(cpu), *final(cpu)),
        final(cpu).registers == with_pc(
            set_r8_spec(
                old(cpu).registers,
                r8,
                read_spec(*old(mem), old(cpu).registers.hl as int),
            ),
            old(cpu).registers.pc.wrapping_add(1),
        ),
        r == Ok::<Instruction, crate::errors::DecodeError>(
            (Instruction { mnemonic: Mnemonic::LD, bytes: 1, cycles: 2 }),
        ),
{
    let hl = cpu.registers.hl;
    let v = mem.read(hl as usize);
    cpu.registers.set_r8(r8, v);
    cpu.registers.pc = cpu.registers.pc.wrapping_add(1);
    Ok(Instruction { mnemonic: Mnemonic::LD, bytes: 1, cycles: 2 })
}

/// LD [r16],A: copy the accumulator into the byte pointed to by r16.
pub fn ld_a_immed_r16(r16: R16, cpu: &mut Cpu, mem: &mut Memory) -> (r: InstructionResult<
    Instruction,
>)
    requires
        old(cpu).registers.wf(),
        old(mem).wf(),
    ensures
        final(cpu).registers.wf(),
        final(mem).wf(),
        same_int_state(*old(cpu), *final(cpu)),
        write_rel(
            *old(mem),
            *final(mem),
            r16_of(old(cpu).registers, r16) as int,
            old(cpu).registers.a,
        ),
        final(cpu).registers == with_pc(
            old(cpu).registers,
            old(cpu).registers.pc.wrapping_add(1),
        ),
        r == Ok::<Instruction, crate::errors::DecodeError>(
            (Instruction { mnemonic: Mnemonic::LD, bytes: 1, cycles: 2 }),
        ),
{
    let a = cpu.registers.a;
    let addr = cpu.registers.get_r16(r16);
    mem.write(addr as usize, a);
    cpu.registers.pc = cpu.registers.pc.wrapping_add(1);
    Ok(Instruction { mnemonic: Mnemonic::LD, bytes: 1, cycles: 2 })
}

/// LD A,[n16]: copy the byte at address n16 into the accumulator.
pub fn ld_immed_n16_a(n16: u16, cpu: &mut Cpu, mem: &mut Memory) -> (r: InstructionResult<
    Instruction,
>)
    requires
        old(cpu).registers.wf(),
        old(mem).wf(),
    ensures
        final(cpu).registers.wf(),
        *final(mem) == *old(mem),
        same_int_state(*old(cpu), *final(cpu)),
        final(cpu).registers == with_pc(
            set_r8_spec(old(cpu).registers, R8::A, read_spec(*old(mem), n16 as int)),
            old(cpu).registers.pc.wrapping_add(3),
        ),
        r == Ok::<Instruction, crate::errors::DecodeError>(
            (Instruction { mnemonic: Mnemonic::LD, bytes: 3, cycles: 4 }),
        ),
{
    let v = mem.read(n16 as usize);
    cpu.registers.set_r8(R8::A, v);
    cpu.registers.pc = cpu.registers.pc.wrapping_add(3);
    Ok(Instruction { mnemonic: Mnemonic::LD, bytes: 3, cycles: 4 })
}

/// LD [n16],A: copy the accumulator into the byte at address n16.
pub fn ld_a_immed_n16(n16: u16, cpu: &mut Cpu, mem: &mut Memory) -> (r: InstructionResult<
    Instruction,
>)
    requires
        old(cpu).registers.wf(),
        old(mem).wf(),
    ensures
        final(cpu).registers.wf(),
        final(mem).wf(),
        same_int_state(*old(cpu), *final(cpu)),
        write_rel(*old(mem), *final(mem), n16 as int, old(cpu).registers.a),
        final(cpu).registers == with_pc(
            old(cpu).registers,
            old(cpu).registers.pc.wrapping_add(3),
        ),
        r == Ok::<Instruction, crate::errors::DecodeError>(
            (Instruction { mnemonic: Mnemonic::LD, bytes: 3, cycles: 4 }),
        ),
{
    let a = cpu.registers.a;
    mem.write(n16 as usize, a);
    cpu.registers.pc = cpu.registers.pc.wrapping_add(3);
    Ok(Instruction { mnemonic: Mnemonic::LD, bytes: 3, cycles: 4 })
}

/// LDH A,[n16]: copy the byte at address n16 into the accumulator, provided
/// the address lies in 0xFF00-0xFFFF.
pub fn ldh_a_immed_n16(n16: u16, cpu: &mut Cpu, mem: &mut Memory) -> (r: InstructionResult<
    Instruction,
>)
    requires
        old(cpu).registers.wf(),
        old(mem).wf(),
    ensures
        final(cpu).registers.wf(),
        *final(mem) == *old(mem),
        same_int_state(*old(cpu), *final(cpu)),
        n16 >= 0xff00 ==> final(cpu).registers == with_pc(
            set_r8_spec(old(cpu).registers, R8::A, read_spec(*old(mem), n16 as int)),
            old(cpu).registers.pc.wrapping_add(2),
        ),
        n16 < 0xff00 ==> final(cpu).registers == with_pc(
            old(cpu).registers,
            old(cpu).registers.pc.wrapping_add(2),
        ),
        r == Ok::<Instruction, crate::errors::DecodeError>(
            (Instruction { mnemonic: Mnemonic::LDH, bytes: 2, cycles: 3 }),
        ),
{
    if n16 >= 0xff00 {
        let v = mem.read(n16 as usize);
        cpu.registers.set_r8(R8::A, v);
    }
    cpu.registers.pc = cpu.registers.pc.wrapping_add(2);
    Ok(Instruction { mnemonic: Mnemonic::LDH, bytes: 2, cycles: 3 })
}

/// LDH [n16],A: copy the accumulator into the byte at address n16, provided
/// the address lies in 0xFF00-0xFFFF.
pub fn ldh_immed_n16_a(n16: u16, cpu: &mut Cpu, mem: &mut Memory) -> (r: InstructionResult<
    Instruction,
>)
    requires
        old(cpu).registers.wf(),
        old(mem).wf(),
    ensures
        final(cpu).registers.wf(),
        final(mem).wf(),
        same_int_state(*old(cpu), *final(cpu)),
        n16 >= 0xff00 ==> write_rel(*old(mem), *final(mem), n16 as int, old(cpu).registers.a),
        n16 < 0xff00 ==> *final(mem) == *old(mem),
        final(cpu).registers == with_pc(
            old(cpu).registers,
            old(cpu).registers.pc.wrapping_add(2),
        ),
        r == Ok::<Instruction, crate::errors::DecodeError>(
            (Instruction { mnemonic: Mnemonic::LDH, bytes: 2, cycles: 3 }),
        ),
{
    if n16 >= 0xff00 {
        let a = cpu.registers.a;
        mem.write(n16 as usize, a);
    }
    cpu.registers.pc = cpu.registers.pc.wrapping_add(2);
    Ok(Instruction { mnemonic: Mnemonic::LDH, bytes: 2, cycles: 3 })
}

/// LDH A,[C]: copy the byte at address 0xFF00+C into the accumulator.
pub fn ldh_a_c(cpu: &mut Cpu, mem: &mut Memory) -> (r: InstructionResult<Instruction>)
    requires
        old(cpu).registers.wf(),
        old(mem).wf(),
    ensures
        final(cpu).registers.wf(),
        *final(mem) == *old(mem),
        same_int_state(*old(cpu), *final(cpu)),
        final(cpu).registers == with_pc(
            set_r8_spec(
                old(cpu).registers,
                R8::A,
                read_spec(*old(mem), 0xff00 + old(cpu).registers.c),
            ),
            old(cpu).registers.pc.wrapping_add(1),
        ),
        r == Ok::<Instruction, crate::errors::DecodeError>(
            (Instruction { mnemonic: Mnemonic::LDH, bytes: 1, cycles: 2 }),
        ),
{
    let c = cpu.registers.c;
    let v = mem.read(0xff00 + c as usize);
    cpu.registers.set_r8(R8::A, v);
    cpu.registers.pc = cpu.registers.pc.wrapping_add(1);
    Ok(Instruction { mnemonic: Mnemonic::LDH, bytes: 1, cycles: 2 })
}

/// LDH [C],A: copy the accumulator into the byte at address 0xFF00+C.
pub fn ldh_c_a(cpu: &mut Cpu, mem: &mut Memory) -> (r: InstructionResult<Instruction>)
    requires
        old(cpu).registers.wf(),
        old(mem).wf(),
    ensures
        final(cpu).registers.wf(),
        final(mem).wf(),
        same_int_state(*old(cpu), *final(cpu)),
        write_rel(
            *old(mem),
            *final(mem),
            0xff00 + old(cpu).registers.c,
            old(cpu).registers.a,
        ),
        final(cpu).registers == with_pc(
            old(cpu).registers,
            old(cpu).registers.pc.wrapping_add(1),
        ),
        r == Ok::<Instruction, crate::errors::DecodeError>(
            (Instruction { mnemonic: Mnemonic::LDH, bytes: 1, cycles: 2 }),
        ),
{
    let a = cpu.registers.a;
    let c = cpu.registers.c;
    mem.write(0xff00 + c as usize, a);
    cpu.registers.pc = cpu.registers.pc.wrapping_add(1);
    Ok(Instruction { mnemonic: Mnemonic::LDH, bytes: 1, cycles: 2 })
}

/// LD A,[r16]: copy the byte pointed to by r16 into the accumulator.
pub fn ld_immed_r16_a(r16: R16, cpu: &mut Cpu, mem: &mut Memory) -> (r: InstructionResult<
    Instruction,
>)
    requires
        old(cpu).registers.wf(),
        old(mem).wf(),
    ensures
        final(cpu).registers.wf(),
        *final(mem) == *old(mem),
        same_int_state(*old(cpu), *final(cpu)),
        final(cpu).registers == with_pc(
            set_r8_spec(
                old(cpu).registers,
                R8::A,
                read_spec(*old(mem), r16_of(old(cpu).registers, r16) as int),
            ),
            old(cpu).registers.pc.wrapping_add(1),
        ),
        r == Ok::<Instruction, crate::errors::DecodeError>(
            (Instruction { mnemonic: Mnemonic::LD, bytes: 1, cycles: 2 }),
        ),
{
    let addr = cpu.registers.get_r16(r16);
    let v = mem.read(addr as usize);
    cpu.registers.set_r8(R8::A, v);
    cpu.registers.pc = cpu.registers.pc.wrapping_add(1);
    Ok(Instruction { mnemonic: Mnemonic::LD, bytes: 1, cycles: 2 })
}

/// LD [HLI],A: copy the accumulator into the byte pointed to by HL, then
/// increment HL.
pub fn ld_a_hli(cpu: &mut Cpu, mem: &mut Memory) -> (r: InstructionResult<Instruction>)
    requires
        old(cpu).registers.wf(),
        old(mem).wf(),
    ensures
        final(cpu).registers.wf(),
        final(mem).wf(),
        same_int_state(*old(cpu), *final(cpu)),
        write_rel(*old(mem), *final(mem), old(cpu).registers.hl as int, old(cpu).registers.a),
        final(cpu).registers == with_pc(
            set_r16_spec(
                old(cpu).registers,
                R16::HL,
                old(cpu).registers.hl.wrapping_add(1),
            ),
            old(cpu).registers.pc.wrapping_add(1),
        ),
        r == Ok::<Instruction, crate::errors::DecodeError>(
            (Instruction { mnemonic: Mnemonic::LD, bytes: 1, cycles: 2 }),
        ),
{
    let hl = cpu.registers.hl;
    let a = cpu.registers.a;
    mem.write(hl as usize, a);
    cpu.registers.set_r16(R16::HL, hl.wrapping_add(1));
    cpu.registers.pc = cpu.registers.pc.wrapping_add(1);
    Ok(Instruction { mnemonic: Mnemonic::LD, bytes: 1, cycles: 2 })
}

/// LD [HLD],A: copy the accumulator into the byte pointed to by HL, then
/// decrement HL.
pub fn ld_a_hld(cpu: &mut Cpu, mem: &mut Memory) -> (r: InstructionResult<Instruction>)
    requires
        old(cpu).registers.wf(),
        old(mem).wf(),
    ensures
        final(cpu).registers.wf(),
        final(mem).wf(),
        same_int_state(*old(cpu), *final(cpu)),
        write_rel(*old(mem), *final(mem), old(cpu).registers.hl as int, old(cpu).registers.a),
        final(cpu).registers == with_pc(
            set_r16_spec(
                old(cpu).registers,
                R16::HL,
                old(cpu).registers.hl.wrapping_sub(1),
            ),
            old(cpu).registers.pc.wrapping_add(1),
        ),
        r == Ok::<Instruction, crate::errors::DecodeError>(
            (Instruction { mnemonic: Mnemonic::LD, bytes: 1, cycles: 2 }),
        ),
{
    let hl = cpu.registers.hl;
    let a = cpu.registers.a;
    mem.write(hl as usize, a);
    cpu.registers.set_r16(R16::HL, hl.wrapping_sub(1));
    cpu.registers.pc = cpu.registers.pc.wrapping_add(1);
    Ok(Instruction { mnemonic: Mnemonic::LD, bytes: 1, cycles: 2 })
}

/// LD A,[HLD]: copy the byte pointed to by HL into the accumulator, then
/// decrement HL.
pub fn ld_hld_a(cpu: &mut Cpu, mem: &mut Memory) -> (r: InstructionResult<Instruction>)
    requires
        old(cpu).registers.wf(),
        old(mem).wf(),
    ensures
        final(cpu).registers.wf(),
        *final(mem) == *old(mem),
        same_int_state(*old(cpu), *final(cpu)),
        final(cpu).registers == with_pc(
            set_r16_spec(
                set_r8_spec(
                    old(cpu).registers,
                    R8::A,
                    read_spec(*old(mem), old(cpu).registers.hl as int),
                ),
                R16::HL,
                old(cpu).registers.hl.wrapping_sub(1),
            ),
            old(cpu).registers.pc.wrapping_add(1),
        ),
        r == Ok::<Instruction, crate::errors::DecodeError>(
            (Instruction { mnemonic: Mnemonic::LD, bytes: 1, cycles: 2 }),
        ),
{
    let hl = cpu.registers.hl;
    let v = mem.read(hl as usize);
    cpu.registers.set_r8(R8::A, v);
    cpu.registers.set_r16(R16::HL, hl.wrapping_sub(1));
    cpu.registers.pc = cpu.registers.pc.wrapping_add(1);
    Ok(Instruction { mnemonic: Mnemonic::LD, bytes: 1, cycles: 2 })
}

/// LD A,[HLI]: copy the byte pointed to by HL into the accumulator, then
/// increment HL.
pub fn ld_hli_a(cpu: &mut Cpu, mem: &mut Memory) -> (r: InstructionResult<Instruction>)
    requires
        old(cpu).registers.wf(),
        old(mem).wf(),
    ensures
        final(cpu).registers.wf(),
        *final(mem) == *old(mem),
        same_int_state(*old(cpu), *final(cpu)),
        final(cpu).registers == with_pc(
            set_r16_spec(
                set_r8_spec(
                    old(cpu).registers,
                    R8::A,
                    read_spec(*old(mem), old(cpu).registers.hl as int),
                ),
                R16::HL,
                old(cpu).registers.hl.wrapping_add(1),
            ),
            old(cpu).registers.pc.wrapping_add(1),
        ),
        r == Ok::<Instruction, crate::errors::DecodeError>(
            (Instruction { mnemonic: Mnemonic::LD, bytes: 1, cycles: 2 }),
        ),
{
    let hl = cpu.registers.hl;
    let v = mem.read(hl as usize);
    cpu.registers.set_r8(R8::A, v);
    cpu.registers.set_r16(R16::HL, hl.wrapping_add(1));
    cpu.registers.pc = cpu.registers.pc.wrapping_add(1);
    Ok(Instruction { mnemonic: Mnemonic::LD, bytes: 1, cycles: 2 })
}

} // verus!
