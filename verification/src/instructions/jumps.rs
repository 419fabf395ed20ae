use vstd::prelude::*;

use crate::cpu::{cond_holds, same_int_state, set_r16_spec, with_pc, Condition, Cpu, R16};
use crate::memory::Memory;
use crate::Mnemonic;

use super::stack::{pop_stack, popped_value, push_stack, pushed};
use super::{Instruction, InstructionResult};

verus! {

/// CALL n16: push the address of the next instruction, then jump to n16.
pub fn call_n16(n16: u16, cpu: &mut Cpu, mem: &mut Memory) -> (r: InstructionResult<Instruction>)
    requires
        old(cpu).registers.wf(),
        old(mem).wf(),
    ensures
        final(cpu).registers.wf(),
        final(mem).wf(),
        same_int_state(*old(cpu), *final(cpu)),
        pushed(
            *old(mem),
            *final(mem),
            old(cpu).registers.sp,
            old(cpu).registers.pc.wrapping_add(3),
        ),
        final(cpu).registers == with_pc(
            set_r16_spec(old(cpu).registers, R16::SP, old(cpu).registers.sp.wrapping_sub(2)),
            n16,
        ),
        r == Ok::<Instruction, crate::errors::DecodeError>(
            (Instruction { mnemonic: Mnemonic::CALL, bytes: 3, cycles: 6 }),
        ),
{
    let ret = cpu.registers.pc.wrapping_add(3);
    push_stack(ret, cpu, mem);
    cpu.registers.pc = n16;
    Ok(Instruction { mnemonic: Mnemonic::CALL, bytes: 3, cycles: 6 })
}

/// CALL cc,n16: call address n16 when the condition holds, else fall
/// through; a taken call costs 6 M-cycles, an untaken one 3.
pub fn call_cc_n16(
    n16: u16,
    condition: Condition,
    cpu: &mut Cpu,
    mem: &mut Memory,
) -> (r: InstructionResult<Instruction>)
    requires
        old(cpu).registers.wf(),
        old(mem).wf(),
    ensures
        final(cpu).registers.wf(),
        final(mem).wf(),
        same_int_state(*old(cpu), *final(cpu)),
        cond_holds(old(cpu).registers.flags, condition) ==> {
            &&& pushed(
                *old(mem),
                *final(mem),
                old(cpu).registers.sp,
                old(cpu).registers.pc.wrapping_add(3),
            )
            &&& final(cpu).registers == with_pc(
                set_r16_spec(
                    old(cpu).registers,
                    R16::SP,
                    old(cpu).registers.sp.wrapping_sub(2),
                ),
                n16,
            )
            &&& r == Ok::<Instruction, crate::errors::DecodeError>(
                (Instruction { mnemonic: Mnemonic::CALL, bytes: 3, cycles: 6 }),
            )
        },
        !cond_holds(old(cpu).registers.flags, condition) ==> {
            &&& *final(mem) == *old(mem)
            &&& final(cpu).registers == with_pc(
                old(cpu).registers,
                old(cpu).registers.pc.wrapping_add(3),
            )
            &&& r == Ok::<Instruction, crate::errors::DecodeError>(
                (Instruction { mnemonic: Mnemonic::CALL, bytes: 3, cycles: 3 }),
            )
        },
{
    if cpu.cc(condition) {
        let ret = cpu.registers.pc.wrapping_add(3);
        push_stack(ret, cpu, mem);
        cpu.registers.pc = n16;
        return Ok(Instruction { mnemonic: Mnemonic::CALL, bytes: 3, cycles: 6 });
    }
    cpu.registers.pc = cpu.registers.pc.wrapping_add(3);
    Ok(Instruction { mnemonic: Mnemonic::CALL, bytes: 3, cycles: 3 })
}

/// JP HL: copy HL into the program counter.
pub fn jp_hl(cpu: &mut Cpu) -> (r: InstructionResult<Instruction>)
    requires
        old(cpu).registers.wf(),
    ensures
        final(cpu).registers.wf(),
        same_int_state(*old(cpu), *final(cpu)),
        final(cpu).registers == with_pc(old(cpu).registers, old(cpu).registers.hl),
        r == Ok::<Instruction, crate::errors::DecodeError>(
            (Instruction { mnemonic: Mnemonic::JP, bytes: 1, cycles: 1 }),
        ),
{
    cpu.registers.pc = cpu.registers.hl;
    Ok(Instruction { mnemonic: Mnemonic::JP, bytes: 1, cycles: 1 })
}

/// JP n16: copy n16 into the program counter.
pub fn jp_n16(n16: u16, cpu: &mut Cpu) -> (r: InstructionResult<Instruction>)
    requires
        old(cpu).registers.wf(),
    ensures
        final(cpu).registers.wf(),
        same_int_state(*old(cpu), *final(cpu)),
        final(cpu).registers == with_pc(old(cpu).registers, n16),
        r == Ok::<Instruction, crate::errors::DecodeError>(
            (Instruction { mnemonic: Mnemonic::JP, bytes: 3, cycles: 4 }),
        ),
{
    cpu.registers.pc = n16;
    Ok(Instruction { mnemonic: Mnemonic::JP, bytes: 3, cycles: 4 })
}

/// JP cc,n16: jump to n16 when the condition holds, else fall through; a
/// taken jump costs 4 M-cycles, an untaken one 3.
pub fn jp_cc_n16(n16: u16, condition: Condition, cpu: &mut Cpu) -> (r: InstructionResult<
    Instruction,
>)
    requires
        old(cpu).registers.wf(),
    ensures
        final(cpu).registers.wf(),
        same_int_state(*old(cpu), *final(cpu)),
        cond_holds(old(cpu).registers.flags, condition) ==> final(cpu).registers == with_pc(
            old(cpu).registers,
            n16,
        ) && r == Ok::<Instruction, crate::errors::DecodeError>(
            (Instruction { mnemonic: Mnemonic::JP, bytes: 3, cycles: 4 }),
        ),
        !cond_holds(old(cpu).registers.flags, condition) ==> final(cpu).registers == with_pc(
            old(cpu).registers,
            old(cpu).registers.pc.wrapping_add(3),
        ) && r == Ok::<Instruction, crate::errors::DecodeError>(
            (Instruction { mnemonic: Mnemonic::JP, bytes: 3, cycles: 3 }),
        ),
{
    if cpu.cc(condition) {
        cpu.registers.pc = n16;
        return Ok(Instruction { mnemonic: Mnemonic::JP, bytes: 3, cycles: 4 });
    }
    cpu.registers.pc = cpu.registers.pc.wrapping_add(3);
    Ok(Instruction { mnemonic: Mnemonic::JP, bytes: 3, cycles: 3 })
}

/// JR n16: add the signed offset e8 to the program counter.
pub fn jr_n16(e8: u8, cpu: &mut Cpu) -> (r: InstructionResult<Instruction>)
    requires
        old(cpu).registers.wf(),
    ensures
        final(cpu).registers.wf(),
        same_int_state(*old(cpu), *final(cpu)),
        final(cpu).registers == with_pc(
            old(cpu).registers,
            old(cpu).registers.pc.wrapping_add((e8 as i8) as u16),
        ),
        r == Ok::<Instruction, crate::errors::DecodeError>(
            (Instruction { mnemonic: Mnemonic::JR, bytes: 2, cycles: 3 }),
        ),
{
    let offset = e8 as i8;
    cpu.registers.pc = cpu.registers.pc.wrapping_add(offset as u16);
    Ok(Instruction { mnemonic: Mnemonic::JR, bytes: 2, cycles: 3 })
}

/// JR cc,n16: add the signed offset e8 to the program counter when the
/// condition holds, else fall through; taken costs 3 M-cycles, untaken 2.
pub fn jr_cc_n16(e8: u8, condition: Condition, cpu: &mut Cpu) -> (r: InstructionResult<
    Instruction,
>)
    requires
        old(cpu).registers.wf(),
    ensures
        final(cpu).registers.wf(),
        same_int_state(*old(cpu), *final(cpu)),
        cond_holds(old(cpu).registers.flags, condition) ==> final(cpu).registers == with_pc(
            old(cpu).registers,
            old(cpu).registers.pc.wrapping_add((e8 as i8) as u16),
        ) && r == Ok::<Instruction, crate::errors::DecodeError>(
            (Instruction { mnemonic: Mnemonic::JR, bytes: 2, cycles: 3 }),
        ),
        !cond_holds(old(cpu).registers.flags, condition) ==> final(cpu).registers == with_pc(
            old(cpu).registers,
            old(cpu).registers.pc.wrapping_add(2),
        ) && r == Ok::<Instruction, crate::errors::DecodeError>(
            (Instruction { mnemonic: Mnemonic::JR, bytes: 2, cycles: 2 }),
        ),
{
    if cpu.cc(condition) {
        let offset = e8 as i8;
        cpu.registers.pc = cpu.registers.pc.wrapping_add(offset as u16);
        return Ok(Instruction { mnemonic: Mnemonic::JR, bytes: 2, cycles: 3 });
    }
    cpu.registers.pc = cpu.registers.pc.wrapping_add(2);
    Ok(Instruction { mnemonic: Mnemonic::JR, bytes: 2, cycles: 2 })
}

/// RET cc: pop the stack into the program counter when the condition holds,
/// else fall through; taken costs 5 M-cycles, untaken 2.
pub fn ret_cc(condition: Condition, cpu: &mut Cpu, mem: &mut Memory) -> (r: InstructionResult<
    Instruction,
>)
    requires
        old(cpu).registers.wf(),
        old(mem).wf(),
    ensures
        final(cpu).registers.wf(),
        *final(mem) == *old(mem),
        same_int_state(*old(cpu), *final(cpu)),
        cond_holds(old(cpu).registers.flags, condition) ==> final(cpu).registers == set_r16_spec(
            set_r16_spec(
                old(cpu).registers,
                R16::SP,
                old(cpu).registers.sp.wrapping_add(2),
            ),
            R16::PC,
            popped_value(*old(mem), old(cpu).registers.sp),
        ) && r == Ok::<Instruction, crate::errors::DecodeError>(
            (Instruction { mnemonic: Mnemonic::RET, bytes: 1, cycles: 5 }),
        ),
        !cond_holds(old(cpu).registers.flags, condition) ==> final(cpu).registers == with_pc(
            old(cpu).registers,
            old(cpu).registers.pc.wrapping_add(1),
        ) && r == Ok::<Instruction, crate::errors::DecodeError>(
            (Instruction { mnemonic: Mnemonic::RET, bytes: 1, cycles: 2 }),
        ),
{
    if cpu.cc(condition) {
        pop_stack(R16::PC, cpu, mem);
        return Ok(Instruction { mnemonic: Mnemonic::RET, bytes: 1, cycles: 5 });
    }
    cpu.registers.pc = cpu.registers.pc.wrapping_add(1);
    Ok(Instruction { mnemonic: Mnemonic::RET, bytes: 1, cycles: 2 })
}

/// RET: pop the stack into the program counter.
pub fn ret(cpu: &mut Cpu, mem: &mut Memory) -> (r: InstructionResult<Instruction>)
    requires
        old(cpu).registers.wf(),
        old(mem).wf(),
    ensures
        final(cpu).registers.wf(),
        *final(mem) == *old(mem),
        same_int_state(*old(cpu), *final(cpu)),
        final(cpu).registers == set_r16_spec(
            set_r16_spec(
                old(cpu).registers,
                R16::SP,
                old(cpu).registers.sp.wrapping_add(2),
            ),
            R16::PC,
            popped_value(*old(mem), old(cpu).registers.sp),
        ),
        r == Ok::<Instruction, crate::errors::DecodeError>(
            (Instruction { mnemonic: Mnemonic::RET, bytes: 1, cycles: 4 }),
        ),
{
    pop_stack(R16::PC, cpu, mem);
    Ok(Instruction { mnemonic: Mnemonic::RET, bytes: 1, cycles: 4 })
}

/// RETI: pop the stack into the program counter and set the interrupt
/// master enable at once.
pub fn reti(cpu: &mut Cpu, mem: &mut Memory) -> (r: InstructionResult<Instruction>)
    requires
        old(cpu).registers.wf(),
        old(mem).wf(),
    ensures
        final(cpu).registers.wf(),
        *final(mem) == *old(mem),
        *final(cpu) == (Cpu {
            ime: true,
            registers: set_r16_spec(
                set_r16_spec(
                    old(cpu).registers,
                    R16::SP,
                    old(cpu).registers.sp.wrapping_add(2),
                ),
                R16::PC,
                popped_value(*old(mem), old(cpu).registers.sp),
            ),
            ..*old(cpu)
        }),
        r == Ok::<Instruction, crate::errors::DecodeError>(
            (Instruction { mnemonic: Mnemonic::RETI, bytes: 1, cycles: 4 }),
        ),
{
    pop_stack(R16::PC, cpu, mem);
    cpu.ime = true;
    Ok(Instruction { mnemonic: Mnemonic::RETI, bytes: 1, cycles: 4 })
}

/// RST vec: push the address of the next instruction, then jump to the
/// fixed vector.
pub fn rst(vec: u16, cpu: &mut Cpu, mem: &mut Memory) -> (r: InstructionResult<Instruction>)
    requires
        old(cpu).registers.wf(),
        old(mem).wf(),
    ensures
        final(cpu).registers.wf(),
        final(mem).wf(),
        same_int_state(*old(cpu), *final(cpu)),
        pushed(
            *old(mem),
            *final(mem),
            old(cpu).registers.sp,
            old(cpu).registers.pc.wrapping_add(1),
        ),
        final(cpu).registers == with_pc(
            set_r16_spec(old(cpu).registers, R16::SP, old(cpu).registers.sp.wrapping_sub(2)),
            vec,
        ),
        r == Ok::<Instruction, crate::errors::DecodeError>(
            (Instruction { mnemonic: Mnemonic::RST, bytes: 1, cycles: 4 }),
        ),
{
    let ret = cpu.registers.pc.wrapping_add(1);
    push_stack(ret, cpu, mem);
    cpu.registers.pc = vec;
    Ok(Instruction { mnemonic: Mnemonic::RST, bytes: 1, cycles: 4 })
}

} // verus!
