use vstd::prelude::*;

use crate::cpu::{
    r16_of, same_int_state, set_r16_spec, with_flags, with_pc, Cpu, Flags, R16,
};
use crate::memory::{plain_ram, read_spec, write_rel, Memory};
use crate::Mnemonic;

use super::{add16_flags, add16_sum, add16_with_flags, Instruction, InstructionResult};

verus! {

/// A 16-bit value was pushed: its high byte went through the bus at sp-1,
/// then its low byte at sp-2.
pub open spec fn pushed(a: Memory, b: Memory, sp: u16, value: u16) -> bool {
    exists|mid: Memory|
        {
            &&& #[trigger] write_rel(a, mid, sp.wrapping_sub(1) as int, (value / 256) as u8)
            &&& write_rel(mid, b, sp.wrapping_sub(2) as int, (value % 256) as u8)
        }
}

/// The 16-bit value a pop at `sp` reads: the low byte at sp, the high byte
/// at sp+1.
pub open spec fn popped_value(m: Memory, sp: u16) -> u16 {
    (read_spec(m, sp.wrapping_add(1) as int) * 256 + read_spec(m, sp as int)) as u16
}

/// SP was stored at an address: its low byte went through the bus there,
/// then its high byte one above.
pub open spec fn sp_stored(a: Memory, b: Memory, addr: u16, sp: u16) -> bool {
    exists|mid: Memory|
        {
            &&& #[trigger] write_rel(a, mid, addr as int, (sp % 256) as u8)
            &&& write_rel(mid, b, addr.wrapping_add(1) as int, (sp / 256) as u8)
        }
}

/// Pushing a 16-bit value and popping again round-trips: when both stack
/// cells lie in plain RAM and no OAM DMA is running, the popped value is
/// the pushed one, and the stack pointer that dropped by two is restored by
/// the rise of two.
pub proof fn lemma_push_pop_roundtrip(m0: Memory, m1: Memory, sp: u16, n16: u16)
    requires
        m0.wf(),
        !m0.dma_active,
        plain_ram(sp.wrapping_sub(1) as int),
        plain_ram(sp.wrapping_sub(2) as int),
        pushed(m0, m1, sp, n16),
    ensures
        popped_value(m1, sp.wrapping_sub(2)) == n16,
        sp.wrapping_sub(2).wrapping_add(2) == sp,
        m1.cartridge == m0.cartridge,
{
    let s1 = sp.wrapping_sub(1) as int;
    let s2 = sp.wrapping_sub(2) as int;
    let mid = choose|mid: Memory|
        {
            &&& #[trigger] write_rel(m0, mid, sp.wrapping_sub(1) as int, (n16 / 256) as u8)
            &&& write_rel(mid, m1, sp.wrapping_sub(2) as int, (n16 % 256) as u8)
        };
    assert(mid.block@ == m0.block@.update(s1, (n16 / 256) as u8));
    assert(m1.block@ == mid.block@.update(s2, (n16 % 256) as u8));
    assert(s1 != s2);
    assert(sp.wrapping_sub(2).wrapping_add(1) == sp.wrapping_sub(1));
    assert(read_spec(m1, s2) == (n16 % 256) as u8);
    assert(read_spec(m1, s1) == (n16 / 256) as u8);
    assert((n16 / 256) * 256 + n16 % 256 == n16);
}

/// Push a 16-bit value onto the stack, which grows downward: the high byte
/// lands at sp-1, the low byte at sp-2, and SP drops by two.
pub fn push_stack(n16: u16, cpu: &mut Cpu, mem: &mut Memory)
    requires
        old(cpu).registers.wf(),
        old(mem).wf(),
    ensures
        final(cpu).registers.wf(),
        final(mem).wf(),
        same_int_state(*old(cpu), *final(cpu)),
        pushed(*old(mem), *final(mem), old(cpu).registers.sp, n16),
        final(cpu).registers == set_r16_spec(
            old(cpu).registers,
            R16::SP,
            old(cpu).registers.sp.wrapping_sub(2),
        ),
{
    let sp = cpu.registers.sp;
    let high = (n16 / 256) as u8;
    let low = (n16 % 256) as u8;
    let sp1 = sp.wrapping_sub(1);
    cpu.registers.set_r16(R16::SP, sp1);
    mem.write(sp1 as usize, high);
    let ghost m1 = *mem;
    let sp2 = sp1.wrapping_sub(1);
    cpu.registers.set_r16(R16::SP, sp2);
    mem.write(sp2 as usize, low);
    proof {
        assert(sp2 == sp.wrapping_sub(2));
        assert(write_rel(*old(mem), m1, sp.wrapping_sub(1) as int, (n16 / 256) as u8));
        assert(write_rel(m1, *mem, sp.wrapping_sub(2) as int, (n16 % 256) as u8));
    }
}

/// Pop a 16-bit value from the stack into a register: the low byte comes
/// from sp, the high byte from sp+1, and SP rises by two.
pub fn pop_stack(r16: R16, cpu: &mut Cpu, mem: &mut Memory)
    requires
        old(cpu).registers.wf(),
        old(mem).wf(),
    ensures
        final(cpu).registers.wf(),
        *final(mem) == *old(mem),
        same_int_state(*old(cpu), *final(cpu)),
        final(cpu).registers == set_r16_spec(
            set_r16_spec(
                old(cpu).registers,
                R16::SP,
                old(cpu).registers.sp.wrapping_add(2),
            ),
            r16,
            popped_value(*old(mem), old(cpu).registers.sp),
        ),
{
    let sp = cpu.registers.sp;
    let low = mem.read(sp as usize);
    let sp1 = sp.wrapping_add(1);
    cpu.registers.set_r16(R16::SP, sp1);
    let high = mem.read(sp1 as usize);
    cpu.registers.set_r16(R16::SP, sp1.wrapping_add(1));
    let n16: u16 = (high as u16) * 256 + (low as u16);
    cpu.registers.set_r16(r16, n16);
}

/// ADD HL,SP: add SP to HL; Z is kept, N clears, H and C come from the
/// bit-11 and bit-15 carries.
pub fn add_hl_sp(cpu: &mut Cpu) -> (r: InstructionResult<Instruction>)
    requires
        old(cpu).registers.wf(),
    ensures
        final(cpu).registers.wf(),
        same_int_state(*old(cpu), *final(cpu)),
        ({
            let sp = old(cpu).registers.sp;
            let hl = old(cpu).registers.hl;
            final(cpu).registers == with_pc(
                with_flags(
                    set_r16_spec(old(cpu).registers, R16::HL, add16_sum(hl, sp, 0)),
                    (Flags { zero: old(cpu).registers.flags.zero, ..add16_flags(hl, sp, 0) }),
                ),
                old(cpu).registers.pc.wrapping_add(1),
            )
        }),
        r == Ok::<Instruction, crate::errors::DecodeError>(
            (Instruction { mnemonic: Mnemonic::ADD, bytes: 1, cycles: 2 }),
        ),
{
    let sp = cpu.registers.sp;
    let hl = cpu.registers.hl;
    let (sum, f0) = add16_with_flags(hl, sp, 0);
    let f = Flags { zero: cpu.registers.flags.zero, ..f0 };
    cpu.registers.set_r16(R16::HL, sum);
    cpu.registers.set_flags(f);
    cpu.registers.pc = cpu.registers.pc.wrapping_add(1);
    Ok(Instruction { mnemonic: Mnemonic::ADD, bytes: 1, cycles: 2 })
}

/// The flags of ADD SP,e8 and LD HL,SP+e8: Z and N clear, H and C from the
/// unsigned add of SP's low byte and the offset byte.
pub open spec fn sp_offset_flags(sp: u16, e8: u8) -> Flags {
    Flags {
        zero: false,
        subtraction: false,
        half_carry: sp % 16 + e8 % 16 > 0x0f,
        carry: sp % 256 + e8 > 0xff,
    }
}

/// ADD SP,e8: add the signed value e8 to SP; the flags come from the
/// unsigned add of SP's low byte.
pub fn add_sp_e8(e8: u8, cpu: &mut Cpu) -> (r: InstructionResult<Instruction>)
    requires
        old(cpu).registers.wf(),
    ensures
        final(cpu).registers.wf(),
        same_int_state(*old(cpu), *final(cpu)),
        final(cpu).registers == with_pc(
            with_flags(
                set_r16_spec(
                    old(cpu).registers,
                    R16::SP,
                    old(cpu).registers.sp.wrapping_add((e8 as i8) as u16),
                ),
                sp_offset_flags(old(cpu).registers.sp, e8),
            ),
            old(cpu).registers.pc.wrapping_add(2),
        ),
        r == Ok::<Instruction, crate::errors::DecodeError>(
            (Instruction { mnemonic: Mnemonic::ADD, bytes: 2, cycles: 4 }),
        ),
{
    let sp = cpu.registers.sp;
    let offset = e8 as i8;
    let nsp = sp.wrapping_add(offset as u16);
    let f = Flags {
        zero: false,
        subtraction: false,
        half_carry: sp % 16 + (e8 % 16) as u16 > 0x0f,
        carry: sp % 256 + e8 as u16 > 0xff,
    };
    cpu.registers.set_r16(R16::SP, nsp);
    cpu.registers.set_flags(f);
    cpu.registers.pc = cpu.registers.pc.wrapping_add(2);
    Ok(Instruction { mnemonic: Mnemonic::ADD, bytes: 2, cycles: 4 })
}

/// DEC SP: decrement the stack pointer; no flags change.
pub fn dec_sp(cpu: &mut Cpu) -> (r: InstructionResult<Instruction>)
    requires
        old(cpu).registers.wf(),
    ensures
        final(cpu).registers.wf(),
        same_int_state(*old(cpu), *final(cpu)),
        final(cpu).registers == with_pc(
            set_r16_spec(old(cpu).registers, R16::SP, old(cpu).registers.sp.wrapping_sub(1)),
            old(cpu).registers.pc.wrapping_add(1),
        ),
        r == Ok::<Instruction, crate::errors::DecodeError>(
            (Instruction { mnemonic: Mnemonic::DEC, bytes: 1, cycles: 2 }),
        ),
{
    let sp = cpu.registers.sp;
    cpu.registers.set_r16(R16::SP, sp.wrapping_sub(1));
    cpu.registers.pc = cpu.registers.pc.wrapping_add(1);
    Ok(Instruction { mnemonic: Mnemonic::DEC, bytes: 1, cycles: 2 })
}

/// INC SP: increment the stack pointer; no flags change.
pub fn inc_sp(cpu: &mut Cpu) -> (r: InstructionResult<Instruction>)
    requires
        old(cpu).registers.wf(),
    ensures
        final(cpu).registers.wf(),
        same_int_state(*old(cpu), *final(cpu)),
        final(cpu).registers == with_pc(
            set_r16_spec(old(cpu).registers, R16::SP, old(cpu).registers.sp.wrapping_add(1)),
            old(cpu).registers.pc.wrapping_add(1),
        ),
        r == Ok::<Instruction, crate::errors::DecodeError>(
            (Instruction { mnemonic: Mnemonic::INC, bytes: 1, cycles: 2 }),
        ),
{
    let sp = cpu.registers.sp;
    cpu.registers.set_r16(R16::SP, sp.wrapping_add(1));
    cpu.registers.pc = cpu.registers.pc.wrapping_add(1);
    Ok(Instruction { mnemonic: Mnemonic::INC, bytes: 1, cycles: 2 })
}

/// LD SP,n16: copy the value n16 into the stack pointer.
pub fn load_sp_n16(n16: u16, cpu: &mut Cpu) -> (r: InstructionResult<Instruction>)
    requires
        old(cpu).registers.wf(),
    ensures
        final(cpu).registers.wf(),
        same_int_state(*old(cpu), *final(cpu)),
        final(cpu).registers == with_pc(
            set_r16_spec(old(cpu).registers, R16::SP, n16),
            old(cpu).registers.pc.wrapping_add(3),
        ),
        r == Ok::<Instruction, crate::errors::DecodeError>(
            (Instruction { mnemonic: Mnemonic::LD, bytes: 3, cycles: 3 }),
        ),
{
    cpu.registers.set_r16(R16::SP, n16);
    cpu.registers.pc = cpu.registers.pc.wrapping_add(3);
    Ok(Instruction { mnemonic: Mnemonic::LD, bytes: 3, cycles: 3 })
}

/// LD [n16],SP: store SP's low byte at n16 and its high byte at n16+1.
pub fn load_a16_sp(n16: u16, cpu: &mut Cpu, mem: &mut Memory) -> (r: InstructionResult<
    Instruction,
>)
    requires
        old(cpu).registers.wf(),
        old(mem).wf(),
    ensures
        final(cpu).registers.wf(),
        final(mem).wf(),
        same_int_state(*old(cpu), *final(cpu)),
        sp_stored(*old(mem), *final(mem), n16, old(cpu).registers.sp),
        final(cpu).registers == with_pc(
            old(cpu).registers,
            old(cpu).registers.pc.wrapping_add(3),
        ),
        r == Ok::<Instruction, crate::errors::DecodeError>(
            (Instruction { mnemonic: Mnemonic::LD, bytes: 3, cycles: 5 }),
        ),
{
    let sp = cpu.registers.sp;
    mem.write(n16 as usize, (sp % 256) as u8);
    let ghost m1 = *mem;
    mem.write(n16.wrapping_add(1) as usize, (sp / 256) as u8);
    cpu.registers.pc = cpu.registers.pc.wrapping_add(3);
    proof {
        assert(write_rel(*old(mem), m1, n16 as int, (old(cpu).registers.sp % 256) as u8));
        assert(write_rel(
            m1,
            *mem,
            n16.wrapping_add(1) as int,
            (old(cpu).registers.sp / 256) as u8,
        ));
    }
    Ok(Instruction { mnemonic: Mnemonic::LD, bytes: 3, cycles: 5 })
}

/// LD HL,SP+e8: copy SP plus the signed value e8 into HL; the flags come
/// from the unsigned add of SP's low byte.
pub fn load_hl_sp_e8(e8: i8, cpu: &mut Cpu) -> (r: InstructionResult<Instruction>)
    requires
        old(cpu).registers.wf(),
    ensures
        final(cpu).registers.wf(),
        same_int_state(*old(cpu), *final(cpu)),
        final(cpu).registers == with_pc(
            with_flags(
                set_r16_spec(
                    old(cpu).registers,
                    R16::HL,
                    old(cpu).registers.sp.wrapping_add(e8 as u16),
                ),
                sp_offset_flags(old(cpu).registers.sp, e8 as u8),
            ),
            old(cpu).registers.pc.wrapping_add(2),
        ),
        r == Ok::<Instruction, crate::errors::DecodeError>(
            (Instruction { mnemonic: Mnemonic::LD, bytes: 2, cycles: 3 }),
        ),
{
    let sp = cpu.registers.sp;
    let eu = e8 as u8;
    let nhl = sp.wrapping_add(e8 as u16);
    let f = Flags {
        zero: false,
        subtraction: false,
        half_carry: sp % 16 + (eu % 16) as u16 > 0x0f,
        carry: sp % 256 + eu as u16 > 0xff,
    };
    cpu.registers.set_r16(R16::HL, nhl);
    cpu.registers.set_flags(f);
    cpu.registers.pc = cpu.registers.pc.wrapping_add(2);
    Ok(Instruction { mnemonic: Mnemonic::LD, bytes: 2, cycles: 3 })
}

/// LD SP,HL: copy HL into the stack pointer.
pub fn load_sp_hl(cpu: &mut Cpu) -> (r: InstructionResult<Instruction>)
    requires
        old(cpu).registers.wf(),
    ensures
        final(cpu).registers.wf(),
        same_int_state(*old(cpu), *final(cpu)),
        final(cpu).registers == with_pc(
            set_r16_spec(old(cpu).registers, R16::SP, old(cpu).registers.hl),
            old(cpu).registers.pc.wrapping_add(1),
        ),
        r == Ok::<Instruction, crate::errors::DecodeError>(
            (Instruction { mnemonic: Mnemonic::LD, bytes: 1, cycles: 2 }),
        ),
{
    let hl = cpu.registers.hl;
    cpu.registers.set_r16(R16::SP, hl);
    cpu.registers.pc = cpu.registers.pc.wrapping_add(1);
    Ok(Instruction { mnemonic: Mnemonic::LD, bytes: 1, cycles: 2 })
}

/// POP AF: pop the stack into AF; the flag byte's low nibble is dropped.
pub fn pop_af(cpu: &mut Cpu, mem: &mut Memory) -> (r: InstructionResult<Instruction>)
    requires
        old(cpu).registers.wf(),
        old(mem).wf(),
    ensures
        final(cpu).registers.wf(),
        *final(mem) == *old(mem),
        same_int_state(*old(cpu), *final(cpu)),
        ({
            let p = set_r16_spec(
                set_r16_spec(
                    old(cpu).registers,
                    R16::SP,
                    old(cpu).registers.sp.wrapping_add(2),
                ),
                R16::AF,
                popped_value(*old(mem), old(cpu).registers.sp),
            );
            final(cpu).registers == with_pc(p, p.pc.wrapping_add(1))
        }),
        r == Ok::<Instruction, crate::errors::DecodeError>(
            (Instruction { mnemonic: Mnemonic::POP, bytes: 1, cycles: 3 }),
        ),
{
    pop_stack(R16::AF, cpu, mem);
    cpu.registers.pc = cpu.registers.pc.wrapping_add(1);
    Ok(Instruction { mnemonic: Mnemonic::POP, bytes: 1, cycles: 3 })
}

/// POP r16: pop the stack into register r16.
pub fn pop_r16(r16: R16, cpu: &mut Cpu, mem: &mut Memory) -> (r: InstructionResult<Instruction>)
    requires
        old(cpu).registers.wf(),
        old(mem).wf(),
    ensures
        final(cpu).registers.wf(),
        *final(mem) == *old(mem),
        same_int_state(*old(cpu), *final(cpu)),
        ({
            let p = set_r16_spec(
                set_r16_spec(
                    old(cpu).registers,
                    R16::SP,
                    old(cpu).registers.sp.wrapping_add(2),
                ),
                r16,
                popped_value(*old(mem), old(cpu).registers.sp),
            );
            final(cpu).registers == with_pc(p, p.pc.wrapping_add(1))
        }),
        r == Ok::<Instruction, crate::errors::DecodeError>(
            (Instruction { mnemonic: Mnemonic::POP, bytes: 1, cycles: 3 }),
        ),
{
    pop_stack(r16, cpu, mem);
    cpu.registers.pc = cpu.registers.pc.wrapping_add(1);
    Ok(Instruction { mnemonic: Mnemonic::POP, bytes: 1, cycles: 3 })
}

/// PUSH AF: push AF onto the stack; in a well-formed register file its low
/// byte is the flag byte with a zero low nibble.
pub fn push_af(cpu: &mut Cpu, mem: &mut Memory) -> (r: InstructionResult<Instruction>)
    requires
        old(cpu).registers.wf(),
        old(mem).wf(),
    ensures
        final(cpu).registers.wf(),
        final(mem).wf(),
        same_int_state(*old(cpu), *final(cpu)),
        pushed(*old(mem), *final(mem), old(cpu).registers.sp, old(cpu).registers.af),
        final(cpu).registers == with_pc(
            set_r16_spec(old(cpu).registers, R16::SP, old(cpu).registers.sp.wrapping_sub(2)),
            old(cpu).registers.pc.wrapping_add(1),
        ),
        r == Ok::<Instruction, crate::errors::DecodeError>(
            (Instruction { mnemonic: Mnemonic::PUSH, bytes: 1, cycles: 4 }),
        ),
{
    let af = cpu.registers.af;
    push_stack(af, cpu, mem);
    cpu.registers.pc = cpu.registers.pc.wrapping_add(1);
    Ok(Instruction { mnemonic: Mnemonic::PUSH, bytes: 1, cycles: 4 })
}

/// PUSH r16: push register r16 onto the stack.
pub fn push_r16(r16: R16, cpu: &mut Cpu, mem: &mut Memory) -> (r: InstructionResult<Instruction>)
    requires
        old(cpu).registers.wf(),
        old(mem).wf(),
    ensures
        final(cpu).registers.wf(),
        final(mem).wf(),
        same_int_state(*old(cpu), *final(cpu)),
        pushed(
            *old(mem),
            *final(mem),
            old(cpu).registers.sp,
            r16_of(old(cpu).registers, r16),
        ),
        final(cpu).registers == with_pc(
            set_r16_spec(old(cpu).registers, R16::SP, old(cpu).registers.sp.wrapping_sub(2)),
            old(cpu).registers.pc.wrapping_add(1),
        ),
        r == Ok::<Instruction, crate::errors::DecodeError>(
            (Instruction { mnemonic: Mnemonic::PUSH, bytes: 1, cycles: 4 }),
        ),
{
    let v = cpu.registers.get_r16(r16);
    push_stack(v, cpu, mem);
    cpu.registers.pc = cpu.registers.pc.wrapping_add(1);
    Ok(Instruction { mnemonic: Mnemonic::PUSH, bytes: 1, cycles: 4 })
}

} // verus!
