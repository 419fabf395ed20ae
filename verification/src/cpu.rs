use vstd::prelude::*;

use crate::errors::CpuError;
use crate::errors::DecodeError;
use crate::instructions::arithmetic_16bit::{add_r16_hl, dec_r16, inc_r16};
use crate::instructions::arithmetic_8bit::{
    adc_a_immed_hl, adc_a_n8, adc_a_r8, add_a_immed_hl, add_a_n8, add_a_r8, cp_a_hl, cp_a_n8,
    cp_a_r8, dec_hl, dec_r8, inc_hl, inc_r8, sbc_a_immed_hl, sbc_a_n8, sbc_a_r8, sub_a_immed_hl,
    sub_a_n8, sub_a_r8,
};
use crate::instructions::bitflag::{
    bit_u3_hl, bit_u3_r8, res_u3_hl, res_u3_r8, set_u3_hl, set_u3_r8,
};
use crate::instructions::bitshift::{
    rl_hl, rl_r8, rla, rlc_hl, rlc_r8, rlca, rr_hl, rr_r8, rra, rrc_hl, rrc_r8, rrca, sla_hl,
    sla_r8, sra_hl, sra_r8, srl_hl, srl_r8, swap_hl, swap_r8,
};
use crate::instructions::bitwise::{
    and_a_immed_hl, and_a_n8, and_a_r8, cpl, or_a_hl, or_a_n8, or_a_r8, xor_a_immed_hl, xor_a_n8,
    xor_a_r8,
};
use crate::instructions::carry::{ccf, scf};
use crate::instructions::interrupts::{di, ei, halt};
use crate::instructions::jumps::{
    call_cc_n16, call_n16, jp_cc_n16, jp_hl, jp_n16, jr_cc_n16, jr_n16, ret, ret_cc, reti, rst,
};
use crate::instructions::load::{
    ld_a_hld, ld_a_hli, ld_a_immed_n16, ld_a_immed_r16, ld_hl_r8, ld_hld_a, ld_hli_a,
    ld_immed_n16_a, ld_immed_r16_a, ld_n8_hl, ld_r16_n16, ld_r8_hl, ld_r8_n8, ld_r8_r8, ldh_a_c,
    ldh_a_immed_n16, ldh_c_a, ldh_immed_n16_a,
};
use crate::instructions::misc::{daa, nop, stop};
use crate::instructions::stack::{
    add_hl_sp, add_sp_e8, dec_sp, inc_sp, load_a16_sp, load_hl_sp_e8, load_sp_hl, load_sp_n16,
    pop_af, pop_r16, push_af, push_r16,
};
use crate::instructions::bitflag::bit_flags_spec;
use crate::instructions::bitshift::{
    rl_val, rlc_val, rotate_a_flags_spec, rr_val, rrc_val, shift_flags_spec,
};
use crate::instructions::bitwise::{and_flags_spec, logic_flags_spec};
use crate::instructions::interrupts::{di_spec, ei_spec, halt_spec};
use crate::instructions::misc::{daa_a, daa_flags};
use crate::instructions::stack::{popped_value, pushed, sp_offset_flags, sp_stored};
use crate::instructions::{
    add16_flags, add16_sum, add8_flags, add8_sum, sub16_sum, sub8_flags, sub8_sum, Instruction,
};
use crate::memory::{read_spec, write_rel, Memory};
use crate::Mnemonic;

verus! {

/// Branch conditions tested by conditional jumps, calls and returns.
#[derive(Debug, Copy, Clone, PartialEq, Eq, Structural)]
pub enum Condition {
    NotZero,
    NotCarry,
    Zero,
    Carry,
}

/// 16-bit register names.
#[derive(Debug, Copy, Clone, PartialEq, Eq, Structural)]
pub enum R16 {
    AF,
    BC,
    DE,
    HL,
    SP,
    PC,
}

/// 8-bit register names.
#[derive(Debug, Copy, Clone, PartialEq, Eq, Structural)]
pub enum R8 {
    A,
    B,
    C,
    D,
    E,
    H,
    L,
}

/// Z = Zero, N = Subtraction, H = Half Carry, C = Carry.
#[derive(Debug, PartialEq, Eq, Structural, Copy, Clone)]
pub struct Flags {
    pub zero: bool,
    pub subtraction: bool,
    pub half_carry: bool,
    pub carry: bool,
}

/// The F register byte encoding a flag set: Z, N, H, C in bits 7..4,
/// bits 3..0 always zero.
pub open spec fn flags_bits(f: Flags) -> int {
    (if f.zero {
        0x80int
    } else {
        0
    }) + (if f.subtraction {
        0x40int
    } else {
        0
    }) + (if f.half_carry {
        0x20int
    } else {
        0
    }) + (if f.carry {
        0x10int
    } else {
        0
    })
}

/// The flag set encoded by an F register byte: bits 7..4 are Z, N, H, C.
pub open spec fn flags_of_byte(v: u8) -> Flags {
    Flags {
        zero: v / 128 % 2 == 1,
        subtraction: v / 64 % 2 == 1,
        half_carry: v / 32 % 2 == 1,
        carry: v / 16 % 2 == 1,
    }
}

impl Flags {
    /// Load the flag set from an F register byte; the low nibble is dropped.
    pub fn set(&mut self, value: u8)
        ensures
            *final(self) == flags_of_byte(value),
    {
        self.zero = (value / 128) % 2 == 1;
        self.subtraction = (value / 64) % 2 == 1;
        self.half_carry = (value / 32) % 2 == 1;
        self.carry = (value / 16) % 2 == 1;
    }

    /// Clear all four flags.
    pub fn clear(&mut self)
        ensures
            *final(self) == (Flags { zero: false, subtraction: false, half_carry: false, carry: false }),
    {
        self.zero = false;
        self.subtraction = false;
        self.half_carry = false;
        self.carry = false;
    }

    /// Encode the flag set as the F register byte.
    pub fn to_byte(&self) -> (r: u8)
        ensures
            r == flags_bits(*self),
    {
        let mut flags: u8 = 0;
        if self.zero {
            flags = flags + 0x80;
        }
        if self.subtraction {
            flags = flags + 0x40;
        }
        if self.half_carry {
            flags = flags + 0x20;
        }
        if self.carry {
            flags = flags + 0x10;
        }
        flags
    }
}

impl Default for Flags {
    /// The flag state after the boot ROM has run: Z, H and C set.
    fn default() -> (r: Self)
        ensures
            r == (Flags { zero: true, subtraction: false, half_carry: true, carry: true }),
    {
        Flags { zero: true, subtraction: false, half_carry: true, carry: true }
    }
}

/// Decoding a byte and encoding the flag set again keeps bits 7..4 and
/// clears the low nibble.
pub proof fn lemma_flags_byte_roundtrip(v: u8)
    ensures
        flags_bits(flags_of_byte(v)) == v / 16 * 16,
{
}

/// The CPU register file. The 16-bit pairs AF, BC, DE and HL are stored
/// beside their 8-bit halves; `wf` says the two views agree.
#[derive(Debug, Copy, Clone, PartialEq, Eq, Structural)]
pub struct Registers {
    pub a: u8,
    pub b: u8,
    pub c: u8,
    pub d: u8,
    pub e: u8,
    pub h: u8,
    pub l: u8,
    pub af: u16,
    pub bc: u16,
    pub de: u16,
    pub hl: u16,
    pub sp: u16,
    pub pc: u16,
    pub flags: Flags,
}

/// The value of one 8-bit register.
pub open spec fn r8_of(r: Registers, name: R8) -> u8 {
    match name {
        R8::A => r.a,
        R8::B => r.b,
        R8::C => r.c,
        R8::D => r.d,
        R8::E => r.e,
        R8::H => r.h,
        R8::L => r.l,
    }
}

/// The value of one 16-bit register.
pub open spec fn r16_of(r: Registers, name: R16) -> u16 {
    match name {
        R16::AF => r.af,
        R16::BC => r.bc,
        R16::DE => r.de,
        R16::HL => r.hl,
        R16::SP => r.sp,
        R16::PC => r.pc,
    }
}

/// The register file after writing one 8-bit register: the register and the
/// half of its 16-bit pair change together, everything else is untouched.
pub open spec fn set_r8_spec(r: Registers, name: R8, value: u8) -> Registers {
    match name {
        R8::A => Registers { a: value, af: (value * 256 + flags_bits(r.flags)) as u16, ..r },
        R8::B => Registers { b: value, bc: (value * 256 + r.c) as u16, ..r },
        R8::C => Registers { c: value, bc: (r.b * 256 + value) as u16, ..r },
        R8::D => Registers { d: value, de: (value * 256 + r.e) as u16, ..r },
        R8::E => Registers { e: value, de: (r.d * 256 + value) as u16, ..r },
        R8::H => Registers { h: value, hl: (value * 256 + r.l) as u16, ..r },
        R8::L => Registers { l: value, hl: (r.h * 256 + value) as u16, ..r },
    }
}

/// The register file after writing one 16-bit register: both 8-bit halves
/// follow, and a write to AF drops the low nibble of the flag byte.
pub open spec fn set_r16_spec(r: Registers, name: R16, value: u16) -> Registers {
    match name {
        R16::AF => Registers {
            a: (value / 256) as u8,
            flags: flags_of_byte((value % 256) as u8),
            af: (value / 16 * 16) as u16,
            ..r
        },
        R16::BC => Registers { b: (value / 256) as u8, c: (value % 256) as u8, bc: value, ..r },
        R16::DE => Registers { d: (value / 256) as u8, e: (value % 256) as u8, de: value, ..r },
        R16::HL => Registers { h: (value / 256) as u8, l: (value % 256) as u8, hl: value, ..r },
        R16::SP => Registers { sp: value, ..r },
        R16::PC => Registers { pc: value, ..r },
    }
}

/// The register file with a new flag set; AF follows.
pub open spec fn with_flags(r: Registers, f: Flags) -> Registers {
    Registers { flags: f, af: (r.a * 256 + flags_bits(f)) as u16, ..r }
}

/// The register file with a new program counter.
pub open spec fn with_pc(r: Registers, pc: u16) -> Registers {
    Registers { pc, ..r }
}

impl Registers {
    /// The two views of the register file agree: each 16-bit pair is its high
    /// byte times 256 plus its low byte, and AF's low byte encodes the flags.
    pub open spec fn wf(self) -> bool {
        &&& self.af == self.a * 256 + flags_bits(self.flags)
        &&& self.bc == self.b * 256 + self.c
        &&& self.de == self.d * 256 + self.e
        &&& self.hl == self.h * 256 + self.l
    }

    /// Read an 8-bit register.
    pub fn get_r8(&self, register: R8) -> (r: u8)
        ensures
            r == r8_of(*self, register),
    {
        match register {
            R8::A => self.a,
            R8::B => self.b,
            R8::C => self.c,
            R8::D => self.d,
            R8::E => self.e,
            R8::H => self.h,
            R8::L => self.l,
        }
    }

    /// Write an 8-bit register, keeping the 16-bit pair it belongs to in step.
    pub fn set_r8(&mut self, register: R8, value: u8)
        ensures
            *final(self) == set_r8_spec(*old(self), register, value),
            old(self).wf() ==> final(self).wf(),
    {
        match register {
            R8::A => {
                self.a = value;
                let fb = self.flags.to_byte();
                self.af = (value as u16) * 256 + (fb as u16);
            }
            R8::B => {
                self.b = value;
                self.bc = (value as u16) * 256 + (self.c as u16);
            }
            R8::C => {
                self.c = value;
                self.bc = (self.b as u16) * 256 + (value as u16);
            }
            R8::D => {
                self.d = value;
                self.de = (value as u16) * 256 + (self.e as u16);
            }
            R8::E => {
                self.e = value;
                self.de = (self.d as u16) * 256 + (value as u16);
            }
            R8::H => {
                self.h = value;
                self.hl = (value as u16) * 256 + (self.l as u16);
            }
            R8::L => {
                self.l = value;
                self.hl = (self.h as u16) * 256 + (value as u16);
            }
        }
    }

    /// Read a 16-bit register.
    pub fn get_r16(&self, register: R16) -> (r: u16)
        ensures
            r == r16_of(*self, register),
    {
        match register {
            R16::AF => self.af,
            R16::BC => self.bc,
            R16::DE => self.de,
            R16::HL => self.hl,
            R16::SP => self.sp,
            R16::PC => self.pc,
        }
    }

    /// Write a 16-bit register, keeping both 8-bit halves in step; a write to
    /// AF drops the low nibble of the flag byte, which always reads as zero.
    pub fn set_r16(&mut self, register: R16, value: u16)
        ensures
            *final(self) == set_r16_spec(*old(self), register, value),
            old(self).wf() ==> final(self).wf(),
    {
        let msb = (value / 256) as u8;
        let lsb = (value % 256) as u8;
        match register {
            R16::AF => {
                self.a = msb;
                self.flags.set(lsb);
                let fb = self.flags.to_byte();
                self.af = (msb as u16) * 256 + (fb as u16);
                proof {
                    lemma_flags_byte_roundtrip(lsb);
                    assert(value / 16 * 16 == (value / 256) * 256 + (value % 256) / 16 * 16)
                        by (nonlinear_arith);
                }
            }
            R16::BC => {
                self.b = msb;
                self.c = lsb;
                self.bc = value;
            }
            R16::DE => {
                self.d = msb;
                self.e = lsb;
                self.de = value;
            }
            R16::HL => {
                self.h = msb;
                self.l = lsb;
                self.hl = value;
            }
            R16::SP => {
                self.sp = value;
            }
            R16::PC => {
                self.pc = value;
            }
        }
    }

    /// Overwrite the flag set from an F register byte, keeping AF in step.
    pub fn set_flags_byte(&mut self, value: u8)
        ensures
            *final(self) == with_flags(*old(self), flags_of_byte(value)),
    {
        self.flags.set(value);
        let fb = self.flags.to_byte();
        self.af = (self.a as u16) * 256 + (fb as u16);
    }

    /// Overwrite the flag set, keeping AF in step.
    pub fn set_flags(&mut self, f: Flags)
        ensures
            *final(self) == with_flags(*old(self), f),
    {
        self.flags = f;
        let fb = self.flags.to_byte();
        self.af = (self.a as u16) * 256 + (fb as u16);
    }
}

impl Default for Registers {
    /// The register state after the boot ROM has run on the original machine.
    fn default() -> (r: Self)
        ensures
            r == boot_registers(),
            r.wf(),
    {
        Registers {
            a: 0x01,
            b: 0x00,
            c: 0x13,
            d: 0x00,
            e: 0xd8,
            h: 0x01,
            l: 0x4d,
            af: 0x01b0,
            bc: 0x0013,
            de: 0x00d8,
            hl: 0x014d,
            sp: 0xfffe,
            pc: 0x0100,
            flags: Flags { zero: true, subtraction: false, half_carry: true, carry: true },
        }
    }
}

/// The documented register state at the end of the power-up sequence.
pub open spec fn boot_registers() -> Registers {
    Registers {
        a: 0x01,
        b: 0x00,
        c: 0x13,
        d: 0x00,
        e: 0xd8,
        h: 0x01,
        l: 0x4d,
        af: 0x01b0,
        bc: 0x0013,
        de: 0x00d8,
        hl: 0x014d,
        sp: 0xfffe,
        pc: 0x0100,
        flags: Flags { zero: true, subtraction: false, half_carry: true, carry: true },
    }
}

/// Register pair consistency: in a well-formed register file the high byte of
/// AF, BC, DE, HL equals A, B, D, H, the low byte equals the flag byte, C, E,
/// L, and the flag byte's low nibble is zero.
pub proof fn lemma_register_pair_consistency(r: Registers)
    requires
        r.wf(),
    ensures
        r.af / 256 == r.a,
        r.af % 256 == flags_bits(r.flags),
        r.af % 16 == 0,
        r.bc / 256 == r.b,
        r.bc % 256 == r.c,
        r.de / 256 == r.d,
        r.de % 256 == r.e,
        r.hl / 256 == r.h,
        r.hl % 256 == r.l,
{
    let fb = flags_bits(r.flags);
    assert((r.a * 256 + fb) / 256 == r.a && (r.a * 256 + fb) % 256 == fb) by (nonlinear_arith)
        requires
            0 <= fb < 256,
    ;
    assert((r.b * 256 + r.c) / 256 == r.b && (r.b * 256 + r.c) % 256 == r.c) by (nonlinear_arith);
    assert((r.d * 256 + r.e) / 256 == r.d && (r.d * 256 + r.e) % 256 == r.e) by (nonlinear_arith);
    assert((r.h * 256 + r.l) / 256 == r.h && (r.h * 256 + r.l) % 256 == r.l) by (nonlinear_arith);
    assert(flags_bits(r.flags) % 16 == 0);
    assert(r.af == r.a * 256 + flags_bits(r.flags));
    assert(r.af % 16 == 0) by (nonlinear_arith)
        requires
            r.af == r.a * 256 + flags_bits(r.flags),
            flags_bits(r.flags) % 16 == 0,
            0 <= flags_bits(r.flags) <= 0xf0,
    ;
}

/// The processor: the register file and the interrupt state. `ime` is the
/// interrupt master enable; `ime_pending` models the one-instruction delay of
/// EI; `halted` is set while a HALT waits for an interrupt; `stopped` is set
/// by STOP until a button wakes the machine; `halt_bug` records that a HALT
/// ran with the master enable clear and an interrupt already pending, so the
/// next instruction fetch re-reads its first byte.
#[derive(Debug, Copy, Clone, PartialEq, Eq, Structural)]
pub struct Cpu {
    pub registers: Registers,
    pub ime: bool,
    pub ime_pending: bool,
    pub halted: bool,
    pub stopped: bool,
    pub halt_bug: bool,
}

impl Default for Cpu {
    /// A processor in the documented power-up state, interrupts disabled.
    fn default() -> (r: Self)
        ensures
            r.registers == boot_registers(),
            r.registers.wf(),
            !r.ime,
            !r.ime_pending,
            !r.halted,
            !r.stopped,
            !r.halt_bug,
    {
        Cpu {
            registers: Registers::default(),
            ime: false,
            ime_pending: false,
            halted: false,
            stopped: false,
            halt_bug: false,
        }
    }
}

/// The interrupt-related CPU state (IME, the pending EI, the HALT, STOP and
/// HALT-bug latches) of `b` equals that of `a`: the instruction only touched
/// registers or memory.
pub open spec fn same_int_state(a: Cpu, b: Cpu) -> bool {
    &&& b.ime == a.ime
    &&& b.ime_pending == a.ime_pending
    &&& b.halted == a.halted
    &&& b.stopped == a.stopped
    &&& b.halt_bug == a.halt_bug
}

/// The processor after the end-of-instruction commit of a delayed EI: when
/// an enable was already pending before the instruction and the instruction
/// left it pending, the master enable turns on.
pub open spec fn ime_commit_spec(c: Cpu, delayed: bool) -> Cpu {
    if delayed && c.ime_pending {
        Cpu { ime: true, ime_pending: false, ..c }
    } else {
        c
    }
}

/// Whether a branch condition holds of a flag set.
pub open spec fn cond_holds(f: Flags, condition: Condition) -> bool {
    match condition {
        Condition::NotZero => !f.zero,
        Condition::Zero => f.zero,
        Condition::NotCarry => !f.carry,
        Condition::Carry => f.carry,
    }
}

impl Cpu {
    /// Commit a delayed EI at the end of an instruction; `delayed` says
    /// whether the enable was already pending when the instruction started.
    pub fn commit_ime_delay(&mut self, delayed: bool)
        ensures
            *final(self) == ime_commit_spec(*old(self), delayed),
    {
        if delayed && self.ime_pending {
            self.ime = true;
            self.ime_pending = false;
        }
    }

    /// Compare a branch condition to the register flags.
    pub fn cc(&mut self, condition: Condition) -> (r: bool)
        ensures
            *final(self) == *old(self),
            r == cond_holds(old(self).registers.flags, condition),
    {
        match condition {
            Condition::NotZero => self.registers.flags.zero == false,
            Condition::Zero => self.registers.flags.zero == true,
            Condition::NotCarry => self.registers.flags.carry == false,
            Condition::Carry => self.registers.flags.carry == true,
        }
    }

    /// Fetch, decode and execute the instruction at PC, returning its cost
    /// in M-cycles. The state moves exactly as the decoded instruction's own
    /// contract dictates, followed by the commit of a delayed EI. Under the
    /// HALT bug the byte at PC is consumed twice — once as the opcode and
    /// once as the first operand byte — and PC advances past it only once.
    /// The eleven unassigned bytes stop the simulation with a diagnostic
    /// naming the byte and PC.
    pub fn execute(&mut self, memory: &mut Memory) -> (r: Result<u8, CpuError>)
        requires
            old(self).registers.wf(),
            old(memory).wf(),
        ensures
            final(self).registers.wf(),
            final(memory).wf(),
            ({
                let op = read_spec(*old(memory), old(self).registers.pc as int);
                &&& (r matches Err(e) <==> illegal_opcode(op))
                &&& (illegal_opcode(op) ==> r == Err::<u8, CpuError>(
                    CpuError::IllegalOpcode(op, old(self).registers.pc),
                ) && *final(self) == *old(self) && *final(memory) == *old(memory))
                &&& (r matches Ok(c) ==> 1 <= c <= 6 && exec_rel(
                    *old(self),
                    *old(memory),
                    *final(self),
                    *final(memory),
                    c,
                ))
            }),
    {
        let bug = self.halt_bug;
        let delay = self.ime_pending;
        let pc = self.registers.pc;
        let opcode = memory.read(pc as usize);
        if bug {
            self.halt_bug = false;
        }
        let base = if bug {
            pc.wrapping_sub(1)
        } else {
            pc
        };
        let result: crate::instructions::InstructionResult<crate::instructions::Instruction> =
            self.dispatch(memory, opcode, base);
        match result {
            Ok(instruction) => {
                let ghost mid0 = *self;
                if bug && self.registers.pc == pc.wrapping_add(instruction.bytes as u16) {
                    self.registers.pc = self.registers.pc.wrapping_sub(1);
                }
                let ghost mid1 = *self;
                self.commit_ime_delay(delay);
                proof {
                    assert(instr_spec(
                        read_spec(*old(memory), old(self).registers.pc as int),
                        operand_base(*old(self)),
                        bug_consumed(*old(self)),
                        *old(memory),
                        mid0,
                        *final(memory),
                        instruction,
                    ));
                }
                Ok(instruction.cycles)
            }
            Err(_) => {
                self.halt_bug = bug;
                Err(CpuError::IllegalOpcode(opcode, pc))
            }
        }
    }
}

/// How one call of the instruction runner moves the machine: some
/// instruction outcome `i` relates the pre-state (with the halt-bug latch
/// already consumed) to an intermediate state per `instr_spec`, the latch
/// realigns PC one byte back when it was set and the flow stayed linear, the
/// delayed-EI commit runs last, and the returned cost is the instruction's.
/// The address operand bytes are read behind: PC, or one less while the
/// HALT bug replays the byte at PC.
pub open spec fn operand_base(c: Cpu) -> u16 {
    if c.halt_bug {
        c.registers.pc.wrapping_sub(1)
    } else {
        c.registers.pc
    }
}

/// The processor with the halt-bug latch consumed.
pub open spec fn bug_consumed(c: Cpu) -> Cpu {
    Cpu { halt_bug: false, ..c }
}

pub open spec fn exec_rel(c0: Cpu, m0: Memory, c1: Cpu, m1: Memory, cost: u8) -> bool {
    exists|mid: Cpu, i: Instruction|
        {
            &&& #[trigger] instr_spec(
                read_spec(m0, c0.registers.pc as int),
                operand_base(c0),
                bug_consumed(c0),
                m0,
                mid,
                m1,
                i,
            )
            &&& c1 == ime_commit_spec(
                if c0.halt_bug && mid.registers.pc == c0.registers.pc.wrapping_add(
                    i.bytes as u16,
                ) {
                    Cpu {
                        registers: with_pc(mid.registers, mid.registers.pc.wrapping_sub(1)),
                        ..mid
                    }
                } else {
                    mid
                },
                c0.ime_pending,
            )
            &&& cost == i.cycles
        }
}

impl Cpu {
    /// Decode and run the instruction that an opcode byte names, fetching
    /// any operands from behind the program counter.
    fn dispatch(&mut self, memory: &mut Memory, opcode: u8, pc: u16) -> (r:
        crate::instructions::InstructionResult<crate::instructions::Instruction>)
        requires
            old(self).registers.wf(),
            old(memory).wf(),
        ensures
            final(self).registers.wf(),
            final(memory).wf(),
            r matches Err(e) <==> illegal_opcode(opcode),
            illegal_opcode(opcode) ==> *final(self) == *old(self) && *final(memory) == *old(
                memory,
            ),
            !illegal_opcode(opcode) ==> (r matches Ok(i) && 1 <= i.cycles <= 6 && instr_spec(
                opcode,
                pc,
                *old(self),
                *old(memory),
                *final(self),
                *final(memory),
                i,
            )),
    {
        if opcode == 0x76 {
            let ie = memory.get_interrupt_registers();
            let iff = memory.get_interrupt_flag();
            return halt(self, (ie & iff) & 0x1f != 0);
        }
        if 0x40 <= opcode && opcode < 0x80 {
            return self.dispatch_ld(memory, opcode);
        }
        if 0x80 <= opcode && opcode < 0xc0 {
            return self.dispatch_alu(memory, opcode);
        }
        if opcode == 0xcb {
            return self.dispatch_cb(memory, pc);
        }
        if opcode < 0x40 {
            return self.dispatch_base(memory, opcode, pc);
        }
        self.dispatch_ctrl(memory, opcode, pc)
    }

    /// Run one of the register-to-register load opcodes 0x40-0x7F (HALT
    /// excepted).
    #[verifier::spinoff_prover]
    #[verifier::rlimit(100)]
    fn dispatch_ld(&mut self, memory: &mut Memory, opcode: u8) -> (r:
        crate::instructions::InstructionResult<crate::instructions::Instruction>)
        requires
            old(self).registers.wf(),
            old(memory).wf(),
            0x40 <= opcode < 0x80,
            opcode != 0x76,
        ensures
            final(self).registers.wf(),
            final(memory).wf(),
            r matches Ok(i) && 1 <= i.cycles <= 6 && ld_block_spec(
                opcode,
                *old(self),
                *old(memory),
                *final(self),
                *final(memory),
                i,
            ),
    {
        if opcode % 8 == 6 {
            return match r8_operand((opcode - 0x40) / 8) {
                Some(d) => ld_hl_r8(d, self, memory),
                // both operands [HL] would be 0x76, which the caller keeps out
                None => Err(DecodeError::InvalidOpcodeByte(opcode)),
            };
        }
        self.dispatch_ld_reg(memory, opcode)
    }

    /// Run a load whose source is a plain register (low bits not [HL]).
    #[verifier::spinoff_prover]
    #[verifier::rlimit(100)]
    fn dispatch_ld_reg(&mut self, memory: &mut Memory, opcode: u8) -> (r:
        crate::instructions::InstructionResult<crate::instructions::Instruction>)
        requires
            old(self).registers.wf(),
            old(memory).wf(),
            0x40 <= opcode < 0x80,
            opcode % 8 != 6,
        ensures
            final(self).registers.wf(),
            final(memory).wf(),
            r matches Ok(i) && 1 <= i.cycles <= 6 && ld_block_spec(
                opcode,
                *old(self),
                *old(memory),
                *final(self),
                *final(memory),
                i,
            ),
    {
        let src = r8_operand(opcode);
        let dst = r8_operand((opcode - 0x40) / 8);
        match (src, dst) {
            (Some(s), Some(d)) => ld_r8_r8(s, d, self),
            (Some(s), None) => ld_r8_hl(s, self, memory),
            _ => Err(DecodeError::InvalidOpcodeByte(opcode)),
        }
    }

    /// Run one of the accumulator arithmetic and logic opcodes 0x80-0xBF.
    #[verifier::spinoff_prover]
    #[verifier::rlimit(100)]
    fn dispatch_alu(&mut self, memory: &mut Memory, opcode: u8) -> (r:
        crate::instructions::InstructionResult<crate::instructions::Instruction>)
        requires
            old(self).registers.wf(),
            old(memory).wf(),
            0x80 <= opcode < 0xc0,
        ensures
            final(self).registers.wf(),
            final(memory).wf(),
            r matches Ok(i) && 1 <= i.cycles <= 6 && alu_block_spec(
                opcode,
                *old(self),
                *old(memory),
                *final(self),
                *final(memory),
                i,
            ),
    {
        if opcode < 0xa0 {
            return self.dispatch_alu_add(memory, opcode);
        }
        let kind = (opcode - 0x80) / 8;
        match r8_operand(opcode) {
            Some(s) => {
                if kind == 4 {
                    and_a_r8(s, self)
                } else if kind == 5 {
                    xor_a_r8(s, self)
                } else if kind == 6 {
                    or_a_r8(s, self)
                } else {
                    cp_a_r8(s, self)
                }
            }
            None => {
                if kind == 4 {
                    and_a_immed_hl(self, memory)
                } else if kind == 5 {
                    xor_a_immed_hl(self, memory)
                } else if kind == 6 {
                    or_a_hl(self, memory)
                } else {
                    cp_a_hl(self, memory)
                }
            }
        }
    }

    /// Run one of the accumulator add/subtract opcodes 0x80-0x9F.
    #[verifier::spinoff_prover]
    #[verifier::rlimit(100)]
    fn dispatch_alu_add(&mut self, memory: &mut Memory, opcode: u8) -> (r:
        crate::instructions::InstructionResult<crate::instructions::Instruction>)
        requires
            old(self).registers.wf(),
            old(memory).wf(),
            0x80 <= opcode < 0xa0,
        ensures
            final(self).registers.wf(),
            final(memory).wf(),
            r matches Ok(i) && 1 <= i.cycles <= 6 && alu_block_spec(
                opcode,
                *old(self),
                *old(memory),
                *final(self),
                *final(memory),
                i,
            ),
    {
        if opcode >= 0x90 {
            return self.dispatch_alu_sub(memory, opcode);
        }
        let kind = (opcode - 0x80) / 8;
        match r8_operand(opcode) {
            Some(s) => {
                if kind == 0 {
                    add_a_r8(s, self)
                } else {
                    adc_a_r8(s, self)
                }
            }
            None => {
                if kind == 0 {
                    add_a_immed_hl(self, memory)
                } else {
                    adc_a_immed_hl(self, memory)
                }
            }
        }
    }

    /// Run one of the accumulator subtract opcodes 0x90-0x9F.
    #[verifier::spinoff_prover]
    #[verifier::rlimit(100)]
    fn dispatch_alu_sub(&mut self, memory: &mut Memory, opcode: u8) -> (r:
        crate::instructions::InstructionResult<crate::instructions::Instruction>)
        requires
            old(self).registers.wf(),
            old(memory).wf(),
            0x90 <= opcode < 0xa0,
        ensures
            final(self).registers.wf(),
            final(memory).wf(),
            r matches Ok(i) && 1 <= i.cycles <= 6 && alu_block_spec(
                opcode,
                *old(self),
                *old(memory),
                *final(self),
                *final(memory),
                i,
            ),
    {
        let kind = (opcode - 0x80) / 8;
        match r8_operand(opcode) {
            Some(s) => {
                if kind == 2 {
                    sub_a_r8(s, self)
                } else {
                    sbc_a_r8(s, self)
                }
            }
            None => self.dispatch_alu_sub_hl(memory, opcode),
        }
    }

    /// Run SUB A,[HL] or SBC A,[HL].
    #[verifier::spinoff_prover]
    #[verifier::rlimit(100)]
    fn dispatch_alu_sub_hl(&mut self, memory: &mut Memory, opcode: u8) -> (r:
        crate::instructions::InstructionResult<crate::instructions::Instruction>)
        requires
            old(self).registers.wf(),
            old(memory).wf(),
            0x90 <= opcode < 0xa0,
            opcode % 8 == 6,
        ensures
            final(self).registers.wf(),
            final(memory).wf(),
            r matches Ok(i) && 1 <= i.cycles <= 6 && alu_block_spec(
                opcode,
                *old(self),
                *old(memory),
                *final(self),
                *final(memory),
                i,
            ),
    {
        if opcode < 0x98 {
            sub_a_immed_hl(self, memory)
        } else {
            sbc_a_immed_hl(self, memory)
        }
    }

    /// Fetch the byte after the 0xCB prefix and run the rotate, shift,
    /// swap or bit opcode it names.
    #[verifier::spinoff_prover]
    #[verifier::rlimit(100)]
    fn dispatch_cb(&mut self, memory: &mut Memory, pc: u16) -> (r:
        crate::instructions::InstructionResult<crate::instructions::Instruction>)
        requires
            old(self).registers.wf(),
            old(memory).wf(),
        ensures
            final(self).registers.wf(),
            final(memory).wf(),
            r matches Ok(i) && 1 <= i.cycles <= 6 && cb_block_spec(
                imm8_spec(*old(memory), pc),
                *old(self),
                *old(memory),
                *final(self),
                *final(memory),
                i,
            ),
    {
        let cb = imm8(memory, pc);
        if cb < 0x40 {
            return self.dispatch_cb_shift(memory, cb);
        }
        self.dispatch_cb_bits(memory, cb)
    }

    /// Run a CB-prefixed rotate, shift or swap (second byte below 0x40).
    #[verifier::spinoff_prover]
    #[verifier::rlimit(100)]
    fn dispatch_cb_shift(&mut self, memory: &mut Memory, cb: u8) -> (r:
        crate::instructions::InstructionResult<crate::instructions::Instruction>)
        requires
            old(self).registers.wf(),
            old(memory).wf(),
            cb < 0x40,
        ensures
            final(self).registers.wf(),
            final(memory).wf(),
            r matches Ok(i) && 1 <= i.cycles <= 6 && cb_block_spec(
                cb,
                *old(self),
                *old(memory),
                *final(self),
                *final(memory),
                i,
            ),
    {
        if cb < 0x20 {
            return self.dispatch_cb_rotate(memory, cb);
        }
        let kind = cb / 8;
        return match r8_operand(cb) {
            Some(rr) => {
                if kind == 4 {
                    sla_r8(rr, self)
                } else if kind == 5 {
                    sra_r8(rr, self)
                } else if kind == 6 {
                    swap_r8(rr, self)
                } else {
                    srl_r8(rr, self)
                }
            }
            None => {
                if kind == 4 {
                    sla_hl(self, memory)
                } else if kind == 5 {
                    sra_hl(self, memory)
                } else if kind == 6 {
                    swap_hl(self, memory)
                } else {
                    srl_hl(self, memory)
                }
            }
        };
    }

    /// Run a CB-prefixed rotate (second byte below 0x20).
    #[verifier::spinoff_prover]
    #[verifier::rlimit(100)]
    fn dispatch_cb_rotate(&mut self, memory: &mut Memory, cb: u8) -> (r:
        crate::instructions::InstructionResult<crate::instructions::Instruction>)
        requires
            old(self).registers.wf(),
            old(memory).wf(),
            cb < 0x20,
        ensures
            final(self).registers.wf(),
            final(memory).wf(),
            r matches Ok(i) && 1 <= i.cycles <= 6 && cb_block_spec(
                cb,
                *old(self),
                *old(memory),
                *final(self),
                *final(memory),
                i,
            ),
    {
        let kind = cb / 8;
        return match r8_operand(cb) {
            Some(rr) => {
                if kind == 0 {
                    rlc_r8(rr, self)
                } else if kind == 1 {
                    rrc_r8(rr, self)
                } else if kind == 2 {
                    rl_r8(rr, self)
                } else {
                    rr_r8(rr, self)
                }
            }
            None => {
                if kind == 0 {
                    rlc_hl(self, memory)
                } else if kind == 1 {
                    rrc_hl(self, memory)
                } else if kind == 2 {
                    rl_hl(self, memory)
                } else {
                    rr_hl(self, memory)
                }
            }
        };
    }

    /// Run a CB-prefixed bit test, reset or set (second byte 0x40 and up).
    #[verifier::spinoff_prover]
    #[verifier::rlimit(100)]
    fn dispatch_cb_bits(&mut self, memory: &mut Memory, cb: u8) -> (r:
        crate::instructions::InstructionResult<crate::instructions::Instruction>)
        requires
            old(self).registers.wf(),
            old(memory).wf(),
            0x40 <= cb,
        ensures
            final(self).registers.wf(),
            final(memory).wf(),
            r matches Ok(i) && 1 <= i.cycles <= 6 && cb_block_spec(
                cb,
                *old(self),
                *old(memory),
                *final(self),
                *final(memory),
                i,
            ),
    {
            let bit = (cb / 8) % 8;
            return match r8_operand(cb) {
                Some(rr) => {
                    if cb < 0x80 {
                        bit_u3_r8(bit, rr, self)
                    } else if cb < 0xc0 {
                        res_u3_r8(bit, rr, self)
                    } else {
                        set_u3_r8(bit, rr, self)
                    }
                }
                None => {
                    if cb < 0x80 {
                        bit_u3_hl(bit, self, memory)
                    } else if cb < 0xc0 {
                        res_u3_hl(bit, self, memory)
                    } else {
                        set_u3_hl(bit, self, memory)
                    }
                }
            };
    }

    /// Run one of the mixed loads, 16-bit arithmetic, rotates and control
    /// opcodes 0x00-0x3F.
    #[verifier::spinoff_prover]
    #[verifier::rlimit(100)]
    fn dispatch_base(&mut self, memory: &mut Memory, opcode: u8, pc: u16) -> (r:
        crate::instructions::InstructionResult<crate::instructions::Instruction>)
        requires
            old(self).registers.wf(),
            old(memory).wf(),
            opcode < 0x40,
        ensures
            final(self).registers.wf(),
            final(memory).wf(),
            r matches Ok(i) && 1 <= i.cycles <= 6 && base_block_spec(
                opcode,
                pc,
                *old(self),
                *old(memory),
                *final(self),
                *final(memory),
                i,
            ),
    {
        match opcode {
            0x00 => nop(self),
            0x01 => {
                let n = imm16(memory, pc);
                ld_r16_n16(R16::BC, n, self)
            }
            0x02 => ld_a_immed_r16(R16::BC, self, memory),
            0x03 => inc_r16(R16::BC, self),
            0x04 => inc_r8(R8::B, self),
            0x05 => dec_r8(R8::B, self),
            0x06 => {
                let n = imm8(memory, pc);
                ld_r8_n8(R8::B, n, self)
            }
            0x07 => rlca(self),
            0x08 => {
                let n = imm16(memory, pc);
                load_a16_sp(n, self, memory)
            }
            0x09 => add_r16_hl(R16::BC, self),
            0x0a => ld_immed_r16_a(R16::BC, self, memory),
            0x0b => dec_r16(R16::BC, self),
            0x0c => inc_r8(R8::C, self),
            0x0d => dec_r8(R8::C, self),
            0x0e => {
                let n = imm8(memory, pc);
                ld_r8_n8(R8::C, n, self)
            }
            0x0f => rrca(self),
            0x10 => stop(self, memory),
            0x11 => {
                let n = imm16(memory, pc);
                ld_r16_n16(R16::DE, n, self)
            }
            0x12 => ld_a_immed_r16(R16::DE, self, memory),
            0x13 => inc_r16(R16::DE, self),
            0x14 => inc_r8(R8::D, self),
            0x15 => dec_r8(R8::D, self),
            0x16 => {
                let n = imm8(memory, pc);
                ld_r8_n8(R8::D, n, self)
            }
            0x17 => rla(self),
            0x18 => {
                let n = imm8(memory, pc);
                jr_n16(n, self)
            }
            0x19 => add_r16_hl(R16::DE, self),
            0x1a => ld_immed_r16_a(R16::DE, self, memory),
            0x1b => dec_r16(R16::DE, self),
            0x1c => inc_r8(R8::E, self),
            0x1d => dec_r8(R8::E, self),
            0x1e => {
                let n = imm8(memory, pc);
                ld_r8_n8(R8::E, n, self)
            }
            0x1f => rra(self),
            0x20 => {
                let n = imm8(memory, pc);
                jr_cc_n16(n, Condition::NotZero, self)
            }
            0x21 => {
                let n = imm16(memory, pc);
                ld_r16_n16(R16::HL, n, self)
            }
            0x22 => ld_a_hli(self, memory),
            0x23 => inc_r16(R16::HL, self),
            0x24 => inc_r8(R8::H, self),
            0x25 => dec_r8(R8::H, self),
            0x26 => {
                let n = imm8(memory, pc);
                ld_r8_n8(R8::H, n, self)
            }
            0x27 => daa(self),
            0x28 => {
                let n = imm8(memory, pc);
                jr_cc_n16(n, Condition::Zero, self)
            }
            0x29 => add_r16_hl(R16::HL, self),
            0x2a => ld_hli_a(self, memory),
            0x2b => dec_r16(R16::HL, self),
            0x2c => inc_r8(R8::L, self),
            0x2d => dec_r8(R8::L, self),
            0x2e => {
                let n = imm8(memory, pc);
                ld_r8_n8(R8::L, n, self)
            }
            0x2f => cpl(self),
            0x30 => {
                let n = imm8(memory, pc);
                jr_cc_n16(n, Condition::NotCarry, self)
            }
            0x31 => {
                let n = imm16(memory, pc);
                load_sp_n16(n, self)
            }
            0x32 => ld_a_hld(self, memory),
            0x33 => inc_sp(self),
            0x34 => inc_hl(self, memory),
            0x35 => dec_hl(self, memory),
            0x36 => {
                let n = imm8(memory, pc);
                ld_n8_hl(n, self, memory)
            }
            0x37 => scf(self),
            0x38 => {
                let n = imm8(memory, pc);
                jr_cc_n16(n, Condition::Carry, self)
            }
            0x39 => add_hl_sp(self),
            0x3a => ld_hld_a(self, memory),
            0x3b => dec_sp(self),
            0x3c => inc_r8(R8::A, self),
            0x3d => dec_r8(R8::A, self),
            0x3e => {
                let n = imm8(memory, pc);
                ld_r8_n8(R8::A, n, self)
            }
            0x3f => ccf(self),
            // every byte below 0x40 is enumerated above
            _ => nop(self),
        }
    }

    /// Run one of the jump, call, return, stack and immediate-operand
    /// opcodes 0xC0-0xFF; the unassigned bytes of this range are refused.
    #[verifier::spinoff_prover]
    #[verifier::rlimit(100)]
    fn dispatch_ctrl(&mut self, memory: &mut Memory, opcode: u8, pc: u16) -> (r:
        crate::instructions::InstructionResult<crate::instructions::Instruction>)
        requires
            old(self).registers.wf(),
            old(memory).wf(),
            0xc0 <= opcode,
            opcode != 0xcb,
        ensures
            final(self).registers.wf(),
            final(memory).wf(),
            r matches Err(e) <==> illegal_opcode(opcode),
            illegal_opcode(opcode) ==> *final(self) == *old(self) && *final(memory) == *old(
                memory,
            ),
            !illegal_opcode(opcode) ==> (r matches Ok(i) && 1 <= i.cycles <= 6 && ctrl_block_spec(
                opcode,
                pc,
                *old(self),
                *old(memory),
                *final(self),
                *final(memory),
                i,
            )),
    {
        if opcode < 0xe0 {
            return self.dispatch_ctrl_lo(memory, opcode, pc);
        }
        self.dispatch_ctrl_hi(memory, opcode, pc)
    }

    /// Run one of the control/stack opcodes 0xC0-0xDF.
    #[verifier::spinoff_prover]
    #[verifier::rlimit(100)]
    fn dispatch_ctrl_lo(&mut self, memory: &mut Memory, opcode: u8, pc: u16) -> (r:
        crate::instructions::InstructionResult<crate::instructions::Instruction>)
        requires
            old(self).registers.wf(),
            old(memory).wf(),
            0xc0 <= opcode < 0xe0,
            opcode != 0xcb,
        ensures
            final(self).registers.wf(),
            final(memory).wf(),
            r matches Err(e) <==> illegal_opcode(opcode),
            illegal_opcode(opcode) ==> *final(self) == *old(self) && *final(memory) == *old(
                memory,
            ),
            !illegal_opcode(opcode) ==> (r matches Ok(i) && 1 <= i.cycles <= 6 && ctrl_block_spec(
                opcode,
                pc,
                *old(self),
                *old(memory),
                *final(self),
                *final(memory),
                i,
            )),
    {
        if opcode >= 0xd0 {
            return self.dispatch_ctrl_d(memory, opcode, pc);
        }
        if opcode >= 0xc8 {
            return self.dispatch_ctrl_c8(memory, opcode, pc);
        }
        match opcode {
            0xc0 => ret_cc(Condition::NotZero, self, memory),
            0xc1 => pop_r16(R16::BC, self, memory),
            0xc2 => {
                let n = imm16(memory, pc);
                jp_cc_n16(n, Condition::NotZero, self)
            }
            0xc3 => {
                let n = imm16(memory, pc);
                jp_n16(n, self)
            }
            0xc4 => {
                let n = imm16(memory, pc);
                call_cc_n16(n, Condition::NotZero, self, memory)
            }
            0xc5 => push_r16(R16::BC, self, memory),
            0xc6 => {
                let n = imm8(memory, pc);
                add_a_n8(n, self)
            }
            0xc7 => rst(0x00, self, memory),
            _ => Err(DecodeError::InvalidOpcodeByte(opcode)),
        }
    }

    /// Run one of the control/stack opcodes 0xc8-0xcf.
    #[verifier::spinoff_prover]
    #[verifier::rlimit(100)]
    fn dispatch_ctrl_c8(&mut self, memory: &mut Memory, opcode: u8, pc: u16) -> (r:
        crate::instructions::InstructionResult<crate::instructions::Instruction>)
        requires
            old(self).registers.wf(),
            old(memory).wf(),
            0xc8 <= opcode <= 0xcf,
            opcode != 0xcb,
        ensures
            final(self).registers.wf(),
            final(memory).wf(),
            r matches Err(e) <==> illegal_opcode(opcode),
            illegal_opcode(opcode) ==> *final(self) == *old(self) && *final(memory) == *old(
                memory,
            ),
            !illegal_opcode(opcode) ==> (r matches Ok(i) && 1 <= i.cycles <= 6 && ctrl_block_spec(
                opcode,
                pc,
                *old(self),
                *old(memory),
                *final(self),
                *final(memory),
                i,
            )),
    {
        match opcode {
            0xc8 => ret_cc(Condition::Zero, self, memory),
            0xc9 => ret(self, memory),
            0xca => {
                let n = imm16(memory, pc);
                jp_cc_n16(n, Condition::Zero, self)
            }
            0xcc => {
                let n = imm16(memory, pc);
                call_cc_n16(n, Condition::Zero, self, memory)
            }
            0xcd => {
                let n = imm16(memory, pc);
                call_n16(n, self, memory)
            }
            0xce => {
                let n = imm8(memory, pc);
                adc_a_n8(n, self)
            }
            0xcf => rst(0x08, self, memory),
            _ => Err(DecodeError::InvalidOpcodeByte(opcode)),
        }
    }

    /// Run one of the control/stack opcodes 0xD0-0xDF.
    #[verifier::spinoff_prover]
    #[verifier::rlimit(100)]
    fn dispatch_ctrl_d(&mut self, memory: &mut Memory, opcode: u8, pc: u16) -> (r:
        crate::instructions::InstructionResult<crate::instructions::Instruction>)
        requires
            old(self).registers.wf(),
            old(memory).wf(),
            0xd0 <= opcode < 0xe0,
        ensures
            final(self).registers.wf(),
            final(memory).wf(),
            r matches Err(e) <==> illegal_opcode(opcode),
            illegal_opcode(opcode) ==> *final(self) == *old(self) && *final(memory) == *old(
                memory,
            ),
            !illegal_opcode(opcode) ==> (r matches Ok(i) && 1 <= i.cycles <= 6 && ctrl_block_spec(
                opcode,
                pc,
                *old(self),
                *old(memory),
                *final(self),
                *final(memory),
                i,
            )),
    {
        if opcode >= 0xd8 {
            return self.dispatch_ctrl_d8(memory, opcode, pc);
        }
        match opcode {
            0xd0 => ret_cc(Condition::NotCarry, self, memory),
            0xd1 => pop_r16(R16::DE, self, memory),
            0xd2 => {
                let n = imm16(memory, pc);
                jp_cc_n16(n, Condition::NotCarry, self)
            }
            0xd4 => {
                let n = imm16(memory, pc);
                call_cc_n16(n, Condition::NotCarry, self, memory)
            }
            0xd5 => push_r16(R16::DE, self, memory),
            0xd6 => {
                let n = imm8(memory, pc);
                sub_a_n8(n, self)
            }
            0xd7 => rst(0x10, self, memory),
            _ => Err(DecodeError::InvalidOpcodeByte(opcode)),
        }
    }

    /// Run one of the control/stack opcodes 0xd8-0xdf.
    #[verifier::spinoff_prover]
    #[verifier::rlimit(100)]
    fn dispatch_ctrl_d8(&mut self, memory: &mut Memory, opcode: u8, pc: u16) -> (r:
        crate::instructions::InstructionResult<crate::instructions::Instruction>)
        requires
            old(self).registers.wf(),
            old(memory).wf(),
            0xd8 <= opcode <= 0xdf,
        ensures
            final(self).registers.wf(),
            final(memory).wf(),
            r matches Err(e) <==> illegal_opcode(opcode),
            illegal_opcode(opcode) ==> *final(self) == *old(self) && *final(memory) == *old(
                memory,
            ),
            !illegal_opcode(opcode) ==> (r matches Ok(i) && 1 <= i.cycles <= 6 && ctrl_block_spec(
                opcode,
                pc,
                *old(self),
                *old(memory),
                *final(self),
                *final(memory),
                i,
            )),
    {
        match opcode {
            0xd8 => ret_cc(Condition::Carry, self, memory),
            0xd9 => reti(self, memory),
            0xda => {
                let n = imm16(memory, pc);
                jp_cc_n16(n, Condition::Carry, self)
            }
            0xdc => {
                let n = imm16(memory, pc);
                call_cc_n16(n, Condition::Carry, self, memory)
            }
            0xde => {
                let n = imm8(memory, pc);
                sbc_a_n8(n, self)
            }
            0xdf => rst(0x18, self, memory),
            _ => Err(DecodeError::InvalidOpcodeByte(opcode)),
        }
    }

    /// Run one of the immediate-operand and high-page opcodes 0xE0-0xFF.
    #[verifier::spinoff_prover]
    #[verifier::rlimit(100)]
    fn dispatch_ctrl_hi(&mut self, memory: &mut Memory, opcode: u8, pc: u16) -> (r:
        crate::instructions::InstructionResult<crate::instructions::Instruction>)
        requires
            old(self).registers.wf(),
            old(memory).wf(),
            0xe0 <= opcode,
        ensures
            final(self).registers.wf(),
            final(memory).wf(),
            r matches Err(e) <==> illegal_opcode(opcode),
            illegal_opcode(opcode) ==> *final(self) == *old(self) && *final(memory) == *old(
                memory,
            ),
            !illegal_opcode(opcode) ==> (r matches Ok(i) && 1 <= i.cycles <= 6 && ctrl_block_spec(
                opcode,
                pc,
                *old(self),
                *old(memory),
                *final(self),
                *final(memory),
                i,
            )),
    {
        if opcode >= 0xf0 {
            return self.dispatch_ctrl_f(memory, opcode, pc);
        }
        match opcode {
            0xe0 => {
                let n = imm8(memory, pc);
                ldh_immed_n16_a(0xff00 + n as u16, self, memory)
            }
            0xe1 => pop_r16(R16::HL, self, memory),
            0xe2 => ldh_c_a(self, memory),
            0xe5 => push_r16(R16::HL, self, memory),
            0xe6 => {
                let n = imm8(memory, pc);
                and_a_n8(n, self)
            }
            0xe7 => rst(0x20, self, memory),
            0xe8 => {
                let n = imm8(memory, pc);
                add_sp_e8(n, self)
            }
            0xe9 => jp_hl(self),
            0xea => {
                let n = imm16(memory, pc);
                ld_a_immed_n16(n, self, memory)
            }
            0xee => {
                let n = imm8(memory, pc);
                xor_a_n8(n, self)
            }
            0xef => rst(0x28, self, memory),
            _ => Err(DecodeError::InvalidOpcodeByte(opcode)),
        }
    }

    /// Run one of the control/stack opcodes 0xf0-0xff.
    #[verifier::spinoff_prover]
    #[verifier::rlimit(100)]
    fn dispatch_ctrl_f(&mut self, memory: &mut Memory, opcode: u8, pc: u16) -> (r:
        crate::instructions::InstructionResult<crate::instructions::Instruction>)
        requires
            old(self).registers.wf(),
            old(memory).wf(),
            0xf0 <= opcode <= 0xff,
        ensures
            final(self).registers.wf(),
            final(memory).wf(),
            r matches Err(e) <==> illegal_opcode(opcode),
            illegal_opcode(opcode) ==> *final(self) == *old(self) && *final(memory) == *old(
                memory,
            ),
            !illegal_opcode(opcode) ==> (r matches Ok(i) && 1 <= i.cycles <= 6 && ctrl_block_spec(
                opcode,
                pc,
                *old(self),
                *old(memory),
                *final(self),
                *final(memory),
                i,
            )),
    {
        match opcode {
            0xf0 => {
                let n = imm8(memory, pc);
                ldh_a_immed_n16(0xff00 + n as u16, self, memory)
            }
            0xf1 => pop_af(self, memory),
            0xf2 => ldh_a_c(self, memory),
            0xf3 => di(self),
            0xf5 => push_af(self, memory),
            0xf6 => {
                let n = imm8(memory, pc);
                or_a_n8(n, self)
            }
            0xf7 => rst(0x30, self, memory),
            0xf8 => {
                let n = imm8(memory, pc);
                load_hl_sp_e8(n as i8, self)
            }
            0xf9 => load_sp_hl(self),
            0xfa => {
                let n = imm16(memory, pc);
                ld_immed_n16_a(n, self, memory)
            }
            0xfb => ei(self),
            0xfe => {
                let n = imm8(memory, pc);
                cp_a_n8(n, self)
            }
            0xff => rst(0x38, self, memory),
            _ => Err(DecodeError::InvalidOpcodeByte(opcode)),
        }
    }
}

/// The processor with a new register file; the interrupt state rides along.
pub open spec fn cpu_with_regs(c: Cpu, r: Registers) -> Cpu {
    Cpu { registers: r, ..c }
}

/// The immediate byte read through the bus behind an operand base.
pub open spec fn imm8_spec(m: Memory, base: u16) -> u8 {
    read_spec(m, base.wrapping_add(1) as int)
}

/// The little-endian immediate word read through the bus behind an operand
/// base.
pub open spec fn imm16_spec(m: Memory, base: u16) -> u16 {
    (read_spec(m, base.wrapping_add(1) as int) + read_spec(m, base.wrapping_add(2) as int)
        * 256) as u16
}

/// Whether an interrupt is both enabled and requested on the bus.
pub open spec fn pending_now(m: Memory) -> bool {
    (m.block[0xffff] & m.block[crate::memory::registers::IF as int]) & 0x1f != 0
}

/// The 8-bit operand the low three bits of an opcode name; the seventh slot
/// is the memory operand [HL].
pub open spec fn r8_operand_spec(idx: u8) -> Option<R8> {
    match idx % 8 {
        0u8 => Some(R8::B),
        1u8 => Some(R8::C),
        2u8 => Some(R8::D),
        3u8 => Some(R8::E),
        4u8 => Some(R8::H),
        5u8 => Some(R8::L),
        6u8 => None::<R8>,
        _ => Some(R8::A),
    }
}

/// What one register-to-register load opcode of 0x40-0x7F (HALT excepted)
/// does.
pub open spec fn ld_block_spec(
    op: u8,
    c0: Cpu,
    m0: Memory,
    c1: Cpu,
    m1: Memory,
    i: Instruction,
) -> bool {
    let pc = c0.registers.pc;
    match (r8_operand_spec(op % 8), r8_operand_spec(((op - 0x40) as u8) / 8)) {
        (Some(s), Some(d)) => m1 == m0 && i == (Instruction {
            mnemonic: Mnemonic::LD,
            bytes: 1,
            cycles: 1,
        }) && c1 == cpu_with_regs(
            c0,
            with_pc(set_r8_spec(c0.registers, d, r8_of(c0.registers, s)), pc.wrapping_add(1)),
        ),
        (None, Some(d)) => m1 == m0 && i == (Instruction {
            mnemonic: Mnemonic::LD,
            bytes: 1,
            cycles: 2,
        }) && c1 == cpu_with_regs(
            c0,
            with_pc(
                set_r8_spec(c0.registers, d, read_spec(m0, c0.registers.hl as int)),
                pc.wrapping_add(1),
            ),
        ),
        (Some(s), None) => write_rel(
            m0,
            m1,
            c0.registers.hl as int,
            r8_of(c0.registers, s),
        ) && i == (Instruction { mnemonic: Mnemonic::LD, bytes: 1, cycles: 2 }) && c1
            == cpu_with_regs(c0, with_pc(c0.registers, pc.wrapping_add(1))),
        (None, None) => false,
    }
}

/// The mnemonic of one accumulator arithmetic/logic row of 0x80-0xBF.
pub open spec fn alu_mnemonic(k: u8) -> Mnemonic {
    if k == 0 {
        Mnemonic::ADD
    } else if k == 1 {
        Mnemonic::ADC
    } else if k == 2 {
        Mnemonic::SUB
    } else if k == 3 {
        Mnemonic::SBC
    } else if k == 4 {
        Mnemonic::AND
    } else if k == 5 {
        Mnemonic::XOR
    } else if k == 6 {
        Mnemonic::OR
    } else {
        Mnemonic::CP
    }
}

/// The register file after one accumulator arithmetic/logic operation on
/// operand `b`.
pub open spec fn alu_regs_spec(k: u8, r: Registers, b: u8) -> Registers {
    let a = r.a;
    let cin: u8 = if r.flags.carry {
        1u8
    } else {
        0u8
    };
    if k == 0 {
        with_flags(set_r8_spec(r, R8::A, add8_sum(a, b, 0)), add8_flags(a, b, 0))
    } else if k == 1 {
        with_flags(set_r8_spec(r, R8::A, add8_sum(a, b, cin)), add8_flags(a, b, cin))
    } else if k == 2 {
        with_flags(set_r8_spec(r, R8::A, sub8_sum(a, b, 0)), sub8_flags(a, b, 0))
    } else if k == 3 {
        with_flags(set_r8_spec(r, R8::A, sub8_sum(a, b, cin)), sub8_flags(a, b, cin))
    } else if k == 4 {
        with_flags(set_r8_spec(r, R8::A, a & b), and_flags_spec(a & b))
    } else if k == 5 {
        with_flags(set_r8_spec(r, R8::A, a ^ b), logic_flags_spec(a ^ b))
    } else if k == 6 {
        with_flags(set_r8_spec(r, R8::A, a | b), logic_flags_spec(a | b))
    } else {
        with_flags(r, sub8_flags(a, b, 0))
    }
}

/// What one accumulator arithmetic/logic opcode of 0x80-0xBF does.
pub open spec fn alu_block_spec(
    op: u8,
    c0: Cpu,
    m0: Memory,
    c1: Cpu,
    m1: Memory,
    i: Instruction,
) -> bool {
    let k = ((op - 0x80) as u8) / 8;
    let b = match r8_operand_spec(op % 8) {
        Some(s) => r8_of(c0.registers, s),
        None => read_spec(m0, c0.registers.hl as int),
    };
    let cyc: u8 = if op % 8 == 6 {
        2u8
    } else {
        1u8
    };
    &&& m1 == m0
    &&& i == (Instruction { mnemonic: alu_mnemonic(k), bytes: 1, cycles: cyc })
    &&& c1 == cpu_with_regs(
        c0,
        with_pc(alu_regs_spec(k, c0.registers, b), c0.registers.pc.wrapping_add(1)),
    )
}

/// The mnemonic of one CB-prefixed rotate/shift/swap row.
pub open spec fn cb_shift_mnemonic(kind: u8) -> Mnemonic {
    if kind == 0 {
        Mnemonic::RLC
    } else if kind == 1 {
        Mnemonic::RRC
    } else if kind == 2 {
        Mnemonic::RL
    } else if kind == 3 {
        Mnemonic::RR
    } else if kind == 4 {
        Mnemonic::SLA
    } else if kind == 5 {
        Mnemonic::SRA
    } else if kind == 6 {
        Mnemonic::SWAP
    } else {
        Mnemonic::SRL
    }
}

/// The value a CB-prefixed rotate, shift or swap produces.
pub open spec fn cb_shift_val(kind: u8, v: u8, cin: bool) -> u8 {
    if kind == 0 {
        rlc_val(v)
    } else if kind == 1 {
        rrc_val(v)
    } else if kind == 2 {
        rl_val(v, cin)
    } else if kind == 3 {
        rr_val(v, cin)
    } else if kind == 4 {
        v << 1
    } else if kind == 5 {
        (v >> 1) | (v & 0x80)
    } else if kind == 6 {
        (v << 4) | (v >> 4)
    } else {
        v >> 1
    }
}

/// The carry a CB-prefixed rotate, shift or swap shifts out.
pub open spec fn cb_shift_carry(kind: u8, v: u8) -> bool {
    if kind == 0 || kind == 2 || kind == 4 {
        v >> 7 == 1
    } else if kind == 6 {
        false
    } else {
        v & 1 == 1
    }
}

/// What one CB-prefixed opcode does, given the byte after the prefix.
pub open spec fn cb_block_spec(
    cb: u8,
    c0: Cpu,
    m0: Memory,
    c1: Cpu,
    m1: Memory,
    i: Instruction,
) -> bool {
    let pc = c0.registers.pc;
    let r = c0.registers;
    let v = match r8_operand_spec(cb % 8) {
        Some(s) => r8_of(r, s),
        None => read_spec(m0, r.hl as int),
    };
    if cb < 0x40 {
        let kind = cb / 8;
        let nv = cb_shift_val(kind, v, r.flags.carry);
        let f = shift_flags_spec(nv, cb_shift_carry(kind, v));
        let mn = cb_shift_mnemonic(kind);
        match r8_operand_spec(cb % 8) {
            Some(s) => m1 == m0 && i == (Instruction { mnemonic: mn, bytes: 2, cycles: 2 }) && c1
                == cpu_with_regs(
                c0,
                with_pc(with_flags(set_r8_spec(r, s, nv), f), pc.wrapping_add(2)),
            ),
            None => write_rel(m0, m1, r.hl as int, nv) && i == (Instruction {
                mnemonic: mn,
                bytes: 2,
                cycles: 4,
            }) && c1 == cpu_with_regs(c0, with_pc(with_flags(r, f), pc.wrapping_add(2))),
        }
    } else {
        let bit = (cb / 8) % 8;
        if cb < 0x80 {
            let cyc: u8 = if cb % 8 == 6 {
                3u8
            } else {
                2u8
            };
            &&& m1 == m0
            &&& i == (Instruction { mnemonic: Mnemonic::BIT, bytes: 2, cycles: cyc })
            &&& c1 == cpu_with_regs(
                c0,
                with_pc(
                    with_flags(r, bit_flags_spec(v, bit, r.flags.carry)),
                    pc.wrapping_add(2),
                ),
            )
        } else {
            let mn = if cb < 0xc0 {
                Mnemonic::RES
            } else {
                Mnemonic::SET
            };
            let nv = if cb < 0xc0 {
                v & !(1u8 << bit)
            } else {
                v | (1u8 << bit)
            };
            match r8_operand_spec(cb % 8) {
                Some(s) => m1 == m0 && i == (Instruction { mnemonic: mn, bytes: 2, cycles: 2 })
                    && c1 == cpu_with_regs(
                    c0,
                    with_pc(set_r8_spec(r, s, nv), pc.wrapping_add(2)),
                ),
                None => write_rel(m0, m1, r.hl as int, nv) && i == (Instruction {
                    mnemonic: mn,
                    bytes: 2,
                    cycles: 4,
                }) && c1 == cpu_with_regs(c0, with_pc(r, pc.wrapping_add(2))),
            }
        }
    }
}

/// The register file after writing an 8-bit register and keeping the carry
/// flag, as INC r8 and DEC r8 do.
pub open spec fn incdec8_regs(r: Registers, name: R8, v: u8, f: Flags) -> Registers {
    with_flags(set_r8_spec(r, name, v), (Flags { carry: r.flags.carry, ..f }))
}

/// What one opcode of the mixed 0x00-0x3F block does, with operands read
/// behind `base`.
pub open spec fn base_block_spec(
    op: u8,
    base: u16,
    c0: Cpu,
    m0: Memory,
    c1: Cpu,
    m1: Memory,
    i: Instruction,
) -> bool {
    let r = c0.registers;
    let pc = r.pc;
    let n8 = imm8_spec(m0, base);
    let n16 = imm16_spec(m0, base);
    match op {
        0x00u8 => m1 == m0 && i == (Instruction { mnemonic: Mnemonic::NOP, bytes: 1, cycles: 1 })
            && c1 == cpu_with_regs(c0, with_pc(r, pc.wrapping_add(1))),
        0x01u8 => m1 == m0 && i == (Instruction { mnemonic: Mnemonic::LD, bytes: 3, cycles: 3 })
            && c1 == cpu_with_regs(c0, with_pc(set_r16_spec(r, R16::BC, n16), pc.wrapping_add(3))),
        0x02u8 => write_rel(m0, m1, r.bc as int, r.a) && i == (Instruction {
            mnemonic: Mnemonic::LD,
            bytes: 1,
            cycles: 2,
        }) && c1 == cpu_with_regs(c0, with_pc(r, pc.wrapping_add(1))),
        0x03u8 => m1 == m0 && i == (Instruction { mnemonic: Mnemonic::INC, bytes: 1, cycles: 2 })
            && c1 == cpu_with_regs(
            c0,
            with_pc(set_r16_spec(r, R16::BC, add16_sum(r.bc, 1, 0)), pc.wrapping_add(1)),
        ),
        0x04u8 => m1 == m0 && i == (Instruction { mnemonic: Mnemonic::INC, bytes: 1, cycles: 1 })
            && c1 == cpu_with_regs(
            c0,
            with_pc(
                incdec8_regs(r, R8::B, add8_sum(r.b, 1, 0), add8_flags(r.b, 1, 0)),
                pc.wrapping_add(1),
            ),
        ),
        0x05u8 => m1 == m0 && i == (Instruction { mnemonic: Mnemonic::DEC, bytes: 1, cycles: 1 })
            && c1 == cpu_with_regs(
            c0,
            with_pc(
                incdec8_regs(r, R8::B, sub8_sum(r.b, 1, 0), sub8_flags(r.b, 1, 0)),
                pc.wrapping_add(1),
            ),
        ),
        0x06u8 => m1 == m0 && i == (Instruction { mnemonic: Mnemonic::LD, bytes: 2, cycles: 2 })
            && c1 == cpu_with_regs(c0, with_pc(set_r8_spec(r, R8::B, n8), pc.wrapping_add(2))),
        0x07u8 => m1 == m0 && i == (Instruction { mnemonic: Mnemonic::RLCA, bytes: 1, cycles: 1 })
            && c1 == cpu_with_regs(
            c0,
            with_pc(
                with_flags(set_r8_spec(r, R8::A, rlc_val(r.a)), rotate_a_flags_spec(r.a >> 7 == 1)),
                pc.wrapping_add(1),
            ),
        ),
        0x08u8 => sp_stored(m0, m1, n16, r.sp) && i == (Instruction {
            mnemonic: Mnemonic::LD,
            bytes: 3,
            cycles: 5,
        }) && c1 == cpu_with_regs(c0, with_pc(r, pc.wrapping_add(3))),
        0x09u8 => m1 == m0 && i == (Instruction { mnemonic: Mnemonic::ADD, bytes: 1, cycles: 2 })
            && c1 == cpu_with_regs(
            c0,
            with_pc(
                with_flags(
                    set_r16_spec(r, R16::HL, add16_sum(r.hl, r.bc, 0)),
                    (Flags { zero: r.flags.zero, ..add16_flags(r.hl, r.bc, 0) }),
                ),
                pc.wrapping_add(1),
            ),
        ),
        0x0au8 => m1 == m0 && i == (Instruction { mnemonic: Mnemonic::LD, bytes: 1, cycles: 2 })
            && c1 == cpu_with_regs(
            c0,
            with_pc(set_r8_spec(r, R8::A, read_spec(m0, r.bc as int)), pc.wrapping_add(1)),
        ),
        0x0bu8 => m1 == m0 && i == (Instruction { mnemonic: Mnemonic::DEC, bytes: 1, cycles: 2 })
            && c1 == cpu_with_regs(
            c0,
            with_pc(set_r16_spec(r, R16::BC, sub16_sum(r.bc, 1, 0)), pc.wrapping_add(1)),
        ),
        0x0cu8 => m1 == m0 && i == (Instruction { mnemonic: Mnemonic::INC, bytes: 1, cycles: 1 })
            && c1 == cpu_with_regs(
            c0,
            with_pc(
                incdec8_regs(r, R8::C, add8_sum(r.c, 1, 0), add8_flags(r.c, 1, 0)),
                pc.wrapping_add(1),
            ),
        ),
        0x0du8 => m1 == m0 && i == (Instruction { mnemonic: Mnemonic::DEC, bytes: 1, cycles: 1 })
            && c1 == cpu_with_regs(
            c0,
            with_pc(
                incdec8_regs(r, R8::C, sub8_sum(r.c, 1, 0), sub8_flags(r.c, 1, 0)),
                pc.wrapping_add(1),
            ),
        ),
        0x0eu8 => m1 == m0 && i == (Instruction { mnemonic: Mnemonic::LD, bytes: 2, cycles: 2 })
            && c1 == cpu_with_regs(c0, with_pc(set_r8_spec(r, R8::C, n8), pc.wrapping_add(2))),
        0x0fu8 => m1 == m0 && i == (Instruction { mnemonic: Mnemonic::RRCA, bytes: 1, cycles: 1 })
            && c1 == cpu_with_regs(
            c0,
            with_pc(
                with_flags(set_r8_spec(r, R8::A, rrc_val(r.a)), rotate_a_flags_spec(r.a & 1 == 1)),
                pc.wrapping_add(1),
            ),
        ),
        0x10u8 => write_rel(m0, m1, crate::memory::registers::DIV as int, 0) && i == (Instruction {
            mnemonic: Mnemonic::STOP,
            bytes: 2,
            cycles: 1,
        }) && c1 == (Cpu { stopped: true, registers: with_pc(r, pc.wrapping_add(2)), ..c0 }),
        0x11u8 => m1 == m0 && i == (Instruction { mnemonic: Mnemonic::LD, bytes: 3, cycles: 3 })
            && c1 == cpu_with_regs(c0, with_pc(set_r16_spec(r, R16::DE, n16), pc.wrapping_add(3))),
        0x12u8 => write_rel(m0, m1, r.de as int, r.a) && i == (Instruction {
            mnemonic: Mnemonic::LD,
            bytes: 1,
            cycles: 2,
        }) && c1 == cpu_with_regs(c0, with_pc(r, pc.wrapping_add(1))),
        0x13u8 => m1 == m0 && i == (Instruction { mnemonic: Mnemonic::INC, bytes: 1, cycles: 2 })
            && c1 == cpu_with_regs(
            c0,
            with_pc(set_r16_spec(r, R16::DE, add16_sum(r.de, 1, 0)), pc.wrapping_add(1)),
        ),
        0x14u8 => m1 == m0 && i == (Instruction { mnemonic: Mnemonic::INC, bytes: 1, cycles: 1 })
            && c1 == cpu_with_regs(
            c0,
            with_pc(
                incdec8_regs(r, R8::D, add8_sum(r.d, 1, 0), add8_flags(r.d, 1, 0)),
                pc.wrapping_add(1),
            ),
        ),
        0x15u8 => m1 == m0 && i == (Instruction { mnemonic: Mnemonic::DEC, bytes: 1, cycles: 1 })
            && c1 == cpu_with_regs(
            c0,
            with_pc(
                incdec8_regs(r, R8::D, sub8_sum(r.d, 1, 0), sub8_flags(r.d, 1, 0)),
                pc.wrapping_add(1),
            ),
        ),
        0x16u8 => m1 == m0 && i == (Instruction { mnemonic: Mnemonic::LD, bytes: 2, cycles: 2 })
            && c1 == cpu_with_regs(c0, with_pc(set_r8_spec(r, R8::D, n8), pc.wrapping_add(2))),
        0x17u8 => m1 == m0 && i == (Instruction { mnemonic: Mnemonic::RLA, bytes: 1, cycles: 1 })
            && c1 == cpu_with_regs(
            c0,
            with_pc(
                with_flags(
                    set_r8_spec(r, R8::A, rl_val(r.a, r.flags.carry)),
                    rotate_a_flags_spec(r.a >> 7 == 1),
                ),
                pc.wrapping_add(1),
            ),
        ),
        0x18u8 => m1 == m0 && i == (Instruction { mnemonic: Mnemonic::JR, bytes: 2, cycles: 3 })
            && c1 == cpu_with_regs(c0, with_pc(r, pc.wrapping_add((n8 as i8) as u16))),
        0x19u8 => m1 == m0 && i == (Instruction { mnemonic: Mnemonic::ADD, bytes: 1, cycles: 2 })
            && c1 == cpu_with_regs(
            c0,
            with_pc(
                with_flags(
                    set_r16_spec(r, R16::HL, add16_sum(r.hl, r.de, 0)),
                    (Flags { zero: r.flags.zero, ..add16_flags(r.hl, r.de, 0) }),
                ),
                pc.wrapping_add(1),
            ),
        ),
        0x1au8 => m1 == m0 && i == (Instruction { mnemonic: Mnemonic::LD, bytes: 1, cycles: 2 })
            && c1 == cpu_with_regs(
            c0,
            with_pc(set_r8_spec(r, R8::A, read_spec(m0, r.de as int)), pc.wrapping_add(1)),
        ),
        0x1bu8 => m1 == m0 && i == (Instruction { mnemonic: Mnemonic::DEC, bytes: 1, cycles: 2 })
            && c1 == cpu_with_regs(
            c0,
            with_pc(set_r16_spec(r, R16::DE, sub16_sum(r.de, 1, 0)), pc.wrapping_add(1)),
        ),
        0x1cu8 => m1 == m0 && i == (Instruction { mnemonic: Mnemonic::INC, bytes: 1, cycles: 1 })
            && c1 == cpu_with_regs(
            c0,
            with_pc(
                incdec8_regs(r, R8::E, add8_sum(r.e, 1, 0), add8_flags(r.e, 1, 0)),
                pc.wrapping_add(1),
            ),
        ),
        0x1du8 => m1 == m0 && i == (Instruction { mnemonic: Mnemonic::DEC, bytes: 1, cycles: 1 })
            && c1 == cpu_with_regs(
            c0,
            with_pc(
                incdec8_regs(r, R8::E, sub8_sum(r.e, 1, 0), sub8_flags(r.e, 1, 0)),
                pc.wrapping_add(1),
            ),
        ),
        0x1eu8 => m1 == m0 && i == (Instruction { mnemonic: Mnemonic::LD, bytes: 2, cycles: 2 })
            && c1 == cpu_with_regs(c0, with_pc(set_r8_spec(r, R8::E, n8), pc.wrapping_add(2))),
        0x1fu8 => m1 == m0 && i == (Instruction { mnemonic: Mnemonic::RRA, bytes: 1, cycles: 1 })
            && c1 == cpu_with_regs(
            c0,
            with_pc(
                with_flags(
                    set_r8_spec(r, R8::A, rr_val(r.a, r.flags.carry)),
                    rotate_a_flags_spec(r.a & 1 == 1),
                ),
                pc.wrapping_add(1),
            ),
        ),
        0x20u8 => m1 == m0 && jr_cc_spec(Condition::NotZero, n8, c0, c1, i),
        0x21u8 => m1 == m0 && i == (Instruction { mnemonic: Mnemonic::LD, bytes: 3, cycles: 3 })
            && c1 == cpu_with_regs(c0, with_pc(set_r16_spec(r, R16::HL, n16), pc.wrapping_add(3))),
        0x22u8 => write_rel(m0, m1, r.hl as int, r.a) && i == (Instruction {
            mnemonic: Mnemonic::LD,
            bytes: 1,
            cycles: 2,
        }) && c1 == cpu_with_regs(
            c0,
            with_pc(set_r16_spec(r, R16::HL, r.hl.wrapping_add(1)), pc.wrapping_add(1)),
        ),
        0x23u8 => m1 == m0 && i == (Instruction { mnemonic: Mnemonic::INC, bytes: 1, cycles: 2 })
            && c1 == cpu_with_regs(
            c0,
            with_pc(set_r16_spec(r, R16::HL, add16_sum(r.hl, 1, 0)), pc.wrapping_add(1)),
        ),
        0x24u8 => m1 == m0 && i == (Instruction { mnemonic: Mnemonic::INC, bytes: 1, cycles: 1 })
            && c1 == cpu_with_regs(
            c0,
            with_pc(
                incdec8_regs(r, R8::H, add8_sum(r.h, 1, 0), add8_flags(r.h, 1, 0)),
                pc.wrapping_add(1),
            ),
        ),
        0x25u8 => m1 == m0 && i == (Instruction { mnemonic: Mnemonic::DEC, bytes: 1, cycles: 1 })
            && c1 == cpu_with_regs(
            c0,
            with_pc(
                incdec8_regs(r, R8::H, sub8_sum(r.h, 1, 0), sub8_flags(r.h, 1, 0)),
                pc.wrapping_add(1),
            ),
        ),
        0x26u8 => m1 == m0 && i == (Instruction { mnemonic: Mnemonic::LD, bytes: 2, cycles: 2 })
            && c1 == cpu_with_regs(c0, with_pc(set_r8_spec(r, R8::H, n8), pc.wrapping_add(2))),
        0x27u8 => m1 == m0 && i == (Instruction { mnemonic: Mnemonic::DAA, bytes: 1, cycles: 1 })
            && c1 == cpu_with_regs(
            c0,
            with_pc(
                with_flags(set_r8_spec(r, R8::A, daa_a(r.a, r.flags)), daa_flags(r.a, r.flags)),
                pc.wrapping_add(1),
            ),
        ),
        0x28u8 => m1 == m0 && jr_cc_spec(Condition::Zero, n8, c0, c1, i),
        0x29u8 => m1 == m0 && i == (Instruction { mnemonic: Mnemonic::ADD, bytes: 1, cycles: 2 })
            && c1 == cpu_with_regs(
            c0,
            with_pc(
                with_flags(
                    set_r16_spec(r, R16::HL, add16_sum(r.hl, r.hl, 0)),
                    (Flags { zero: r.flags.zero, ..add16_flags(r.hl, r.hl, 0) }),
                ),
                pc.wrapping_add(1),
            ),
        ),
        0x2au8 => m1 == m0 && i == (Instruction { mnemonic: Mnemonic::LD, bytes: 1, cycles: 2 })
            && c1 == cpu_with_regs(
            c0,
            with_pc(
                set_r16_spec(
                    set_r8_spec(r, R8::A, read_spec(m0, r.hl as int)),
                    R16::HL,
                    r.hl.wrapping_add(1),
                ),
                pc.wrapping_add(1),
            ),
        ),
        0x2bu8 => m1 == m0 && i == (Instruction { mnemonic: Mnemonic::DEC, bytes: 1, cycles: 2 })
            && c1 == cpu_with_regs(
            c0,
            with_pc(set_r16_spec(r, R16::HL, sub16_sum(r.hl, 1, 0)), pc.wrapping_add(1)),
        ),
        0x2cu8 => m1 == m0 && i == (Instruction { mnemonic: Mnemonic::INC, bytes: 1, cycles: 1 })
            && c1 == cpu_with_regs(
            c0,
            with_pc(
                incdec8_regs(r, R8::L, add8_sum(r.l, 1, 0), add8_flags(r.l, 1, 0)),
                pc.wrapping_add(1),
            ),
        ),
        0x2du8 => m1 == m0 && i == (Instruction { mnemonic: Mnemonic::DEC, bytes: 1, cycles: 1 })
            && c1 == cpu_with_regs(
            c0,
            with_pc(
                incdec8_regs(r, R8::L, sub8_sum(r.l, 1, 0), sub8_flags(r.l, 1, 0)),
                pc.wrapping_add(1),
            ),
        ),
        0x2eu8 => m1 == m0 && i == (Instruction { mnemonic: Mnemonic::LD, bytes: 2, cycles: 2 })
            && c1 == cpu_with_regs(c0, with_pc(set_r8_spec(r, R8::L, n8), pc.wrapping_add(2))),
        0x2fu8 => m1 == m0 && i == (Instruction { mnemonic: Mnemonic::CPL, bytes: 1, cycles: 1 })
            && c1 == cpu_with_regs(
            c0,
            with_pc(
                with_flags(
                    set_r8_spec(r, R8::A, !r.a),
                    (Flags {
                        zero: r.flags.zero,
                        subtraction: true,
                        half_carry: true,
                        carry: r.flags.carry,
                    }),
                ),
                pc.wrapping_add(1),
            ),
        ),
        0x30u8 => m1 == m0 && jr_cc_spec(Condition::NotCarry, n8, c0, c1, i),
        0x31u8 => m1 == m0 && i == (Instruction { mnemonic: Mnemonic::LD, bytes: 3, cycles: 3 })
            && c1 == cpu_with_regs(c0, with_pc(set_r16_spec(r, R16::SP, n16), pc.wrapping_add(3))),
        0x32u8 => write_rel(m0, m1, r.hl as int, r.a) && i == (Instruction {
            mnemonic: Mnemonic::LD,
            bytes: 1,
            cycles: 2,
        }) && c1 == cpu_with_regs(
            c0,
            with_pc(set_r16_spec(r, R16::HL, r.hl.wrapping_sub(1)), pc.wrapping_add(1)),
        ),
        0x33u8 => m1 == m0 && i == (Instruction { mnemonic: Mnemonic::INC, bytes: 1, cycles: 2 })
            && c1 == cpu_with_regs(
            c0,
            with_pc(set_r16_spec(r, R16::SP, r.sp.wrapping_add(1)), pc.wrapping_add(1)),
        ),
        0x34u8 => write_rel(
            m0,
            m1,
            r.hl as int,
            add8_sum(read_spec(m0, r.hl as int), 1, 0),
        ) && i == (Instruction { mnemonic: Mnemonic::INC, bytes: 1, cycles: 3 }) && c1
            == cpu_with_regs(
            c0,
            with_pc(
                with_flags(
                    r,
                    (Flags {
                        carry: r.flags.carry,
                        ..add8_flags(read_spec(m0, r.hl as int), 1, 0)
                    }),
                ),
                pc.wrapping_add(1),
            ),
        ),
        0x35u8 => write_rel(
            m0,
            m1,
            r.hl as int,
            sub8_sum(read_spec(m0, r.hl as int), 1, 0),
        ) && i == (Instruction { mnemonic: Mnemonic::DEC, bytes: 1, cycles: 3 }) && c1
            == cpu_with_regs(
            c0,
            with_pc(
                with_flags(
                    r,
                    (Flags {
                        carry: r.flags.carry,
                        ..sub8_flags(read_spec(m0, r.hl as int), 1, 0)
                    }),
                ),
                pc.wrapping_add(1),
            ),
        ),
        0x36u8 => write_rel(m0, m1, r.hl as int, n8) && i == (Instruction {
            mnemonic: Mnemonic::LD,
            bytes: 2,
            cycles: 3,
        }) && c1 == cpu_with_regs(c0, with_pc(r, pc.wrapping_add(2))),
        0x37u8 => m1 == m0 && i == (Instruction { mnemonic: Mnemonic::SCF, bytes: 1, cycles: 1 })
            && c1 == cpu_with_regs(
            c0,
            with_pc(
                with_flags(
                    r,
                    (Flags {
                        zero: r.flags.zero,
                        subtraction: false,
                        half_carry: false,
                        carry: true,
                    }),
                ),
                pc.wrapping_add(1),
            ),
        ),
        0x38u8 => m1 == m0 && jr_cc_spec(Condition::Carry, n8, c0, c1, i),
        0x39u8 => m1 == m0 && i == (Instruction { mnemonic: Mnemonic::ADD, bytes: 1, cycles: 2 })
            && c1 == cpu_with_regs(
            c0,
            with_pc(
                with_flags(
                    set_r16_spec(r, R16::HL, add16_sum(r.hl, r.sp, 0)),
                    (Flags { zero: r.flags.zero, ..add16_flags(r.hl, r.sp, 0) }),
                ),
                pc.wrapping_add(1),
            ),
        ),
        0x3au8 => m1 == m0 && i == (Instruction { mnemonic: Mnemonic::LD, bytes: 1, cycles: 2 })
            && c1 == cpu_with_regs(
            c0,
            with_pc(
                set_r16_spec(
                    set_r8_spec(r, R8::A, read_spec(m0, r.hl as int)),
                    R16::HL,
                    r.hl.wrapping_sub(1),
                ),
                pc.wrapping_add(1),
            ),
        ),
        0x3bu8 => m1 == m0 && i == (Instruction { mnemonic: Mnemonic::DEC, bytes: 1, cycles: 2 })
            && c1 == cpu_with_regs(
            c0,
            with_pc(set_r16_spec(r, R16::SP, r.sp.wrapping_sub(1)), pc.wrapping_add(1)),
        ),
        0x3cu8 => m1 == m0 && i == (Instruction { mnemonic: Mnemonic::INC, bytes: 1, cycles: 1 })
            && c1 == cpu_with_regs(
            c0,
            with_pc(
                incdec8_regs(r, R8::A, add8_sum(r.a, 1, 0), add8_flags(r.a, 1, 0)),
                pc.wrapping_add(1),
            ),
        ),
        0x3du8 => m1 == m0 && i == (Instruction { mnemonic: Mnemonic::DEC, bytes: 1, cycles: 1 })
            && c1 == cpu_with_regs(
            c0,
            with_pc(
                incdec8_regs(r, R8::A, sub8_sum(r.a, 1, 0), sub8_flags(r.a, 1, 0)),
                pc.wrapping_add(1),
            ),
        ),
        0x3eu8 => m1 == m0 && i == (Instruction { mnemonic: Mnemonic::LD, bytes: 2, cycles: 2 })
            && c1 == cpu_with_regs(c0, with_pc(set_r8_spec(r, R8::A, n8), pc.wrapping_add(2))),
        0x3fu8 => m1 == m0 && i == (Instruction { mnemonic: Mnemonic::CCF, bytes: 1, cycles: 1 })
            && c1 == cpu_with_regs(
            c0,
            with_pc(
                with_flags(
                    r,
                    (Flags {
                        zero: r.flags.zero,
                        subtraction: false,
                        half_carry: false,
                        carry: !r.flags.carry,
                    }),
                ),
                pc.wrapping_add(1),
            ),
        ),
        _ => false,
    }
}

/// What a conditional relative jump does to the processor.
pub open spec fn jr_cc_spec(cond: Condition, e8: u8, c0: Cpu, c1: Cpu, i: Instruction) -> bool {
    let r = c0.registers;
    if cond_holds(r.flags, cond) {
        i == (Instruction { mnemonic: Mnemonic::JR, bytes: 2, cycles: 3 }) && c1 == cpu_with_regs(
            c0,
            with_pc(r, r.pc.wrapping_add((e8 as i8) as u16)),
        )
    } else {
        i == (Instruction { mnemonic: Mnemonic::JR, bytes: 2, cycles: 2 }) && c1 == cpu_with_regs(
            c0,
            with_pc(r, r.pc.wrapping_add(2)),
        )
    }
}

/// What a conditional return does to the machine.
pub open spec fn ret_cc_spec(
    cond: Condition,
    c0: Cpu,
    m0: Memory,
    c1: Cpu,
    i: Instruction,
) -> bool {
    let r = c0.registers;
    if cond_holds(r.flags, cond) {
        i == (Instruction { mnemonic: Mnemonic::RET, bytes: 1, cycles: 5 }) && c1 == cpu_with_regs(
            c0,
            set_r16_spec(
                set_r16_spec(r, R16::SP, r.sp.wrapping_add(2)),
                R16::PC,
                popped_value(m0, r.sp),
            ),
        )
    } else {
        i == (Instruction { mnemonic: Mnemonic::RET, bytes: 1, cycles: 2 }) && c1 == cpu_with_regs(
            c0,
            with_pc(r, r.pc.wrapping_add(1)),
        )
    }
}

/// What a pop into a 16-bit register does to the machine.
pub open spec fn pop_spec(name: R16, c0: Cpu, m0: Memory, c1: Cpu, i: Instruction) -> bool {
    let r = c0.registers;
    let p = set_r16_spec(
        set_r16_spec(r, R16::SP, r.sp.wrapping_add(2)),
        name,
        popped_value(m0, r.sp),
    );
    i == (Instruction { mnemonic: Mnemonic::POP, bytes: 1, cycles: 3 }) && c1 == cpu_with_regs(
        c0,
        with_pc(p, p.pc.wrapping_add(1)),
    )
}

/// What a conditional absolute jump does to the processor.
pub open spec fn jp_cc_spec(cond: Condition, n16: u16, c0: Cpu, c1: Cpu, i: Instruction) -> bool {
    let r = c0.registers;
    if cond_holds(r.flags, cond) {
        i == (Instruction { mnemonic: Mnemonic::JP, bytes: 3, cycles: 4 }) && c1 == cpu_with_regs(
            c0,
            with_pc(r, n16),
        )
    } else {
        i == (Instruction { mnemonic: Mnemonic::JP, bytes: 3, cycles: 3 }) && c1 == cpu_with_regs(
            c0,
            with_pc(r, r.pc.wrapping_add(3)),
        )
    }
}

/// What a conditional call does to the machine.
pub open spec fn call_cc_spec(
    cond: Condition,
    n16: u16,
    c0: Cpu,
    m0: Memory,
    c1: Cpu,
    m1: Memory,
    i: Instruction,
) -> bool {
    let r = c0.registers;
    if cond_holds(r.flags, cond) {
        &&& pushed(m0, m1, r.sp, r.pc.wrapping_add(3))
        &&& i == (Instruction { mnemonic: Mnemonic::CALL, bytes: 3, cycles: 6 })
        &&& c1 == cpu_with_regs(c0, with_pc(set_r16_spec(r, R16::SP, r.sp.wrapping_sub(2)), n16))
    } else {
        &&& m1 == m0
        &&& i == (Instruction { mnemonic: Mnemonic::CALL, bytes: 3, cycles: 3 })
        &&& c1 == cpu_with_regs(c0, with_pc(r, r.pc.wrapping_add(3)))
    }
}

/// What a push of a 16-bit value does to the machine.
pub open spec fn push_spec(v: u16, c0: Cpu, m0: Memory, c1: Cpu, m1: Memory, i: Instruction) -> bool {
    let r = c0.registers;
    &&& pushed(m0, m1, r.sp, v)
    &&& i == (Instruction { mnemonic: Mnemonic::PUSH, bytes: 1, cycles: 4 })
    &&& c1 == cpu_with_regs(
        c0,
        with_pc(set_r16_spec(r, R16::SP, r.sp.wrapping_sub(2)), r.pc.wrapping_add(1)),
    )
}

/// What a restart to a fixed vector does to the machine.
pub open spec fn rst_spec(vec: u16, c0: Cpu, m0: Memory, c1: Cpu, m1: Memory, i: Instruction) -> bool {
    let r = c0.registers;
    &&& pushed(m0, m1, r.sp, r.pc.wrapping_add(1))
    &&& i == (Instruction { mnemonic: Mnemonic::RST, bytes: 1, cycles: 4 })
    &&& c1 == cpu_with_regs(c0, with_pc(set_r16_spec(r, R16::SP, r.sp.wrapping_sub(2)), vec))
}

/// What an accumulator arithmetic/logic opcode with an immediate operand
/// does to the processor.
pub open spec fn alu_n8_spec(k: u8, n8: u8, c0: Cpu, c1: Cpu, i: Instruction) -> bool {
    i == (Instruction { mnemonic: alu_mnemonic(k), bytes: 2, cycles: 2 }) && c1 == cpu_with_regs(
        c0,
        with_pc(alu_regs_spec(k, c0.registers, n8), c0.registers.pc.wrapping_add(2)),
    )
}

/// What one opcode of the control/stack/immediate block 0xC0-0xFF does,
/// with operands read behind `base`; false for the unassigned bytes.
pub open spec fn ctrl_block_spec(
    op: u8,
    base: u16,
    c0: Cpu,
    m0: Memory,
    c1: Cpu,
    m1: Memory,
    i: Instruction,
) -> bool {
    if op < 0xd0 {
        ctrl_c_spec(op, base, c0, m0, c1, m1, i)
    } else if op < 0xe0 {
        ctrl_d_spec(op, base, c0, m0, c1, m1, i)
    } else if op < 0xf0 {
        ctrl_e_spec(op, base, c0, m0, c1, m1, i)
    } else {
        ctrl_f_spec(op, base, c0, m0, c1, m1, i)
    }
}

/// The 0xC0-0xCF sixteenth of the control block.
pub open spec fn ctrl_c_spec(
    op: u8,
    base: u16,
    c0: Cpu,
    m0: Memory,
    c1: Cpu,
    m1: Memory,
    i: Instruction,
) -> bool {
    let r = c0.registers;
    let pc = r.pc;
    let n8 = imm8_spec(m0, base);
    let n16 = imm16_spec(m0, base);
    match op {
        0xc0u8 => m1 == m0 && ret_cc_spec(Condition::NotZero, c0, m0, c1, i),
        0xc1u8 => m1 == m0 && pop_spec(R16::BC, c0, m0, c1, i),
        0xc2u8 => m1 == m0 && jp_cc_spec(Condition::NotZero, n16, c0, c1, i),
        0xc3u8 => m1 == m0 && i == (Instruction { mnemonic: Mnemonic::JP, bytes: 3, cycles: 4 })
            && c1 == cpu_with_regs(c0, with_pc(r, n16)),
        0xc4u8 => call_cc_spec(Condition::NotZero, n16, c0, m0, c1, m1, i),
        0xc5u8 => push_spec(r.bc, c0, m0, c1, m1, i),
        0xc6u8 => m1 == m0 && alu_n8_spec(0, n8, c0, c1, i),
        0xc7u8 => rst_spec(0x00, c0, m0, c1, m1, i),
        0xc8u8 => m1 == m0 && ret_cc_spec(Condition::Zero, c0, m0, c1, i),
        0xc9u8 => m1 == m0 && i == (Instruction { mnemonic: Mnemonic::RET, bytes: 1, cycles: 4 })
            && c1 == cpu_with_regs(
            c0,
            set_r16_spec(
                set_r16_spec(r, R16::SP, r.sp.wrapping_add(2)),
                R16::PC,
                popped_value(m0, r.sp),
            ),
        ),
        0xcau8 => m1 == m0 && jp_cc_spec(Condition::Zero, n16, c0, c1, i),
        0xccu8 => call_cc_spec(Condition::Zero, n16, c0, m0, c1, m1, i),
        0xcdu8 => pushed(m0, m1, r.sp, pc.wrapping_add(3)) && i == (Instruction {
            mnemonic: Mnemonic::CALL,
            bytes: 3,
            cycles: 6,
        }) && c1 == cpu_with_regs(c0, with_pc(set_r16_spec(r, R16::SP, r.sp.wrapping_sub(2)), n16)),
        0xceu8 => m1 == m0 && alu_n8_spec(1, n8, c0, c1, i),
        0xcfu8 => rst_spec(0x08, c0, m0, c1, m1, i),
        _ => false,
    }
}

/// The 0xD0-0xDF sixteenth of the control block.
pub open spec fn ctrl_d_spec(
    op: u8,
    base: u16,
    c0: Cpu,
    m0: Memory,
    c1: Cpu,
    m1: Memory,
    i: Instruction,
) -> bool {
    let r = c0.registers;
    let pc = r.pc;
    let n8 = imm8_spec(m0, base);
    let n16 = imm16_spec(m0, base);
    match op {
        0xd0u8 => m1 == m0 && ret_cc_spec(Condition::NotCarry, c0, m0, c1, i),
        0xd1u8 => m1 == m0 && pop_spec(R16::DE, c0, m0, c1, i),
        0xd2u8 => m1 == m0 && jp_cc_spec(Condition::NotCarry, n16, c0, c1, i),
        0xd4u8 => call_cc_spec(Condition::NotCarry, n16, c0, m0, c1, m1, i),
        0xd5u8 => push_spec(r.de, c0, m0, c1, m1, i),
        0xd6u8 => m1 == m0 && alu_n8_spec(2, n8, c0, c1, i),
        0xd7u8 => rst_spec(0x10, c0, m0, c1, m1, i),
        0xd8u8 => m1 == m0 && ret_cc_spec(Condition::Carry, c0, m0, c1, i),
        0xd9u8 => m1 == m0 && i == (Instruction { mnemonic: Mnemonic::RETI, bytes: 1, cycles: 4 })
            && c1 == (Cpu {
            ime: true,
            registers: set_r16_spec(
                set_r16_spec(r, R16::SP, r.sp.wrapping_add(2)),
                R16::PC,
                popped_value(m0, r.sp),
            ),
            ..c0
        }),
        0xdau8 => m1 == m0 && jp_cc_spec(Condition::Carry, n16, c0, c1, i),
        0xdcu8 => call_cc_spec(Condition::Carry, n16, c0, m0, c1, m1, i),
        0xdeu8 => m1 == m0 && alu_n8_spec(3, n8, c0, c1, i),
        0xdfu8 => rst_spec(0x18, c0, m0, c1, m1, i),
        _ => false,
    }
}

/// The 0xE0-0xEF sixteenth of the control block.
pub open spec fn ctrl_e_spec(
    op: u8,
    base: u16,
    c0: Cpu,
    m0: Memory,
    c1: Cpu,
    m1: Memory,
    i: Instruction,
) -> bool {
    let r = c0.registers;
    let pc = r.pc;
    let n8 = imm8_spec(m0, base);
    let n16 = imm16_spec(m0, base);
    match op {
        0xe0u8 => write_rel(m0, m1, (0xff00 + n8) as int, r.a) && i == (Instruction {
            mnemonic: Mnemonic::LDH,
            bytes: 2,
            cycles: 3,
        }) && c1 == cpu_with_regs(c0, with_pc(r, pc.wrapping_add(2))),
        0xe1u8 => m1 == m0 && pop_spec(R16::HL, c0, m0, c1, i),
        0xe2u8 => write_rel(m0, m1, 0xff00 + r.c, r.a) && i == (Instruction {
            mnemonic: Mnemonic::LDH,
            bytes: 1,
            cycles: 2,
        }) && c1 == cpu_with_regs(c0, with_pc(r, pc.wrapping_add(1))),
        0xe5u8 => push_spec(r.hl, c0, m0, c1, m1, i),
        0xe6u8 => m1 == m0 && alu_n8_spec(4, n8, c0, c1, i),
        0xe7u8 => rst_spec(0x20, c0, m0, c1, m1, i),
        0xe8u8 => m1 == m0 && i == (Instruction { mnemonic: Mnemonic::ADD, bytes: 2, cycles: 4 })
            && c1 == cpu_with_regs(
            c0,
            with_pc(
                with_flags(
                    set_r16_spec(r, R16::SP, r.sp.wrapping_add((n8 as i8) as u16)),
                    sp_offset_flags(r.sp, n8),
                ),
                pc.wrapping_add(2),
            ),
        ),
        0xe9u8 => m1 == m0 && i == (Instruction { mnemonic: Mnemonic::JP, bytes: 1, cycles: 1 })
            && c1 == cpu_with_regs(c0, with_pc(r, r.hl)),
        0xeau8 => write_rel(m0, m1, n16 as int, r.a) && i == (Instruction {
            mnemonic: Mnemonic::LD,
            bytes: 3,
            cycles: 4,
        }) && c1 == cpu_with_regs(c0, with_pc(r, pc.wrapping_add(3))),
        0xeeu8 => m1 == m0 && alu_n8_spec(5, n8, c0, c1, i),
        0xefu8 => rst_spec(0x28, c0, m0, c1, m1, i),
        _ => false,
    }
}

/// The 0xF0-0xFF sixteenth of the control block.
pub open spec fn ctrl_f_spec(
    op: u8,
    base: u16,
    c0: Cpu,
    m0: Memory,
    c1: Cpu,
    m1: Memory,
    i: Instruction,
) -> bool {
    let r = c0.registers;
    let pc = r.pc;
    let n8 = imm8_spec(m0, base);
    let n16 = imm16_spec(m0, base);
    match op {
        0xf0u8 => m1 == m0 && i == (Instruction { mnemonic: Mnemonic::LDH, bytes: 2, cycles: 3 })
            && c1 == cpu_with_regs(
            c0,
            with_pc(
                set_r8_spec(r, R8::A, read_spec(m0, (0xff00 + n8) as int)),
                pc.wrapping_add(2),
            ),
        ),
        0xf1u8 => m1 == m0 && pop_spec(R16::AF, c0, m0, c1, i),
        0xf2u8 => m1 == m0 && i == (Instruction { mnemonic: Mnemonic::LDH, bytes: 1, cycles: 2 })
            && c1 == cpu_with_regs(
            c0,
            with_pc(set_r8_spec(r, R8::A, read_spec(m0, 0xff00 + r.c)), pc.wrapping_add(1)),
        ),
        0xf3u8 => m1 == m0 && i == (Instruction { mnemonic: Mnemonic::DI, bytes: 1, cycles: 1 })
            && c1 == di_spec(c0),
        0xf5u8 => push_spec(r.af, c0, m0, c1, m1, i),
        0xf6u8 => m1 == m0 && alu_n8_spec(6, n8, c0, c1, i),
        0xf7u8 => rst_spec(0x30, c0, m0, c1, m1, i),
        0xf8u8 => m1 == m0 && i == (Instruction { mnemonic: Mnemonic::LD, bytes: 2, cycles: 3 })
            && c1 == cpu_with_regs(
            c0,
            with_pc(
                with_flags(
                    set_r16_spec(r, R16::HL, r.sp.wrapping_add((n8 as i8) as u16)),
                    sp_offset_flags(r.sp, (n8 as i8) as u8),
                ),
                pc.wrapping_add(2),
            ),
        ),
        0xf9u8 => m1 == m0 && i == (Instruction { mnemonic: Mnemonic::LD, bytes: 1, cycles: 2 })
            && c1 == cpu_with_regs(c0, with_pc(set_r16_spec(r, R16::SP, r.hl), pc.wrapping_add(1))),
        0xfau8 => m1 == m0 && i == (Instruction { mnemonic: Mnemonic::LD, bytes: 3, cycles: 4 })
            && c1 == cpu_with_regs(
            c0,
            with_pc(set_r8_spec(r, R8::A, read_spec(m0, n16 as int)), pc.wrapping_add(3)),
        ),
        0xfbu8 => m1 == m0 && i == (Instruction { mnemonic: Mnemonic::EI, bytes: 1, cycles: 1 })
            && c1 == ei_spec(c0),
        0xfeu8 => m1 == m0 && alu_n8_spec(7, n8, c0, c1, i),
        0xffu8 => rst_spec(0x38, c0, m0, c1, m1, i),
        _ => false,
    }
}

/// What the instruction an opcode byte names does to the machine: the one
/// transition of processor and bus, and the mnemonic, length and cost it
/// reports. Operand bytes are read through the bus behind `base`, which is
/// one less than PC when the HALT bug is replaying a byte.
pub open spec fn instr_spec(
    op: u8,
    base: u16,
    c0: Cpu,
    m0: Memory,
    c1: Cpu,
    m1: Memory,
    i: Instruction,
) -> bool {
    if op == 0x76 {
        m1 == m0 && i == (Instruction { mnemonic: Mnemonic::HALT, bytes: 1, cycles: 1 }) && c1
            == halt_spec(c0, pending_now(m0))
    } else if 0x40 <= op < 0x80 {
        ld_block_spec(op, c0, m0, c1, m1, i)
    } else if 0x80 <= op < 0xc0 {
        alu_block_spec(op, c0, m0, c1, m1, i)
    } else if op == 0xcb {
        cb_block_spec(imm8_spec(m0, base), c0, m0, c1, m1, i)
    } else if op < 0x40 {
        base_block_spec(op, base, c0, m0, c1, m1, i)
    } else {
        ctrl_block_spec(op, base, c0, m0, c1, m1, i)
    }
}

/// The eleven opcode bytes the processor does not assign.
pub open spec fn illegal_opcode(op: u8) -> bool {
    ||| op == 0xd3
    ||| op == 0xdb
    ||| op == 0xdd
    ||| op == 0xe3
    ||| op == 0xe4
    ||| op == 0xeb
    ||| op == 0xec
    ||| op == 0xed
    ||| op == 0xf4
    ||| op == 0xfc
    ||| op == 0xfd
}

/// The immediate byte after the opcode.
fn imm8(mem: &mut Memory, pc: u16) -> (r: u8)
    requires
        old(mem).wf(),
    ensures
        *final(mem) == *old(mem),
        r == read_spec(*old(mem), pc.wrapping_add(1) as int),
{
    mem.read(pc.wrapping_add(1) as usize)
}

/// The little-endian immediate word after the opcode.
fn imm16(mem: &mut Memory, pc: u16) -> (r: u16)
    requires
        old(mem).wf(),
    ensures
        *final(mem) == *old(mem),
        r == read_spec(*old(mem), pc.wrapping_add(1) as int) + read_spec(
            *old(mem),
            pc.wrapping_add(2) as int,
        ) * 256,
{
    let lo = mem.read(pc.wrapping_add(1) as usize);
    let hi = mem.read(pc.wrapping_add(2) as usize);
    (lo as u16) + (hi as u16) * 256
}

/// The 8-bit register an opcode's low three bits name; the seventh slot is
/// the memory operand [HL].
fn r8_operand(idx: u8) -> (r: Option<R8>)
    ensures
        r == r8_operand_spec(idx),
{
    let i = idx % 8;
    if i == 0 {
        Some(R8::B)
    } else if i == 1 {
        Some(R8::C)
    } else if i == 2 {
        Some(R8::D)
    } else if i == 3 {
        Some(R8::E)
    } else if i == 4 {
        Some(R8::H)
    } else if i == 5 {
        Some(R8::L)
    } else if i == 6 {
        None
    } else {
        Some(R8::A)
    }
}

} // verus!
