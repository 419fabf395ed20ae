use vstd::prelude::*;

use crate::cartridge::{header_error, Cartridge};
use crate::clock::{coupled, Clock};
use crate::cpu::{boot_registers, illegal_opcode, Cpu};
use crate::display::{mode_bits, Ppu};
use crate::errors::{CpuError, SystemError};
use crate::interrupts::{int_mask, int_vector, pending_interrupt, Interrupt};
use crate::memory::registers::{IF, LY, STAT};
use crate::memory::{read_spec, Memory};

verus! {

/// The machine: processor, pixel unit, clock and bus, advanced together on
/// one machine-cycle rail.
pub struct System {
    pub cpu: Cpu,
    pub ppu: Ppu,
    pub clock: Clock,
    pub mem: Memory,
}

/// The interrupt the machine will service next: the highest-priority source
/// both enabled and requested, and only under the master enable.
pub open spec fn serviced(s: System) -> Option<Interrupt> {
    if s.cpu.ime {
        pending_interrupt(s.mem.block[0xffff] & s.mem.block[IF as int])
    } else {
        None
    }
}

impl System {
    /// Every component is structurally sound and the clock coupling holds.
    pub open spec fn wf(self) -> bool {
        &&& self.cpu.registers.wf()
        &&& self.mem.wf()
        &&& self.ppu.inv()
        &&& coupled(self.clock)
    }

    /// Build a machine around a ROM image: parse the cartridge, put the bus
    /// and every register into the documented power-on state, and point the
    /// STAT mode bits at the PPU phase. An unparsable image is refused.
    pub fn new(game: Vec<u8>) -> (r: Result<Self, SystemError>)
        ensures
            header_error(game@) is Some ==> r == Err::<System, SystemError>(
                SystemError::CartridgeError,
            ),
            header_error(game@) is None ==> (r matches Ok(s) && {
                &&& s.wf()
                &&& s.cpu.registers == boot_registers()
                &&& !s.cpu.ime
                &&& !s.cpu.halted
                &&& s.clock == (Clock { master_clock: 0, m_cycles: 0, dots: 0, tima_acc: 0 })
                &&& s.mem.cartridge.rom@ == game@
                &&& s.mem.div_counter == 0x1800
                &&& s.mem.block[crate::memory::registers::LCDC as int] == 0x91
                &&& s.mem.block[STAT as int] % 4 == mode_bits(s.ppu.mode)
                &&& s.ppu.mode_ok(s.mem)
                &&& s.ppu.dot == 0
                &&& s.mem.block[LY as int] == 0
            }),
    {
        let cartridge = match Cartridge::new(game) {
            Ok(c) => c,
            Err(_) => {
                return Err(SystemError::CartridgeError);
            }
        };
        let mut mem = Memory::new(cartridge);
        proof {
            assert(!crate::memory::boot_io_reg(LY as int));
            assert(mem.block[LY as int] == 0);
        }
        let ppu = Ppu::new();
        mem.set_reg(STAT, 0x86);
        Ok(Self { cpu: Cpu::default(), ppu, clock: Clock::new(), mem })
    }

    /// Transfer control to the handler of a pending interrupt, when the
    /// master enable is set and a source is both enabled and requested:
    /// clear its IF bit and the master enable, wake a halted processor,
    /// push PC and jump to the fixed vector. With nothing to service the
    /// machine is untouched. Bits of IF that IE masks out never reach a
    /// handler.
    #[verifier::rlimit(100)]
    fn handle_interrupt(&mut self) -> (r: Result<(), SystemError>)
        requires
            old(self).wf(),
        ensures
            final(self).wf(),
            r is Ok,
            final(self).clock == old(self).clock,
            final(self).ppu == old(self).ppu,
            serviced(*old(self)) is None ==> *final(self) == *old(self),
            serviced(*old(self)) matches Some(i) ==> {
                &&& !final(self).cpu.ime
                &&& !final(self).cpu.halted
                &&& final(self).cpu.registers.pc == int_vector(i)
                &&& final(self).cpu.registers.sp == old(self).cpu.registers.sp.wrapping_sub(2)
                &&& exists|m1: Memory|
                    {
                        &&& #[trigger] crate::memory::write_touches(
                            old(self).mem,
                            m1,
                            old(self).mem.block@.update(
                                IF as int,
                                (old(self).mem.block[IF as int] & !int_mask(i)),
                            ),
                            old(self).mem.ext_ram@,
                            old(self).mem.mbc,
                        )
                        &&& crate::instructions::stack::pushed(
                            m1,
                            final(self).mem,
                            old(self).cpu.registers.sp,
                            old(self).cpu.registers.pc,
                        )
                    }
            },
    {
        if !self.cpu.ime {
            return Ok(());
        }
        let ie = self.mem.get_interrupt_registers();
        let iff = self.mem.get_interrupt_flag();
        let mask = ie & iff;
        let interrupt = match Interrupt::get_interrupt(&mask) {
            Some(i) => i,
            None => {
                return Ok(());
            }
        };
        let m = interrupt.mask();
        self.mem.set_reg(IF, iff & !m);
        let ghost m1 = self.mem;
        self.cpu.ime = false;
        self.cpu.halted = false;
        let handler = interrupt.vector();
        let pc = self.cpu.registers.pc;
        crate::instructions::stack::push_stack(pc, &mut self.cpu, &mut self.mem);
        self.cpu.registers.pc = handler;
        proof {
            assert(crate::memory::write_touches(
                old(self).mem,
                m1,
                old(self).mem.block@.update(
                    IF as int,
                    (old(self).mem.block[IF as int] & !int_mask(interrupt)),
                ),
                old(self).mem.ext_ram@,
                old(self).mem.mbc,
            ));
            assert(crate::instructions::stack::pushed(
                m1,
                self.mem,
                old(self).cpu.registers.sp,
                old(self).cpu.registers.pc,
            ));
        }
        Ok(())
    }

    /// One iteration of the machine: while stopped, only wait for a held
    /// button on the joypad register; otherwise service a pending interrupt
    /// (five M-cycles) or run one instruction, then move the clock, the OAM
    /// DMA engine and the PPU by the step's cost. An unassigned opcode stops
    /// the simulation, naming the byte and PC.
    #[verifier::rlimit(100)]
    pub fn step(&mut self) -> (r: Result<u8, SystemError>)
        requires
            old(self).wf(),
        ensures
            r is Ok ==> final(self).wf(),
            r matches Ok(c) ==> 1 <= c <= 6 && final(self).clock.m_cycles == old(
                self,
            ).clock.m_cycles.wrapping_add(c as u32),
            r matches Err(e) ==> (e matches SystemError::IllegalInstruction(op, pc)
                && illegal_opcode(op) && pc == old(self).cpu.registers.pc && op == read_spec(
                old(self).mem,
                old(self).cpu.registers.pc as int,
            )),
            !old(self).cpu.stopped ==> (serviced(*old(self)) matches Some(i) ==> (r == Ok::<
                u8,
                SystemError,
            >(5) && final(self).cpu.registers.pc == int_vector(i) && !final(self).cpu.ime)),
            old(self).cpu.stopped ==> (r == Ok::<u8, SystemError>(1) && final(self).cpu.registers
                == old(self).cpu.registers && final(self).cpu.stopped == (read_spec(
                old(self).mem,
                0xff00,
            ) & 0x0f == 0x0f)),
    {
        if self.cpu.stopped {
            let joyp = self.mem.read(0xff00);
            if joyp & 0x0f != 0x0f {
                self.cpu.stopped = false;
            }
            self.advance_peripherals(1);
            return Ok(1);
        }
        let ie = self.mem.get_interrupt_registers();
        let iff = self.mem.get_interrupt_flag();
        let pending_mask = (ie & iff) & 0x1f;
        proof {
            let m = ie & iff;
            assert(((m & 0x1f) != 0) == (m & 0x01 != 0 || m & 0x02 != 0 || m & 0x04 != 0 || m
                & 0x08 != 0 || m & 0x10 != 0)) by (bit_vector);
        }
        let cycles: u8;
        if self.cpu.ime && pending_mask != 0 {
            let _ = self.handle_interrupt();
            cycles = 5;
        } else if self.cpu.halted {
            if pending_mask != 0 {
                self.cpu.halted = false;
            }
            cycles = 1;
        } else {
            match self.cpu.execute(&mut self.mem) {
                Ok(c) => {
                    cycles = c;
                }
                Err(e) => {
                    match e {
                        CpuError::IllegalOpcode(op, pc) => {
                            return Err(SystemError::IllegalInstruction(op, pc));
                        }
                        _ => {
                            return Err(SystemError::IllegalInstruction(0, 0));
                        }
                    }
                }
            }
        }
        self.advance_peripherals(cycles);
        Ok(cycles)
    }

    /// Advance the clock with its timers, the OAM DMA engine and the PPU by
    /// the cost of the step just taken.
    fn advance_peripherals(&mut self, cycles: u8)
        requires
            old(self).cpu.registers.wf(),
            old(self).mem.wf(),
            old(self).ppu.inv(),
            coupled(old(self).clock),
        ensures
            final(self).wf(),
            final(self).cpu == old(self).cpu,
            final(self).clock.m_cycles == old(self).clock.m_cycles.wrapping_add(cycles as u32),
    {
        self.clock.advance(&mut self.mem, cycles as u32);
        let ghost pre = *self;
        let mut k: u8 = 0;
        while k < cycles
            invariant
                self.mem.wf(),
                0 <= k <= cycles,
                self.cpu == pre.cpu,
                self.clock == pre.clock,
                self.ppu == pre.ppu,
            decreases cycles - k,
        {
            self.mem.dma_step();
            k = k + 1;
        }
        self.ppu.step(&mut self.mem, (cycles as u32) * 4);
    }

    /// Whether a finished frame is waiting to be published.
    pub fn frame_ready(&self) -> (r: bool)
        ensures
            r == self.ppu.frame_ready,
    {
        self.ppu.frame_ready
    }

    /// Hand out the finished frame, 160 by 144 shades row after row, and
    /// arm the PPU for the next one.
    pub fn take_frame(&mut self) -> (r: Vec<u8>)
        requires
            old(self).wf(),
        ensures
            final(self).wf(),
            r@ == old(self).ppu.frame_buffer@,
            final(self).ppu.frame_buffer == old(self).ppu.frame_buffer,
            !final(self).ppu.frame_ready,
    {
        self.ppu.frame_ready = false;
        let mut out: Vec<u8> = Vec::new();
        let mut i: usize = 0;
        while i < self.ppu.frame_buffer.len()
            invariant
                0 <= i <= self.ppu.frame_buffer.len(),
                out@ == self.ppu.frame_buffer@.subrange(0, i as int),
            decreases self.ppu.frame_buffer.len() - i,
        {
            out.push(self.ppu.frame_buffer[i]);
            assert(out@ == self.ppu.frame_buffer@.subrange(0, i + 1));
            i = i + 1;
        }
        proof {
            assert(out@ =~= old(self).ppu.frame_buffer@);
        }
        out
    }
}

} // verus!
