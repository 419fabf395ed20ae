use vstd::prelude::*;

use crate::io::tac_period;
use vstd::arithmetic::div_mod::lemma_add_mod_noop;
use crate::memory::registers::{IF, TAC, TIMA};
use crate::memory::{mem_eq, Memory};

verus! {

/// The single source of truth for simulated time: machine cycles since
/// reset, the dot counter the PPU follows, and the accumulator that divides
/// machine cycles down to TIMA increments.
#[derive(Debug, Copy, Clone, PartialEq, Eq, Structural)]
pub struct Clock {
    pub master_clock: u64,
    pub m_cycles: u32,
    pub dots: u32,
    pub tima_acc: u32,
}

/// Dot/M-cycle coupling: the dot counter is four times the machine cycle
/// counter, both taken modulo 2^32.
pub open spec fn coupled(c: Clock) -> bool {
    c.dots == (c.m_cycles * 4) % 0x1_0000_0000
}

impl Clock {
    /// A clock at reset: every counter zero, which satisfies the coupling.
    pub fn new() -> (r: Self)
        ensures
            r == (Clock { master_clock: 0, m_cycles: 0, dots: 0, tima_acc: 0 }),
            coupled(r),
    {
        Clock { master_clock: 0, m_cycles: 0, dots: 0, tima_acc: 0 }
    }

    /// Advance simulated time by one machine cycle.
    pub fn tick(&mut self, mem: &mut Memory)
        requires
            old(mem).wf(),
        ensures
            final(mem).wf(),
            final(self).master_clock == old(self).master_clock.wrapping_add(1),
            final(self).m_cycles == old(self).m_cycles.wrapping_add(1),
            final(self).dots == old(self).dots.wrapping_add(4),
            coupled(*old(self)) ==> coupled(*final(self)),
            clock_mem_frame(*old(mem), *final(mem), 1),
    {
        self.advance(mem, 1);
    }

    /// Advance simulated time by a number of machine cycles: the counters
    /// move in step, the divider gains four dots per cycle, and TIMA ticks
    /// at the frequency TAC selects, reloading from TMA and requesting the
    /// Timer interrupt when it overflows.
    #[verifier::rlimit(60)]
    pub fn advance(&mut self, mem: &mut Memory, m: u32)
        requires
            old(mem).wf(),
        ensures
            final(mem).wf(),
            final(self).master_clock == old(self).master_clock.wrapping_add(m as u64),
            final(self).m_cycles == old(self).m_cycles.wrapping_add(m),
            final(self).dots == ((old(self).dots + m * 4) % 0x1_0000_0000) as u32,
            coupled(*old(self)) ==> coupled(*final(self)),
            clock_mem_frame(*old(mem), *final(mem), m as int),
    {
        let mut left: u32 = m;
        while left > 0
            invariant
                mem.wf(),
                0 <= left <= m,
                self.master_clock == old(self).master_clock.wrapping_add((m - left) as u64),
                self.m_cycles == old(self).m_cycles.wrapping_add((m - left) as u32),
                self.dots == ((old(self).dots + (m - left) * 4) % 0x1_0000_0000) as u32,
                clock_mem_frame(*old(mem), *mem, m - left),
            decreases left,
        {
            self.master_clock = self.master_clock.wrapping_add(1);
            self.m_cycles = self.m_cycles.wrapping_add(1);
            self.dots = self.dots.wrapping_add(4);
            mem.add_div(4);
            proof {
                let f = old(mem).block@[IF as int];
                assert(((f | 0x04) | 0x04) == (f | 0x04)) by (bit_vector);
            }
            let tac = mem.get_tac();
            if tac & 0x04 != 0 {
                let period = period_of(tac);
                if self.tima_acc >= period - 1 {
                    self.tima_acc = 0;
                    mem.inc_tima();
                } else {
                    self.tima_acc = self.tima_acc + 1;
                }
            }
            left = left - 1;
            proof {
                let d0 = old(mem).div_counter as int;
                let k = m - left;
                lemma_add_mod_noop(d0 + 4 * (k - 1), 4, 0x10000);
                lemma_add_mod_noop(old(self).dots as int, 4 * (k - 1), 0x1_0000_0000);
                lemma_add_mod_noop(old(self).dots + 4 * (k - 1), 4, 0x1_0000_0000);
                lemma_add_mod_noop(old(self).dots as int, 4 * k, 0x1_0000_0000);
            }
        }
    }
}

/// Where an advance of `m` machine cycles may touch the bus: the divider
/// gains four dots per cycle, TIMA and IF may move with the timer, and
/// nothing else changes. A change to IF only ever sets the Timer bit.
pub open spec fn clock_mem_frame(a: Memory, b: Memory, m: int) -> bool {
    &&& b.cartridge == a.cartridge
    &&& b.ext_ram@ == a.ext_ram@
    &&& b.mbc == a.mbc
    &&& b.rom_banks@ == a.rom_banks@
    &&& b.oam_accessible == a.oam_accessible
    &&& b.vram_accessible == a.vram_accessible
    &&& b.dma_active == a.dma_active
    &&& b.dma_source == a.dma_source
    &&& b.dma_remaining == a.dma_remaining
    &&& b.div_counter == ((a.div_counter + 4 * m) % 0x10000) as u16
    &&& b.block@.len() == a.block@.len()
    &&& forall|i: int|
        0 <= i < a.block@.len() && i != TIMA && i != IF ==> b.block@[i] == a.block@[i]
    &&& (b.block@[IF as int] == a.block@[IF as int] || b.block@[IF as int] == a.block@[IF as int]
        | 0x04)
}

/// The TIMA period in M-cycles selected by a TAC byte.
fn period_of(tac: u8) -> (r: u32)
    ensures
        r == tac_period(tac),
{
    let freq = tac % 4;
    if freq == 0 {
        256
    } else if freq == 1 {
        4
    } else if freq == 2 {
        16
    } else {
        64
    }
}

} // verus!
