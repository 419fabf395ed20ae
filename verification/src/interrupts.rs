use vstd::prelude::*;

verus! {

/// The five interrupt sources of the machine.
#[derive(Debug, Copy, Clone, PartialEq, Eq, Structural)]
pub enum Interrupt {
    Joypad,
    Serial,
    Timer,
    Stat,
    VBlank,
}

/// Bit masks of the interrupt sources inside the IE and IF registers.
pub const VBLANK: u8 = 0x01;
pub const STAT: u8 = 0x02;
pub const TIMER: u8 = 0x04;
pub const SERIAL: u8 = 0x08;
pub const JOYPAD: u8 = 0x10;

/// The IE/IF bit mask of one interrupt source.
pub open spec fn int_mask(i: Interrupt) -> u8 {
    match i {
        Interrupt::VBlank => 0x01,
        Interrupt::Stat => 0x02,
        Interrupt::Timer => 0x04,
        Interrupt::Serial => 0x08,
        Interrupt::Joypad => 0x10,
    }
}

/// The handler address of one interrupt source.
pub open spec fn int_vector(i: Interrupt) -> u16 {
    match i {
        Interrupt::VBlank => 0x40,
        Interrupt::Stat => 0x48,
        Interrupt::Timer => 0x50,
        Interrupt::Serial => 0x58,
        Interrupt::Joypad => 0x60,
    }
}

/// The highest-priority interrupt requested in a pending mask:
/// VBlank (bit 0) wins over LCD-STAT (1), Timer (2), Serial (3), Joypad (4).
pub open spec fn pending_interrupt(mask: u8) -> Option<Interrupt> {
    if mask & 0x01 != 0 {
        Some(Interrupt::VBlank)
    } else if mask & 0x02 != 0 {
        Some(Interrupt::Stat)
    } else if mask & 0x04 != 0 {
        Some(Interrupt::Timer)
    } else if mask & 0x08 != 0 {
        Some(Interrupt::Serial)
    } else if mask & 0x10 != 0 {
        Some(Interrupt::Joypad)
    } else {
        None
    }
}

impl Interrupt {
    /// Select the highest-priority interrupt out of a pending mask
    /// (the bitwise AND of the IE and IF registers).
    pub fn get_interrupt(value: &u8) -> (r: Option<Interrupt>)
        ensures
            r == pending_interrupt(*value),
    {
        if *value & 0x01 != 0 {
            Some(Interrupt::VBlank)
        } else if *value & 0x02 != 0 {
            Some(Interrupt::Stat)
        } else if *value & 0x04 != 0 {
            Some(Interrupt::Timer)
        } else if *value & 0x08 != 0 {
            Some(Interrupt::Serial)
        } else if *value & 0x10 != 0 {
            Some(Interrupt::Joypad)
        } else {
            None
        }
    }

    /// The handler address this interrupt jumps to.
    pub fn vector(&self) -> (r: u16)
        ensures
            r == int_vector(*self),
    {
        match self {
            Interrupt::VBlank => 0x40,
            Interrupt::Stat => 0x48,
            Interrupt::Timer => 0x50,
            Interrupt::Serial => 0x58,
            Interrupt::Joypad => 0x60,
        }
    }

    /// The IE/IF bit mask of this interrupt.
    pub fn mask(&self) -> (r: u8)
        ensures
            r == int_mask(*self),
    {
        match self {
            Interrupt::VBlank => 0x01,
            Interrupt::Stat => 0x02,
            Interrupt::Timer => 0x04,
            Interrupt::Serial => 0x08,
            Interrupt::Joypad => 0x10,
        }
    }
}

/// What the CPU will service next: the highest-priority interrupt that is both
/// enabled in IE and requested in IF, and only when the master enable is set.
pub fn pending(ie: u8, if_: u8, ime: bool) -> (r: Option<Interrupt>)
    ensures
        r == (if ime {
            pending_interrupt(ie & if_)
        } else {
            Option::<Interrupt>::None
        }),
{
    if !ime {
        None
    } else {
        let mask = ie & if_;
        Interrupt::get_interrupt(&mask)
    }
}

/// An interrupt is only ever selected when its bit is set in both IE and IF,
/// and never while the master enable is clear: bits of IF that are masked out
/// by IE cannot cause a service.
pub proof fn lemma_no_masked_service(ie: u8, if_: u8, ime: bool, i: Interrupt)
    requires
        (if ime {
            pending_interrupt(ie & if_)
        } else {
            Option::<Interrupt>::None
        }) == Some(i),
    ensures
        ime,
        ie & int_mask(i) != 0,
        if_ & int_mask(i) != 0,
{
    let m = ie & if_;
    assert((m == ie & if_ && m & 0x01 != 0) ==> (ie & 0x01 != 0 && if_ & 0x01 != 0)) by (bit_vector);
    assert((m == ie & if_ && m & 0x01 == 0 && m & 0x02 != 0) ==> (ie & 0x02 != 0 && if_ & 0x02
        != 0)) by (bit_vector);
    assert((m == ie & if_ && m & 0x04 != 0) ==> (ie & 0x04 != 0 && if_ & 0x04 != 0)) by (bit_vector);
    assert((m == ie & if_ && m & 0x08 != 0) ==> (ie & 0x08 != 0 && if_ & 0x08 != 0)) by (bit_vector);
    assert((m == ie & if_ && m & 0x10 != 0) ==> (ie & 0x10 != 0 && if_ & 0x10 != 0)) by (bit_vector);
}

} // verus!
