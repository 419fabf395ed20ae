use vstd::prelude::*;

use crate::errors::JoypadError;

verus! {

/// The four action buttons.
#[derive(Debug, Copy, Clone, PartialEq, Eq, Structural)]
pub enum Action {
    Start,
    Select,
    A,
    B,
}

/// The four directions of the directional pad.
#[derive(Debug, Copy, Clone, PartialEq, Eq, Structural)]
pub enum Direction {
    Down,
    Up,
    Left,
    Right,
}

/// What the joypad register currently selects and reports.
#[derive(Debug, Copy, Clone, PartialEq, Eq, Structural)]
pub enum JoypadBank {
    SelectButtons(Action),
    SelectDPad(Direction),
    AllReleased,
}

/// The joypad register.
pub struct Joypad {
    register: u8,
}

/// The bank and key the joypad register value names, when its low nibble
/// names a single held key of the selected bank.
pub open spec fn joypad_bank_of(reg: u8) -> Option<JoypadBank> {
    if reg / 16 == 1 {
        match reg % 16 {
            1 => Some(JoypadBank::SelectDPad(Direction::Right)),
            2 => Some(JoypadBank::SelectDPad(Direction::Left)),
            3 => Some(JoypadBank::SelectDPad(Direction::Up)),
            4 => Some(JoypadBank::SelectDPad(Direction::Down)),
            _ => None,
        }
    } else if reg / 16 == 2 {
        match reg % 16 {
            1 => Some(JoypadBank::SelectButtons(Action::A)),
            2 => Some(JoypadBank::SelectButtons(Action::B)),
            3 => Some(JoypadBank::SelectButtons(Action::Select)),
            4 => Some(JoypadBank::SelectButtons(Action::Start)),
            _ => None,
        }
    } else {
        Some(JoypadBank::AllReleased)
    }
}

impl Joypad {
    /// A joypad holding a register value.
    pub fn new(register: u8) -> (r: Self)
        ensures
            r.register_spec() == register,
    {
        Joypad { register }
    }

    /// The register value.
    pub closed spec fn register_spec(&self) -> u8 {
        self.register
    }

    /// Decode the register: which bank is selected and which of its keys is
    /// named; a low nibble that names no single key of a selected bank is an
    /// `InvalidRegisterValue` that says which bank it was.
    pub fn active(&mut self) -> (r: Result<JoypadBank, JoypadError>)
        ensures
            *final(self) == *old(self),
            (match joypad_bank_of(old(self).register_spec()) {
                Some(bank) => r == Ok::<JoypadBank, JoypadError>(bank),
                None => r matches Err(JoypadError::InvalidRegisterValue(b, _)) && b == old(
                    self,
                ).register_spec(),
            }),
    {
        let reg = self.register;
        if reg / 16 == 1 {
            let low = reg % 16;
            if low == 1 {
                Ok(JoypadBank::SelectDPad(Direction::Right))
            } else if low == 2 {
                Ok(JoypadBank::SelectDPad(Direction::Left))
            } else if low == 3 {
                Ok(JoypadBank::SelectDPad(Direction::Up))
            } else if low == 4 {
                Ok(JoypadBank::SelectDPad(Direction::Down))
            } else {
                Err(JoypadError::InvalidRegisterValue(reg, dpad_name()))
            }
        } else if reg / 16 == 2 {
            let low = reg % 16;
            if low == 1 {
                Ok(JoypadBank::SelectButtons(Action::A))
            } else if low == 2 {
                Ok(JoypadBank::SelectButtons(Action::B))
            } else if low == 3 {
                Ok(JoypadBank::SelectButtons(Action::Select))
            } else if low == 4 {
                Ok(JoypadBank::SelectButtons(Action::Start))
            } else {
                Err(JoypadError::InvalidRegisterValue(reg, buttons_name()))
            }
        } else {
            Ok(JoypadBank::AllReleased)
        }
    }
}

/// The name of the directional-pad bank in diagnostics.
fn dpad_name() -> (r: String)
    ensures
        r@ == "DPAD"@,
{
    "DPAD".to_owned()
}

/// The name of the button bank in diagnostics.
fn buttons_name() -> (r: String)
    ensures
        r@ == "BUTTONS"@,
{
    "BUTTONS".to_owned()
}

} // verus!
