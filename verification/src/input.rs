//! The two controller ports, as far as the bus sees them: a status byte
//! each, and the strobe byte that the program writes.

use vstd::prelude::*;

verus! {

/// Address of the first controller port; the second follows it.
pub const INPUT_BASE: u16 = 0x4016;

#[derive(Debug, Clone, Copy, PartialEq, Eq, Structural)]
pub struct Input {
    /// Status byte of the first controller.
    pub first: u8,
    /// Status byte of the second controller.
    pub second: u8,
    /// What was last written to the first port.
    pub strobe: u8,
}

impl Input {
    /// Both controllers idle.
    pub open spec fn idle() -> Input {
        Input { first: 0, second: 0, strobe: 0 }
    }

    pub fn new() -> (input: Input)
        ensures
            input == Input::idle(),
    {
        Input { first: 0, second: 0, strobe: 0 }
    }

    /// Reads the status byte of the controller at `addr`.
    pub fn loadb(&self, addr: u16) -> (byte: u8)
        requires
            addr == INPUT_BASE || addr == INPUT_BASE + 1,
        ensures
            byte == if addr == INPUT_BASE {
                self.first
            } else {
                self.second
            },
    {
        if addr == INPUT_BASE {
            self.first
        } else {
            self.second
        }
    }

    /// Writes the strobe byte.
    pub fn storeb(&mut self, val: u8)
        ensures
            *final(self) == (Input { strobe: val, ..*old(self) }),
    {
        self.strobe = val;
    }

    /// Puts both controllers back to idle.
    pub fn reset(&mut self)
        ensures
            *final(self) == Input::idle(),
    {
        self.first = 0;
        self.second = 0;
        self.strobe = 0;
    }
}

} // verus!
