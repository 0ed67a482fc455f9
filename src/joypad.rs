use vstd::prelude::*;

verus! {

/// One button of the pad.
#[derive(Clone, Copy, Debug, PartialEq, Eq, Structural)]
pub enum Inputs {
    Right,
    Left,
    Up,
    Down,
    A,
    B,
    Select,
    Start,
}

impl Inputs {
    /// Bit of the button inside its row of register 0xFF00.
    pub open spec fn spec_bit_location(self) -> u8 {
        match self {
            Inputs::Right | Inputs::A => 0,
            Inputs::Left | Inputs::B => 1,
            Inputs::Up | Inputs::Select => 2,
            Inputs::Down | Inputs::Start => 3,
        }
    }

    /// Bit of register 0xFF00 that selects the button's row: 4 for directions, 5 for actions.
    pub open spec fn spec_select_location(self) -> u8 {
        match self {
            Inputs::Right | Inputs::Left | Inputs::Up | Inputs::Down => 4,
            _ => 5,
        }
    }

    /// Bit of the button in the pressed mask: directions in the low nibble, actions in the high.
    pub open spec fn spec_mask(self) -> u8 {
        match self {
            Inputs::Right => 0x01,
            Inputs::Left => 0x02,
            Inputs::Up => 0x04,
            Inputs::Down => 0x08,
            Inputs::A => 0x10,
            Inputs::B => 0x20,
            Inputs::Select => 0x40,
            Inputs::Start => 0x80,
        }
    }

    pub fn bit_location(self) -> (r: u8)
        ensures
            r == self.spec_bit_location(),
    {
        match self {
            Inputs::Right | Inputs::A => 0,
            Inputs::Left | Inputs::B => 1,
            Inputs::Up | Inputs::Select => 2,
            Inputs::Down | Inputs::Start => 3,
        }
    }

    pub fn select_location(self) -> (r: u8)
        ensures
            r == self.spec_select_location(),
    {
        match self {
            Inputs::Right | Inputs::Left | Inputs::Up | Inputs::Down => 4,
            Inputs::A | Inputs::B | Inputs::Select | Inputs::Start => 5,
        }
    }

    pub fn mask(self) -> (r: u8)
        ensures
            r == self.spec_mask(),
    {
        match self {
            Inputs::Right => 0x01,
            Inputs::Left => 0x02,
            Inputs::Up => 0x04,
            Inputs::Down => 0x08,
            Inputs::A => 0x10,
            Inputs::B => 0x20,
            Inputs::Select => 0x40,
            Inputs::Start => 0x80,
        }
    }
}

/// Register 0xFF00 as the CPU reads it, given the row select last written and the pressed mask:
/// bits 7-6 set, bits 5-4 as written, bits 3-0 low for each pressed button of a selected row.
pub open spec fn joypad_byte(select: u8, pressed: u8) -> u8 {
    let dirs: u8 = if select & 0x10 == 0 { pressed & 0x0F } else { 0 };
    let acts: u8 = if select & 0x20 == 0 { pressed >> 4u8 } else { 0 };
    0xC0 | (select & 0x30) | (!(dirs | acts) & 0x0F)
}

/// Computes register 0xFF00 from the row select and the pressed mask.
pub fn joypad_state(select: u8, pressed: u8) -> (r: u8)
    ensures
        r == joypad_byte(select, pressed),
{
    let dirs: u8 = if select & 0x10 == 0 {
        pressed & 0x0F
    } else {
        0
    };
    let acts: u8 = if select & 0x20 == 0 {
        pressed >> 4u8
    } else {
        0
    };
    0xC0 | (select & 0x30) | (!(dirs | acts) & 0x0F)
}

} // verus!
