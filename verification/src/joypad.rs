use vstd::prelude::*;

verus! {

/// The joypad is represented in the memory address 0xFF00 and contains an interesting byte pattern:
///   | 7 | 6 | 5        | 4         | 3          | 2         | 1      | 0       |
///   | 1 | 1 | standard | direction | down/start | up/select | left/B | right/A |
///
/// For example `start` is represented as:
///   | 1 | 1 | 0 | 1 | 0 | 1 | 1 | 1 |
#[derive(Debug, Clone, Copy, PartialEq, Eq, Structural)]
pub enum Joypad {
    Down,
    Up,
    Left,
    Right,
    Start,
    Select,
    ButtonB,
    ButtonA,
}

impl Joypad {
    /// Whether the key is one of the four directions, which are read with
    /// bit 4 low; the four buttons are read with bit 5 low.
    pub open spec fn is_direction(self) -> bool {
        self is Down || self is Up || self is Left || self is Right
    }

    /// The line of the low nibble that the key pulls low: 3 for down and
    /// start, 2 for up and select, 1 for left and B, 0 for right and A.
    pub open spec fn line(self) -> int {
        match self {
            Joypad::Down | Joypad::Start => 3,
            Joypad::Up | Joypad::Select => 2,
            Joypad::Left | Joypad::ButtonB => 1,
            Joypad::Right | Joypad::ButtonA => 0,
        }
    }

    /// The byte read at 0xFF00 while only this key is pressed.
    pub open spec fn spec_bits(self) -> u8 {
        match self {
            Joypad::Down => 0b11100111,
            Joypad::Up => 0b11101011,
            Joypad::Left => 0b11101101,
            Joypad::Right => 0b11101110,
            Joypad::Start => 0b11010111,
            Joypad::Select => 0b11011011,
            Joypad::ButtonB => 0b11011101,
            Joypad::ButtonA => 0b11011110,
        }
    }

    #[verifier::when_used_as_spec(spec_bits)]
    pub fn bits(self) -> (bits: u8)
        ensures
            bits == self.spec_bits(),
            bits == 0xFF - (if self.is_direction() {
                0x10int
            } else {
                0x20int
            }) - vstd::arithmetic::power2::pow2(self.line() as nat),
    {
        proof {
            vstd::arithmetic::power2::lemma2_to64();
        }
        match self {
            Joypad::Down => 0b11100111,
            Joypad::Up => 0b11101011,
            Joypad::Left => 0b11101101,
            Joypad::Right => 0b11101110,
            Joypad::Start => 0b11010111,
            Joypad::Select => 0b11011011,
            Joypad::ButtonB => 0b11011101,
            Joypad::ButtonA => 0b11011110,
        }
    }
}

} // verus!
