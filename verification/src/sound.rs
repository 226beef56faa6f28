use vstd::prelude::*;

verus! {

/// One register of a sound voice, with the byte it holds.
#[derive(Debug, Clone, Copy, PartialEq, Eq, Structural)]
pub enum Register {
    Control(u8),
    Frequency(u8),
    Volume(u8),
    Length(u8),
    Sweep(u8),
}

/// The five registers of a voice with every byte zero.
pub open spec fn silent_voice() -> (Register, Register, Register, Register, Register) {
    (
        Register::Control(0),
        Register::Frequency(0),
        Register::Volume(0),
        Register::Length(0),
        Register::Sweep(0),
    )
}

/// Sound contains 4 distinct voices, each with its five registers.
#[derive(Debug)]
pub struct Voices {
    pub pulse_a: (Register, Register, Register, Register, Register),
    pub pulse_b: (Register, Register, Register, Register, Register),
    pub wave: (Register, Register, Register, Register, Register),
    pub noise: (Register, Register, Register, Register, Register),
}

impl Voices {
    pub fn new() -> (voices: Voices)
        ensures
            voices.pulse_a == silent_voice(),
            voices.pulse_b == silent_voice(),
            voices.wave == silent_voice(),
            voices.noise == silent_voice(),
    {
        Voices {
            pulse_a: (
                Register::Control(0),
                Register::Frequency(0),
                Register::Volume(0),
                Register::Length(0),
                Register::Sweep(0),
            ),
            pulse_b: (
                Register::Control(0),
                Register::Frequency(0),
                Register::Volume(0),
                Register::Length(0),
                Register::Sweep(0),
            ),
            wave: (
                Register::Control(0),
                Register::Frequency(0),
                Register::Volume(0),
                Register::Length(0),
                Register::Sweep(0),
            ),
            noise: (
                Register::Control(0),
                Register::Frequency(0),
                Register::Volume(0),
                Register::Length(0),
                Register::Sweep(0),
            ),
        }
    }
}

} // verus!
