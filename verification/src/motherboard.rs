use crate::cpu::CPU;
use crate::ppu::{Display, Pixel};
use crate::sound::{silent_voice, Voices};
use vstd::prelude::*;

verus! {

/// The Motherboard controls all the coordination involved between the disparate
/// hardware components.
///
/// Bringup needs to happen in a particular order:
///   1. CPU - Set Registers
///   2. RAM - Set Hardware Adress Registers
///   3. PPU - These are all set by reading from RAM
#[derive(Debug)]
pub struct Motherboard {
    pub cpu: CPU,
    pub display: Display,
    pub sound: Voices,
}

impl Motherboard {
    pub fn new() -> (board: Motherboard)
        ensures
            board.cpu@ == CPU::power_up(),
            board.display.is_blank(false),
            board.sound.pulse_a == silent_voice(),
            board.sound.pulse_b == silent_voice(),
            board.sound.wave == silent_voice(),
            board.sound.noise == silent_voice(),
    {
        Motherboard { cpu: CPU::new(), display: Display::new(false), sound: Voices::new() }
    }
}

} // verus!
