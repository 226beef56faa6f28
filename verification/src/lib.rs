use vstd::prelude::*;

pub mod cartridge;
pub mod cpu;
pub mod joypad;
pub mod motherboard;
pub mod ppu;
pub mod ram;
pub mod sound;
pub mod system;
pub mod word;

verus! {

// timing of hardware components
pub const CPU_HZ: u32 = 4_194_304;

pub const RAM_HZ: u32 = 1_048_576;

pub const PPU_HZ: u32 = 4_194_304;

pub const VRAM_HZ: u32 = 2_097_152;

/// Where the ROM is looked for when no path is given.
pub const DEFAULT_ROM: &'static str =
    "rom_tests/blarggs-test-roms/cpu_instrs/individual/01-special.gb";

pub struct BootParameters {
    pub rom_path: String,
    // false 8x8, true 8x16
    pub sprite_size: bool,
}

impl BootParameters {
    /// The parameters for the ROM at `p`, or for the default ROM where no
    /// path is given, with small sprites.
    pub fn new(p: Option<&str>) -> (params: BootParameters)
        ensures
            params.rom_path@ == match p {
                Some(v) => v@,
                None => DEFAULT_ROM@,
            },
            !params.sprite_size,
    {
        let p = match p {
            Some(v) => v.to_string(),
            None => DEFAULT_ROM.to_string(),
        };
        BootParameters { rom_path: p, sprite_size: false }
    }
}

} // verus!
