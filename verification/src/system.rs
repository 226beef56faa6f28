use crate::cartridge::Cartridge;
use crate::cpu::machine::Machine;
use crate::cpu::CPU;
use crate::ppu::Display;
use crate::ram::Bus;
use crate::sound::{silent_voice, Voices};
use vstd::prelude::*;

verus! {

/// The _system_ controls all the coordination involved between the disparate
/// hardware components.
///
/// Bringup needs to happen in a particular order:
///   1. CPU - Set Registers
///   2. RAM - Set Hardware Adress Registers
///   3. PPU - These are all set by reading from RAM
#[derive(Debug)]
pub struct System {
    pub cpu: CPU,
    pub display: Display,
    pub sound: Voices,
    pub cartridge: Cartridge,
}

/// The first bank of a cartridge's ROM is mapped at the bottom of the
/// address space and ends before this address.
pub const BANK_SIZE: u16 = 0x4000;

impl System {
    /// Wires a processor, a display and the sound voices, all as they are
    /// when switched on, to a cartridge.
    pub fn new(cartridge: Cartridge) -> (system: System)
        ensures
            system.cpu@ == CPU::power_up(),
            system.display.is_blank(false),
            system.sound.pulse_a == silent_voice(),
            system.sound.pulse_b == silent_voice(),
            system.sound.wave == silent_voice(),
            system.sound.noise == silent_voice(),
            system.cartridge == cartridge,
    {
        System { cpu: CPU::new(), display: Display::new(false), sound: Voices::new(), cartridge }
    }

    /// Executes one instruction and returns the machine cycles it took.
    pub fn step(&mut self) -> (cycles: u8)
        ensures
            final(self).cpu@ == old(self).cpu@.step(),
            cycles == old(self).cpu@.step_cost(),
            final(self).display == old(self).display,
            final(self).sound == old(self).sound,
            final(self).cartridge == old(self).cartridge,
    {
        self.cpu.exec()
    }

    /// Initialize the system like loading the game's cartridge rom into system memory.
    ///
    /// The first bank of the cartridge's ROM is copied to the addresses
    /// 0x0000 to 0x3FFF; where the ROM is shorter, the rest stays as it is.
    pub fn initialize(&mut self)
        ensures
            forall|addr: int|
                0 <= addr < 0x10000 ==> #[trigger] final(self).cpu@.bus.ram[addr] == (if addr
                    < BANK_SIZE && addr < old(self).cartridge.rom@.len() {
                    old(self).cartridge.rom@[addr]
                } else {
                    old(self).cpu@.bus.ram[addr]
                }),
            final(self).cpu@ == (Machine {
                bus: Bus { ram: final(self).cpu@.bus.ram, ..old(self).cpu@.bus },
                ..old(self).cpu@
            }),
            final(self).display == old(self).display,
            final(self).sound == old(self).sound,
            final(self).cartridge == old(self).cartridge,
    {
        self.load_rom_bank(0, BANK_SIZE);
    }

    /// Copies the bytes `low` to `high` of the ROM, as far as it has them,
    /// to the bottom of the address space.
    fn load_rom_bank(&mut self, low: u16, high: u16)
        requires
            low <= high,
        ensures
            forall|addr: int|
                0 <= addr < 0x10000 ==> #[trigger] final(self).cpu@.bus.ram[addr] == (if addr < high
                    - low && low + addr < old(self).cartridge.rom@.len() {
                    old(self).cartridge.rom@[low + addr]
                } else {
                    old(self).cpu@.bus.ram[addr]
                }),
            final(self).cpu@ == (Machine {
                bus: Bus { ram: final(self).cpu@.bus.ram, ..old(self).cpu@.bus },
                ..old(self).cpu@
            }),
            final(self).display == old(self).display,
            final(self).sound == old(self).sound,
            final(self).cartridge == old(self).cartridge,
    {
        let count = (high - low) as usize;
        let mut mem_idx: usize = 0;
        while mem_idx < count && low as usize + mem_idx < self.cartridge.rom.len()
            invariant
                mem_idx <= count,
                count == high - low,
                mem_idx > 0 ==> low + mem_idx <= self.cartridge.rom.len(),
                self.cpu@ == (Machine {
                    bus: Bus { ram: self.cpu@.bus.ram, ..old(self).cpu@.bus },
                    ..old(self).cpu@
                }),
                self.display == old(self).display,
                self.sound == old(self).sound,
                self.cartridge == old(self).cartridge,
                forall|addr: int|
                    0 <= addr < 0x10000 ==> #[trigger] self.cpu@.bus.ram[addr] == (if addr
                        < mem_idx {
                        old(self).cartridge.rom@[low + addr]
                    } else {
                        old(self).cpu@.bus.ram[addr]
                    }),
            decreases count - mem_idx,
        {
            self.cpu.memory.ram[mem_idx] = self.cartridge.rom[low as usize + mem_idx];
            mem_idx += 1;
        }
    }
}

} // verus!
