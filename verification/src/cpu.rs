use crate::cpu::instructions::operations;
use crate::cpu::laws::{lemma_cost_bounds, lemma_execute_keeps_low_nibble};
use crate::cpu::machine::Machine;
use crate::ram::{Bus, Memory};
use vstd::prelude::*;

pub mod alu;
pub mod instructions;
pub mod laws;
pub mod machine;
pub mod prefix_instructions;
pub mod semantics;

verus! {

/// The LR35902 register file.
///
/// The accumulator mostly takes results. Of the flags register only the
/// upper nibble is used:
///   * Z - bit 7 - the operation resulted in zero
///   * N - bit 6 - the operation was a subtraction
///   * H - bit 5 - the operation carried out of the low nibble
///   * C - bit 4 - the operation carried
///
/// `high` and `low` together address memory; B, C, D and E are general
/// purpose.
#[derive(Debug, Clone, Copy)]
pub struct Registers {
    // high registers
    pub acc: u8,
    pub b: u8,
    pub d: u8,
    pub high: u8,
    // low registers
    pub flags: u8,
    pub c: u8,
    pub e: u8,
    pub low: u8,
    // stack pointer
    pub sp: u16,
    // program counter
    pub pc: u16,
}

impl Registers {
    /// The register values when the machine is switched on.
    pub open spec fn power_up() -> Registers {
        Registers {
            acc: 0x01,
            b: 0xFF,
            c: 0x13,
            d: 0x00,
            e: 0xC1,
            flags: 0x00,
            high: 0x84,
            low: 0x03,
            sp: 0xFFFE,
            pc: 0x0100,
        }
    }

    pub fn new() -> (registers: Registers)
        ensures
            registers == Registers::power_up(),
    {
        Registers {
            acc: 0x1,
            b: 0xFF,
            c: 0x13,
            d: 0,
            e: 0xC1,
            flags: 0,
            high: 0x84,
            low: 0x03,
            sp: 0xFFFE,
            pc: 0x0100,
        }
    }
}

#[derive(Debug, Copy, Clone, PartialEq, Eq, Structural)]
pub enum ALUFlag {
    C,
    H,
    N,
    Z,
}

impl ALUFlag {
    /// The bit of the F register that holds the flag.
    pub open spec fn spec_mask(self) -> u8 {
        match self {
            ALUFlag::C => 0x10,
            ALUFlag::H => 0x20,
            ALUFlag::N => 0x40,
            ALUFlag::Z => 0x80,
        }
    }

    #[verifier::when_used_as_spec(spec_mask)]
    pub fn mask(self) -> (mask: u8)
        ensures
            mask == self.spec_mask(),
    {
        match self {
            ALUFlag::C => 0b0001_0000,
            ALUFlag::H => 0b0010_0000,
            ALUFlag::N => 0b0100_0000,
            ALUFlag::Z => 0b1000_0000,
        }
    }
}

/// Setting or clearing the flag bit `m` of `f` changes the flag bit `k` only
/// where `k` is `m`, and leaves the low nibble as it is.
pub proof fn lemma_flag_bits(f: u8, m: u8, k: u8)
    by (bit_vector)
    requires
        m == 0x10 || m == 0x20 || m == 0x40 || m == 0x80,
        k == 0x10 || k == 0x20 || k == 0x40 || k == 0x80,
    ensures
        ((f | m) & k != 0) == (k == m || f & k != 0),
        ((f & !m) & k != 0) == (k != m && f & k != 0),
        (f | m) & 0x0F == f & 0x0F,
        (f & !m) & 0x0F == f & 0x0F,
{
}

#[derive(Debug, Copy, Clone, PartialEq, Eq, Structural)]
pub enum Interrupt {
    // LCD has drawn a frame
    VBlank,
    // LCD controller changed
    LCDController,
    // serial transfer completed
    Serial,
    // timer countdown
    Timer,
    // user pressed a button
    HiToLo,
    // break out of a cpu powersaving halt
    Halt,
}

/// The CPU holds the registers and the system memory, which it reads and
/// writes as it executes instructions.
#[derive(Debug)]
pub struct CPU {
    pub registers: Registers,
    pub memory: Memory,
    pub ime: bool,
    pub di: bool,
    pub ei: bool,
    pub halt: bool,
    pub stop: bool,
}

impl View for CPU {
    type V = Machine;

    open spec fn view(&self) -> Machine {
        Machine {
            regs: self.registers,
            bus: self.memory@,
            ime: self.ime,
            di: self.di,
            ei: self.ei,
            halt: self.halt,
            stop: self.stop,
        }
    }
}

/// The memory of a processor covers the whole address space.
pub proof fn lemma_cpu_memory(cpu: CPU)
    ensures
        cpu@.bus.wf(),
{
}

impl CPU {
    /// The processor as it is when the machine is switched on.
    pub open spec fn power_up() -> Machine {
        Machine {
            regs: Registers::power_up(),
            bus: Bus::power_up(),
            ime: true,
            di: false,
            ei: true,
            halt: false,
            stop: false,
        }
    }

    pub fn new() -> (cpu: CPU)
        ensures
            cpu@ == CPU::power_up(),
    {
        CPU {
            registers: Registers::new(),
            memory: Memory::new(),
            ime: true,
            di: false,
            ei: true,
            halt: false,
            stop: false,
        }
    }

    /// Sets or clears one flag in the F register and leaves the others as
    /// they are.
    pub fn set_flag(&mut self, flag: ALUFlag, cond: bool)
        ensures
            final(self)@ == (Machine {
                regs: Registers {
                    flags: if cond {
                        old(self).registers.flags | flag.mask()
                    } else {
                        old(self).registers.flags & !flag.mask()
                    },
                    ..old(self).registers
                },
                ..old(self)@
            }),
            final(self)@.flag(flag) == cond,
            forall|other: ALUFlag|
                other != flag ==> final(self)@.flag(other) == old(self)@.flag(other),
            final(self).registers.flags & 0x0F == old(self).registers.flags & 0x0F,
    {
        let f = self.registers.flags;
        let m = flag.mask();
        if cond {
            self.registers.flags = self.registers.flags | flag.mask();
        } else {
            self.registers.flags = self.registers.flags & !flag.mask();
        }
        proof {
            lemma_flag_bits(f, m, m);
            assert forall|other: ALUFlag| other != flag implies final(self)@.flag(other) == old(
                self,
            )@.flag(other) by {
                lemma_flag_bits(f, m, other.mask());
            }
        }
    }

    /// Tells whether a flag is set in the F register.
    pub fn check_flag(&mut self, flag: ALUFlag) -> (set: bool)
        ensures
            set == old(self)@.flag(flag),
            *final(self) == *old(self),
    {
        self.registers.flags & flag.mask() != 0
    }

    /// Reads the byte at PC and moves PC past it.
    pub fn get_instr(&mut self) -> (b: u8)
        ensures
            b == old(self)@.imm8(),
            final(self)@ == old(self)@.skip(1),
    {
        let b = self.memory.read_byte(self.registers.pc);
        self.registers.pc = self.registers.pc.wrapping_add(1);
        b
    }

    /// Reads the little-endian word at PC and moves PC past it.
    pub fn get_word_instr(&mut self) -> (w: u16)
        ensures
            w == old(self)@.imm16(),
            final(self)@ == old(self)@.skip(2),
    {
        let w = self.memory.read_word(self.registers.pc);
        self.registers.pc = self.registers.pc.wrapping_add(2);
        w
    }

    /// Tells whether an interrupt is both requested and enabled.
    pub fn interrupt_pending(&mut self) -> (pending: bool)
        ensures
            pending == old(self)@.interrupt_pending(),
            *final(self) == *old(self),
    {
        let enabled = self.memory.read_byte(0xFFFF);
        let requested = self.memory.read_byte(0xFF0F);
        enabled & requested & 0x1F != 0
    }

    /// Performs one step: fetches the instruction at PC, executes it and
    /// returns the machine cycles it took.
    ///
    /// A halted or stopped processor with no interrupt pending does nothing
    /// for one cycle. An EI or a DI takes effect once the instruction after
    /// it is done.
    pub fn exec(&mut self) -> (cycles: u8)
        ensures
            final(self)@ == old(self)@.step(),
            cycles == old(self)@.step_cost(),
            cycles >= 1,
            old(self)@.sleeping() ==> final(self)@ == old(self)@,
            old(self).registers.flags & 0x0F == 0 ==> final(self).registers.flags & 0x0F == 0,
    {
        if self.halt || self.stop {
            if !self.interrupt_pending() {
                return 1;
            }
            self.halt = false;
            self.stop = false;
        }
        let enable = self.ei;
        let disable = self.di;
        let opcode = self.get_instr();
        proof {
            lemma_cost_bounds(self@, opcode);
            if self.registers.flags & 0x0F == 0 {
                lemma_execute_keeps_low_nibble(self@, opcode);
            }
        }
        let cycles = operations(self, opcode);
        if enable {
            self.ime = true;
            self.ei = false;
        }
        if disable {
            self.ime = false;
            self.di = false;
        }
        cycles
    }
}

} // verus!
