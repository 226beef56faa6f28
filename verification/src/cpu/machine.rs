use crate::cpu::alu::Flags;
use crate::cpu::instructions::Reg;
use crate::cpu::{ALUFlag, Registers};
use crate::ram::Bus;
use crate::word::{high_byte, low_byte, pair};
use vstd::prelude::*;

verus! {

/// Mathematical model of the processor together with the bus it owns.
pub ghost struct Machine {
    pub regs: Registers,
    pub bus: Bus,
    /// Interrupt master enable.
    pub ime: bool,
    /// A DI was executed; it takes effect once the next instruction is done.
    pub di: bool,
    /// An EI was executed; it takes effect once the next instruction is done.
    pub ei: bool,
    pub halt: bool,
    pub stop: bool,
}

impl Machine {
    /// The bus covers the whole address space and the low nibble of F is
    /// zero.
    pub open spec fn wf(self) -> bool {
        self.bus.wf() && self.regs.flags & 0x0F == 0
    }

    pub open spec fn reg(self, r: Reg) -> u8 {
        match r {
            Reg::A => self.regs.acc,
            Reg::B => self.regs.b,
            Reg::C => self.regs.c,
            Reg::D => self.regs.d,
            Reg::E => self.regs.e,
            Reg::H => self.regs.high,
            Reg::L => self.regs.low,
            Reg::FLAGS => self.regs.flags,
        }
    }

    /// The machine with `v` written to `r`. A write to F keeps only the
    /// upper nibble of `v`.
    pub open spec fn with_reg(self, r: Reg, v: u8) -> Machine {
        Machine {
            regs: match r {
                Reg::A => Registers { acc: v, ..self.regs },
                Reg::B => Registers { b: v, ..self.regs },
                Reg::C => Registers { c: v, ..self.regs },
                Reg::D => Registers { d: v, ..self.regs },
                Reg::E => Registers { e: v, ..self.regs },
                Reg::H => Registers { high: v, ..self.regs },
                Reg::L => Registers { low: v, ..self.regs },
                Reg::FLAGS => Registers { flags: v & 0xF0, ..self.regs },
            },
            ..self
        }
    }

    /// The 16-bit value held by the register pair `high`, `low`.
    pub open spec fn reg_pair(self, high: Reg, low: Reg) -> u16 {
        pair(self.reg(high), self.reg(low))
    }

    /// The machine with `v` written to the register pair `high`, `low`.
    pub open spec fn with_reg_pair(self, high: Reg, low: Reg, v: u16) -> Machine {
        self.with_reg(high, high_byte(v)).with_reg(low, low_byte(v))
    }

    pub open spec fn bc(self) -> u16 {
        self.reg_pair(Reg::B, Reg::C)
    }

    pub open spec fn de(self) -> u16 {
        self.reg_pair(Reg::D, Reg::E)
    }

    pub open spec fn hl(self) -> u16 {
        self.reg_pair(Reg::H, Reg::L)
    }

    pub open spec fn af(self) -> u16 {
        self.reg_pair(Reg::A, Reg::FLAGS)
    }

    pub open spec fn with_hl(self, v: u16) -> Machine {
        self.with_reg_pair(Reg::H, Reg::L, v)
    }

    pub open spec fn with_sp(self, sp: u16) -> Machine {
        Machine { regs: Registers { sp, ..self.regs }, ..self }
    }

    pub open spec fn with_pc(self, pc: u16) -> Machine {
        Machine { regs: Registers { pc, ..self.regs }, ..self }
    }

    /// Whether `flag` is set in F.
    pub open spec fn flag(self, flag: ALUFlag) -> bool {
        self.regs.flags & flag.mask() != 0
    }

    pub open spec fn flags(self) -> Flags {
        Flags::of(self.regs.flags)
    }

    pub open spec fn with_flags(self, fl: Flags) -> Machine {
        Machine { regs: Registers { flags: fl.byte(), ..self.regs }, ..self }
    }

    pub open spec fn read(self, addr: u16) -> u8 {
        self.bus.read_byte(addr)
    }

    pub open spec fn read_word(self, addr: u16) -> u16 {
        self.bus.read_word(addr)
    }

    pub open spec fn write(self, addr: u16, v: u8) -> Machine {
        Machine { bus: self.bus.write_byte(addr, v), ..self }
    }

    pub open spec fn write_word(self, addr: u16, v: u16) -> Machine {
        Machine { bus: self.bus.write_word(addr, v), ..self }
    }

    /// The byte at PC.
    pub open spec fn imm8(self) -> u8 {
        self.read(self.regs.pc)
    }

    /// The little-endian word at PC.
    pub open spec fn imm16(self) -> u16 {
        self.read_word(self.regs.pc)
    }

    /// The machine with PC moved forward by `n`, modulo 2^16.
    pub open spec fn skip(self, n: u16) -> Machine {
        self.with_pc(self.regs.pc.wrapping_add(n))
    }

    /// The machine with `v` pushed: SP goes down by two, modulo 2^16, and
    /// the word is stored where it then points.
    pub open spec fn push(self, v: u16) -> Machine {
        let sp = self.regs.sp.wrapping_sub(2);
        self.with_sp(sp).write_word(sp, v)
    }

    /// The word on top of the stack.
    pub open spec fn top(self) -> u16 {
        self.read_word(self.regs.sp)
    }

    /// The machine with the top word taken off the stack: SP goes up by
    /// two, modulo 2^16.
    pub open spec fn drop_top(self) -> Machine {
        self.with_sp(self.regs.sp.wrapping_add(2))
    }

    /// The 8-bit operand slots of the instruction encoding, in their order:
    /// B, C, D, E, H, L, the byte at HL, A.
    pub open spec fn operand(self, slot: int) -> u8 {
        if slot == 0 {
            self.regs.b
        } else if slot == 1 {
            self.regs.c
        } else if slot == 2 {
            self.regs.d
        } else if slot == 3 {
            self.regs.e
        } else if slot == 4 {
            self.regs.high
        } else if slot == 5 {
            self.regs.low
        } else if slot == 6 {
            self.read(self.hl())
        } else {
            self.regs.acc
        }
    }

    pub open spec fn with_operand(self, slot: int, v: u8) -> Machine {
        if slot == 0 {
            self.with_reg(Reg::B, v)
        } else if slot == 1 {
            self.with_reg(Reg::C, v)
        } else if slot == 2 {
            self.with_reg(Reg::D, v)
        } else if slot == 3 {
            self.with_reg(Reg::E, v)
        } else if slot == 4 {
            self.with_reg(Reg::H, v)
        } else if slot == 5 {
            self.with_reg(Reg::L, v)
        } else if slot == 6 {
            self.write(self.hl(), v)
        } else {
            self.with_reg(Reg::A, v)
        }
    }

    /// The 16-bit operand slots of loads and arithmetic: BC, DE, HL, SP.
    pub open spec fn wide(self, slot: int) -> u16 {
        if slot == 0 {
            self.bc()
        } else if slot == 1 {
            self.de()
        } else if slot == 2 {
            self.hl()
        } else {
            self.regs.sp
        }
    }

    pub open spec fn with_wide(self, slot: int, v: u16) -> Machine {
        if slot == 0 {
            self.with_reg_pair(Reg::B, Reg::C, v)
        } else if slot == 1 {
            self.with_reg_pair(Reg::D, Reg::E, v)
        } else if slot == 2 {
            self.with_hl(v)
        } else {
            self.with_sp(v)
        }
    }

    /// The 16-bit operand slots of PUSH and POP: BC, DE, HL, AF.
    pub open spec fn stacked(self, slot: int) -> u16 {
        if slot == 0 {
            self.bc()
        } else if slot == 1 {
            self.de()
        } else if slot == 2 {
            self.hl()
        } else {
            self.af()
        }
    }

    pub open spec fn with_stacked(self, slot: int, v: u16) -> Machine {
        if slot == 0 {
            self.with_reg_pair(Reg::B, Reg::C, v)
        } else if slot == 1 {
            self.with_reg_pair(Reg::D, Reg::E, v)
        } else if slot == 2 {
            self.with_hl(v)
        } else {
            self.with_reg_pair(Reg::A, Reg::FLAGS, v)
        }
    }

    /// The branch conditions of the instruction encoding, in their order:
    /// NZ, Z, NC, C.
    pub open spec fn condition(self, slot: int) -> bool {
        if slot == 0 {
            !self.flag(ALUFlag::Z)
        } else if slot == 1 {
            self.flag(ALUFlag::Z)
        } else if slot == 2 {
            !self.flag(ALUFlag::C)
        } else {
            self.flag(ALUFlag::C)
        }
    }
}

} // verus!
