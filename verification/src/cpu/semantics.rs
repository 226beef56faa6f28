use crate::cpu::alu::{
    add16, add_signed, alu8, bit_mask, daa8, dec8, inc8, rl8, rlc8, rr8, rrc8, shift8, signed,
    Flags,
};
use crate::cpu::instructions::Reg;
use crate::cpu::machine::Machine;
use vstd::prelude::*;

verus! {

/// What each instruction does, by the fields of its opcode. An opcode is
/// read as `xx yyy zzz`: the two top bits select a block, and within a block
/// `y` and `z` select the operation and its operands; where a 16-bit operand
/// is meant, `y` is read as `pp q`.
///
/// All of these take the machine as it is once the opcode has been fetched,
/// so that PC points at the first operand byte, if there is one.
impl Machine {
    /// An accumulator operation with `v` as its second operand.
    pub open spec fn accumulate(self, op: int, v: u8) -> Machine {
        let (value, fl) = alu8(op, self.regs.acc, v, self.flags().c);
        self.with_reg(Reg::A, value).with_flags(fl)
    }

    /// JR: the signed byte at PC is added to the address after it.
    pub open spec fn jump_relative(self, taken: bool) -> Machine {
        let next = self.skip(1);
        if taken {
            next.with_pc(((next.regs.pc + signed(self.imm8())) % 0x10000) as u16)
        } else {
            next
        }
    }

    /// JP: PC becomes the word at PC.
    pub open spec fn jump(self, taken: bool) -> Machine {
        if taken {
            self.with_pc(self.imm16())
        } else {
            self.skip(2)
        }
    }

    /// CALL: the address after the operand is pushed and PC becomes the
    /// operand.
    pub open spec fn call(self, taken: bool) -> Machine {
        let next = self.skip(2);
        if taken {
            next.push(next.regs.pc).with_pc(self.imm16())
        } else {
            next
        }
    }

    /// RET: PC becomes the word popped from the stack.
    pub open spec fn ret(self, taken: bool) -> Machine {
        if taken {
            self.drop_top().with_pc(self.top())
        } else {
            self
        }
    }

    /// RST: PC is pushed and becomes `vector`.
    pub open spec fn restart(self, vector: u16) -> Machine {
        self.push(self.regs.pc).with_pc(vector)
    }

    /// The four rotates of the accumulator, which always clear Z.
    pub open spec fn rotate_acc(self, kind: int) -> Machine {
        let a = self.regs.acc;
        let carry = self.flags().c;
        let (value, fl) = if kind == 0 {
            rlc8(a)
        } else if kind == 1 {
            rrc8(a)
        } else if kind == 2 {
            rl8(a, carry)
        } else {
            rr8(a, carry)
        };
        self.with_reg(Reg::A, value).with_flags(Flags { z: false, ..fl })
    }

    /// Opcodes 0x00 to 0x3F.
    #[verifier::opaque]
    pub open spec fn execute_low(self, y: int, z: int) -> Machine {
        let p = y / 2;
        let q = y % 2;
        let fl = self.flags();
        if z == 0 {
            if y == 0 {
                // NOP
                self
            } else if y == 1 {
                // LD (a16), SP
                self.skip(2).write_word(self.imm16(), self.regs.sp)
            } else if y == 2 {
                // STOP, with its padding byte
                Machine { stop: true, ..self.skip(1) }
            } else if y == 3 {
                // JR e8
                self.jump_relative(true)
            } else {
                // JR cc, e8
                self.jump_relative(self.condition(y - 4))
            }
        } else if z == 1 {
            if q == 0 {
                // LD r16, n16
                self.skip(2).with_wide(p, self.imm16())
            } else {
                // ADD HL, r16
                let (value, fl) = add16(self.hl(), self.wide(p), fl.z);
                self.with_hl(value).with_flags(fl)
            }
        } else if z == 2 {
            let addr = if p == 0 {
                self.bc()
            } else if p == 1 {
                self.de()
            } else {
                self.hl()
            };
            // LD (r16), A and LD A, (r16)
            let moved = if q == 0 {
                self.write(addr, self.regs.acc)
            } else {
                self.with_reg(Reg::A, self.read(addr))
            };
            // (HL+) and (HL-)
            if p == 2 {
                moved.with_hl(self.hl().wrapping_add(1))
            } else if p == 3 {
                moved.with_hl(self.hl().wrapping_sub(1))
            } else {
                moved
            }
        } else if z == 3 {
            if q == 0 {
                // INC r16
                self.with_wide(p, self.wide(p).wrapping_add(1))
            } else {
                // DEC r16
                self.with_wide(p, self.wide(p).wrapping_sub(1))
            }
        } else if z == 4 {
            // INC r8
            let (value, fl) = inc8(self.operand(y), fl.c);
            self.with_operand(y, value).with_flags(fl)
        } else if z == 5 {
            // DEC r8
            let (value, fl) = dec8(self.operand(y), fl.c);
            self.with_operand(y, value).with_flags(fl)
        } else if z == 6 {
            // LD r8, n8
            self.skip(1).with_operand(y, self.imm8())
        } else {
            if y < 4 {
                // RLCA, RRCA, RLA, RRA
                self.rotate_acc(y)
            } else if y == 4 {
                // DAA
                let (value, fl) = daa8(self.regs.acc, fl);
                self.with_reg(Reg::A, value).with_flags(fl)
            } else if y == 5 {
                // CPL
                self.with_reg(Reg::A, !self.regs.acc).with_flags(Flags { n: true, h: true, ..fl })
            } else if y == 6 {
                // SCF
                self.with_flags(Flags { n: false, h: false, c: true, ..fl })
            } else {
                // CCF
                self.with_flags(Flags { n: false, h: false, c: !fl.c, ..fl })
            }
        }
    }

    /// Opcodes 0xC0 to 0xFF.
    #[verifier::opaque]
    pub open spec fn execute_high(self, y: int, z: int) -> Machine {
        let p = y / 2;
        let q = y % 2;
        if z == 0 {
            if y < 4 {
                // RET cc
                self.ret(self.condition(y))
            } else if y == 4 {
                // LDH (a8), A
                self.skip(1).write((0xFF00 + self.imm8()) as u16, self.regs.acc)
            } else if y == 5 {
                // ADD SP, e8
                let (value, fl) = add_signed(self.regs.sp, self.imm8());
                self.skip(1).with_sp(value).with_flags(fl)
            } else if y == 6 {
                // LDH A, (a8)
                self.skip(1).with_reg(Reg::A, self.read((0xFF00 + self.imm8()) as u16))
            } else {
                // LD HL, SP+e8
                let (value, fl) = add_signed(self.regs.sp, self.imm8());
                self.skip(1).with_hl(value).with_flags(fl)
            }
        } else if z == 1 {
            if q == 0 {
                // POP r16
                self.drop_top().with_stacked(p, self.top())
            } else if p == 0 {
                // RET
                self.ret(true)
            } else if p == 1 {
                // RETI
                Machine { ime: true, ..self.ret(true) }
            } else if p == 2 {
                // JP HL
                self.with_pc(self.hl())
            } else {
                // LD SP, HL
                self.with_sp(self.hl())
            }
        } else if z == 2 {
            if y < 4 {
                // JP cc, a16
                self.jump(self.condition(y))
            } else if y == 4 {
                // LD (C), A
                self.write((0xFF00 + self.regs.c) as u16, self.regs.acc)
            } else if y == 5 {
                // LD (a16), A
                self.skip(2).write(self.imm16(), self.regs.acc)
            } else if y == 6 {
                // LD A, (C)
                self.with_reg(Reg::A, self.read((0xFF00 + self.regs.c) as u16))
            } else {
                // LD A, (a16)
                self.skip(2).with_reg(Reg::A, self.read(self.imm16()))
            }
        } else if z == 3 {
            if y == 0 {
                // JP a16
                self.jump(true)
            } else if y == 1 {
                // the CB prefix
                self.skip(1).execute_prefixed(self.imm8())
            } else if y == 6 {
                // DI
                Machine { di: true, ..self }
            } else if y == 7 {
                // EI
                Machine { ei: true, ..self }
            } else {
                self
            }
        } else if z == 4 {
            if y < 4 {
                // CALL cc, a16
                self.call(self.condition(y))
            } else {
                self
            }
        } else if z == 5 {
            if q == 0 {
                // PUSH r16
                self.push(self.stacked(p))
            } else if p == 0 {
                // CALL a16
                self.call(true)
            } else {
                self
            }
        } else if z == 6 {
            // ADD, ADC, SUB, SBC, AND, XOR, OR, CP with n8
            self.skip(1).accumulate(y, self.imm8())
        } else {
            // RST
            self.restart((y * 8) as u16)
        }
    }

    /// The machine after the instruction with opcode `op`. An opcode that
    /// the processor does not define leaves the machine as it is.
    #[verifier::opaque]
    pub open spec fn execute(self, op: u8) -> Machine {
        let x = op as int / 0x40;
        let y = (op as int / 8) % 8;
        let z = op as int % 8;
        if x == 0 {
            self.execute_low(y, z)
        } else if x == 1 {
            if op == 0x76 {
                // HALT
                Machine { halt: true, ..self }
            } else {
                // LD r8, r8
                self.with_operand(y, self.operand(z))
            }
        } else if x == 2 {
            // ADD, ADC, SUB, SBC, AND, XOR, OR, CP with r8
            self.accumulate(y, self.operand(z))
        } else {
            self.execute_high(y, z)
        }
    }

    /// The machine after the CB-prefixed instruction with second byte
    /// `op`, taken once that byte has been fetched.
    #[verifier::opaque]
    pub open spec fn execute_prefixed(self, op: u8) -> Machine {
        let x = op as int / 0x40;
        let y = (op as int / 8) % 8;
        let z = op as int % 8;
        let v = self.operand(z);
        let fl = self.flags();
        if x == 0 {
            // RLC, RRC, RL, RR, SLA, SRA, SWAP, SRL
            let (value, fl) = shift8(y, v, fl.c);
            self.with_operand(z, value).with_flags(fl)
        } else if x == 1 {
            // BIT
            self.with_flags(Flags { z: v & bit_mask(y) == 0, n: false, h: true, ..fl })
        } else if x == 2 {
            // RES
            self.with_operand(z, v & !bit_mask(y))
        } else {
            // SET
            self.with_operand(z, v | bit_mask(y))
        }
    }

    /// The machine cycles that the CB-prefixed instruction `op` takes, not
    /// counting the prefix.
    pub open spec fn cost_prefixed(op: u8) -> u8 {
        let x = op as int / 0x40;
        let z = op as int % 8;
        if z != 6 {
            2
        } else if x == 1 {
            3
        } else {
            4
        }
    }

    /// The machine cycles that the instruction with opcode `op` takes. An
    /// opcode that the processor does not define takes one.
    #[verifier::opaque]
    pub open spec fn cost(self, op: u8) -> u8 {
        let x = op as int / 0x40;
        let y = (op as int / 8) % 8;
        let z = op as int % 8;
        let p = y / 2;
        let q = y % 2;
        if x == 0 {
            if z == 0 {
                if y == 0 {
                    1
                } else if y == 1 {
                    5
                } else if y == 2 {
                    4
                } else if y == 3 || self.condition(y - 4) {
                    3
                } else {
                    2
                }
            } else if z == 1 {
                if q == 0 {
                    3
                } else {
                    2
                }
            } else if z == 2 || z == 3 {
                2
            } else if z == 4 || z == 5 {
                if y == 6 {
                    3
                } else {
                    1
                }
            } else if z == 6 {
                if y == 6 {
                    3
                } else {
                    2
                }
            } else {
                1
            }
        } else if x == 1 {
            if op == 0x76 {
                1
            } else if y == 6 || z == 6 {
                2
            } else {
                1
            }
        } else if x == 2 {
            if z == 6 {
                2
            } else {
                1
            }
        } else {
            if z == 0 {
                if y < 4 {
                    if self.condition(y) {
                        5
                    } else {
                        2
                    }
                } else if y == 5 {
                    4
                } else {
                    3
                }
            } else if z == 1 {
                if q == 0 {
                    3
                } else if p == 0 || p == 1 {
                    4
                } else if p == 2 {
                    1
                } else {
                    2
                }
            } else if z == 2 {
                if y < 4 {
                    if self.condition(y) {
                        4
                    } else {
                        3
                    }
                } else if y == 4 || y == 6 {
                    2
                } else {
                    4
                }
            } else if z == 3 {
                if y == 0 {
                    4
                } else if y == 1 {
                    (1 + Self::cost_prefixed(self.imm8())) as u8
                } else {
                    1
                }
            } else if z == 4 {
                if y < 4 {
                    if self.condition(y) {
                        6
                    } else {
                        3
                    }
                } else {
                    1
                }
            } else if z == 5 {
                if q == 0 {
                    4
                } else if p == 0 {
                    6
                } else {
                    1
                }
            } else if z == 6 {
                2
            } else {
                4
            }
        }
    }

    /// Whether the processor defines the opcode `op`.
    pub open spec fn defined(op: u8) -> bool {
        !(op == 0xD3 || op == 0xDB || op == 0xDD || op == 0xE3 || op == 0xE4 || op == 0xEB || op
            == 0xEC || op == 0xED || op == 0xF4 || op == 0xFC || op == 0xFD)
    }

    /// An interrupt is requested and enabled: a bit among the low five is
    /// set both in IF (0xFF0F) and in IE (0xFFFF).
    pub open spec fn interrupt_pending(self) -> bool {
        self.read(0xFFFF) & self.read(0xFF0F) & 0x1F != 0
    }

    /// The processor is halted or stopped and nothing wakes it.
    pub open spec fn sleeping(self) -> bool {
        (self.halt || self.stop) && !self.interrupt_pending()
    }

    /// The machine with the interrupt switches that were pending before an
    /// instruction applied after it: a pending EI sets IME, a pending DI
    /// clears it.
    pub open spec fn settle(self, ei: bool, di: bool) -> Machine {
        let enabled = if ei {
            Machine { ime: true, ei: false, ..self }
        } else {
            self
        };
        if di {
            Machine { ime: false, di: false, ..enabled }
        } else {
            enabled
        }
    }

    /// One step of the processor. While it sleeps nothing changes. Else it
    /// fetches the opcode at PC, executes the instruction, and then applies
    /// the interrupt switches that were pending when the step began.
    pub open spec fn step(self) -> Machine {
        if self.sleeping() {
            self
        } else {
            let awake = Machine { halt: false, stop: false, ..self };
            awake.skip(1).execute(self.imm8()).settle(self.ei, self.di)
        }
    }

    /// The machine cycles that the step takes: one while the processor
    /// sleeps, else the cost of the instruction.
    pub open spec fn step_cost(self) -> u8 {
        if self.sleeping() {
            1
        } else {
            let awake = Machine { halt: false, stop: false, ..self };
            awake.skip(1).cost(self.imm8())
        }
    }
}

} // verus!
