use crate::cpu::alu::{lemma_flags_byte, signed, Flags};
use crate::cpu::instructions::Reg;
use crate::cpu::machine::Machine;
use crate::ram::{lemma_word_round_trip, Bus};
use crate::word::{lemma_pair_bytes, low_byte};
use vstd::prelude::*;

verus! {

/// Whatever is written to F, through the flags or through a register
/// write, has a zero low nibble.
pub proof fn lemma_flag_writes()
    ensures
        forall|fl: Flags| #[trigger] fl.byte() & 0x0F == 0,
        forall|v: u8| #[trigger] (v & 0xF0) & 0x0F == 0,
{
    assert forall|fl: Flags| #[trigger] fl.byte() & 0x0F == 0 by {
        lemma_flags_byte(fl);
    }
    assert forall|v: u8| #[trigger] (v & 0xF0) & 0x0F == 0 by {
        assert((v & 0xF0) & 0x0F == 0) by (bit_vector);
    }
}

/// A CB-prefixed instruction leaves the low nibble of F zero.
pub proof fn lemma_prefixed_keeps_low_nibble(m: Machine, op: u8)
    requires
        m.regs.flags & 0x0F == 0,
    ensures
        m.execute_prefixed(op).regs.flags & 0x0F == 0,
{
    reveal(Machine::execute_prefixed);
    lemma_flag_writes();
}

/// Every instruction leaves the low nibble of F zero.
pub proof fn lemma_execute_keeps_low_nibble(m: Machine, op: u8)
    requires
        m.regs.flags & 0x0F == 0,
    ensures
        m.execute(op).regs.flags & 0x0F == 0,
{
    reveal(Machine::execute);
    reveal(Machine::execute_low);
    reveal(Machine::execute_high);
    lemma_flag_writes();
    if op == 0xCB {
        lemma_prefixed_keeps_low_nibble(m.skip(1), m.imm8());
    }
}

/// After any step the low nibble of F is zero, if it was before.
pub proof fn lemma_step_keeps_low_nibble(m: Machine)
    requires
        m.regs.flags & 0x0F == 0,
    ensures
        m.step().regs.flags & 0x0F == 0,
{
    let awake = Machine { halt: false, stop: false, ..m };
    lemma_execute_keeps_low_nibble(awake.skip(1), m.imm8());
}

/// The bus `after` holds in its serial buffer what `before` holds, followed
/// by no more than two bytes.
pub open spec fn appends(before: Bus, after: Bus) -> bool {
    &&& after.wf()
    &&& before.serial.is_prefix_of(after.serial)
    &&& after.serial.len() <= before.serial.len() + 2
}

/// Writing a byte or a word keeps what the serial buffer holds and appends
/// no more than two bytes to it.
pub proof fn lemma_writes_append(bus: Bus)
    requires
        bus.wf(),
    ensures
        appends(bus, bus),
        forall|addr: u16, v: u8| appends(bus, #[trigger] bus.write_byte(addr, v)),
        forall|addr: u16, v: u16| appends(bus, #[trigger] bus.write_word(addr, v)),
{
}

/// A CB-prefixed instruction keeps what the serial buffer holds and appends
/// no more than two bytes to it.
proof fn lemma_prefixed_appends(m: Machine, op: u8)
    requires
        m.bus.wf(),
    ensures
        appends(m.bus, m.execute_prefixed(op).bus),
{
    reveal(Machine::execute_prefixed);
    lemma_writes_append(m.bus);
}

/// Each of the instructions 0x00 to 0x3F leaves the bus as it is or makes
/// one write to it, of a byte or of a word.
proof fn lemma_low_appends(m: Machine, y: int, z: int)
    requires
        m.bus.wf(),
    ensures
        m.execute_low(y, z).bus == m.bus || (exists|addr: u16, v: u8|
            m.execute_low(y, z).bus == m.bus.write_byte(addr, v)) || (exists|addr: u16, v: u16|
            m.execute_low(y, z).bus == m.bus.write_word(addr, v)),
{
    reveal(Machine::execute_low);
}

/// Each of the instructions 0xC0 to 0xFF, but for the CB prefix, leaves the
/// bus as it is or makes one write to it, of a byte or of a word.
proof fn lemma_high_appends(m: Machine, y: int, z: int)
    requires
        m.bus.wf(),
        !(z == 3 && y == 1),
    ensures
        m.execute_high(y, z).bus == m.bus || (exists|addr: u16, v: u8|
            m.execute_high(y, z).bus == m.bus.write_byte(addr, v)) || (exists|addr: u16, v: u16|
            m.execute_high(y, z).bus == m.bus.write_word(addr, v)),
{
    reveal(Machine::execute_high);
}

/// An instruction writes no more than two bytes, and what it writes to the
/// serial data register is appended to the serial buffer: nothing that the
/// buffer holds is changed or lost.
pub proof fn lemma_execute_extends_serial(m: Machine, op: u8)
    requires
        m.bus.wf(),
    ensures
        appends(m.bus, m.execute(op).bus),
{
    let y = (op as int / 8) % 8;
    let z = op as int % 8;
    lemma_writes_append(m.bus);
    if op < 0x40 {
        assert(m.execute(op) == m.execute_low(y, z)) by {
            reveal(Machine::execute);
        }
        lemma_low_appends(m, y, z);
    } else if op == 0xCB {
        assert(m.execute(op) == m.skip(1).execute_prefixed(m.imm8())) by {
            reveal(Machine::execute);
            reveal(Machine::execute_high);
        }
        lemma_prefixed_appends(m.skip(1), m.imm8());
    } else if op >= 0xC0 {
        assert(m.execute(op) == m.execute_high(y, z)) by {
            reveal(Machine::execute);
        }
        lemma_high_appends(m, y, z);
    } else {
        assert(m.execute(op).bus == m.bus || exists|addr: u16, v: u8|
            m.execute(op).bus == m.bus.write_byte(addr, v)) by {
            reveal(Machine::execute);
        }
    }
}

/// A step keeps what the serial buffer holds and appends to it what the
/// instruction writes to the serial data register.
pub proof fn lemma_step_extends_serial(m: Machine)
    requires
        m.bus.wf(),
    ensures
        appends(m.bus, m.step().bus),
{
    let awake = Machine { halt: false, stop: false, ..m };
    lemma_execute_extends_serial(awake.skip(1), m.imm8());
}

/// A step of a well-formed machine gives a well-formed machine.
pub proof fn lemma_step_keeps_wf(m: Machine)
    requires
        m.wf(),
    ensures
        m.step().wf(),
{
    lemma_step_keeps_low_nibble(m);
    lemma_step_extends_serial(m);
}

/// HALT halts the processor, and while it is halted or stopped with no
/// interrupt pending a step takes one machine cycle and changes nothing: PC
/// stays where it is.
pub proof fn lemma_halt_sleeps(m: Machine)
    ensures
        m.execute(0x76) == (Machine { halt: true, ..m }),
        m.sleeping() ==> m.step() == m && m.step_cost() == 1,
{
    reveal(Machine::execute);
}

/// An opcode that the processor does not define changes nothing and takes
/// one machine cycle.
pub proof fn lemma_undefined_opcodes(m: Machine, op: u8)
    requires
        !Machine::defined(op),
    ensures
        m.execute(op) == m,
        m.cost(op) == 1,
{
    reveal(Machine::execute);
    reveal(Machine::execute_low);
    reveal(Machine::execute_high);
    reveal(Machine::cost);
}

/// An instruction takes between one and six machine cycles.
pub proof fn lemma_cost_bounds(m: Machine, op: u8)
    ensures
        1 <= m.cost(op) <= 6,
        2 <= Machine::cost_prefixed(op) <= 4,
{
    reveal(Machine::cost);
}

/// The number of bytes that the instruction with opcode `op` occupies, the
/// opcode itself included: one more for an 8-bit operand, two more for a
/// 16-bit operand, and two in all for a CB-prefixed instruction and for
/// STOP.
pub open spec fn length(op: u8) -> int {
    let x = op as int / 0x40;
    let y = (op as int / 8) % 8;
    let z = op as int % 8;
    if x == 0 {
        if z == 0 {
            if y == 0 {
                1
            } else if y == 1 {
                3
            } else {
                2
            }
        } else if z == 1 {
            if y % 2 == 0 {
                3
            } else {
                1
            }
        } else if z == 6 {
            2
        } else {
            1
        }
    } else if x == 1 || x == 2 {
        1
    } else {
        if z == 0 {
            if y < 4 {
                1
            } else {
                2
            }
        } else if z == 2 {
            if y == 4 || y == 6 {
                1
            } else {
                3
            }
        } else if z == 3 {
            if y == 0 {
                3
            } else if y == 1 {
                2
            } else {
                1
            }
        } else if z == 4 {
            if y < 4 {
                3
            } else {
                1
            }
        } else if z == 5 {
            if y == 1 {
                3
            } else {
                1
            }
        } else if z == 6 {
            2
        } else {
            1
        }
    }
}

/// Whether `op` is a relative jump: JR or JR cc.
pub open spec fn is_relative_jump(op: u8) -> bool {
    op == 0x18 || op == 0x20 || op == 0x28 || op == 0x30 || op == 0x38
}

/// Whether `op` is an absolute jump to its operand: JP or JP cc.
pub open spec fn is_jump(op: u8) -> bool {
    op == 0xC3 || op == 0xC2 || op == 0xCA || op == 0xD2 || op == 0xDA
}

/// Whether `op` is a call: CALL or CALL cc.
pub open spec fn is_call(op: u8) -> bool {
    op == 0xCD || op == 0xC4 || op == 0xCC || op == 0xD4 || op == 0xDC
}

/// Whether `op` is a return: RET, RETI or RET cc.
pub open spec fn is_return(op: u8) -> bool {
    op == 0xC9 || op == 0xD9 || op == 0xC0 || op == 0xC8 || op == 0xD0 || op == 0xD8
}

/// Whether `op` is a restart: RST.
pub open spec fn is_restart(op: u8) -> bool {
    op >= 0xC0 && op % 8 == 7
}

/// Whether `op` is one of the instructions that set PC: a jump, a call, a
/// return or a restart.
pub open spec fn is_branch(op: u8) -> bool {
    is_relative_jump(op) || is_jump(op) || op == 0xE9 || is_call(op) || is_return(op)
        || is_restart(op)
}

/// Whether the branch with opcode `op` is taken on the flags of `m`: always
/// where it has no condition, else on NZ, Z, NC or C as bits 3 and 4 of the
/// opcode say.
pub open spec fn branch_taken(m: Machine, op: u8) -> bool {
    if op == 0x18 || op == 0xC3 || op == 0xCD || op == 0xC9 || op == 0xD9 || op == 0xE9
        || is_restart(op) {
        true
    } else {
        m.condition((op as int / 8) % 4)
    }
}

/// Where the branch at PC lands if it is taken: a relative jump at the
/// address after it plus its signed operand, a jump or a call at its operand,
/// JP HL at HL, a return at the word on top of the stack, and a restart at
/// its vector.
pub open spec fn branch_target(m: Machine) -> u16 {
    let op = m.imm8();
    let operand = m.skip(1);
    if is_relative_jump(op) {
        ((m.regs.pc + 2 + signed(operand.imm8())) % 0x10000) as u16
    } else if is_jump(op) || is_call(op) {
        operand.imm16()
    } else if op == 0xE9 {
        m.hl()
    } else if is_return(op) {
        m.top()
    } else {
        (op - 0xC7) as u16
    }
}

/// A CB-prefixed instruction leaves PC where it is once its second byte is
/// fetched.
pub proof fn lemma_prefixed_keeps_pc(m: Machine, op: u8)
    ensures
        m.execute_prefixed(op).regs.pc == m.regs.pc,
        m.execute_prefixed(op).regs.sp == m.regs.sp,
{
    reveal(Machine::execute_prefixed);
}

/// The fields of an opcode, `xx yyy zzz`, and what they say of its length
/// and of whether it is a branch.
proof fn lemma_opcode_fields(op: u8)
    ensures
        ({
            let x = op as int / 0x40;
            let y = (op as int / 8) % 8;
            let z = op as int % 8;
            &&& op == 0x40 * x + 8 * y + z
            &&& 0 <= x < 4 && 0 <= y < 8 && 0 <= z < 8
            &&& is_relative_jump(op) == (x == 0 && z == 0 && y >= 3)
            &&& is_jump(op) == (x == 3 && (z == 2 && y < 4 || z == 3 && y == 0))
            &&& is_call(op) == (x == 3 && (z == 4 && y < 4 || z == 5 && y == 1))
            &&& is_return(op) == (x == 3 && (z == 0 && y < 4 || z == 1 && (y == 1 || y == 3)))
            &&& is_restart(op) == (x == 3 && z == 7)
            &&& (op == 0xE9) == (x == 3 && z == 1 && y == 5)
            &&& is_restart(op) ==> op - 0xC7 == 8 * y
            &&& (op as int / 8) % 4 == y % 4
        }),
{
}

/// The instruction lengths of the opcodes 0x00 to 0x3F, by their fields.
spec fn length_low(y: int, z: int) -> int {
    if z == 0 {
        if y == 0 {
            1
        } else if y == 1 {
            3
        } else {
            2
        }
    } else if z == 1 {
        if y % 2 == 0 {
            3
        } else {
            1
        }
    } else if z == 6 {
        2
    } else {
        1
    }
}

/// The instruction lengths of the opcodes 0xC0 to 0xFF, by their fields.
spec fn length_high(y: int, z: int) -> int {
    if z == 0 {
        if y < 4 {
            1
        } else {
            2
        }
    } else if z == 2 {
        if y == 4 || y == 6 {
            1
        } else {
            3
        }
    } else if z == 3 {
        if y == 0 {
            3
        } else if y == 1 {
            2
        } else {
            1
        }
    } else if z == 4 {
        if y < 4 {
            3
        } else {
            1
        }
    } else if z == 5 {
        if y == 1 {
            3
        } else {
            1
        }
    } else if z == 6 {
        2
    } else {
        1
    }
}

/// The instructions 0x00 to 0x3F move PC past their operands; a relative
/// jump that is taken adds its signed operand to that.
proof fn lemma_low_moves_pc(m: Machine, y: int, z: int)
    requires
        0 <= y < 8,
        0 <= z < 8,
    ensures
        m.execute_low(y, z).regs.pc == if z == 0 && (y == 3 || (y >= 4 && m.condition(y - 4))) {
            ((m.regs.pc + 1 + signed(m.imm8())) % 0x10000) as u16
        } else {
            ((m.regs.pc + length_low(y, z) - 1) % 0x10000) as u16
        },
{
    reveal(Machine::execute_low);
}

/// The instructions 0xC0 to 0xFF move PC past their operands, unless they
/// are a branch that is taken.
proof fn lemma_high_moves_pc(m: Machine, y: int, z: int)
    requires
        0 <= y < 8,
        0 <= z < 8,
    ensures
        m.execute_high(y, z).regs.pc == if (z == 2 || z == 4) && y < 4 && m.condition(y) {
            m.imm16()
        } else if z == 3 && y == 0 || z == 5 && y == 1 {
            m.imm16()
        } else if z == 0 && y < 4 && m.condition(y) || z == 1 && (y == 1 || y == 3) {
            m.top()
        } else if z == 1 && y == 5 {
            m.hl()
        } else if z == 7 {
            (8 * y) as u16
        } else {
            ((m.regs.pc + length_high(y, z) - 1) % 0x10000) as u16
        },
{
    reveal(Machine::execute_high);
    if z == 3 && y == 1 {
        lemma_prefixed_keeps_pc(m.skip(1), m.imm8());
    }
}

/// The instructions 0x40 to 0xBF leave PC where it is once they are
/// fetched.
proof fn lemma_middle_keeps_pc(m: Machine, op: u8)
    requires
        0x40 <= op < 0xC0,
    ensures
        m.execute(op).regs.pc == m.regs.pc,
{
    reveal(Machine::execute);
}

/// Once its opcode is fetched, an instruction moves PC past its operands,
/// unless it is a branch that is taken; then PC is the target of the branch.
pub proof fn lemma_execute_moves_pc(m: Machine, op: u8)
    ensures
        m.execute(op).regs.pc == if is_relative_jump(op) && branch_taken(m, op) {
            ((m.regs.pc + 1 + signed(m.imm8())) % 0x10000) as u16
        } else if (is_jump(op) || is_call(op)) && branch_taken(m, op) {
            m.imm16()
        } else if is_return(op) && branch_taken(m, op) {
            m.top()
        } else if op == 0xE9 {
            m.hl()
        } else if is_restart(op) {
            (op - 0xC7) as u16
        } else {
            ((m.regs.pc + length(op) - 1) % 0x10000) as u16
        },
{
    let y = (op as int / 8) % 8;
    let z = op as int % 8;
    lemma_opcode_fields(op);
    if op < 0x40 {
        assert(m.execute(op) == m.execute_low(y, z)) by {
            reveal(Machine::execute);
        }
        assert(length(op) == length_low(y, z));
        lemma_low_moves_pc(m, y, z);
    } else if op >= 0xC0 {
        assert(m.execute(op) == m.execute_high(y, z)) by {
            reveal(Machine::execute);
        }
        assert(length(op) == length_high(y, z));
        lemma_high_moves_pc(m, y, z);
    } else {
        lemma_middle_keeps_pc(m, op);
    }
}

/// After a step that executes an instruction, PC has moved on by the length
/// of the instruction, modulo 2^16, unless the instruction is a branch that
/// is taken; then PC is the target of the branch.
pub proof fn lemma_step_moves_pc(m: Machine)
    requires
        !m.sleeping(),
    ensures
        m.step().regs.pc == if is_branch(m.imm8()) && branch_taken(m, m.imm8()) {
            branch_target(m)
        } else {
            ((m.regs.pc + length(m.imm8())) % 0x10000) as u16
        },
{
    let awake = Machine { halt: false, stop: false, ..m };
    lemma_execute_moves_pc(awake.skip(1), m.imm8());
}

/// A call and a restart push the address of the instruction after them, and
/// a return takes the word it jumps to off the stack.
pub proof fn lemma_step_moves_sp(m: Machine)
    requires
        !m.sleeping(),
        m.bus.wf(),
        is_branch(m.imm8()),
        branch_taken(m, m.imm8()),
    ensures
        is_call(m.imm8()) || is_restart(m.imm8()) ==> m.step().regs.sp == m.regs.sp.wrapping_sub(2)
            && m.step().top() == ((m.regs.pc + length(m.imm8())) % 0x10000) as u16,
        is_return(m.imm8()) ==> m.step().regs.sp == m.regs.sp.wrapping_add(2),
{
    reveal(Machine::execute);
    reveal(Machine::execute_low);
    reveal(Machine::execute_high);
    let op = m.imm8();
    if is_call(op) || is_restart(op) {
        let pushed = ((m.regs.pc + length(op)) % 0x10000) as u16;
        lemma_word_round_trip(m.bus, m.regs.sp.wrapping_sub(2), pushed);
    }
}

/// PC and SP are 16 bits wide, and moving them wraps modulo 2^16.
pub proof fn lemma_pc_sp_wrap(m: Machine, n: u16, v: u16)
    ensures
        m.skip(n).regs.pc == (m.regs.pc + n) % 0x10000,
        m.push(v).regs.sp == (m.regs.sp - 2) % 0x10000,
        m.drop_top().regs.sp == (m.regs.sp + 2) % 0x10000,
        m.execute(0x33).regs.sp == (m.regs.sp + 1) % 0x10000,
        m.execute(0x3B).regs.sp == (m.regs.sp - 1) % 0x10000,
{
    reveal(Machine::execute);
    reveal(Machine::execute_low);
    reveal(Machine::execute_high);
}

/// What is pushed is popped again, and SP is then where it was before the
/// push.
pub proof fn lemma_push_pop(m: Machine, v: u16)
    requires
        m.bus.wf(),
    ensures
        m.push(v).top() == v,
        m.push(v).drop_top().regs.sp == m.regs.sp,
{
    lemma_word_round_trip(m.bus, m.regs.sp.wrapping_sub(2), v);
}

/// The opcode of PUSH for the register pair in `slot`: BC, DE, HL, AF.
pub open spec fn push_opcode(slot: int) -> u8 {
    (0xC5 + 0x10 * slot) as u8
}

/// The opcode of POP for the register pair in `slot`: BC, DE, HL, AF.
pub open spec fn pop_opcode(slot: int) -> u8 {
    (0xC1 + 0x10 * slot) as u8
}

/// PUSH pushes its register pair, and POP takes the top of the stack into
/// its register pair.
pub proof fn lemma_push_pop_opcodes(m: Machine, slot: int)
    requires
        0 <= slot < 4,
    ensures
        m.execute(push_opcode(slot)) == m.push(m.stacked(slot)),
        m.execute(pop_opcode(slot)) == m.drop_top().with_stacked(slot, m.top()),
{
    reveal(Machine::execute);
    reveal(Machine::execute_low);
    reveal(Machine::execute_high);
    if slot == 0 {
        assert(m.execute(0xC5) == m.push(m.stacked(0)));
        assert(m.execute(0xC1) == m.drop_top().with_stacked(0, m.top()));
    } else if slot == 1 {
        assert(m.execute(0xD5) == m.push(m.stacked(1)));
        assert(m.execute(0xD1) == m.drop_top().with_stacked(1, m.top()));
    } else if slot == 2 {
        assert(m.execute(0xE5) == m.push(m.stacked(2)));
        assert(m.execute(0xE1) == m.drop_top().with_stacked(2, m.top()));
    } else {
        assert(m.execute(0xF5) == m.push(m.stacked(3)));
        assert(m.execute(0xF1) == m.drop_top().with_stacked(3, m.top()));
    }
}

/// PUSH of a register pair followed by POP into the same pair leaves the
/// registers as they were; of F only the upper nibble comes back.
pub proof fn lemma_push_then_pop(m: Machine, slot: int)
    requires
        m.bus.wf(),
        0 <= slot < 4,
    ensures
        m.execute(push_opcode(slot)).execute(pop_opcode(slot)).regs == if slot == 3 {
            m.with_reg(Reg::FLAGS, m.regs.flags).regs
        } else {
            m.regs
        },
{
    let pushed = m.push(m.stacked(slot));
    lemma_push_pop_opcodes(m, slot);
    lemma_push_pop_opcodes(pushed, slot);
    lemma_push_pop(m, m.stacked(slot));
    lemma_pair_bytes(m.regs.b, m.regs.c, 0);
    lemma_pair_bytes(m.regs.d, m.regs.e, 0);
    lemma_pair_bytes(m.regs.high, m.regs.low, 0);
    lemma_pair_bytes(m.regs.acc, m.regs.flags, 0);
}

/// POP AF leaves the low nibble of F zero, whatever lies on the stack.
pub proof fn lemma_pop_af(m: Machine)
    ensures
        m.execute(0xF1).regs.flags == low_byte(m.top()) & 0xF0,
        m.execute(0xF1).regs.flags & 0x0F == 0,
{
    reveal(Machine::execute);
    reveal(Machine::execute_low);
    reveal(Machine::execute_high);
    lemma_flag_writes();
}

} // verus!
