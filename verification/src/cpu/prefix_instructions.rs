use crate::cpu::alu::{
    bit_mask, lemma_bit_masks, rl8, rlc8, rr8, rrc8, sla8, sra8, srl8, swap8, Flags,
};
use crate::cpu::instructions::{read_pair, read_reg, set_flags, write_reg, Reg};
use crate::cpu::machine::Machine;
use crate::cpu::{ALUFlag, CPU};
use vstd::pervasive::unreached;
use vstd::prelude::*;

verus! {

/// Rotates left through the carry: sets the flags and returns the result.
fn rl(c: &mut CPU, rv: u8) -> (v: u8)
    ensures
        v == rl8(rv, old(c)@.flags().c).0,
        final(c)@ == old(c)@.with_flags(rl8(rv, old(c)@.flags().c).1),
{
    proof {
        reveal(rl8);
    }
    let carry = c.check_flag(ALUFlag::C);
    let v = (rv << 1) | if carry { 0x01u8 } else { 0u8 };
    set_flags(c, Flags { z: v == 0, n: false, h: false, c: rv & 0x80 != 0 });
    v
}

// 9 bit rotate
fn rl_r8(c: &mut CPU, r: Reg) -> (cycles: u8)
    ensures
        final(c)@ == old(c)@.with_flags(rl8(old(c)@.reg(r), old(c)@.flags().c).1).with_reg(
            r,
            rl8(old(c)@.reg(r), old(c)@.flags().c).0,
        ),
        cycles == 2,
{
    let rv = read_reg(c, &r);
    let v = rl(c, rv);
    write_reg(c, &r, v);
    2
}

// 9 bit rotate
fn rl_hlm(c: &mut CPU) -> (cycles: u8)
    ensures
        final(c)@ == old(c)@.write(
            old(c)@.hl(),
            rl8(old(c)@.read(old(c)@.hl()), old(c)@.flags().c).0,
        ).with_flags(rl8(old(c)@.read(old(c)@.hl()), old(c)@.flags().c).1),
        cycles == 4,
{
    let addr = read_pair(c, &Reg::H, &Reg::L);
    let rv = c.memory.read_byte(addr);
    let v = rl(c, rv);
    c.memory.write_byte(addr, v);
    4
}

/// Rotates right through the carry: sets the flags and returns the result.
fn rr(c: &mut CPU, rv: u8) -> (v: u8)
    ensures
        v == rr8(rv, old(c)@.flags().c).0,
        final(c)@ == old(c)@.with_flags(rr8(rv, old(c)@.flags().c).1),
{
    proof {
        reveal(rr8);
    }
    let carry = c.check_flag(ALUFlag::C);
    let v = (rv >> 1) | if carry { 0x80u8 } else { 0u8 };
    set_flags(c, Flags { z: v == 0, n: false, h: false, c: rv & 0x01 != 0 });
    v
}

// 9 bit rotate
fn rr_r8(c: &mut CPU, r: Reg) -> (cycles: u8)
    ensures
        final(c)@ == old(c)@.with_flags(rr8(old(c)@.reg(r), old(c)@.flags().c).1).with_reg(
            r,
            rr8(old(c)@.reg(r), old(c)@.flags().c).0,
        ),
        cycles == 2,
{
    let rv = read_reg(c, &r);
    let v = rr(c, rv);
    write_reg(c, &r, v);
    2
}

// 9 bit rotate
fn rr_hlm(c: &mut CPU) -> (cycles: u8)
    ensures
        final(c)@ == old(c)@.write(
            old(c)@.hl(),
            rr8(old(c)@.read(old(c)@.hl()), old(c)@.flags().c).0,
        ).with_flags(rr8(old(c)@.read(old(c)@.hl()), old(c)@.flags().c).1),
        cycles == 4,
{
    let addr = read_pair(c, &Reg::H, &Reg::L);
    let rv = c.memory.read_byte(addr);
    let v = rr(c, rv);
    c.memory.write_byte(addr, v);
    4
}

/// Rotates left: sets the flags and returns the result.
fn rlc(c: &mut CPU, rv: u8) -> (v: u8)
    ensures
        v == rlc8(rv).0,
        final(c)@ == old(c)@.with_flags(rlc8(rv).1),
{
    proof {
        reveal(rlc8);
    }
    let v = (rv << 1) | (rv >> 7);
    set_flags(c, Flags { z: v == 0, n: false, h: false, c: rv & 0x80 != 0 });
    v
}

// 8 bit rotate
fn rlc_r8(c: &mut CPU, r: Reg) -> (cycles: u8)
    ensures
        final(c)@ == old(c)@.with_flags(rlc8(old(c)@.reg(r)).1).with_reg(
            r,
            rlc8(old(c)@.reg(r)).0,
        ),
        cycles == 2,
{
    let rv = read_reg(c, &r);
    let v = rlc(c, rv);
    write_reg(c, &r, v);
    2
}

// 8 bit rotate
fn rlc_hlm(c: &mut CPU) -> (cycles: u8)
    ensures
        final(c)@ == old(c)@.write(
            old(c)@.hl(),
            rlc8(old(c)@.read(old(c)@.hl())).0,
        ).with_flags(rlc8(old(c)@.read(old(c)@.hl())).1),
        cycles == 4,
{
    let addr = read_pair(c, &Reg::H, &Reg::L);
    let rv = c.memory.read_byte(addr);
    let v = rlc(c, rv);
    c.memory.write_byte(addr, v);
    4
}

/// Rotates right: sets the flags and returns the result.
fn rrc(c: &mut CPU, rv: u8) -> (v: u8)
    ensures
        v == rrc8(rv).0,
        final(c)@ == old(c)@.with_flags(rrc8(rv).1),
{
    proof {
        reveal(rrc8);
    }
    let v = (rv >> 1) | (rv << 7);
    set_flags(c, Flags { z: v == 0, n: false, h: false, c: rv & 0x01 != 0 });
    v
}

// 8 bit rotate
fn rrc_r8(c: &mut CPU, r: Reg) -> (cycles: u8)
    ensures
        final(c)@ == old(c)@.with_flags(rrc8(old(c)@.reg(r)).1).with_reg(
            r,
            rrc8(old(c)@.reg(r)).0,
        ),
        cycles == 2,
{
    let rv = read_reg(c, &r);
    let v = rrc(c, rv);
    write_reg(c, &r, v);
    2
}

// 8 bit rotate
fn rrc_hlm(c: &mut CPU) -> (cycles: u8)
    ensures
        final(c)@ == old(c)@.write(
            old(c)@.hl(),
            rrc8(old(c)@.read(old(c)@.hl())).0,
        ).with_flags(rrc8(old(c)@.read(old(c)@.hl())).1),
        cycles == 4,
{
    let addr = read_pair(c, &Reg::H, &Reg::L);
    let rv = c.memory.read_byte(addr);
    let v = rrc(c, rv);
    c.memory.write_byte(addr, v);
    4
}

/// Shifts left: sets the flags and returns the result.
fn sla(c: &mut CPU, rv: u8) -> (v: u8)
    ensures
        v == sla8(rv).0,
        final(c)@ == old(c)@.with_flags(sla8(rv).1),
{
    proof {
        reveal(sla8);
    }
    let v = rv << 1;
    set_flags(c, Flags { z: v == 0, n: false, h: false, c: rv & 0x80 != 0 });
    v
}

// 9 bit shift
fn sla_r8(c: &mut CPU, r: Reg) -> (cycles: u8)
    ensures
        final(c)@ == old(c)@.with_flags(sla8(old(c)@.reg(r)).1).with_reg(
            r,
            sla8(old(c)@.reg(r)).0,
        ),
        cycles == 2,
{
    let rv = read_reg(c, &r);
    let v = sla(c, rv);
    write_reg(c, &r, v);
    2
}

// 9 bit shift
fn sla_hlm(c: &mut CPU) -> (cycles: u8)
    ensures
        final(c)@ == old(c)@.write(
            old(c)@.hl(),
            sla8(old(c)@.read(old(c)@.hl())).0,
        ).with_flags(sla8(old(c)@.read(old(c)@.hl())).1),
        cycles == 4,
{
    let addr = read_pair(c, &Reg::H, &Reg::L);
    let rv = c.memory.read_byte(addr);
    let v = sla(c, rv);
    c.memory.write_byte(addr, v);
    4
}

/// Shifts right and keeps bit 7: sets the flags and returns the result.
fn sra(c: &mut CPU, rv: u8) -> (v: u8)
    ensures
        v == sra8(rv).0,
        final(c)@ == old(c)@.with_flags(sra8(rv).1),
{
    proof {
        reveal(sra8);
    }
    let v = (rv >> 1) | (rv & 0x80);
    set_flags(c, Flags { z: v == 0, n: false, h: false, c: rv & 0x01 != 0 });
    v
}

// 8 bit shift
fn sra_r8(c: &mut CPU, r: Reg) -> (cycles: u8)
    ensures
        final(c)@ == old(c)@.with_flags(sra8(old(c)@.reg(r)).1).with_reg(
            r,
            sra8(old(c)@.reg(r)).0,
        ),
        cycles == 2,
{
    let rv = read_reg(c, &r);
    let v = sra(c, rv);
    write_reg(c, &r, v);
    2
}

// 8 bit shift
fn sra_hlm(c: &mut CPU) -> (cycles: u8)
    ensures
        final(c)@ == old(c)@.write(
            old(c)@.hl(),
            sra8(old(c)@.read(old(c)@.hl())).0,
        ).with_flags(sra8(old(c)@.read(old(c)@.hl())).1),
        cycles == 4,
{
    let addr = read_pair(c, &Reg::H, &Reg::L);
    let rv = c.memory.read_byte(addr);
    let v = sra(c, rv);
    c.memory.write_byte(addr, v);
    4
}

/// Shifts right: sets the flags and returns the result.
fn srl(c: &mut CPU, rv: u8) -> (v: u8)
    ensures
        v == srl8(rv).0,
        final(c)@ == old(c)@.with_flags(srl8(rv).1),
{
    proof {
        reveal(srl8);
    }
    let v = rv >> 1;
    set_flags(c, Flags { z: v == 0, n: false, h: false, c: rv & 0x01 != 0 });
    v
}

// 9 bit shift
fn srl_r8(c: &mut CPU, r: Reg) -> (cycles: u8)
    ensures
        final(c)@ == old(c)@.with_flags(srl8(old(c)@.reg(r)).1).with_reg(
            r,
            srl8(old(c)@.reg(r)).0,
        ),
        cycles == 2,
{
    let rv = read_reg(c, &r);
    let v = srl(c, rv);
    write_reg(c, &r, v);
    2
}

// 9 bit shift
fn srl_hlm(c: &mut CPU) -> (cycles: u8)
    ensures
        final(c)@ == old(c)@.write(
            old(c)@.hl(),
            srl8(old(c)@.read(old(c)@.hl())).0,
        ).with_flags(srl8(old(c)@.read(old(c)@.hl())).1),
        cycles == 4,
{
    let addr = read_pair(c, &Reg::H, &Reg::L);
    let rv = c.memory.read_byte(addr);
    let v = srl(c, rv);
    c.memory.write_byte(addr, v);
    4
}

/// Exchanges the nibbles: sets the flags and returns the result.
fn swap(c: &mut CPU, rv: u8) -> (v: u8)
    ensures
        v == swap8(rv).0,
        final(c)@ == old(c)@.with_flags(swap8(rv).1),
{
    proof {
        reveal(swap8);
    }
    let v = (rv << 4) | (rv >> 4);
    set_flags(c, Flags { z: v == 0, n: false, h: false, c: false });
    v
}

// nibble swap
fn swap_r8(c: &mut CPU, r: Reg) -> (cycles: u8)
    ensures
        final(c)@ == old(c)@.with_flags(swap8(old(c)@.reg(r)).1).with_reg(
            r,
            swap8(old(c)@.reg(r)).0,
        ),
        cycles == 2,
{
    let rv = read_reg(c, &r);
    let v = swap(c, rv);
    write_reg(c, &r, v);
    2
}

// nibble swap
fn swap_hlm(c: &mut CPU) -> (cycles: u8)
    ensures
        final(c)@ == old(c)@.write(
            old(c)@.hl(),
            swap8(old(c)@.read(old(c)@.hl())).0,
        ).with_flags(swap8(old(c)@.read(old(c)@.hl())).1),
        cycles == 4,
{
    let addr = read_pair(c, &Reg::H, &Reg::L);
    let rv = c.memory.read_byte(addr);
    let v = swap(c, rv);
    c.memory.write_byte(addr, v);
    4
}

/// Tests the bits of `v` selected by `mask`: Z is set when none of them is
/// set, N is cleared, H is set and C is kept.
fn bit(c: &mut CPU, mask: u8, v: u8)
    ensures
        final(c)@ == old(c)@.with_flags(
            Flags { z: v & mask == 0, n: false, h: true, ..old(c)@.flags() },
        ),
{
    let carry = c.check_flag(ALUFlag::C);
    set_flags(c, Flags { z: v & mask == 0, n: false, h: true, c: carry });
}

fn bit_r8(c: &mut CPU, mask: u8, r: Reg) -> (cycles: u8)
    ensures
        final(c)@ == old(c)@.with_flags(
            Flags { z: old(c)@.reg(r) & mask == 0, n: false, h: true, ..old(c)@.flags() },
        ),
        cycles == 2,
{
    let v = read_reg(c, &r);
    bit(c, mask, v);
    2
}

fn bit_hlm(c: &mut CPU, mask: u8) -> (cycles: u8)
    ensures
        final(c)@ == old(c)@.with_flags(
            Flags {
                z: old(c)@.read(old(c)@.hl()) & mask == 0,
                n: false,
                h: true,
                ..old(c)@.flags()
            },
        ),
        cycles == 3,
{
    let addr = read_pair(c, &Reg::H, &Reg::L);
    let v = c.memory.read_byte(addr);
    bit(c, mask, v);
    3
}

fn res_r8(c: &mut CPU, mask: u8, r: Reg) -> (cycles: u8)
    ensures
        final(c)@ == old(c)@.with_reg(r, old(c)@.reg(r) & !mask),
        cycles == 2,
{
    let v = read_reg(c, &r) & !mask;
    write_reg(c, &r, v);
    2
}

fn res_hlm(c: &mut CPU, mask: u8) -> (cycles: u8)
    ensures
        final(c)@ == old(c)@.write(old(c)@.hl(), old(c)@.read(old(c)@.hl()) & !mask),
        cycles == 4,
{
    let addr = read_pair(c, &Reg::H, &Reg::L);
    let v = c.memory.read_byte(addr) & !mask;
    c.memory.write_byte(addr, v);
    4
}

fn set_r8(c: &mut CPU, mask: u8, r: Reg) -> (cycles: u8)
    ensures
        final(c)@ == old(c)@.with_reg(r, old(c)@.reg(r) | mask),
        cycles == 2,
{
    let v = read_reg(c, &r) | mask;
    write_reg(c, &r, v);
    2
}

fn set_hlm(c: &mut CPU, mask: u8) -> (cycles: u8)
    ensures
        final(c)@ == old(c)@.write(old(c)@.hl(), old(c)@.read(old(c)@.hl()) | mask),
        cycles == 4,
{
    let addr = read_pair(c, &Reg::H, &Reg::L);
    let v = c.memory.read_byte(addr) | mask;
    c.memory.write_byte(addr, v);
    4
}

/// 0x00 to 0x07: RLC r8
fn row_00(c: &mut CPU, opcode: u8) -> (cycles: u8)
    requires
        0x00 <= opcode <= 0x07,
    ensures
        final(c)@ == old(c)@.execute_prefixed(opcode),
        cycles == Machine::cost_prefixed(opcode),
{
    proof {
        reveal(Machine::execute_prefixed);
    }
    match opcode {
        0x00 => rlc_r8(c, Reg::B),
        0x01 => rlc_r8(c, Reg::C),
        0x02 => rlc_r8(c, Reg::D),
        0x03 => rlc_r8(c, Reg::E),
        0x04 => rlc_r8(c, Reg::H),
        0x05 => rlc_r8(c, Reg::L),
        0x06 => rlc_hlm(c),
        0x07 => rlc_r8(c, Reg::A),
        _ => unreached(),
    }
}

/// 0x08 to 0x0F: RRC r8
fn row_08(c: &mut CPU, opcode: u8) -> (cycles: u8)
    requires
        0x08 <= opcode <= 0x0F,
    ensures
        final(c)@ == old(c)@.execute_prefixed(opcode),
        cycles == Machine::cost_prefixed(opcode),
{
    proof {
        reveal(Machine::execute_prefixed);
    }
    match opcode {
        0x08 => rrc_r8(c, Reg::B),
        0x09 => rrc_r8(c, Reg::C),
        0x0A => rrc_r8(c, Reg::D),
        0x0B => rrc_r8(c, Reg::E),
        0x0C => rrc_r8(c, Reg::H),
        0x0D => rrc_r8(c, Reg::L),
        0x0E => rrc_hlm(c),
        0x0F => rrc_r8(c, Reg::A),
        _ => unreached(),
    }
}

/// 0x10 to 0x17: RL r8
fn row_10(c: &mut CPU, opcode: u8) -> (cycles: u8)
    requires
        0x10 <= opcode <= 0x17,
    ensures
        final(c)@ == old(c)@.execute_prefixed(opcode),
        cycles == Machine::cost_prefixed(opcode),
{
    proof {
        reveal(Machine::execute_prefixed);
    }
    match opcode {
        0x10 => rl_r8(c, Reg::B),
        0x11 => rl_r8(c, Reg::C),
        0x12 => rl_r8(c, Reg::D),
        0x13 => rl_r8(c, Reg::E),
        0x14 => rl_r8(c, Reg::H),
        0x15 => rl_r8(c, Reg::L),
        0x16 => rl_hlm(c),
        0x17 => rl_r8(c, Reg::A),
        _ => unreached(),
    }
}

/// 0x18 to 0x1F: RR r8
fn row_18(c: &mut CPU, opcode: u8) -> (cycles: u8)
    requires
        0x18 <= opcode <= 0x1F,
    ensures
        final(c)@ == old(c)@.execute_prefixed(opcode),
        cycles == Machine::cost_prefixed(opcode),
{
    proof {
        reveal(Machine::execute_prefixed);
    }
    match opcode {
        0x18 => rr_r8(c, Reg::B),
        0x19 => rr_r8(c, Reg::C),
        0x1A => rr_r8(c, Reg::D),
        0x1B => rr_r8(c, Reg::E),
        0x1C => rr_r8(c, Reg::H),
        0x1D => rr_r8(c, Reg::L),
        0x1E => rr_hlm(c),
        0x1F => rr_r8(c, Reg::A),
        _ => unreached(),
    }
}

/// 0x20 to 0x27: SLA r8
fn row_20(c: &mut CPU, opcode: u8) -> (cycles: u8)
    requires
        0x20 <= opcode <= 0x27,
    ensures
        final(c)@ == old(c)@.execute_prefixed(opcode),
        cycles == Machine::cost_prefixed(opcode),
{
    proof {
        reveal(Machine::execute_prefixed);
    }
    match opcode {
        0x20 => sla_r8(c, Reg::B),
        0x21 => sla_r8(c, Reg::C),
        0x22 => sla_r8(c, Reg::D),
        0x23 => sla_r8(c, Reg::E),
        0x24 => sla_r8(c, Reg::H),
        0x25 => sla_r8(c, Reg::L),
        0x26 => sla_hlm(c),
        0x27 => sla_r8(c, Reg::A),
        _ => unreached(),
    }
}

/// 0x28 to 0x2F: SRA r8
fn row_28(c: &mut CPU, opcode: u8) -> (cycles: u8)
    requires
        0x28 <= opcode <= 0x2F,
    ensures
        final(c)@ == old(c)@.execute_prefixed(opcode),
        cycles == Machine::cost_prefixed(opcode),
{
    proof {
        reveal(Machine::execute_prefixed);
    }
    match opcode {
        0x28 => sra_r8(c, Reg::B),
        0x29 => sra_r8(c, Reg::C),
        0x2A => sra_r8(c, Reg::D),
        0x2B => sra_r8(c, Reg::E),
        0x2C => sra_r8(c, Reg::H),
        0x2D => sra_r8(c, Reg::L),
        0x2E => sra_hlm(c),
        0x2F => sra_r8(c, Reg::A),
        _ => unreached(),
    }
}

/// 0x30 to 0x37: SWAP r8
fn row_30(c: &mut CPU, opcode: u8) -> (cycles: u8)
    requires
        0x30 <= opcode <= 0x37,
    ensures
        final(c)@ == old(c)@.execute_prefixed(opcode),
        cycles == Machine::cost_prefixed(opcode),
{
    proof {
        reveal(Machine::execute_prefixed);
    }
    match opcode {
        0x30 => swap_r8(c, Reg::B),
        0x31 => swap_r8(c, Reg::C),
        0x32 => swap_r8(c, Reg::D),
        0x33 => swap_r8(c, Reg::E),
        0x34 => swap_r8(c, Reg::H),
        0x35 => swap_r8(c, Reg::L),
        0x36 => swap_hlm(c),
        0x37 => swap_r8(c, Reg::A),
        _ => unreached(),
    }
}

/// 0x38 to 0x3F: SRL r8
fn row_38(c: &mut CPU, opcode: u8) -> (cycles: u8)
    requires
        0x38 <= opcode <= 0x3F,
    ensures
        final(c)@ == old(c)@.execute_prefixed(opcode),
        cycles == Machine::cost_prefixed(opcode),
{
    proof {
        reveal(Machine::execute_prefixed);
    }
    match opcode {
        0x38 => srl_r8(c, Reg::B),
        0x39 => srl_r8(c, Reg::C),
        0x3A => srl_r8(c, Reg::D),
        0x3B => srl_r8(c, Reg::E),
        0x3C => srl_r8(c, Reg::H),
        0x3D => srl_r8(c, Reg::L),
        0x3E => srl_hlm(c),
        0x3F => srl_r8(c, Reg::A),
        _ => unreached(),
    }
}

/// 0x40 to 0x47: BIT 0, r8
fn row_40(c: &mut CPU, opcode: u8) -> (cycles: u8)
    requires
        0x40 <= opcode <= 0x47,
    ensures
        final(c)@ == old(c)@.execute_prefixed(opcode),
        cycles == Machine::cost_prefixed(opcode),
{
    proof {
        reveal(Machine::execute_prefixed);
        lemma_bit_masks();
    }
    match opcode {
        0x40 => bit_r8(c, 0b0000_0001, Reg::B),
        0x41 => bit_r8(c, 0b0000_0001, Reg::C),
        0x42 => bit_r8(c, 0b0000_0001, Reg::D),
        0x43 => bit_r8(c, 0b0000_0001, Reg::E),
        0x44 => bit_r8(c, 0b0000_0001, Reg::H),
        0x45 => bit_r8(c, 0b0000_0001, Reg::L),
        0x46 => bit_hlm(c, 0b0000_0001),
        0x47 => bit_r8(c, 0b0000_0001, Reg::A),
        _ => unreached(),
    }
}

/// 0x48 to 0x4F: BIT 1, r8
fn row_48(c: &mut CPU, opcode: u8) -> (cycles: u8)
    requires
        0x48 <= opcode <= 0x4F,
    ensures
        final(c)@ == old(c)@.execute_prefixed(opcode),
        cycles == Machine::cost_prefixed(opcode),
{
    proof {
        reveal(Machine::execute_prefixed);
        lemma_bit_masks();
    }
    match opcode {
        0x48 => bit_r8(c, 0b0000_0010, Reg::B),
        0x49 => bit_r8(c, 0b0000_0010, Reg::C),
        0x4A => bit_r8(c, 0b0000_0010, Reg::D),
        0x4B => bit_r8(c, 0b0000_0010, Reg::E),
        0x4C => bit_r8(c, 0b0000_0010, Reg::H),
        0x4D => bit_r8(c, 0b0000_0010, Reg::L),
        0x4E => bit_hlm(c, 0b0000_0010),
        0x4F => bit_r8(c, 0b0000_0010, Reg::A),
        _ => unreached(),
    }
}

/// 0x50 to 0x57: BIT 2, r8
fn row_50(c: &mut CPU, opcode: u8) -> (cycles: u8)
    requires
        0x50 <= opcode <= 0x57,
    ensures
        final(c)@ == old(c)@.execute_prefixed(opcode),
        cycles == Machine::cost_prefixed(opcode),
{
    proof {
        reveal(Machine::execute_prefixed);
        lemma_bit_masks();
    }
    match opcode {
        0x50 => bit_r8(c, 0b0000_0100, Reg::B),
        0x51 => bit_r8(c, 0b0000_0100, Reg::C),
        0x52 => bit_r8(c, 0b0000_0100, Reg::D),
        0x53 => bit_r8(c, 0b0000_0100, Reg::E),
        0x54 => bit_r8(c, 0b0000_0100, Reg::H),
        0x55 => bit_r8(c, 0b0000_0100, Reg::L),
        0x56 => bit_hlm(c, 0b0000_0100),
        0x57 => bit_r8(c, 0b0000_0100, Reg::A),
        _ => unreached(),
    }
}

/// 0x58 to 0x5F: BIT 3, r8
fn row_58(c: &mut CPU, opcode: u8) -> (cycles: u8)
    requires
        0x58 <= opcode <= 0x5F,
    ensures
        final(c)@ == old(c)@.execute_prefixed(opcode),
        cycles == Machine::cost_prefixed(opcode),
{
    proof {
        reveal(Machine::execute_prefixed);
        lemma_bit_masks();
    }
    match opcode {
        0x58 => bit_r8(c, 0b0000_1000, Reg::B),
        0x59 => bit_r8(c, 0b0000_1000, Reg::C),
        0x5A => bit_r8(c, 0b0000_1000, Reg::D),
        0x5B => bit_r8(c, 0b0000_1000, Reg::E),
        0x5C => bit_r8(c, 0b0000_1000, Reg::H),
        0x5D => bit_r8(c, 0b0000_1000, Reg::L),
        0x5E => bit_hlm(c, 0b0000_1000),
        0x5F => bit_r8(c, 0b0000_1000, Reg::A),
        _ => unreached(),
    }
}

/// 0x60 to 0x67: BIT 4, r8
fn row_60(c: &mut CPU, opcode: u8) -> (cycles: u8)
    requires
        0x60 <= opcode <= 0x67,
    ensures
        final(c)@ == old(c)@.execute_prefixed(opcode),
        cycles == Machine::cost_prefixed(opcode),
{
    proof {
        reveal(Machine::execute_prefixed);
        lemma_bit_masks();
    }
    match opcode {
        0x60 => bit_r8(c, 0b0001_0000, Reg::B),
        0x61 => bit_r8(c, 0b0001_0000, Reg::C),
        0x62 => bit_r8(c, 0b0001_0000, Reg::D),
        0x63 => bit_r8(c, 0b0001_0000, Reg::E),
        0x64 => bit_r8(c, 0b0001_0000, Reg::H),
        0x65 => bit_r8(c, 0b0001_0000, Reg::L),
        0x66 => bit_hlm(c, 0b0001_0000),
        0x67 => bit_r8(c, 0b0001_0000, Reg::A),
        _ => unreached(),
    }
}

/// 0x68 to 0x6F: BIT 5, r8
fn row_68(c: &mut CPU, opcode: u8) -> (cycles: u8)
    requires
        0x68 <= opcode <= 0x6F,
    ensures
        final(c)@ == old(c)@.execute_prefixed(opcode),
        cycles == Machine::cost_prefixed(opcode),
{
    proof {
        reveal(Machine::execute_prefixed);
        lemma_bit_masks();
    }
    match opcode {
        0x68 => bit_r8(c, 0b0010_0000, Reg::B),
        0x69 => bit_r8(c, 0b0010_0000, Reg::C),
        0x6A => bit_r8(c, 0b0010_0000, Reg::D),
        0x6B => bit_r8(c, 0b0010_0000, Reg::E),
        0x6C => bit_r8(c, 0b0010_0000, Reg::H),
        0x6D => bit_r8(c, 0b0010_0000, Reg::L),
        0x6E => bit_hlm(c, 0b0010_0000),
        0x6F => bit_r8(c, 0b0010_0000, Reg::A),
        _ => unreached(),
    }
}

/// 0x70 to 0x77: BIT 6, r8
fn row_70(c: &mut CPU, opcode: u8) -> (cycles: u8)
    requires
        0x70 <= opcode <= 0x77,
    ensures
        final(c)@ == old(c)@.execute_prefixed(opcode),
        cycles == Machine::cost_prefixed(opcode),
{
    proof {
        reveal(Machine::execute_prefixed);
        lemma_bit_masks();
    }
    match opcode {
        0x70 => bit_r8(c, 0b0100_0000, Reg::B),
        0x71 => bit_r8(c, 0b0100_0000, Reg::C),
        0x72 => bit_r8(c, 0b0100_0000, Reg::D),
        0x73 => bit_r8(c, 0b0100_0000, Reg::E),
        0x74 => bit_r8(c, 0b0100_0000, Reg::H),
        0x75 => bit_r8(c, 0b0100_0000, Reg::L),
        0x76 => bit_hlm(c, 0b0100_0000),
        0x77 => bit_r8(c, 0b0100_0000, Reg::A),
        _ => unreached(),
    }
}

/// 0x78 to 0x7F: BIT 7, r8
fn row_78(c: &mut CPU, opcode: u8) -> (cycles: u8)
    requires
        0x78 <= opcode <= 0x7F,
    ensures
        final(c)@ == old(c)@.execute_prefixed(opcode),
        cycles == Machine::cost_prefixed(opcode),
{
    proof {
        reveal(Machine::execute_prefixed);
        lemma_bit_masks();
    }
    match opcode {
        0x78 => bit_r8(c, 0b1000_0000, Reg::B),
        0x79 => bit_r8(c, 0b1000_0000, Reg::C),
        0x7A => bit_r8(c, 0b1000_0000, Reg::D),
        0x7B => bit_r8(c, 0b1000_0000, Reg::E),
        0x7C => bit_r8(c, 0b1000_0000, Reg::H),
        0x7D => bit_r8(c, 0b1000_0000, Reg::L),
        0x7E => bit_hlm(c, 0b1000_0000),
        0x7F => bit_r8(c, 0b1000_0000, Reg::A),
        _ => unreached(),
    }
}

/// 0x80 to 0x87: RES 0, r8
fn row_80(c: &mut CPU, opcode: u8) -> (cycles: u8)
    requires
        0x80 <= opcode <= 0x87,
    ensures
        final(c)@ == old(c)@.execute_prefixed(opcode),
        cycles == Machine::cost_prefixed(opcode),
{
    proof {
        reveal(Machine::execute_prefixed);
        lemma_bit_masks();
    }
    match opcode {
        0x80 => res_r8(c, 0b0000_0001, Reg::B),
        0x81 => res_r8(c, 0b0000_0001, Reg::C),
        0x82 => res_r8(c, 0b0000_0001, Reg::D),
        0x83 => res_r8(c, 0b0000_0001, Reg::E),
        0x84 => res_r8(c, 0b0000_0001, Reg::H),
        0x85 => res_r8(c, 0b0000_0001, Reg::L),
        0x86 => res_hlm(c, 0b0000_0001),
        0x87 => res_r8(c, 0b0000_0001, Reg::A),
        _ => unreached(),
    }
}

/// 0x88 to 0x8F: RES 1, r8
fn row_88(c: &mut CPU, opcode: u8) -> (cycles: u8)
    requires
        0x88 <= opcode <= 0x8F,
    ensures
        final(c)@ == old(c)@.execute_prefixed(opcode),
        cycles == Machine::cost_prefixed(opcode),
{
    proof {
        reveal(Machine::execute_prefixed);
        lemma_bit_masks();
    }
    match opcode {
        0x88 => res_r8(c, 0b0000_0010, Reg::B),
        0x89 => res_r8(c, 0b0000_0010, Reg::C),
        0x8A => res_r8(c, 0b0000_0010, Reg::D),
        0x8B => res_r8(c, 0b0000_0010, Reg::E),
        0x8C => res_r8(c, 0b0000_0010, Reg::H),
        0x8D => res_r8(c, 0b0000_0010, Reg::L),
        0x8E => res_hlm(c, 0b0000_0010),
        0x8F => res_r8(c, 0b0000_0010, Reg::A),
        _ => unreached(),
    }
}

/// 0x90 to 0x97: RES 2, r8
fn row_90(c: &mut CPU, opcode: u8) -> (cycles: u8)
    requires
        0x90 <= opcode <= 0x97,
    ensures
        final(c)@ == old(c)@.execute_prefixed(opcode),
        cycles == Machine::cost_prefixed(opcode),
{
    proof {
        reveal(Machine::execute_prefixed);
        lemma_bit_masks();
    }
    match opcode {
        0x90 => res_r8(c, 0b0000_0100, Reg::B),
        0x91 => res_r8(c, 0b0000_0100, Reg::C),
        0x92 => res_r8(c, 0b0000_0100, Reg::D),
        0x93 => res_r8(c, 0b0000_0100, Reg::E),
        0x94 => res_r8(c, 0b0000_0100, Reg::H),
        0x95 => res_r8(c, 0b0000_0100, Reg::L),
        0x96 => res_hlm(c, 0b0000_0100),
        0x97 => res_r8(c, 0b0000_0100, Reg::A),
        _ => unreached(),
    }
}

/// 0x98 to 0x9F: RES 3, r8
fn row_98(c: &mut CPU, opcode: u8) -> (cycles: u8)
    requires
        0x98 <= opcode <= 0x9F,
    ensures
        final(c)@ == old(c)@.execute_prefixed(opcode),
        cycles == Machine::cost_prefixed(opcode),
{
    proof {
        reveal(Machine::execute_prefixed);
        lemma_bit_masks();
    }
    match opcode {
        0x98 => res_r8(c, 0b0000_1000, Reg::B),
        0x99 => res_r8(c, 0b0000_1000, Reg::C),
        0x9A => res_r8(c, 0b0000_1000, Reg::D),
        0x9B => res_r8(c, 0b0000_1000, Reg::E),
        0x9C => res_r8(c, 0b0000_1000, Reg::H),
        0x9D => res_r8(c, 0b0000_1000, Reg::L),
        0x9E => res_hlm(c, 0b0000_1000),
        0x9F => res_r8(c, 0b0000_1000, Reg::A),
        _ => unreached(),
    }
}

/// 0xA0 to 0xA7: RES 4, r8
fn row_a0(c: &mut CPU, opcode: u8) -> (cycles: u8)
    requires
        0xA0 <= opcode <= 0xA7,
    ensures
        final(c)@ == old(c)@.execute_prefixed(opcode),
        cycles == Machine::cost_prefixed(opcode),
{
    proof {
        reveal(Machine::execute_prefixed);
        lemma_bit_masks();
    }
    match opcode {
        0xA0 => res_r8(c, 0b0001_0000, Reg::B),
        0xA1 => res_r8(c, 0b0001_0000, Reg::C),
        0xA2 => res_r8(c, 0b0001_0000, Reg::D),
        0xA3 => res_r8(c, 0b0001_0000, Reg::E),
        0xA4 => res_r8(c, 0b0001_0000, Reg::H),
        0xA5 => res_r8(c, 0b0001_0000, Reg::L),
        0xA6 => res_hlm(c, 0b0001_0000),
        0xA7 => res_r8(c, 0b0001_0000, Reg::A),
        _ => unreached(),
    }
}

/// 0xA8 to 0xAF: RES 5, r8
fn row_a8(c: &mut CPU, opcode: u8) -> (cycles: u8)
    requires
        0xA8 <= opcode <= 0xAF,
    ensures
        final(c)@ == old(c)@.execute_prefixed(opcode),
        cycles == Machine::cost_prefixed(opcode),
{
    proof {
        reveal(Machine::execute_prefixed);
        lemma_bit_masks();
    }
    match opcode {
        0xA8 => res_r8(c, 0b0010_0000, Reg::B),
        0xA9 => res_r8(c, 0b0010_0000, Reg::C),
        0xAA => res_r8(c, 0b0010_0000, Reg::D),
        0xAB => res_r8(c, 0b0010_0000, Reg::E),
        0xAC => res_r8(c, 0b0010_0000, Reg::H),
        0xAD => res_r8(c, 0b0010_0000, Reg::L),
        0xAE => res_hlm(c, 0b0010_0000),
        0xAF => res_r8(c, 0b0010_0000, Reg::A),
        _ => unreached(),
    }
}

/// 0xB0 to 0xB7: RES 6, r8
fn row_b0(c: &mut CPU, opcode: u8) -> (cycles: u8)
    requires
        0xB0 <= opcode <= 0xB7,
    ensures
        final(c)@ == old(c)@.execute_prefixed(opcode),
        cycles == Machine::cost_prefixed(opcode),
{
    proof {
        reveal(Machine::execute_prefixed);
        lemma_bit_masks();
    }
    match opcode {
        0xB0 => res_r8(c, 0b0100_0000, Reg::B),
        0xB1 => res_r8(c, 0b0100_0000, Reg::C),
        0xB2 => res_r8(c, 0b0100_0000, Reg::D),
        0xB3 => res_r8(c, 0b0100_0000, Reg::E),
        0xB4 => res_r8(c, 0b0100_0000, Reg::H),
        0xB5 => res_r8(c, 0b0100_0000, Reg::L),
        0xB6 => res_hlm(c, 0b0100_0000),
        0xB7 => res_r8(c, 0b0100_0000, Reg::A),
        _ => unreached(),
    }
}

/// 0xB8 to 0xBF: RES 7, r8
fn row_b8(c: &mut CPU, opcode: u8) -> (cycles: u8)
    requires
        0xB8 <= opcode <= 0xBF,
    ensures
        final(c)@ == old(c)@.execute_prefixed(opcode),
        cycles == Machine::cost_prefixed(opcode),
{
    proof {
        reveal(Machine::execute_prefixed);
        lemma_bit_masks();
    }
    match opcode {
        0xB8 => res_r8(c, 0b1000_0000, Reg::B),
        0xB9 => res_r8(c, 0b1000_0000, Reg::C),
        0xBA => res_r8(c, 0b1000_0000, Reg::D),
        0xBB => res_r8(c, 0b1000_0000, Reg::E),
        0xBC => res_r8(c, 0b1000_0000, Reg::H),
        0xBD => res_r8(c, 0b1000_0000, Reg::L),
        0xBE => res_hlm(c, 0b1000_0000),
        0xBF => res_r8(c, 0b1000_0000, Reg::A),
        _ => unreached(),
    }
}

/// 0xC0 to 0xC7: SET 0, r8
fn row_c0(c: &mut CPU, opcode: u8) -> (cycles: u8)
    requires
        0xC0 <= opcode <= 0xC7,
    ensures
        final(c)@ == old(c)@.execute_prefixed(opcode),
        cycles == Machine::cost_prefixed(opcode),
{
    proof {
        reveal(Machine::execute_prefixed);
        lemma_bit_masks();
    }
    match opcode {
        0xC0 => set_r8(c, 0b0000_0001, Reg::B),
        0xC1 => set_r8(c, 0b0000_0001, Reg::C),
        0xC2 => set_r8(c, 0b0000_0001, Reg::D),
        0xC3 => set_r8(c, 0b0000_0001, Reg::E),
        0xC4 => set_r8(c, 0b0000_0001, Reg::H),
        0xC5 => set_r8(c, 0b0000_0001, Reg::L),
        0xC6 => set_hlm(c, 0b0000_0001),
        0xC7 => set_r8(c, 0b0000_0001, Reg::A),
        _ => unreached(),
    }
}

/// 0xC8 to 0xCF: SET 1, r8
fn row_c8(c: &mut CPU, opcode: u8) -> (cycles: u8)
    requires
        0xC8 <= opcode <= 0xCF,
    ensures
        final(c)@ == old(c)@.execute_prefixed(opcode),
        cycles == Machine::cost_prefixed(opcode),
{
    proof {
        reveal(Machine::execute_prefixed);
        lemma_bit_masks();
    }
    match opcode {
        0xC8 => set_r8(c, 0b0000_0010, Reg::B),
        0xC9 => set_r8(c, 0b0000_0010, Reg::C),
        0xCA => set_r8(c, 0b0000_0010, Reg::D),
        0xCB => set_r8(c, 0b0000_0010, Reg::E),
        0xCC => set_r8(c, 0b0000_0010, Reg::H),
        0xCD => set_r8(c, 0b0000_0010, Reg::L),
        0xCE => set_hlm(c, 0b0000_0010),
        0xCF => set_r8(c, 0b0000_0010, Reg::A),
        _ => unreached(),
    }
}

/// 0xD0 to 0xD7: SET 2, r8
fn row_d0(c: &mut CPU, opcode: u8) -> (cycles: u8)
    requires
        0xD0 <= opcode <= 0xD7,
    ensures
        final(c)@ == old(c)@.execute_prefixed(opcode),
        cycles == Machine::cost_prefixed(opcode),
{
    proof {
        reveal(Machine::execute_prefixed);
        lemma_bit_masks();
    }
    match opcode {
        0xD0 => set_r8(c, 0b0000_0100, Reg::B),
        0xD1 => set_r8(c, 0b0000_0100, Reg::C),
        0xD2 => set_r8(c, 0b0000_0100, Reg::D),
        0xD3 => set_r8(c, 0b0000_0100, Reg::E),
        0xD4 => set_r8(c, 0b0000_0100, Reg::H),
        0xD5 => set_r8(c, 0b0000_0100, Reg::L),
        0xD6 => set_hlm(c, 0b0000_0100),
        0xD7 => set_r8(c, 0b0000_0100, Reg::A),
        _ => unreached(),
    }
}

/// 0xD8 to 0xDF: SET 3, r8
fn row_d8(c: &mut CPU, opcode: u8) -> (cycles: u8)
    requires
        0xD8 <= opcode <= 0xDF,
    ensures
        final(c)@ == old(c)@.execute_prefixed(opcode),
        cycles == Machine::cost_prefixed(opcode),
{
    proof {
        reveal(Machine::execute_prefixed);
        lemma_bit_masks();
    }
    match opcode {
        0xD8 => set_r8(c, 0b0000_1000, Reg::B),
        0xD9 => set_r8(c, 0b0000_1000, Reg::C),
        0xDA => set_r8(c, 0b0000_1000, Reg::D),
        0xDB => set_r8(c, 0b0000_1000, Reg::E),
        0xDC => set_r8(c, 0b0000_1000, Reg::H),
        0xDD => set_r8(c, 0b0000_1000, Reg::L),
        0xDE => set_hlm(c, 0b0000_1000),
        0xDF => set_r8(c, 0b0000_1000, Reg::A),
        _ => unreached(),
    }
}

/// 0xE0 to 0xE7: SET 4, r8
fn row_e0(c: &mut CPU, opcode: u8) -> (cycles: u8)
    requires
        0xE0 <= opcode <= 0xE7,
    ensures
        final(c)@ == old(c)@.execute_prefixed(opcode),
        cycles == Machine::cost_prefixed(opcode),
{
    proof {
        reveal(Machine::execute_prefixed);
        lemma_bit_masks();
    }
    match opcode {
        0xE0 => set_r8(c, 0b0001_0000, Reg::B),
        0xE1 => set_r8(c, 0b0001_0000, Reg::C),
        0xE2 => set_r8(c, 0b0001_0000, Reg::D),
        0xE3 => set_r8(c, 0b0001_0000, Reg::E),
        0xE4 => set_r8(c, 0b0001_0000, Reg::H),
        0xE5 => set_r8(c, 0b0001_0000, Reg::L),
        0xE6 => set_hlm(c, 0b0001_0000),
        0xE7 => set_r8(c, 0b0001_0000, Reg::A),
        _ => unreached(),
    }
}

/// 0xE8 to 0xEF: SET 5, r8
fn row_e8(c: &mut CPU, opcode: u8) -> (cycles: u8)
    requires
        0xE8 <= opcode <= 0xEF,
    ensures
        final(c)@ == old(c)@.execute_prefixed(opcode),
        cycles == Machine::cost_prefixed(opcode),
{
    proof {
        reveal(Machine::execute_prefixed);
        lemma_bit_masks();
    }
    match opcode {
        0xE8 => set_r8(c, 0b0010_0000, Reg::B),
        0xE9 => set_r8(c, 0b0010_0000, Reg::C),
        0xEA => set_r8(c, 0b0010_0000, Reg::D),
        0xEB => set_r8(c, 0b0010_0000, Reg::E),
        0xEC => set_r8(c, 0b0010_0000, Reg::H),
        0xED => set_r8(c, 0b0010_0000, Reg::L),
        0xEE => set_hlm(c, 0b0010_0000),
        0xEF => set_r8(c, 0b0010_0000, Reg::A),
        _ => unreached(),
    }
}

/// 0xF0 to 0xF7: SET 6, r8
fn row_f0(c: &mut CPU, opcode: u8) -> (cycles: u8)
    requires
        0xF0 <= opcode <= 0xF7,
    ensures
        final(c)@ == old(c)@.execute_prefixed(opcode),
        cycles == Machine::cost_prefixed(opcode),
{
    proof {
        reveal(Machine::execute_prefixed);
        lemma_bit_masks();
    }
    match opcode {
        0xF0 => set_r8(c, 0b0100_0000, Reg::B),
        0xF1 => set_r8(c, 0b0100_0000, Reg::C),
        0xF2 => set_r8(c, 0b0100_0000, Reg::D),
        0xF3 => set_r8(c, 0b0100_0000, Reg::E),
        0xF4 => set_r8(c, 0b0100_0000, Reg::H),
        0xF5 => set_r8(c, 0b0100_0000, Reg::L),
        0xF6 => set_hlm(c, 0b0100_0000),
        0xF7 => set_r8(c, 0b0100_0000, Reg::A),
        _ => unreached(),
    }
}

/// 0xF8 to 0xFF: SET 7, r8
fn row_f8(c: &mut CPU, opcode: u8) -> (cycles: u8)
    requires
        0xF8 <= opcode <= 0xFF,
    ensures
        final(c)@ == old(c)@.execute_prefixed(opcode),
        cycles == Machine::cost_prefixed(opcode),
{
    proof {
        reveal(Machine::execute_prefixed);
        lemma_bit_masks();
    }
    match opcode {
        0xF8 => set_r8(c, 0b1000_0000, Reg::B),
        0xF9 => set_r8(c, 0b1000_0000, Reg::C),
        0xFA => set_r8(c, 0b1000_0000, Reg::D),
        0xFB => set_r8(c, 0b1000_0000, Reg::E),
        0xFC => set_r8(c, 0b1000_0000, Reg::H),
        0xFD => set_r8(c, 0b1000_0000, Reg::L),
        0xFE => set_hlm(c, 0b1000_0000),
        0xFF => set_r8(c, 0b1000_0000, Reg::A),
        _ => unreached(),
    }
}

/// Executes the CB-prefixed instruction whose second byte is `opcode`, which
/// has been fetched already, and returns its machine cycles, not counting
/// the prefix.
///
/// The opcode table is cut into rows of eight, so that each row is checked
/// against the instruction set on its own.
pub fn operation(c: &mut CPU, opcode: u8) -> (cycles: u8)
    ensures
        final(c)@ == old(c)@.execute_prefixed(opcode),
        cycles == Machine::cost_prefixed(opcode),
{
    match opcode / 8 {
        0 => row_00(c, opcode),
        1 => row_08(c, opcode),
        2 => row_10(c, opcode),
        3 => row_18(c, opcode),
        4 => row_20(c, opcode),
        5 => row_28(c, opcode),
        6 => row_30(c, opcode),
        7 => row_38(c, opcode),
        8 => row_40(c, opcode),
        9 => row_48(c, opcode),
        10 => row_50(c, opcode),
        11 => row_58(c, opcode),
        12 => row_60(c, opcode),
        13 => row_68(c, opcode),
        14 => row_70(c, opcode),
        15 => row_78(c, opcode),
        16 => row_80(c, opcode),
        17 => row_88(c, opcode),
        18 => row_90(c, opcode),
        19 => row_98(c, opcode),
        20 => row_a0(c, opcode),
        21 => row_a8(c, opcode),
        22 => row_b0(c, opcode),
        23 => row_b8(c, opcode),
        24 => row_c0(c, opcode),
        25 => row_c8(c, opcode),
        26 => row_d0(c, opcode),
        27 => row_d8(c, opcode),
        28 => row_e0(c, opcode),
        29 => row_e8(c, opcode),
        30 => row_f0(c, opcode),
        _ => row_f8(c, opcode),
    }
}

} // verus!
