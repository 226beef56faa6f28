use crate::cpu::alu::{
    add16, add8, add_signed, and8, cp8, daa8, dec8, inc8, or8, rl8, rlc8, rr8, rrc8, signed, sub8,
    xor8, Flags,
};
use crate::cpu::machine::Machine;
use crate::cpu::prefix_instructions::operation;
use crate::cpu::{ALUFlag, CPU};
use crate::word::{high_byte, low_byte, pair};
use vstd::pervasive::unreached;
use vstd::prelude::*;

verus! {

/// The 8-bit registers, by name.
#[derive(Debug, Clone, Copy, PartialEq, Eq, Structural)]
pub enum Reg {
    A,
    B,
    C,
    D,
    E,
    FLAGS,
    H,
    L,
}

// Helpers
pub fn read_reg(c: &mut CPU, r: &Reg) -> (v: u8)
    ensures
        v == old(c)@.reg(*r),
        *final(c) == *old(c),
{
    match r {
        Reg::A => c.registers.acc,
        Reg::B => c.registers.b,
        Reg::C => c.registers.c,
        Reg::D => c.registers.d,
        Reg::E => c.registers.e,
        Reg::H => c.registers.high,
        Reg::L => c.registers.low,
        Reg::FLAGS => c.registers.flags,
    }
}

/// Writes a register; of a value written to F only the upper nibble is
/// kept.
pub fn write_reg(c: &mut CPU, r: &Reg, v: u8)
    ensures
        final(c)@ == old(c)@.with_reg(*r, v),
{
    match r {
        Reg::A => c.registers.acc = v,
        Reg::B => c.registers.b = v,
        Reg::C => c.registers.c = v,
        Reg::D => c.registers.d = v,
        Reg::E => c.registers.e = v,
        Reg::H => c.registers.high = v,
        Reg::L => c.registers.low = v,
        Reg::FLAGS => c.registers.flags = v & 0xF0,
    }
}

/// Reads two registers as one 16-bit value: the first is its upper byte.
pub fn read_pair(c: &mut CPU, r1: &Reg, r2: &Reg) -> (v: u16)
    ensures
        v == (old(c)@.reg(*r1) as u16) << 8 | (old(c)@.reg(*r2) as u16),
        v == old(c)@.reg_pair(*r1, *r2),
        *final(c) == *old(c),
{
    let high = read_reg(c, r1);
    let low = read_reg(c, r2);
    pair(high, low)
}

/// Writes a 16-bit value to two registers: the first takes its upper byte.
pub fn write_pair(c: &mut CPU, r1: &Reg, r2: &Reg, v: u16)
    ensures
        final(c)@ == old(c)@.with_reg_pair(*r1, *r2, v),
{
    write_reg(c, r1, high_byte(v));
    write_reg(c, r2, low_byte(v));
}

/// Reads the four flags out of F.
pub fn get_flags(c: &mut CPU) -> (fl: Flags)
    ensures
        fl == old(c)@.flags(),
        *final(c) == *old(c),
{
    Flags {
        z: c.check_flag(ALUFlag::Z),
        n: c.check_flag(ALUFlag::N),
        h: c.check_flag(ALUFlag::H),
        c: c.check_flag(ALUFlag::C),
    }
}

/// Writes the four flags to F, whose low nibble becomes zero.
pub fn set_flags(c: &mut CPU, fl: Flags)
    ensures
        final(c)@ == old(c)@.with_flags(fl),
{
    c.registers.flags = (if fl.z { 0x80u8 } else { 0u8 }) | (if fl.n { 0x40u8 } else { 0u8 })
        | (if fl.h { 0x20u8 } else { 0u8 }) | (if fl.c { 0x10u8 } else { 0u8 });
}

/// Adds a signed byte to an address, modulo 2^16.
fn add_offset(base: u16, e: u8) -> (target: u16)
    ensures
        target == ((base + signed(e)) % 0x10000) as u16,
{
    if e >= 0x80 {
        base.wrapping_sub(0x100 - e as u16)
    } else {
        base.wrapping_add(e as u16)
    }
}

// return values of instructions are machine cycles
fn ld_r8_n8(c: &mut CPU, r: Reg) -> (cycles: u8)
    ensures
        final(c)@ == old(c)@.skip(1).with_reg(r, old(c)@.imm8()),
        cycles == 2,
{
    let v = c.get_instr();
    write_reg(c, &r, v);
    2
}

fn ld_r8_r8(c: &mut CPU, r1: Reg, r2: Reg) -> (cycles: u8)
    ensures
        final(c)@ == old(c)@.with_reg(r1, old(c)@.reg(r2)),
        cycles == 1,
{
    let v = read_reg(c, &r2);
    write_reg(c, &r1, v);
    1
}

fn ld_r8_r16m(c: &mut CPU, r1: Reg, r2: Reg, r3: Reg) -> (cycles: u8)
    ensures
        final(c)@ == old(c)@.with_reg(r1, old(c)@.read(old(c)@.reg_pair(r2, r3))),
        cycles == 2,
{
    let addr = read_pair(c, &r2, &r3);
    let v = c.memory.read_byte(addr);
    write_reg(c, &r1, v);
    2
}

fn ld_r16m_n8(c: &mut CPU, r1: Reg, r2: Reg) -> (cycles: u8)
    ensures
        final(c)@ == old(c)@.skip(1).write(old(c)@.reg_pair(r1, r2), old(c)@.imm8()),
        cycles == 3,
{
    let v = c.get_instr();
    let addr = read_pair(c, &r1, &r2);
    c.memory.write_byte(addr, v);
    3
}

fn ld_r16_n16(c: &mut CPU, r1: Reg, r2: Reg) -> (cycles: u8)
    ensures
        final(c)@ == old(c)@.skip(2).with_reg_pair(r1, r2, old(c)@.imm16()),
        cycles == 3,
{
    let val = c.get_word_instr();
    write_pair(c, &r1, &r2, val);
    3
}

fn ld_sp_n16(c: &mut CPU) -> (cycles: u8)
    ensures
        final(c)@ == old(c)@.skip(2).with_sp(old(c)@.imm16()),
        cycles == 3,
{
    c.registers.sp = c.get_word_instr();
    3
}

fn ld_r16m_r8(c: &mut CPU, r1: Reg, r2: Reg, r3: Reg) -> (cycles: u8)
    ensures
        final(c)@ == old(c)@.write(old(c)@.reg_pair(r1, r2), old(c)@.reg(r3)),
        cycles == 2,
{
    let addr = read_pair(c, &r1, &r2);
    let v = read_reg(c, &r3);
    c.memory.write_byte(addr, v);
    2
}

fn ld_r16m_a(c: &mut CPU, r1: Reg, r2: Reg) -> (cycles: u8)
    ensures
        final(c)@ == old(c)@.write(old(c)@.reg_pair(r1, r2), old(c).registers.acc),
        cycles == 2,
{
    let addr = read_pair(c, &r1, &r2);
    c.memory.write_byte(addr, c.registers.acc);
    2
}

fn ld_a16m_sp(c: &mut CPU) -> (cycles: u8)
    ensures
        final(c)@ == old(c)@.skip(2).write_word(old(c)@.imm16(), old(c).registers.sp),
        cycles == 5,
{
    let addr = c.get_word_instr();
    c.memory.write_word(addr, c.registers.sp);
    5
}

fn ld_a8m_a(c: &mut CPU) -> (cycles: u8)
    ensures
        final(c)@ == old(c)@.skip(1).write(
            (0xFF00 + old(c)@.imm8()) as u16,
            old(c).registers.acc,
        ),
        cycles == 3,
{
    let addr = 0xFF00 + c.get_instr() as u16;
    c.memory.write_byte(addr, c.registers.acc);
    3
}

fn ld_a_a8m(c: &mut CPU) -> (cycles: u8)
    ensures
        final(c)@ == old(c)@.skip(1).with_reg(
            Reg::A,
            old(c)@.read((0xFF00 + old(c)@.imm8()) as u16),
        ),
        cycles == 3,
{
    let addr = 0xFF00 + c.get_instr() as u16;
    c.registers.acc = c.memory.read_byte(addr);
    3
}

fn ld_a_r16m(c: &mut CPU, r1: Reg, r2: Reg) -> (cycles: u8)
    ensures
        final(c)@ == old(c)@.with_reg(Reg::A, old(c)@.read(old(c)@.reg_pair(r1, r2))),
        cycles == 2,
{
    let addr = read_pair(c, &r1, &r2);
    c.registers.acc = c.memory.read_byte(addr);
    2
}

/// The sum of SP and a signed byte, with the flags of adding the unsigned
/// byte to the low byte of SP; sets the flags and returns the sum.
fn add_sp_offset(c: &mut CPU, e: u8) -> (sum: u16)
    ensures
        sum == add_signed(old(c).registers.sp, e).0,
        final(c)@ == old(c)@.with_flags(add_signed(old(c).registers.sp, e).1),
{
    proof {
        reveal(add_signed);
    }
    let sp = c.registers.sp;
    let h = (sp & 0x000F) as u32 + (e & 0x0F) as u32 > 0x000F;
    let carry = (sp & 0x00FF) as u32 + (e & 0xFF) as u32 > 0x00FF;
    set_flags(c, Flags { z: false, n: false, h, c: carry });
    add_offset(sp, e)
}

fn ld_hl_spe8(c: &mut CPU) -> (cycles: u8)
    ensures
        final(c)@ == old(c)@.skip(1).with_hl(
            add_signed(old(c).registers.sp, old(c)@.imm8()).0,
        ).with_flags(add_signed(old(c).registers.sp, old(c)@.imm8()).1),
        cycles == 3,
{
    let e = c.get_instr();
    let hl = add_sp_offset(c, e);
    write_pair(c, &Reg::H, &Reg::L, hl);
    3
}

fn ld_sp_hl(c: &mut CPU) -> (cycles: u8)
    ensures
        final(c)@ == old(c)@.with_sp(old(c)@.hl()),
        cycles == 2,
{
    c.registers.sp = read_pair(c, &Reg::H, &Reg::L);
    2
}

fn ld_hlim_a(c: &mut CPU) -> (cycles: u8)
    ensures
        final(c)@ == old(c)@.write(old(c)@.hl(), old(c).registers.acc).with_hl(
            old(c)@.hl().wrapping_add(1),
        ),
        cycles == 2,
{
    let hl = read_pair(c, &Reg::H, &Reg::L);
    c.memory.write_byte(hl, c.registers.acc);
    write_pair(c, &Reg::H, &Reg::L, hl.wrapping_add(1));
    2
}

fn ld_hldm_a(c: &mut CPU) -> (cycles: u8)
    ensures
        final(c)@ == old(c)@.write(old(c)@.hl(), old(c).registers.acc).with_hl(
            old(c)@.hl().wrapping_sub(1),
        ),
        cycles == 2,
{
    let hl = read_pair(c, &Reg::H, &Reg::L);
    c.memory.write_byte(hl, c.registers.acc);
    write_pair(c, &Reg::H, &Reg::L, hl.wrapping_sub(1));
    2
}

fn ld_a_hlim(c: &mut CPU) -> (cycles: u8)
    ensures
        final(c)@ == old(c)@.with_reg(Reg::A, old(c)@.read(old(c)@.hl())).with_hl(
            old(c)@.hl().wrapping_add(1),
        ),
        cycles == 2,
{
    let hl = read_pair(c, &Reg::H, &Reg::L);
    let v = c.memory.read_byte(hl);
    write_pair(c, &Reg::H, &Reg::L, hl.wrapping_add(1));
    c.registers.acc = v;
    2
}

fn ld_a_hldm(c: &mut CPU) -> (cycles: u8)
    ensures
        final(c)@ == old(c)@.with_reg(Reg::A, old(c)@.read(old(c)@.hl())).with_hl(
            old(c)@.hl().wrapping_sub(1),
        ),
        cycles == 2,
{
    let hl = read_pair(c, &Reg::H, &Reg::L);
    let v = c.memory.read_byte(hl);
    write_pair(c, &Reg::H, &Reg::L, hl.wrapping_sub(1));
    c.registers.acc = v;
    2
}

fn ld_a16m_a(c: &mut CPU) -> (cycles: u8)
    ensures
        final(c)@ == old(c)@.skip(2).write(old(c)@.imm16(), old(c).registers.acc),
        cycles == 4,
{
    let addr = c.get_word_instr();
    c.memory.write_byte(addr, c.registers.acc);
    4
}

fn ld_a_a16m(c: &mut CPU) -> (cycles: u8)
    ensures
        final(c)@ == old(c)@.skip(2).with_reg(Reg::A, old(c)@.read(old(c)@.imm16())),
        cycles == 4,
{
    let addr = c.get_word_instr();
    c.registers.acc = c.memory.read_byte(addr);
    4
}

fn ld_cm_a(c: &mut CPU) -> (cycles: u8)
    ensures
        final(c)@ == old(c)@.write((0xFF00 + old(c).registers.c) as u16, old(c).registers.acc),
        cycles == 2,
{
    c.memory.write_byte(0xFF00 + c.registers.c as u16, c.registers.acc);
    2
}

fn ld_a_cm(c: &mut CPU) -> (cycles: u8)
    ensures
        final(c)@ == old(c)@.with_reg(Reg::A, old(c)@.read((0xFF00 + old(c).registers.c) as u16)),
        cycles == 2,
{
    c.registers.acc = c.memory.read_byte(0xFF00 + c.registers.c as u16);
    2
}

fn inc_sp(c: &mut CPU) -> (cycles: u8)
    ensures
        final(c)@ == old(c)@.with_sp(old(c).registers.sp.wrapping_add(1)),
        cycles == 2,
{
    // no flags are set for overflows
    c.registers.sp = c.registers.sp.wrapping_add(1);
    2
}

fn inc_r16(c: &mut CPU, r1: Reg, r2: Reg) -> (cycles: u8)
    ensures
        final(c)@ == old(c)@.with_reg_pair(r1, r2, old(c)@.reg_pair(r1, r2).wrapping_add(1)),
        cycles == 2,
{
    // no flags are set for overflows
    let val = read_pair(c, &r1, &r2).wrapping_add(1);
    write_pair(c, &r1, &r2, val);
    2
}

/// Increments a byte: sets Z, N and H, keeps C, and returns the new value.
fn inc_u8(c: &mut CPU, v: u8) -> (value: u8)
    ensures
        value == inc8(v, old(c)@.flags().c).0,
        final(c)@ == old(c)@.with_flags(inc8(v, old(c)@.flags().c).1),
{
    proof {
        reveal(inc8);
    }
    let value = v.wrapping_add(1);
    let carry = c.check_flag(ALUFlag::C);
    set_flags(c, Flags { z: value == 0, n: false, h: (v & 0x0F) as u16 + 1 > 0x0F, c: carry });
    value
}

/// Decrements a byte: sets Z, N and H, keeps C, and returns the new value.
fn dec_u8(c: &mut CPU, v: u8) -> (value: u8)
    ensures
        value == dec8(v, old(c)@.flags().c).0,
        final(c)@ == old(c)@.with_flags(dec8(v, old(c)@.flags().c).1),
{
    proof {
        reveal(dec8);
    }
    let value = v.wrapping_sub(1);
    let carry = c.check_flag(ALUFlag::C);
    set_flags(c, Flags { z: value == 0, n: true, h: (v & 0x0F) < 1, c: carry });
    value
}

fn inc_r8(c: &mut CPU, r: Reg) -> (cycles: u8)
    ensures
        final(c)@ == old(c)@.with_flags(inc8(old(c)@.reg(r), old(c)@.flags().c).1).with_reg(
            r,
            inc8(old(c)@.reg(r), old(c)@.flags().c).0,
        ),
        cycles == 1,
{
    let v = read_reg(c, &r);
    let vv = inc_u8(c, v);
    write_reg(c, &r, vv);
    1
}

fn dec_r16m(c: &mut CPU, r1: Reg, r2: Reg) -> (cycles: u8)
    ensures
        final(c)@ == old(c)@.write(
            old(c)@.reg_pair(r1, r2),
            dec8(old(c)@.read(old(c)@.reg_pair(r1, r2)), old(c)@.flags().c).0,
        ).with_flags(dec8(old(c)@.read(old(c)@.reg_pair(r1, r2)), old(c)@.flags().c).1),
        cycles == 3,
{
    let addr = read_pair(c, &r1, &r2);
    let v = c.memory.read_byte(addr);
    let vv = dec_u8(c, v);
    c.memory.write_byte(addr, vv);
    3
}

fn inc_r16m(c: &mut CPU, r1: Reg, r2: Reg) -> (cycles: u8)
    ensures
        final(c)@ == old(c)@.write(
            old(c)@.reg_pair(r1, r2),
            inc8(old(c)@.read(old(c)@.reg_pair(r1, r2)), old(c)@.flags().c).0,
        ).with_flags(inc8(old(c)@.read(old(c)@.reg_pair(r1, r2)), old(c)@.flags().c).1),
        cycles == 3,
{
    let addr = read_pair(c, &r1, &r2);
    let v = c.memory.read_byte(addr);
    let vv = inc_u8(c, v);
    c.memory.write_byte(addr, vv);
    3
}

fn dec_r8(c: &mut CPU, r: Reg) -> (cycles: u8)
    ensures
        final(c)@ == old(c)@.with_flags(dec8(old(c)@.reg(r), old(c)@.flags().c).1).with_reg(
            r,
            dec8(old(c)@.reg(r), old(c)@.flags().c).0,
        ),
        cycles == 1,
{
    let v = read_reg(c, &r);
    let vv = dec_u8(c, v);
    write_reg(c, &r, vv);
    1
}

fn dec_r16(c: &mut CPU, r1: Reg, r2: Reg) -> (cycles: u8)
    ensures
        final(c)@ == old(c)@.with_reg_pair(r1, r2, old(c)@.reg_pair(r1, r2).wrapping_sub(1)),
        cycles == 2,
{
    let v = read_pair(c, &r1, &r2).wrapping_sub(1);
    write_pair(c, &r1, &r2, v);
    2
}

fn dec_sp(c: &mut CPU) -> (cycles: u8)
    ensures
        final(c)@ == old(c)@.with_sp(old(c).registers.sp.wrapping_sub(1)),
        cycles == 2,
{
    c.registers.sp = c.registers.sp.wrapping_sub(1);
    2
}

fn rlca(c: &mut CPU) -> (cycles: u8)
    ensures
        final(c)@ == old(c)@.rotate_acc(0),
        cycles == 1,
{
    proof {
        reveal(rlc8);
    }
    let rv = c.registers.acc;
    c.registers.acc = (rv << 1) | (rv >> 7);
    set_flags(c, Flags { z: false, n: false, h: false, c: rv & 0x80 != 0 });
    1
}

fn rla(c: &mut CPU) -> (cycles: u8)
    ensures
        final(c)@ == old(c)@.rotate_acc(2),
        cycles == 1,
{
    proof {
        reveal(rl8);
    }
    let rv = c.registers.acc;
    c.registers.acc = (rv << 1) | if c.check_flag(ALUFlag::C) { 0x01u8 } else { 0u8 };
    set_flags(c, Flags { z: false, n: false, h: false, c: rv & 0x80 != 0 });
    1
}

fn rrca(c: &mut CPU) -> (cycles: u8)
    ensures
        final(c)@ == old(c)@.rotate_acc(1),
        cycles == 1,
{
    proof {
        reveal(rrc8);
    }
    let rv = c.registers.acc;
    c.registers.acc = (rv >> 1) | (rv << 7);
    set_flags(c, Flags { z: false, n: false, h: false, c: rv & 0x01 != 0 });
    1
}

fn rra(c: &mut CPU) -> (cycles: u8)
    ensures
        final(c)@ == old(c)@.rotate_acc(3),
        cycles == 1,
{
    proof {
        reveal(rr8);
    }
    let rv = c.registers.acc;
    c.registers.acc = (rv >> 1) | if c.check_flag(ALUFlag::C) { 0x80u8 } else { 0u8 };
    set_flags(c, Flags { z: false, n: false, h: false, c: rv & 0x01 != 0 });
    1
}

/// Adds two bytes and a carry: sets the flags and returns the sum.
fn add_with_carry(c: &mut CPU, v1: u8, v2: u8, carry: bool) -> (sum: u8)
    ensures
        sum == add8(v1, v2, carry).0,
        final(c)@ == old(c)@.with_flags(add8(v1, v2, carry).1),
{
    proof {
        reveal(add8);
    }
    let cin: u16 = if carry { 1 } else { 0 };
    let wide: u16 = v1 as u16 + v2 as u16 + cin;
    let sum = (wide % 0x100) as u8;
    set_flags(
        c,
        Flags {
            z: sum == 0,
            n: false,
            h: (v1 & 0x0F) as u16 + (v2 & 0x0F) as u16 + cin > 0x0F,
            c: wide > 0xFF,
        },
    );
    sum
}

/// Subtracts a byte and a carry from a byte: sets the flags and returns the
/// difference.
fn sub_with_carry(c: &mut CPU, v1: u8, v2: u8, carry: bool) -> (difference: u8)
    ensures
        difference == sub8(v1, v2, carry).0,
        final(c)@ == old(c)@.with_flags(sub8(v1, v2, carry).1),
{
    proof {
        reveal(sub8);
    }
    let cin: u16 = if carry { 1 } else { 0 };
    let difference = v1.wrapping_sub(v2).wrapping_sub(if carry { 1 } else { 0 });
    set_flags(
        c,
        Flags {
            z: difference == 0,
            n: true,
            h: ((v1 & 0x0F) as u16) < (v2 & 0x0F) as u16 + cin,
            c: (v1 as u16) < v2 as u16 + cin,
        },
    );
    difference
}

/// Generically do the ALU add operation for 8 bit values and set the proper
/// flags
fn add_u8(c: &mut CPU, v1: u8, v2: u8) -> (sum: u8)
    ensures
        sum == add8(v1, v2, false).0,
        final(c)@ == old(c)@.with_flags(add8(v1, v2, false).1),
{
    add_with_carry(c, v1, v2, false)
}

/// Generically do the ALU add operation for 16 bit values and set the proper
/// flags: Z is kept, H is the carry out of bit 11
fn add_u16(c: &mut CPU, v1: u16, v2: u16) -> (sum: u16)
    ensures
        sum == add16(v1, v2, old(c)@.flags().z).0,
        final(c)@ == old(c)@.with_flags(add16(v1, v2, old(c)@.flags().z).1),
{
    proof {
        reveal(add16);
    }
    let wide: u32 = v1 as u32 + v2 as u32;
    let zero = c.check_flag(ALUFlag::Z);
    set_flags(
        c,
        Flags {
            z: zero,
            n: false,
            h: (v1 & 0x0FFF) as u32 + (v2 & 0x0FFF) as u32 > 0x0FFF,
            c: wide > 0xFFFF,
        },
    );
    (wide % 0x10000) as u16
}

/// Generically do the ALU adc operation for 8 bit values and set the proper
/// flags
fn adc_u8(c: &mut CPU, v1: u8, v2: u8) -> (sum: u8)
    ensures
        sum == add8(v1, v2, old(c)@.flags().c).0,
        final(c)@ == old(c)@.with_flags(add8(v1, v2, old(c)@.flags().c).1),
{
    let carry = c.check_flag(ALUFlag::C);
    add_with_carry(c, v1, v2, carry)
}

/// Generically do the ALU sub operation for 8 bit values and set the proper
/// flags
fn sub_u8(c: &mut CPU, v1: u8, v2: u8) -> (difference: u8)
    ensures
        difference == sub8(v1, v2, false).0,
        final(c)@ == old(c)@.with_flags(sub8(v1, v2, false).1),
{
    sub_with_carry(c, v1, v2, false)
}

/// Generically do the ALU sbc operation for 8 bit values and set the proper
/// flags
fn sbc_u8(c: &mut CPU, v1: u8, v2: u8) -> (difference: u8)
    ensures
        difference == sub8(v1, v2, old(c)@.flags().c).0,
        final(c)@ == old(c)@.with_flags(sub8(v1, v2, old(c)@.flags().c).1),
{
    let carry = c.check_flag(ALUFlag::C);
    sub_with_carry(c, v1, v2, carry)
}

/// Only sets flags, no return value needed
fn cp_u8(c: &mut CPU, v1: u8, v2: u8)
    ensures
        final(c)@ == old(c)@.with_flags(cp8(v1, v2).1),
{
    sub_with_carry(c, v1, v2, false);
}

/// Bitwise and: sets the flags and returns the result.
fn and_u8(c: &mut CPU, v1: u8, v2: u8) -> (res: u8)
    ensures
        res == and8(v1, v2).0,
        final(c)@ == old(c)@.with_flags(and8(v1, v2).1),
{
    proof {
        reveal(and8);
    }
    let res = v1 & v2;
    set_flags(c, Flags { z: res == 0, n: false, h: true, c: false });
    res
}

/// Bitwise exclusive or: sets the flags and returns the result.
fn xor_u8(c: &mut CPU, v1: u8, v2: u8) -> (res: u8)
    ensures
        res == xor8(v1, v2).0,
        final(c)@ == old(c)@.with_flags(xor8(v1, v2).1),
{
    proof {
        reveal(xor8);
    }
    let res = v1 ^ v2;
    set_flags(c, Flags { z: res == 0, n: false, h: false, c: false });
    res
}

/// Bitwise or: sets the flags and returns the result.
fn or_u8(c: &mut CPU, v1: u8, v2: u8) -> (res: u8)
    ensures
        res == or8(v1, v2).0,
        final(c)@ == old(c)@.with_flags(or8(v1, v2).1),
{
    proof {
        reveal(or8);
    }
    let res = v1 | v2;
    set_flags(c, Flags { z: res == 0, n: false, h: false, c: false });
    res
}

fn add_hl_r16(c: &mut CPU, r1: Reg, r2: Reg) -> (cycles: u8)
    ensures
        final(c)@ == old(c)@.with_flags(
            add16(old(c)@.hl(), old(c)@.reg_pair(r1, r2), old(c)@.flags().z).1,
        ).with_hl(add16(old(c)@.hl(), old(c)@.reg_pair(r1, r2), old(c)@.flags().z).0),
        cycles == 2,
{
    let hl = read_pair(c, &Reg::H, &Reg::L);
    let v = read_pair(c, &r1, &r2);
    let result = add_u16(c, hl, v);
    write_pair(c, &Reg::H, &Reg::L, result);
    2
}

fn adc_r8_r8(c: &mut CPU, r1: Reg, r2: Reg) -> (cycles: u8)
    ensures
        final(c)@ == old(c)@.with_flags(
            add8(old(c)@.reg(r1), old(c)@.reg(r2), old(c)@.flags().c).1,
        ).with_reg(r1, add8(old(c)@.reg(r1), old(c)@.reg(r2), old(c)@.flags().c).0),
        cycles == 1,
{
    let v = read_reg(c, &r1);
    let v2 = read_reg(c, &r2);
    let result = adc_u8(c, v, v2);
    write_reg(c, &r1, result);
    1
}

fn adc_r8_n8(c: &mut CPU, r1: Reg) -> (cycles: u8)
    ensures
        final(c)@ == old(c)@.skip(1).with_flags(
            add8(old(c)@.reg(r1), old(c)@.imm8(), old(c)@.flags().c).1,
        ).with_reg(r1, add8(old(c)@.reg(r1), old(c)@.imm8(), old(c)@.flags().c).0),
        cycles == 2,
{
    let v = read_reg(c, &r1);
    let v2 = c.get_instr();
    let result = adc_u8(c, v, v2);
    write_reg(c, &r1, result);
    2
}

fn add_r8_r8(c: &mut CPU, r1: Reg, r2: Reg) -> (cycles: u8)
    ensures
        final(c)@ == old(c)@.with_flags(add8(old(c)@.reg(r1), old(c)@.reg(r2), false).1).with_reg(
            r1,
            add8(old(c)@.reg(r1), old(c)@.reg(r2), false).0,
        ),
        cycles == 1,
{
    let v = read_reg(c, &r1);
    let v2 = read_reg(c, &r2);
    let result = add_u8(c, v, v2);
    write_reg(c, &r1, result);
    1
}

fn add_r8_n8(c: &mut CPU, r1: Reg) -> (cycles: u8)
    ensures
        final(c)@ == old(c)@.skip(1).with_flags(
            add8(old(c)@.reg(r1), old(c)@.imm8(), false).1,
        ).with_reg(r1, add8(old(c)@.reg(r1), old(c)@.imm8(), false).0),
        cycles == 2,
{
    let v = read_reg(c, &r1);
    let v2 = c.get_instr();
    let result = add_u8(c, v, v2);
    write_reg(c, &r1, result);
    2
}

fn add_r8_r16m(c: &mut CPU, r1: Reg, r2: Reg, r3: Reg) -> (cycles: u8)
    ensures
        final(c)@ == old(c)@.with_flags(
            add8(old(c)@.reg(r1), old(c)@.read(old(c)@.reg_pair(r2, r3)), false).1,
        ).with_reg(r1, add8(old(c)@.reg(r1), old(c)@.read(old(c)@.reg_pair(r2, r3)), false).0),
        cycles == 2,
{
    let addr = read_pair(c, &r2, &r3);
    let v = read_reg(c, &r1);
    let v2 = c.memory.read_byte(addr);
    let result = add_u8(c, v, v2);
    write_reg(c, &r1, result);
    2
}

fn adc_r8_r16m(c: &mut CPU, r1: Reg, r2: Reg, r3: Reg) -> (cycles: u8)
    ensures
        final(c)@ == old(c)@.with_flags(
            add8(
                old(c)@.reg(r1),
                old(c)@.read(old(c)@.reg_pair(r2, r3)),
                old(c)@.flags().c,
            ).1,
        ).with_reg(
            r1,
            add8(
                old(c)@.reg(r1),
                old(c)@.read(old(c)@.reg_pair(r2, r3)),
                old(c)@.flags().c,
            ).0,
        ),
        cycles == 2,
{
    let addr = read_pair(c, &r2, &r3);
    let v = read_reg(c, &r1);
    let v2 = c.memory.read_byte(addr);
    let result = adc_u8(c, v, v2);
    write_reg(c, &r1, result);
    2
}

fn add_r16_sp(c: &mut CPU, r1: Reg, r2: Reg) -> (cycles: u8)
    ensures
        final(c)@ == old(c)@.with_flags(
            add16(old(c)@.reg_pair(r1, r2), old(c).registers.sp, old(c)@.flags().z).1,
        ).with_hl(add16(old(c)@.reg_pair(r1, r2), old(c).registers.sp, old(c)@.flags().z).0),
        cycles == 2,
{
    let sp = c.registers.sp;
    let v = read_pair(c, &r1, &r2);
    let result = add_u16(c, v, sp);
    write_pair(c, &Reg::H, &Reg::L, result);
    2
}

fn add_sp_e8(c: &mut CPU) -> (cycles: u8)
    ensures
        final(c)@ == old(c)@.skip(1).with_sp(
            add_signed(old(c).registers.sp, old(c)@.imm8()).0,
        ).with_flags(add_signed(old(c).registers.sp, old(c)@.imm8()).1),
        cycles == 4,
{
    let e = c.get_instr();
    c.registers.sp = add_sp_offset(c, e);
    4
}

fn sub_r8_r8(c: &mut CPU, r1: Reg, r2: Reg) -> (cycles: u8)
    ensures
        final(c)@ == old(c)@.with_flags(sub8(old(c)@.reg(r1), old(c)@.reg(r2), false).1).with_reg(
            r1,
            sub8(old(c)@.reg(r1), old(c)@.reg(r2), false).0,
        ),
        cycles == 1,
{
    let v = read_reg(c, &r1);
    let v2 = read_reg(c, &r2);
    let result = sub_u8(c, v, v2);
    write_reg(c, &r1, result);
    1
}

fn sub_r8_n8(c: &mut CPU, r1: Reg) -> (cycles: u8)
    ensures
        final(c)@ == old(c)@.skip(1).with_flags(
            sub8(old(c)@.reg(r1), old(c)@.imm8(), false).1,
        ).with_reg(r1, sub8(old(c)@.reg(r1), old(c)@.imm8(), false).0),
        cycles == 2,
{
    let v = read_reg(c, &r1);
    let v2 = c.get_instr();
    let result = sub_u8(c, v, v2);
    write_reg(c, &r1, result);
    2
}

fn sbc_r8_r8(c: &mut CPU, r1: Reg, r2: Reg) -> (cycles: u8)
    ensures
        final(c)@ == old(c)@.with_flags(
            sub8(old(c)@.reg(r1), old(c)@.reg(r2), old(c)@.flags().c).1,
        ).with_reg(r1, sub8(old(c)@.reg(r1), old(c)@.reg(r2), old(c)@.flags().c).0),
        cycles == 1,
{
    let v = read_reg(c, &r1);
    let v2 = read_reg(c, &r2);
    let result = sbc_u8(c, v, v2);
    write_reg(c, &r1, result);
    1
}

fn sbc_r8_n8(c: &mut CPU, r1: Reg) -> (cycles: u8)
    ensures
        final(c)@ == old(c)@.skip(1).with_flags(
            sub8(old(c)@.reg(r1), old(c)@.imm8(), old(c)@.flags().c).1,
        ).with_reg(r1, sub8(old(c)@.reg(r1), old(c)@.imm8(), old(c)@.flags().c).0),
        cycles == 2,
{
    let v = read_reg(c, &r1);
    let v2 = c.get_instr();
    let result = sbc_u8(c, v, v2);
    write_reg(c, &r1, result);
    2
}

fn sub_r8_r16m(c: &mut CPU, r1: Reg, r2: Reg, r3: Reg) -> (cycles: u8)
    ensures
        final(c)@ == old(c)@.with_flags(
            sub8(old(c)@.reg(r1), old(c)@.read(old(c)@.reg_pair(r2, r3)), false).1,
        ).with_reg(r1, sub8(old(c)@.reg(r1), old(c)@.read(old(c)@.reg_pair(r2, r3)), false).0),
        cycles == 2,
{
    let addr = read_pair(c, &r2, &r3);
    let v = read_reg(c, &r1);
    let v2 = c.memory.read_byte(addr);
    let result = sub_u8(c, v, v2);
    write_reg(c, &r1, result);
    2
}

fn sbc_r8_r16m(c: &mut CPU, r1: Reg, r2: Reg, r3: Reg) -> (cycles: u8)
    ensures
        final(c)@ == old(c)@.with_flags(
            sub8(
                old(c)@.reg(r1),
                old(c)@.read(old(c)@.reg_pair(r2, r3)),
                old(c)@.flags().c,
            ).1,
        ).with_reg(
            r1,
            sub8(
                old(c)@.reg(r1),
                old(c)@.read(old(c)@.reg_pair(r2, r3)),
                old(c)@.flags().c,
            ).0,
        ),
        cycles == 2,
{
    let addr = read_pair(c, &r2, &r3);
    let v = read_reg(c, &r1);
    let v2 = c.memory.read_byte(addr);
    let result = sbc_u8(c, v, v2);
    write_reg(c, &r1, result);
    2
}

fn and_r8_r8(c: &mut CPU, r1: Reg, r2: Reg) -> (cycles: u8)
    ensures
        final(c)@ == old(c)@.with_flags(and8(old(c)@.reg(r1), old(c)@.reg(r2)).1).with_reg(
            r1,
            and8(old(c)@.reg(r1), old(c)@.reg(r2)).0,
        ),
        cycles == 1,
{
    let v = read_reg(c, &r1);
    let v2 = read_reg(c, &r2);
    let res = and_u8(c, v, v2);
    write_reg(c, &r1, res);
    1
}

fn and_r8_n8(c: &mut CPU, r1: Reg) -> (cycles: u8)
    ensures
        final(c)@ == old(c)@.skip(1).with_flags(and8(old(c)@.reg(r1), old(c)@.imm8()).1).with_reg(
            r1,
            and8(old(c)@.reg(r1), old(c)@.imm8()).0,
        ),
        cycles == 2,
{
    let v = read_reg(c, &r1);
    let v2 = c.get_instr();
    let res = and_u8(c, v, v2);
    write_reg(c, &r1, res);
    2
}

fn and_r8_r16m(c: &mut CPU, r1: Reg, r2: Reg, r3: Reg) -> (cycles: u8)
    ensures
        final(c)@ == old(c)@.with_flags(
            and8(old(c)@.reg(r1), old(c)@.read(old(c)@.reg_pair(r2, r3))).1,
        ).with_reg(r1, and8(old(c)@.reg(r1), old(c)@.read(old(c)@.reg_pair(r2, r3))).0),
        cycles == 2,
{
    let addr = read_pair(c, &r2, &r3);
    let v = read_reg(c, &r1);
    let v2 = c.memory.read_byte(addr);
    let res = and_u8(c, v, v2);
    write_reg(c, &r1, res);
    2
}

fn xor_r8_r8(c: &mut CPU, r1: Reg, r2: Reg) -> (cycles: u8)
    ensures
        final(c)@ == old(c)@.with_flags(xor8(old(c)@.reg(r1), old(c)@.reg(r2)).1).with_reg(
            r1,
            xor8(old(c)@.reg(r1), old(c)@.reg(r2)).0,
        ),
        cycles == 1,
{
    let v = read_reg(c, &r1);
    let v2 = read_reg(c, &r2);
    let res = xor_u8(c, v, v2);
    write_reg(c, &r1, res);
    1
}

fn xor_r8_n8(c: &mut CPU, r1: Reg) -> (cycles: u8)
    ensures
        final(c)@ == old(c)@.skip(1).with_flags(xor8(old(c)@.reg(r1), old(c)@.imm8()).1).with_reg(
            r1,
            xor8(old(c)@.reg(r1), old(c)@.imm8()).0,
        ),
        cycles == 2,
{
    let v = read_reg(c, &r1);
    let v2 = c.get_instr();
    let res = xor_u8(c, v, v2);
    write_reg(c, &r1, res);
    2
}

fn xor_r8_r16m(c: &mut CPU, r1: Reg, r2: Reg, r3: Reg) -> (cycles: u8)
    ensures
        final(c)@ == old(c)@.with_flags(
            xor8(old(c)@.reg(r1), old(c)@.read(old(c)@.reg_pair(r2, r3))).1,
        ).with_reg(r1, xor8(old(c)@.reg(r1), old(c)@.read(old(c)@.reg_pair(r2, r3))).0),
        cycles == 2,
{
    let addr = read_pair(c, &r2, &r3);
    let v = read_reg(c, &r1);
    let v2 = c.memory.read_byte(addr);
    let res = xor_u8(c, v, v2);
    write_reg(c, &r1, res);
    2
}

fn or_r8_r8(c: &mut CPU, r1: Reg, r2: Reg) -> (cycles: u8)
    ensures
        final(c)@ == old(c)@.with_flags(or8(old(c)@.reg(r1), old(c)@.reg(r2)).1).with_reg(
            r1,
            or8(old(c)@.reg(r1), old(c)@.reg(r2)).0,
        ),
        cycles == 1,
{
    let v = read_reg(c, &r1);
    let v2 = read_reg(c, &r2);
    let res = or_u8(c, v, v2);
    write_reg(c, &r1, res);
    1
}

fn or_r8_n8(c: &mut CPU, r1: Reg) -> (cycles: u8)
    ensures
        final(c)@ == old(c)@.skip(1).with_flags(or8(old(c)@.reg(r1), old(c)@.imm8()).1).with_reg(
            r1,
            or8(old(c)@.reg(r1), old(c)@.imm8()).0,
        ),
        cycles == 2,
{
    let v = read_reg(c, &r1);
    let v2 = c.get_instr();
    let res = or_u8(c, v, v2);
    write_reg(c, &r1, res);
    2
}

fn or_r8_r16m(c: &mut CPU, r1: Reg, r2: Reg, r3: Reg) -> (cycles: u8)
    ensures
        final(c)@ == old(c)@.with_flags(
            or8(old(c)@.reg(r1), old(c)@.read(old(c)@.reg_pair(r2, r3))).1,
        ).with_reg(r1, or8(old(c)@.reg(r1), old(c)@.read(old(c)@.reg_pair(r2, r3))).0),
        cycles == 2,
{
    let addr = read_pair(c, &r2, &r3);
    let v = read_reg(c, &r1);
    let v2 = c.memory.read_byte(addr);
    let res = or_u8(c, v, v2);
    write_reg(c, &r1, res);
    2
}

fn cp_r8_r8(c: &mut CPU, r1: Reg, r2: Reg) -> (cycles: u8)
    ensures
        final(c)@ == old(c)@.with_flags(cp8(old(c)@.reg(r1), old(c)@.reg(r2)).1),
        cycles == 1,
{
    let v = read_reg(c, &r1);
    let v2 = read_reg(c, &r2);
    cp_u8(c, v, v2);
    1
}

fn cp_r8_n8(c: &mut CPU, r1: Reg) -> (cycles: u8)
    ensures
        final(c)@ == old(c)@.skip(1).with_flags(cp8(old(c)@.reg(r1), old(c)@.imm8()).1),
        cycles == 2,
{
    let v = read_reg(c, &r1);
    let v2 = c.get_instr();
    cp_u8(c, v, v2);
    2
}

fn cp_r8_r16m(c: &mut CPU, r1: Reg, r2: Reg, r3: Reg) -> (cycles: u8)
    ensures
        final(c)@ == old(c)@.with_flags(
            cp8(old(c)@.reg(r1), old(c)@.read(old(c)@.reg_pair(r2, r3))).1,
        ),
        cycles == 2,
{
    let addr = read_pair(c, &r2, &r3);
    let v = read_reg(c, &r1);
    let v2 = c.memory.read_byte(addr);
    cp_u8(c, v, v2);
    2
}

fn scf(c: &mut CPU) -> (cycles: u8)
    ensures
        final(c)@ == old(c)@.with_flags(
            Flags { n: false, h: false, c: true, ..old(c)@.flags() },
        ),
        cycles == 1,
{
    let zero = c.check_flag(ALUFlag::Z);
    set_flags(c, Flags { z: zero, n: false, h: false, c: true });
    1
}

fn stop_n8(c: &mut CPU) -> (cycles: u8)
    ensures
        final(c)@ == (Machine { stop: true, ..old(c)@.skip(1) }),
        cycles == 4,
{
    // mostly used to switch speeds; the byte after the opcode is padding
    c.get_instr();
    c.stop = true;
    4
}

/// The relative jump shared by JR and its conditional forms.
fn jr_if(c: &mut CPU, taken: bool) -> (cycles: u8)
    ensures
        final(c)@ == old(c)@.jump_relative(taken),
        cycles == if taken { 3u8 } else { 2u8 },
{
    let offset = c.get_instr();
    if taken {
        c.registers.pc = add_offset(c.registers.pc, offset);
        3
    } else {
        2
    }
}

fn jr_e8(c: &mut CPU) -> (cycles: u8)
    ensures
        final(c)@ == old(c)@.jump_relative(true),
        cycles == 3,
{
    jr_if(c, true)
}

fn jr_nz_e8(c: &mut CPU) -> (cycles: u8)
    ensures
        final(c)@ == old(c)@.jump_relative(!old(c)@.flag(ALUFlag::Z)),
        cycles == if !old(c)@.flag(ALUFlag::Z) { 3u8 } else { 2u8 },
{
    let taken = !c.check_flag(ALUFlag::Z);
    jr_if(c, taken)
}

fn jr_z_e8(c: &mut CPU) -> (cycles: u8)
    ensures
        final(c)@ == old(c)@.jump_relative(old(c)@.flag(ALUFlag::Z)),
        cycles == if old(c)@.flag(ALUFlag::Z) { 3u8 } else { 2u8 },
{
    let taken = c.check_flag(ALUFlag::Z);
    jr_if(c, taken)
}

fn jr_nc_e8(c: &mut CPU) -> (cycles: u8)
    ensures
        final(c)@ == old(c)@.jump_relative(!old(c)@.flag(ALUFlag::C)),
        cycles == if !old(c)@.flag(ALUFlag::C) { 3u8 } else { 2u8 },
{
    let taken = !c.check_flag(ALUFlag::C);
    jr_if(c, taken)
}

fn jr_c_e8(c: &mut CPU) -> (cycles: u8)
    ensures
        final(c)@ == old(c)@.jump_relative(old(c)@.flag(ALUFlag::C)),
        cycles == if old(c)@.flag(ALUFlag::C) { 3u8 } else { 2u8 },
{
    let taken = c.check_flag(ALUFlag::C);
    jr_if(c, taken)
}

fn daa(c: &mut CPU) -> (cycles: u8)
    ensures
        final(c)@ == old(c)@.with_reg(Reg::A, daa8(old(c).registers.acc, old(c)@.flags()).0)
            .with_flags(daa8(old(c).registers.acc, old(c)@.flags()).1),
        cycles == 1,
{
    proof {
        reveal(daa8);
    }
    let fl = get_flags(c);
    let a = c.registers.acc;
    let mut adjust: u8 = 0;
    let mut carry = fl.c;
    let acc = if !fl.n {
        if fl.c || a > 0x99 {
            adjust = adjust + 0x60;
            carry = true;
        }
        if fl.h || (a & 0x0F) > 0x09 {
            adjust = adjust + 0x06;
        }
        a.wrapping_add(adjust)
    } else {
        if fl.c {
            adjust = adjust + 0x60;
        }
        if fl.h {
            adjust = adjust + 0x06;
        }
        a.wrapping_sub(adjust)
    };
    c.registers.acc = acc;
    set_flags(c, Flags { z: acc == 0, n: fl.n, h: false, c: carry });
    1
}

fn cpl(c: &mut CPU) -> (cycles: u8)
    ensures
        final(c)@ == old(c)@.with_reg(Reg::A, !old(c).registers.acc).with_flags(
            Flags { n: true, h: true, ..old(c)@.flags() },
        ),
        cycles == 1,
{
    let fl = get_flags(c);
    c.registers.acc = !c.registers.acc;
    set_flags(c, Flags { z: fl.z, n: true, h: true, c: fl.c });
    1
}

fn ccf(c: &mut CPU) -> (cycles: u8)
    ensures
        final(c)@ == old(c)@.with_flags(
            Flags { n: false, h: false, c: !old(c)@.flags().c, ..old(c)@.flags() },
        ),
        cycles == 1,
{
    let fl = get_flags(c);
    set_flags(c, Flags { z: fl.z, n: false, h: false, c: !fl.c });
    1
}

fn halt(c: &mut CPU) -> (cycles: u8)
    ensures
        final(c)@ == (Machine { halt: true, ..old(c)@ }),
        cycles == 1,
{
    c.halt = true;
    1
}

/// Pops the return address into PC.
fn ret(c: &mut CPU) -> (cycles: u8)
    ensures
        final(c)@ == old(c)@.ret(true),
        cycles == 4,
{
    let v = c.memory.read_word(c.registers.sp);
    c.registers.pc = v;
    c.registers.sp = c.registers.sp.wrapping_add(2);
    4
}

fn ret_cc(c: &mut CPU, flag: ALUFlag, set: bool) -> (cycles: u8)
    ensures
        final(c)@ == old(c)@.ret(old(c)@.flag(flag) == set),
        cycles == if old(c)@.flag(flag) == set { 5u8 } else { 2u8 },
{
    if c.check_flag(flag) == set {
        ret(c);
        5
    } else {
        2
    }
}

fn jp_r16(c: &mut CPU, r1: Reg, r2: Reg) -> (cycles: u8)
    ensures
        final(c)@ == old(c)@.with_pc(old(c)@.reg_pair(r1, r2)),
        cycles == 1,
{
    c.registers.pc = read_pair(c, &r1, &r2);
    1
}

fn jp_a16(c: &mut CPU) -> (cycles: u8)
    ensures
        final(c)@ == old(c)@.jump(true),
        cycles == 4,
{
    c.registers.pc = c.get_word_instr();
    4
}

fn jp_a16_cc(c: &mut CPU, flag: ALUFlag, set: bool) -> (cycles: u8)
    ensures
        final(c)@ == old(c)@.jump(old(c)@.flag(flag) == set),
        cycles == if old(c)@.flag(flag) == set { 4u8 } else { 3u8 },
{
    if c.check_flag(flag) == set {
        c.registers.pc = c.get_word_instr();
        4
    } else {
        c.registers.pc = c.registers.pc.wrapping_add(2);
        3
    }
}

/// Pushes a word: SP goes down by two and the word is stored at it.
fn push_u16(c: &mut CPU, v: u16)
    ensures
        final(c)@ == old(c)@.push(v),
{
    c.registers.sp = c.registers.sp.wrapping_sub(2);
    c.memory.write_word(c.registers.sp, v);
}

fn call_a16(c: &mut CPU) -> (cycles: u8)
    ensures
        final(c)@ == old(c)@.call(true),
        cycles == 6,
{
    let target = c.get_word_instr();
    push_u16(c, c.registers.pc);
    c.registers.pc = target;
    6
}

fn call_a16_cc(c: &mut CPU, flag: ALUFlag, set: bool) -> (cycles: u8)
    ensures
        final(c)@ == old(c)@.call(old(c)@.flag(flag) == set),
        cycles == if old(c)@.flag(flag) == set { 6u8 } else { 3u8 },
{
    if c.check_flag(flag) == set {
        call_a16(c)
    } else {
        c.registers.pc = c.registers.pc.wrapping_add(2);
        3
    }
}

fn pop_r16(c: &mut CPU, r1: Reg, r2: Reg) -> (cycles: u8)
    ensures
        final(c)@ == old(c)@.drop_top().with_reg_pair(r1, r2, old(c)@.top()),
        cycles == 3,
{
    let v = c.memory.read_word(c.registers.sp);
    c.registers.sp = c.registers.sp.wrapping_add(2);
    write_pair(c, &r1, &r2, v);
    3
}

fn push_r16(c: &mut CPU, r1: Reg, r2: Reg) -> (cycles: u8)
    ensures
        final(c)@ == old(c)@.push(old(c)@.reg_pair(r1, r2)),
        cycles == 4,
{
    let v = read_pair(c, &r1, &r2);
    push_u16(c, v);
    4
}

fn rst(c: &mut CPU, val: u16) -> (cycles: u8)
    ensures
        final(c)@ == old(c)@.restart(val),
        cycles == 4,
{
    push_u16(c, c.registers.pc);
    c.registers.pc = val;
    4
}

fn prefix(c: &mut CPU) -> (cycles: u8)
    ensures
        final(c)@ == old(c)@.skip(1).execute_prefixed(old(c)@.imm8()),
        cycles == 1 + Machine::cost_prefixed(old(c)@.imm8()),
{
    let opcode = c.get_instr();
    1 + operation(c, opcode)
}

fn reti(c: &mut CPU) -> (cycles: u8)
    ensures
        final(c)@ == (Machine { ime: true, ..old(c)@.ret(true) }),
        cycles == 4,
{
    ret(c);
    c.ime = true;
    4
}

fn di(c: &mut CPU) -> (cycles: u8)
    ensures
        final(c)@ == (Machine { di: true, ..old(c)@ }),
        cycles == 1,
{
    c.di = true;
    1
}

fn ei(c: &mut CPU) -> (cycles: u8)
    ensures
        final(c)@ == (Machine { ei: true, ..old(c)@ }),
        cycles == 1,
{
    c.ei = true;
    1
}

/// Tells whether the processor defines the opcode.
pub fn defined(opcode: u8) -> (known: bool)
    ensures
        known == Machine::defined(opcode),
{
    match opcode {
        0xD3 | 0xDB | 0xDD | 0xE3 | 0xE4 | 0xEB | 0xEC | 0xED | 0xF4 | 0xFC | 0xFD => false,
        _ => true,
    }
}

/// 0x00 to 0x07: NOP; LD BC, n16; LD (BC), A; INC BC; INC B; DEC B; LD B, n8; RLCA
fn row_00(c: &mut CPU, opcode: u8) -> (cycles: u8)
    requires
        0x00 <= opcode <= 0x07,
    ensures
        final(c)@ == old(c)@.execute(opcode),
        cycles == old(c)@.cost(opcode),
{
    proof {
        reveal(Machine::execute);
        reveal(Machine::execute_low);
        reveal(Machine::execute_high);
        reveal(Machine::cost);
    }
    match opcode {
        0x00 => 1,
        0x01 => ld_r16_n16(c, Reg::B, Reg::C),
        0x02 => ld_r16m_a(c, Reg::B, Reg::C),
        0x03 => inc_r16(c, Reg::B, Reg::C),
        0x04 => inc_r8(c, Reg::B),
        0x05 => dec_r8(c, Reg::B),
        0x06 => ld_r8_n8(c, Reg::B),
        0x07 => rlca(c),
        _ => unreached(),
    }
}

/// 0x08 to 0x0F: LD (a16), SP; ADD HL, BC; LD A, (BC); DEC BC; INC C; DEC C; LD C, n8; RRCA
fn row_08(c: &mut CPU, opcode: u8) -> (cycles: u8)
    requires
        0x08 <= opcode <= 0x0F,
    ensures
        final(c)@ == old(c)@.execute(opcode),
        cycles == old(c)@.cost(opcode),
{
    proof {
        reveal(Machine::execute);
        reveal(Machine::execute_low);
        reveal(Machine::execute_high);
        reveal(Machine::cost);
    }
    match opcode {
        0x08 => ld_a16m_sp(c),
        0x09 => add_hl_r16(c, Reg::B, Reg::C),
        0x0A => ld_a_r16m(c, Reg::B, Reg::C),
        0x0B => dec_r16(c, Reg::B, Reg::C),
        0x0C => inc_r8(c, Reg::C),
        0x0D => dec_r8(c, Reg::C),
        0x0E => ld_r8_n8(c, Reg::C),
        0x0F => rrca(c),
        _ => unreached(),
    }
}

/// 0x10 to 0x17: STOP; LD DE, n16; LD (DE), A; INC DE; INC D; DEC D; LD D, n8; RLA
fn row_10(c: &mut CPU, opcode: u8) -> (cycles: u8)
    requires
        0x10 <= opcode <= 0x17,
    ensures
        final(c)@ == old(c)@.execute(opcode),
        cycles == old(c)@.cost(opcode),
{
    proof {
        reveal(Machine::execute);
        reveal(Machine::execute_low);
        reveal(Machine::execute_high);
        reveal(Machine::cost);
    }
    match opcode {
        0x10 => stop_n8(c),
        0x11 => ld_r16_n16(c, Reg::D, Reg::E),
        0x12 => ld_r16m_a(c, Reg::D, Reg::E),
        0x13 => inc_r16(c, Reg::D, Reg::E),
        0x14 => inc_r8(c, Reg::D),
        0x15 => dec_r8(c, Reg::D),
        0x16 => ld_r8_n8(c, Reg::D),
        0x17 => rla(c),
        _ => unreached(),
    }
}

/// 0x18 to 0x1F: JR e8; ADD HL, DE; LD A, (DE); DEC DE; INC E; DEC E; LD E, n8; RRA
fn row_18(c: &mut CPU, opcode: u8) -> (cycles: u8)
    requires
        0x18 <= opcode <= 0x1F,
    ensures
        final(c)@ == old(c)@.execute(opcode),
        cycles == old(c)@.cost(opcode),
{
    proof {
        reveal(Machine::execute);
        reveal(Machine::execute_low);
        reveal(Machine::execute_high);
        reveal(Machine::cost);
    }
    match opcode {
        0x18 => jr_e8(c),
        0x19 => add_hl_r16(c, Reg::D, Reg::E),
        0x1A => ld_a_r16m(c, Reg::D, Reg::E),
        0x1B => dec_r16(c, Reg::D, Reg::E),
        0x1C => inc_r8(c, Reg::E),
        0x1D => dec_r8(c, Reg::E),
        0x1E => ld_r8_n8(c, Reg::E),
        0x1F => rra(c),
        _ => unreached(),
    }
}

/// 0x20 to 0x27: JR NZ, e8; LD HL, n16; LD (HL+), A; INC HL; INC H; DEC H; LD H, n8; DAA
fn row_20(c: &mut CPU, opcode: u8) -> (cycles: u8)
    requires
        0x20 <= opcode <= 0x27,
    ensures
        final(c)@ == old(c)@.execute(opcode),
        cycles == old(c)@.cost(opcode),
{
    proof {
        reveal(Machine::execute);
        reveal(Machine::execute_low);
        reveal(Machine::execute_high);
        reveal(Machine::cost);
    }
    match opcode {
        0x20 => jr_nz_e8(c),
        0x21 => ld_r16_n16(c, Reg::H, Reg::L),
        0x22 => ld_hlim_a(c),
        0x23 => inc_r16(c, Reg::H, Reg::L),
        0x24 => inc_r8(c, Reg::H),
        0x25 => dec_r8(c, Reg::H),
        0x26 => ld_r8_n8(c, Reg::H),
        0x27 => daa(c),
        _ => unreached(),
    }
}

/// 0x28 to 0x2F: JR Z, e8; ADD HL, HL; LD A, (HL+); DEC HL; INC L; DEC L; LD L, n8; CPL
fn row_28(c: &mut CPU, opcode: u8) -> (cycles: u8)
    requires
        0x28 <= opcode <= 0x2F,
    ensures
        final(c)@ == old(c)@.execute(opcode),
        cycles == old(c)@.cost(opcode),
{
    proof {
        reveal(Machine::execute);
        reveal(Machine::execute_low);
        reveal(Machine::execute_high);
        reveal(Machine::cost);
    }
    match opcode {
        0x28 => jr_z_e8(c),
        0x29 => add_hl_r16(c, Reg::H, Reg::L),
        0x2A => ld_a_hlim(c),
        0x2B => dec_r16(c, Reg::H, Reg::L),
        0x2C => inc_r8(c, Reg::L),
        0x2D => dec_r8(c, Reg::L),
        0x2E => ld_r8_n8(c, Reg::L),
        0x2F => cpl(c),
        _ => unreached(),
    }
}

/// 0x30 to 0x37: JR NC, e8; LD SP, n16; LD (HL-), A; INC SP; INC (HL); DEC (HL); LD (HL), n8; SCF
fn row_30(c: &mut CPU, opcode: u8) -> (cycles: u8)
    requires
        0x30 <= opcode <= 0x37,
    ensures
        final(c)@ == old(c)@.execute(opcode),
        cycles == old(c)@.cost(opcode),
{
    proof {
        reveal(Machine::execute);
        reveal(Machine::execute_low);
        reveal(Machine::execute_high);
        reveal(Machine::cost);
    }
    match opcode {
        0x30 => jr_nc_e8(c),
        0x31 => ld_sp_n16(c),
        0x32 => ld_hldm_a(c),
        0x33 => inc_sp(c),
        0x34 => inc_r16m(c, Reg::H, Reg::L),
        0x35 => dec_r16m(c, Reg::H, Reg::L),
        0x36 => ld_r16m_n8(c, Reg::H, Reg::L),
        0x37 => scf(c),
        _ => unreached(),
    }
}

/// 0x38 to 0x3F: JR C, e8; ADD HL, SP; LD A, (HL-); DEC SP; INC A; DEC A; LD A, n8; CCF
fn row_38(c: &mut CPU, opcode: u8) -> (cycles: u8)
    requires
        0x38 <= opcode <= 0x3F,
    ensures
        final(c)@ == old(c)@.execute(opcode),
        cycles == old(c)@.cost(opcode),
{
    proof {
        reveal(Machine::execute);
        reveal(Machine::execute_low);
        reveal(Machine::execute_high);
        reveal(Machine::cost);
    }
    match opcode {
        0x38 => jr_c_e8(c),
        0x39 => add_r16_sp(c, Reg::H, Reg::L),
        0x3A => ld_a_hldm(c),
        0x3B => dec_sp(c),
        0x3C => inc_r8(c, Reg::A),
        0x3D => dec_r8(c, Reg::A),
        0x3E => ld_r8_n8(c, Reg::A),
        0x3F => ccf(c),
        _ => unreached(),
    }
}

/// 0x40 to 0x47: LD B, r8
fn row_40(c: &mut CPU, opcode: u8) -> (cycles: u8)
    requires
        0x40 <= opcode <= 0x47,
    ensures
        final(c)@ == old(c)@.execute(opcode),
        cycles == old(c)@.cost(opcode),
{
    proof {
        reveal(Machine::execute);
        reveal(Machine::execute_low);
        reveal(Machine::execute_high);
        reveal(Machine::cost);
    }
    match opcode {
        0x40 => ld_r8_r8(c, Reg::B, Reg::B),
        0x41 => ld_r8_r8(c, Reg::B, Reg::C),
        0x42 => ld_r8_r8(c, Reg::B, Reg::D),
        0x43 => ld_r8_r8(c, Reg::B, Reg::E),
        0x44 => ld_r8_r8(c, Reg::B, Reg::H),
        0x45 => ld_r8_r8(c, Reg::B, Reg::L),
        0x46 => ld_r8_r16m(c, Reg::B, Reg::H, Reg::L),
        0x47 => ld_r8_r8(c, Reg::B, Reg::A),
        _ => unreached(),
    }
}

/// 0x48 to 0x4F: LD C, r8
fn row_48(c: &mut CPU, opcode: u8) -> (cycles: u8)
    requires
        0x48 <= opcode <= 0x4F,
    ensures
        final(c)@ == old(c)@.execute(opcode),
        cycles == old(c)@.cost(opcode),
{
    proof {
        reveal(Machine::execute);
        reveal(Machine::execute_low);
        reveal(Machine::execute_high);
        reveal(Machine::cost);
    }
    match opcode {
        0x48 => ld_r8_r8(c, Reg::C, Reg::B),
        0x49 => ld_r8_r8(c, Reg::C, Reg::C),
        0x4A => ld_r8_r8(c, Reg::C, Reg::D),
        0x4B => ld_r8_r8(c, Reg::C, Reg::E),
        0x4C => ld_r8_r8(c, Reg::C, Reg::H),
        0x4D => ld_r8_r8(c, Reg::C, Reg::L),
        0x4E => ld_r8_r16m(c, Reg::C, Reg::H, Reg::L),
        0x4F => ld_r8_r8(c, Reg::C, Reg::A),
        _ => unreached(),
    }
}

/// 0x50 to 0x57: LD D, r8
fn row_50(c: &mut CPU, opcode: u8) -> (cycles: u8)
    requires
        0x50 <= opcode <= 0x57,
    ensures
        final(c)@ == old(c)@.execute(opcode),
        cycles == old(c)@.cost(opcode),
{
    proof {
        reveal(Machine::execute);
        reveal(Machine::execute_low);
        reveal(Machine::execute_high);
        reveal(Machine::cost);
    }
    match opcode {
        0x50 => ld_r8_r8(c, Reg::D, Reg::B),
        0x51 => ld_r8_r8(c, Reg::D, Reg::C),
        0x52 => ld_r8_r8(c, Reg::D, Reg::D),
        0x53 => ld_r8_r8(c, Reg::D, Reg::E),
        0x54 => ld_r8_r8(c, Reg::D, Reg::H),
        0x55 => ld_r8_r8(c, Reg::D, Reg::L),
        0x56 => ld_r8_r16m(c, Reg::D, Reg::H, Reg::L),
        0x57 => ld_r8_r8(c, Reg::D, Reg::A),
        _ => unreached(),
    }
}

/// 0x58 to 0x5F: LD E, r8
fn row_58(c: &mut CPU, opcode: u8) -> (cycles: u8)
    requires
        0x58 <= opcode <= 0x5F,
    ensures
        final(c)@ == old(c)@.execute(opcode),
        cycles == old(c)@.cost(opcode),
{
    proof {
        reveal(Machine::execute);
        reveal(Machine::execute_low);
        reveal(Machine::execute_high);
        reveal(Machine::cost);
    }
    match opcode {
        0x58 => ld_r8_r8(c, Reg::E, Reg::B),
        0x59 => ld_r8_r8(c, Reg::E, Reg::C),
        0x5A => ld_r8_r8(c, Reg::E, Reg::D),
        0x5B => ld_r8_r8(c, Reg::E, Reg::E),
        0x5C => ld_r8_r8(c, Reg::E, Reg::H),
        0x5D => ld_r8_r8(c, Reg::E, Reg::L),
        0x5E => ld_r8_r16m(c, Reg::E, Reg::H, Reg::L),
        0x5F => ld_r8_r8(c, Reg::E, Reg::A),
        _ => unreached(),
    }
}

/// 0x60 to 0x67: LD H, r8
fn row_60(c: &mut CPU, opcode: u8) -> (cycles: u8)
    requires
        0x60 <= opcode <= 0x67,
    ensures
        final(c)@ == old(c)@.execute(opcode),
        cycles == old(c)@.cost(opcode),
{
    proof {
        reveal(Machine::execute);
        reveal(Machine::execute_low);
        reveal(Machine::execute_high);
        reveal(Machine::cost);
    }
    match opcode {
        0x60 => ld_r8_r8(c, Reg::H, Reg::B),
        0x61 => ld_r8_r8(c, Reg::H, Reg::C),
        0x62 => ld_r8_r8(c, Reg::H, Reg::D),
        0x63 => ld_r8_r8(c, Reg::H, Reg::E),
        0x64 => ld_r8_r8(c, Reg::H, Reg::H),
        0x65 => ld_r8_r8(c, Reg::H, Reg::L),
        0x66 => ld_r8_r16m(c, Reg::H, Reg::H, Reg::L),
        0x67 => ld_r8_r8(c, Reg::H, Reg::A),
        _ => unreached(),
    }
}

/// 0x68 to 0x6F: LD L, r8
fn row_68(c: &mut CPU, opcode: u8) -> (cycles: u8)
    requires
        0x68 <= opcode <= 0x6F,
    ensures
        final(c)@ == old(c)@.execute(opcode),
        cycles == old(c)@.cost(opcode),
{
    proof {
        reveal(Machine::execute);
        reveal(Machine::execute_low);
        reveal(Machine::execute_high);
        reveal(Machine::cost);
    }
    match opcode {
        0x68 => ld_r8_r8(c, Reg::L, Reg::B),
        0x69 => ld_r8_r8(c, Reg::L, Reg::C),
        0x6A => ld_r8_r8(c, Reg::L, Reg::D),
        0x6B => ld_r8_r8(c, Reg::L, Reg::E),
        0x6C => ld_r8_r8(c, Reg::L, Reg::H),
        0x6D => ld_r8_r8(c, Reg::L, Reg::L),
        0x6E => ld_r8_r16m(c, Reg::L, Reg::H, Reg::L),
        0x6F => ld_r8_r8(c, Reg::L, Reg::A),
        _ => unreached(),
    }
}

/// 0x70 to 0x77: LD (HL), r8, with HALT in the place of LD (HL), (HL)
fn row_70(c: &mut CPU, opcode: u8) -> (cycles: u8)
    requires
        0x70 <= opcode <= 0x77,
    ensures
        final(c)@ == old(c)@.execute(opcode),
        cycles == old(c)@.cost(opcode),
{
    proof {
        reveal(Machine::execute);
        reveal(Machine::execute_low);
        reveal(Machine::execute_high);
        reveal(Machine::cost);
    }
    match opcode {
        0x70 => ld_r16m_r8(c, Reg::H, Reg::L, Reg::B),
        0x71 => ld_r16m_r8(c, Reg::H, Reg::L, Reg::C),
        0x72 => ld_r16m_r8(c, Reg::H, Reg::L, Reg::D),
        0x73 => ld_r16m_r8(c, Reg::H, Reg::L, Reg::E),
        0x74 => ld_r16m_r8(c, Reg::H, Reg::L, Reg::H),
        0x75 => ld_r16m_r8(c, Reg::H, Reg::L, Reg::L),
        0x76 => halt(c),
        0x77 => ld_r16m_r8(c, Reg::H, Reg::L, Reg::A),
        _ => unreached(),
    }
}

/// 0x78 to 0x7F: LD A, r8
fn row_78(c: &mut CPU, opcode: u8) -> (cycles: u8)
    requires
        0x78 <= opcode <= 0x7F,
    ensures
        final(c)@ == old(c)@.execute(opcode),
        cycles == old(c)@.cost(opcode),
{
    proof {
        reveal(Machine::execute);
        reveal(Machine::execute_low);
        reveal(Machine::execute_high);
        reveal(Machine::cost);
    }
    match opcode {
        0x78 => ld_r8_r8(c, Reg::A, Reg::B),
        0x79 => ld_r8_r8(c, Reg::A, Reg::C),
        0x7A => ld_r8_r8(c, Reg::A, Reg::D),
        0x7B => ld_r8_r8(c, Reg::A, Reg::E),
        0x7C => ld_r8_r8(c, Reg::A, Reg::H),
        0x7D => ld_r8_r8(c, Reg::A, Reg::L),
        0x7E => ld_r8_r16m(c, Reg::A, Reg::H, Reg::L),
        0x7F => ld_r8_r8(c, Reg::A, Reg::A),
        _ => unreached(),
    }
}

/// 0x80 to 0x87: ADD A, r8
fn row_80(c: &mut CPU, opcode: u8) -> (cycles: u8)
    requires
        0x80 <= opcode <= 0x87,
    ensures
        final(c)@ == old(c)@.execute(opcode),
        cycles == old(c)@.cost(opcode),
{
    proof {
        reveal(Machine::execute);
        reveal(Machine::execute_low);
        reveal(Machine::execute_high);
        reveal(Machine::cost);
    }
    match opcode {
        0x80 => add_r8_r8(c, Reg::A, Reg::B),
        0x81 => add_r8_r8(c, Reg::A, Reg::C),
        0x82 => add_r8_r8(c, Reg::A, Reg::D),
        0x83 => add_r8_r8(c, Reg::A, Reg::E),
        0x84 => add_r8_r8(c, Reg::A, Reg::H),
        0x85 => add_r8_r8(c, Reg::A, Reg::L),
        0x86 => add_r8_r16m(c, Reg::A, Reg::H, Reg::L),
        0x87 => add_r8_r8(c, Reg::A, Reg::A),
        _ => unreached(),
    }
}

/// 0x88 to 0x8F: ADC A, r8
fn row_88(c: &mut CPU, opcode: u8) -> (cycles: u8)
    requires
        0x88 <= opcode <= 0x8F,
    ensures
        final(c)@ == old(c)@.execute(opcode),
        cycles == old(c)@.cost(opcode),
{
    proof {
        reveal(Machine::execute);
        reveal(Machine::execute_low);
        reveal(Machine::execute_high);
        reveal(Machine::cost);
    }
    match opcode {
        0x88 => adc_r8_r8(c, Reg::A, Reg::B),
        0x89 => adc_r8_r8(c, Reg::A, Reg::C),
        0x8A => adc_r8_r8(c, Reg::A, Reg::D),
        0x8B => adc_r8_r8(c, Reg::A, Reg::E),
        0x8C => adc_r8_r8(c, Reg::A, Reg::H),
        0x8D => adc_r8_r8(c, Reg::A, Reg::L),
        0x8E => adc_r8_r16m(c, Reg::A, Reg::H, Reg::L),
        0x8F => adc_r8_r8(c, Reg::A, Reg::A),
        _ => unreached(),
    }
}

/// 0x90 to 0x97: SUB A, r8
fn row_90(c: &mut CPU, opcode: u8) -> (cycles: u8)
    requires
        0x90 <= opcode <= 0x97,
    ensures
        final(c)@ == old(c)@.execute(opcode),
        cycles == old(c)@.cost(opcode),
{
    proof {
        reveal(Machine::execute);
        reveal(Machine::execute_low);
        reveal(Machine::execute_high);
        reveal(Machine::cost);
    }
    match opcode {
        0x90 => sub_r8_r8(c, Reg::A, Reg::B),
        0x91 => sub_r8_r8(c, Reg::A, Reg::C),
        0x92 => sub_r8_r8(c, Reg::A, Reg::D),
        0x93 => sub_r8_r8(c, Reg::A, Reg::E),
        0x94 => sub_r8_r8(c, Reg::A, Reg::H),
        0x95 => sub_r8_r8(c, Reg::A, Reg::L),
        0x96 => sub_r8_r16m(c, Reg::A, Reg::H, Reg::L),
        0x97 => sub_r8_r8(c, Reg::A, Reg::A),
        _ => unreached(),
    }
}

/// 0x98 to 0x9F: SBC A, r8
fn row_98(c: &mut CPU, opcode: u8) -> (cycles: u8)
    requires
        0x98 <= opcode <= 0x9F,
    ensures
        final(c)@ == old(c)@.execute(opcode),
        cycles == old(c)@.cost(opcode),
{
    proof {
        reveal(Machine::execute);
        reveal(Machine::execute_low);
        reveal(Machine::execute_high);
        reveal(Machine::cost);
    }
    match opcode {
        0x98 => sbc_r8_r8(c, Reg::A, Reg::B),
        0x99 => sbc_r8_r8(c, Reg::A, Reg::C),
        0x9A => sbc_r8_r8(c, Reg::A, Reg::D),
        0x9B => sbc_r8_r8(c, Reg::A, Reg::E),
        0x9C => sbc_r8_r8(c, Reg::A, Reg::H),
        0x9D => sbc_r8_r8(c, Reg::A, Reg::L),
        0x9E => sbc_r8_r16m(c, Reg::A, Reg::H, Reg::L),
        0x9F => sbc_r8_r8(c, Reg::A, Reg::A),
        _ => unreached(),
    }
}

/// 0xA0 to 0xA7: AND A, r8
fn row_a0(c: &mut CPU, opcode: u8) -> (cycles: u8)
    requires
        0xA0 <= opcode <= 0xA7,
    ensures
        final(c)@ == old(c)@.execute(opcode),
        cycles == old(c)@.cost(opcode),
{
    proof {
        reveal(Machine::execute);
        reveal(Machine::execute_low);
        reveal(Machine::execute_high);
        reveal(Machine::cost);
    }
    match opcode {
        0xA0 => and_r8_r8(c, Reg::A, Reg::B),
        0xA1 => and_r8_r8(c, Reg::A, Reg::C),
        0xA2 => and_r8_r8(c, Reg::A, Reg::D),
        0xA3 => and_r8_r8(c, Reg::A, Reg::E),
        0xA4 => and_r8_r8(c, Reg::A, Reg::H),
        0xA5 => and_r8_r8(c, Reg::A, Reg::L),
        0xA6 => and_r8_r16m(c, Reg::A, Reg::H, Reg::L),
        0xA7 => and_r8_r8(c, Reg::A, Reg::A),
        _ => unreached(),
    }
}

/// 0xA8 to 0xAF: XOR A, r8
fn row_a8(c: &mut CPU, opcode: u8) -> (cycles: u8)
    requires
        0xA8 <= opcode <= 0xAF,
    ensures
        final(c)@ == old(c)@.execute(opcode),
        cycles == old(c)@.cost(opcode),
{
    proof {
        reveal(Machine::execute);
        reveal(Machine::execute_low);
        reveal(Machine::execute_high);
        reveal(Machine::cost);
    }
    match opcode {
        0xA8 => xor_r8_r8(c, Reg::A, Reg::B),
        0xA9 => xor_r8_r8(c, Reg::A, Reg::C),
        0xAA => xor_r8_r8(c, Reg::A, Reg::D),
        0xAB => xor_r8_r8(c, Reg::A, Reg::E),
        0xAC => xor_r8_r8(c, Reg::A, Reg::H),
        0xAD => xor_r8_r8(c, Reg::A, Reg::L),
        0xAE => xor_r8_r16m(c, Reg::A, Reg::H, Reg::L),
        0xAF => xor_r8_r8(c, Reg::A, Reg::A),
        _ => unreached(),
    }
}

/// 0xB0 to 0xB7: OR A, r8
fn row_b0(c: &mut CPU, opcode: u8) -> (cycles: u8)
    requires
        0xB0 <= opcode <= 0xB7,
    ensures
        final(c)@ == old(c)@.execute(opcode),
        cycles == old(c)@.cost(opcode),
{
    proof {
        reveal(Machine::execute);
        reveal(Machine::execute_low);
        reveal(Machine::execute_high);
        reveal(Machine::cost);
    }
    match opcode {
        0xB0 => or_r8_r8(c, Reg::A, Reg::B),
        0xB1 => or_r8_r8(c, Reg::A, Reg::C),
        0xB2 => or_r8_r8(c, Reg::A, Reg::D),
        0xB3 => or_r8_r8(c, Reg::A, Reg::E),
        0xB4 => or_r8_r8(c, Reg::A, Reg::H),
        0xB5 => or_r8_r8(c, Reg::A, Reg::L),
        0xB6 => or_r8_r16m(c, Reg::A, Reg::H, Reg::L),
        0xB7 => or_r8_r8(c, Reg::A, Reg::A),
        _ => unreached(),
    }
}

/// 0xB8 to 0xBF: CP A, r8
fn row_b8(c: &mut CPU, opcode: u8) -> (cycles: u8)
    requires
        0xB8 <= opcode <= 0xBF,
    ensures
        final(c)@ == old(c)@.execute(opcode),
        cycles == old(c)@.cost(opcode),
{
    proof {
        reveal(Machine::execute);
        reveal(Machine::execute_low);
        reveal(Machine::execute_high);
        reveal(Machine::cost);
    }
    match opcode {
        0xB8 => cp_r8_r8(c, Reg::A, Reg::B),
        0xB9 => cp_r8_r8(c, Reg::A, Reg::C),
        0xBA => cp_r8_r8(c, Reg::A, Reg::D),
        0xBB => cp_r8_r8(c, Reg::A, Reg::E),
        0xBC => cp_r8_r8(c, Reg::A, Reg::H),
        0xBD => cp_r8_r8(c, Reg::A, Reg::L),
        0xBE => cp_r8_r16m(c, Reg::A, Reg::H, Reg::L),
        0xBF => cp_r8_r8(c, Reg::A, Reg::A),
        _ => unreached(),
    }
}

/// 0xC0 to 0xC7: RET NZ; POP BC; JP NZ, a16; JP a16; CALL NZ, a16; PUSH BC; ADD A, n8; RST 0x00
fn row_c0(c: &mut CPU, opcode: u8) -> (cycles: u8)
    requires
        0xC0 <= opcode <= 0xC7,
    ensures
        final(c)@ == old(c)@.execute(opcode),
        cycles == old(c)@.cost(opcode),
{
    proof {
        reveal(Machine::execute);
        reveal(Machine::execute_low);
        reveal(Machine::execute_high);
        reveal(Machine::cost);
    }
    match opcode {
        0xC0 => ret_cc(c, ALUFlag::Z, false),
        0xC1 => pop_r16(c, Reg::B, Reg::C),
        0xC2 => jp_a16_cc(c, ALUFlag::Z, false),
        0xC3 => jp_a16(c),
        0xC4 => call_a16_cc(c, ALUFlag::Z, false),
        0xC5 => push_r16(c, Reg::B, Reg::C),
        0xC6 => add_r8_n8(c, Reg::A),
        0xC7 => rst(c, 0x0),
        _ => unreached(),
    }
}

/// 0xC8 to 0xCF: RET Z; RET; JP Z, a16; the CB prefix; CALL Z, a16; CALL a16; ADC A, n8; RST 0x08
fn row_c8(c: &mut CPU, opcode: u8) -> (cycles: u8)
    requires
        0xC8 <= opcode <= 0xCF,
    ensures
        final(c)@ == old(c)@.execute(opcode),
        cycles == old(c)@.cost(opcode),
{
    proof {
        reveal(Machine::execute);
        reveal(Machine::execute_low);
        reveal(Machine::execute_high);
        reveal(Machine::cost);
    }
    match opcode {
        0xC8 => ret_cc(c, ALUFlag::Z, true),
        0xC9 => ret(c),
        0xCA => jp_a16_cc(c, ALUFlag::Z, true),
        0xCB => prefix(c),
        0xCC => call_a16_cc(c, ALUFlag::Z, true),
        0xCD => call_a16(c),
        0xCE => adc_r8_n8(c, Reg::A),
        0xCF => rst(c, 0x8),
        _ => unreached(),
    }
}

/// 0xD0 to 0xD7: RET NC; POP DE; JP NC, a16; CALL NC, a16; PUSH DE; SUB A, n8; RST 0x10
fn row_d0(c: &mut CPU, opcode: u8) -> (cycles: u8)
    requires
        0xD0 <= opcode <= 0xD7,
    ensures
        final(c)@ == old(c)@.execute(opcode),
        cycles == old(c)@.cost(opcode),
{
    proof {
        reveal(Machine::execute);
        reveal(Machine::execute_low);
        reveal(Machine::execute_high);
        reveal(Machine::cost);
    }
    match opcode {
        0xD0 => ret_cc(c, ALUFlag::C, false),
        0xD1 => pop_r16(c, Reg::D, Reg::E),
        0xD2 => jp_a16_cc(c, ALUFlag::C, false),
        0xD4 => call_a16_cc(c, ALUFlag::C, false),
        0xD5 => push_r16(c, Reg::D, Reg::E),
        0xD6 => sub_r8_n8(c, Reg::A),
        0xD7 => rst(c, 0x10),
        _ => 1,
    }
}

/// 0xD8 to 0xDF: RET C; RETI; JP C, a16; CALL C, a16; SBC A, n8; RST 0x18
fn row_d8(c: &mut CPU, opcode: u8) -> (cycles: u8)
    requires
        0xD8 <= opcode <= 0xDF,
    ensures
        final(c)@ == old(c)@.execute(opcode),
        cycles == old(c)@.cost(opcode),
{
    proof {
        reveal(Machine::execute);
        reveal(Machine::execute_low);
        reveal(Machine::execute_high);
        reveal(Machine::cost);
    }
    match opcode {
        0xD8 => ret_cc(c, ALUFlag::C, true),
        0xD9 => reti(c),
        0xDA => jp_a16_cc(c, ALUFlag::C, true),
        0xDC => call_a16_cc(c, ALUFlag::C, true),
        0xDE => sbc_r8_n8(c, Reg::A),
        0xDF => rst(c, 0x18),
        _ => 1,
    }
}

/// 0xE0 to 0xE7: LDH (a8), A; POP HL; LD (C), A; PUSH HL; AND A, n8; RST 0x20
fn row_e0(c: &mut CPU, opcode: u8) -> (cycles: u8)
    requires
        0xE0 <= opcode <= 0xE7,
    ensures
        final(c)@ == old(c)@.execute(opcode),
        cycles == old(c)@.cost(opcode),
{
    proof {
        reveal(Machine::execute);
        reveal(Machine::execute_low);
        reveal(Machine::execute_high);
        reveal(Machine::cost);
    }
    match opcode {
        0xE0 => ld_a8m_a(c),
        0xE1 => pop_r16(c, Reg::H, Reg::L),
        0xE2 => ld_cm_a(c),
        0xE5 => push_r16(c, Reg::H, Reg::L),
        0xE6 => and_r8_n8(c, Reg::A),
        0xE7 => rst(c, 0x20),
        _ => 1,
    }
}

/// 0xE8 to 0xEF: ADD SP, e8; JP HL; LD (a16), A; XOR A, n8; RST 0x28
fn row_e8(c: &mut CPU, opcode: u8) -> (cycles: u8)
    requires
        0xE8 <= opcode <= 0xEF,
    ensures
        final(c)@ == old(c)@.execute(opcode),
        cycles == old(c)@.cost(opcode),
{
    proof {
        reveal(Machine::execute);
        reveal(Machine::execute_low);
        reveal(Machine::execute_high);
        reveal(Machine::cost);
    }
    match opcode {
        0xE8 => add_sp_e8(c),
        0xE9 => jp_r16(c, Reg::H, Reg::L),
        0xEA => ld_a16m_a(c),
        0xEE => xor_r8_n8(c, Reg::A),
        0xEF => rst(c, 0x28),
        _ => 1,
    }
}

/// 0xF0 to 0xF7: LDH A, (a8); POP AF; LD A, (C); DI; PUSH AF; OR A, n8; RST 0x30
fn row_f0(c: &mut CPU, opcode: u8) -> (cycles: u8)
    requires
        0xF0 <= opcode <= 0xF7,
    ensures
        final(c)@ == old(c)@.execute(opcode),
        cycles == old(c)@.cost(opcode),
{
    proof {
        reveal(Machine::execute);
        reveal(Machine::execute_low);
        reveal(Machine::execute_high);
        reveal(Machine::cost);
    }
    match opcode {
        0xF0 => ld_a_a8m(c),
        0xF1 => pop_r16(c, Reg::A, Reg::FLAGS),
        0xF2 => ld_a_cm(c),
        0xF3 => di(c),
        0xF5 => push_r16(c, Reg::A, Reg::FLAGS),
        0xF6 => or_r8_n8(c, Reg::A),
        0xF7 => rst(c, 0x30),
        _ => 1,
    }
}

/// 0xF8 to 0xFF: LD HL, SP+e8; LD SP, HL; LD A, (a16); EI; CP A, n8; RST 0x38
fn row_f8(c: &mut CPU, opcode: u8) -> (cycles: u8)
    requires
        0xF8 <= opcode <= 0xFF,
    ensures
        final(c)@ == old(c)@.execute(opcode),
        cycles == old(c)@.cost(opcode),
{
    proof {
        reveal(Machine::execute);
        reveal(Machine::execute_low);
        reveal(Machine::execute_high);
        reveal(Machine::cost);
    }
    match opcode {
        0xF8 => ld_hl_spe8(c),
        0xF9 => ld_sp_hl(c),
        0xFA => ld_a_a16m(c),
        0xFB => ei(c),
        0xFE => cp_r8_n8(c, Reg::A),
        0xFF => rst(c, 0x38),
        _ => 1,
    }
}

/// Executes the instruction with opcode `opcode`, which has been fetched
/// already, and returns its machine cycles. An opcode that the processor
/// does not define changes nothing and takes one cycle.
///
/// Each instruction returns _machine cycles_ (M-cycles) instead of _clock
/// ticks_ (T-states). To convert M-cycles to T-states:
///   t_states = m_cycles * 4
///
/// The opcode table is cut into rows of eight, so that each row is checked
/// against the instruction set on its own.
pub fn operations(c: &mut CPU, opcode: u8) -> (cycles: u8)
    ensures
        final(c)@ == old(c)@.execute(opcode),
        cycles == old(c)@.cost(opcode),
{
    match opcode / 8 {
        0 => row_00(c, opcode),
        1 => row_08(c, opcode),
        2 => row_10(c, opcode),
        3 => row_18(c, opcode),
        4 => row_20(c, opcode),
        5 => row_28(c, opcode),
        6 => row_30(c, opcode),
        7 => row_38(c, opcode),
        8 => row_40(c, opcode),
        9 => row_48(c, opcode),
        10 => row_50(c, opcode),
        11 => row_58(c, opcode),
        12 => row_60(c, opcode),
        13 => row_68(c, opcode),
        14 => row_70(c, opcode),
        15 => row_78(c, opcode),
        16 => row_80(c, opcode),
        17 => row_88(c, opcode),
        18 => row_90(c, opcode),
        19 => row_98(c, opcode),
        20 => row_a0(c, opcode),
        21 => row_a8(c, opcode),
        22 => row_b0(c, opcode),
        23 => row_b8(c, opcode),
        24 => row_c0(c, opcode),
        25 => row_c8(c, opcode),
        26 => row_d0(c, opcode),
        27 => row_d8(c, opcode),
        28 => row_e0(c, opcode),
        29 => row_e8(c, opcode),
        30 => row_f0(c, opcode),
        _ => row_f8(c, opcode),
    }
}

} // verus!
