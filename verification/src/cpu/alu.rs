use vstd::prelude::*;

verus! {

/// The four condition flags, as they sit in bits 7 to 4 of the F register.
#[derive(Debug, Clone, Copy, PartialEq, Eq, Structural)]
pub struct Flags {
    /// Bit 7: the result was zero.
    pub z: bool,
    /// Bit 6: the operation was a subtraction.
    pub n: bool,
    /// Bit 5: carry out of bit 3 (bit 11 for 16-bit additions).
    pub h: bool,
    /// Bit 4: carry out of bit 7 (bit 15 for 16-bit additions).
    pub c: bool,
}

impl Flags {
    /// The F register byte that holds these flags; its low nibble is zero.
    pub open spec fn byte(self) -> u8 {
        (if self.z { 0x80u8 } else { 0u8 }) | (if self.n { 0x40u8 } else { 0u8 })
            | (if self.h { 0x20u8 } else { 0u8 }) | (if self.c { 0x10u8 } else { 0u8 })
    }

    /// The flags held by an F register byte.
    pub open spec fn of(f: u8) -> Flags {
        Flags { z: f & 0x80 != 0, n: f & 0x40 != 0, h: f & 0x20 != 0, c: f & 0x10 != 0 }
    }
}

/// Reading the flags back from a packed byte gives what was packed, and the
/// packed byte has a zero low nibble.
pub proof fn lemma_flags_byte(fl: Flags)
    ensures
        Flags::of(fl.byte()) == fl,
        fl.byte() & 0x0F == 0,
{
    let (z, n, h, c) = (fl.z, fl.n, fl.h, fl.c);
    let b = (if z { 0x80u8 } else { 0u8 }) | (if n { 0x40u8 } else { 0u8 }) | (if h {
        0x20u8
    } else {
        0u8
    }) | (if c { 0x10u8 } else { 0u8 });
    assert((b & 0x80 != 0) == z && (b & 0x40 != 0) == n && (b & 0x20 != 0) == h && (b & 0x10 != 0)
        == c && b & 0x0F == 0) by (bit_vector)
        requires
            b == (if z { 0x80u8 } else { 0u8 }) | (if n { 0x40u8 } else { 0u8 }) | (if h {
                0x20u8
            } else {
                0u8
            }) | (if c { 0x10u8 } else { 0u8 }),
    ;
}

/// A byte with a zero low nibble is the packed form of the flags it holds.
pub proof fn lemma_flags_of(f: u8)
    requires
        f & 0x0F == 0,
    ensures
        Flags::of(f).byte() == f,
{
    assert(f & 0x0F == 0 ==> f == (if f & 0x80 != 0 { 0x80u8 } else { 0u8 }) | (if f & 0x40 != 0 {
        0x40u8
    } else {
        0u8
    }) | (if f & 0x20 != 0 { 0x20u8 } else { 0u8 }) | (if f & 0x10 != 0 { 0x10u8 } else { 0u8 }))
        by (bit_vector);
}

/// The unsigned byte `e` read as a two's complement number.
pub open spec fn signed(e: u8) -> int {
    if e >= 0x80 {
        e - 0x100
    } else {
        e as int
    }
}

/// `a + b + carry`: the sum modulo 256 and the flags of an 8-bit addition.
#[verifier::opaque]
pub open spec fn add8(a: u8, b: u8, carry: bool) -> (u8, Flags) {
    let cin: int = if carry { 1 } else { 0 };
    let value = ((a + b + cin) % 0x100) as u8;
    (
        value,
        Flags {
            z: value == 0,
            n: false,
            h: (a & 0x0F) + (b & 0x0F) + cin > 0x0F,
            c: a + b + cin > 0xFF,
        },
    )
}

/// `a - b - carry`: the difference modulo 256 and the flags of an 8-bit
/// subtraction.
#[verifier::opaque]
pub open spec fn sub8(a: u8, b: u8, carry: bool) -> (u8, Flags) {
    let cin: int = if carry { 1 } else { 0 };
    let value = ((a - b - cin) % 0x100) as u8;
    (
        value,
        Flags { z: value == 0, n: true, h: (a & 0x0F) < (b & 0x0F) + cin, c: a < b + cin },
    )
}

#[verifier::opaque]
pub open spec fn and8(a: u8, b: u8) -> (u8, Flags) {
    (a & b, Flags { z: a & b == 0, n: false, h: true, c: false })
}

#[verifier::opaque]
pub open spec fn xor8(a: u8, b: u8) -> (u8, Flags) {
    (a ^ b, Flags { z: a ^ b == 0, n: false, h: false, c: false })
}

#[verifier::opaque]
pub open spec fn or8(a: u8, b: u8) -> (u8, Flags) {
    (a | b, Flags { z: a | b == 0, n: false, h: false, c: false })
}

/// Compare: the flags of `a - b`, with `a` itself as the value.
pub open spec fn cp8(a: u8, b: u8) -> (u8, Flags) {
    (a, sub8(a, b, false).1)
}

/// The eight accumulator operations in the order of their opcode block:
/// ADD, ADC, SUB, SBC, AND, XOR, OR, CP.
pub open spec fn alu8(op: int, a: u8, b: u8, carry: bool) -> (u8, Flags) {
    if op == 0 {
        add8(a, b, false)
    } else if op == 1 {
        add8(a, b, carry)
    } else if op == 2 {
        sub8(a, b, false)
    } else if op == 3 {
        sub8(a, b, carry)
    } else if op == 4 {
        and8(a, b)
    } else if op == 5 {
        xor8(a, b)
    } else if op == 6 {
        or8(a, b)
    } else {
        cp8(a, b)
    }
}

/// Increment: the carry flag is kept.
#[verifier::opaque]
pub open spec fn inc8(v: u8, carry: bool) -> (u8, Flags) {
    let value = ((v + 1) % 0x100) as u8;
    (value, Flags { z: value == 0, n: false, h: (v & 0x0F) + 1 > 0x0F, c: carry })
}

/// Decrement: the carry flag is kept.
#[verifier::opaque]
pub open spec fn dec8(v: u8, carry: bool) -> (u8, Flags) {
    let value = ((v - 1) % 0x100) as u8;
    (value, Flags { z: value == 0, n: true, h: (v & 0x0F) < 1, c: carry })
}

/// 16-bit addition: the zero flag is kept, the half carry comes out of bit
/// 11 and the carry out of bit 15.
#[verifier::opaque]
pub open spec fn add16(a: u16, b: u16, zero: bool) -> (u16, Flags) {
    (
        ((a + b) % 0x10000) as u16,
        Flags { z: zero, n: false, h: (a & 0x0FFF) + (b & 0x0FFF) > 0x0FFF, c: a + b > 0xFFFF },
    )
}

/// The stack pointer plus a signed byte: the flags are those of adding the
/// unsigned byte to the low byte of the stack pointer.
#[verifier::opaque]
pub open spec fn add_signed(sp: u16, e: u8) -> (u16, Flags) {
    (
        ((sp + signed(e)) % 0x10000) as u16,
        Flags {
            z: false,
            n: false,
            h: (sp & 0x0F) + (e & 0x0F) > 0x0F,
            c: (sp & 0xFF) + (e & 0xFF) > 0xFF,
        },
    )
}

/// Rotate left; bit 7 goes to the carry and to bit 0.
#[verifier::opaque]
pub open spec fn rlc8(v: u8) -> (u8, Flags) {
    let value = (v << 1) | (v >> 7);
    (value, Flags { z: value == 0, n: false, h: false, c: v & 0x80 != 0 })
}

/// Rotate right; bit 0 goes to the carry and to bit 7.
#[verifier::opaque]
pub open spec fn rrc8(v: u8) -> (u8, Flags) {
    let value = (v >> 1) | (v << 7);
    (value, Flags { z: value == 0, n: false, h: false, c: v & 0x01 != 0 })
}

/// Rotate left through the carry: the old carry enters bit 0.
#[verifier::opaque]
pub open spec fn rl8(v: u8, carry: bool) -> (u8, Flags) {
    let value = (v << 1) | (if carry { 0x01u8 } else { 0u8 });
    (value, Flags { z: value == 0, n: false, h: false, c: v & 0x80 != 0 })
}

/// Rotate right through the carry: the old carry enters bit 7.
#[verifier::opaque]
pub open spec fn rr8(v: u8, carry: bool) -> (u8, Flags) {
    let value = (v >> 1) | (if carry { 0x80u8 } else { 0u8 });
    (value, Flags { z: value == 0, n: false, h: false, c: v & 0x01 != 0 })
}

/// Shift left; bit 0 becomes zero.
#[verifier::opaque]
pub open spec fn sla8(v: u8) -> (u8, Flags) {
    let value = v << 1;
    (value, Flags { z: value == 0, n: false, h: false, c: v & 0x80 != 0 })
}

/// Shift right; bit 7 keeps its value.
#[verifier::opaque]
pub open spec fn sra8(v: u8) -> (u8, Flags) {
    let value = (v >> 1) | (v & 0x80);
    (value, Flags { z: value == 0, n: false, h: false, c: v & 0x01 != 0 })
}

/// Exchange the two nibbles.
#[verifier::opaque]
pub open spec fn swap8(v: u8) -> (u8, Flags) {
    let value = (v << 4) | (v >> 4);
    (value, Flags { z: value == 0, n: false, h: false, c: false })
}

/// Shift right; bit 7 becomes zero.
#[verifier::opaque]
pub open spec fn srl8(v: u8) -> (u8, Flags) {
    let value = v >> 1;
    (value, Flags { z: value == 0, n: false, h: false, c: v & 0x01 != 0 })
}

/// The eight rotates and shifts in the order of their opcode block:
/// RLC, RRC, RL, RR, SLA, SRA, SWAP, SRL.
pub open spec fn shift8(op: int, v: u8, carry: bool) -> (u8, Flags) {
    if op == 0 {
        rlc8(v)
    } else if op == 1 {
        rrc8(v)
    } else if op == 2 {
        rl8(v, carry)
    } else if op == 3 {
        rr8(v, carry)
    } else if op == 4 {
        sla8(v)
    } else if op == 5 {
        sra8(v)
    } else if op == 6 {
        swap8(v)
    } else {
        srl8(v)
    }
}

/// The byte with only bit `n` set.
pub open spec fn bit_mask(n: int) -> u8 {
    1u8 << (n as u8)
}

/// The masks of the eight bits, written out.
pub proof fn lemma_bit_masks()
    ensures
        bit_mask(0) == 0x01,
        bit_mask(1) == 0x02,
        bit_mask(2) == 0x04,
        bit_mask(3) == 0x08,
        bit_mask(4) == 0x10,
        bit_mask(5) == 0x20,
        bit_mask(6) == 0x40,
        bit_mask(7) == 0x80,
{
    assert(1u8 << 0u8 == 0x01 && 1u8 << 1u8 == 0x02 && 1u8 << 2u8 == 0x04 && 1u8 << 3u8 == 0x08
        && 1u8 << 4u8 == 0x10 && 1u8 << 5u8 == 0x20 && 1u8 << 6u8 == 0x40 && 1u8 << 7u8 == 0x80)
        by (bit_vector);
}

/// Decimal adjustment of the accumulator after an addition (`n` clear) or a
/// subtraction (`n` set) of two packed decimal numbers.
#[verifier::opaque]
pub open spec fn daa8(a: u8, fl: Flags) -> (u8, Flags) {
    if !fl.n {
        let high: int = if fl.c || a > 0x99 { 0x60 } else { 0 };
        let low: int = if fl.h || (a & 0x0F) > 0x09 { 0x06 } else { 0 };
        let value = ((a + high + low) % 0x100) as u8;
        (value, Flags { z: value == 0, n: false, h: false, c: fl.c || a > 0x99 })
    } else {
        let high: int = if fl.c { 0x60 } else { 0 };
        let low: int = if fl.h { 0x06 } else { 0 };
        let value = ((a - high - low) % 0x100) as u8;
        (value, Flags { z: value == 0, n: true, h: false, c: fl.c })
    }
}

} // verus!
