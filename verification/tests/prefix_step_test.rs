use they::cpu::{ALUFlag, CPU};

/// A processor about to execute the CB-prefixed instruction `opcode`, with
/// HL pointing at 0xC000.
fn prefixed(opcode: u8) -> CPU {
    let mut cpu = CPU::new();
    cpu.registers.pc = 0;
    cpu.registers.flags = 0;
    cpu.registers.high = 0xC0;
    cpu.registers.low = 0x00;
    cpu.memory.ram[0] = 0xCB;
    cpu.memory.ram[1] = opcode;
    cpu
}

/// Writes the operand in `slot`: B, C, D, E, H, L, the byte at 0xC000, A.
fn set_operand(cpu: &mut CPU, slot: u8, v: u8) {
    match slot {
        0 => cpu.registers.b = v,
        1 => cpu.registers.c = v,
        2 => cpu.registers.d = v,
        3 => cpu.registers.e = v,
        4 => cpu.registers.high = v,
        5 => cpu.registers.low = v,
        6 => cpu.memory.ram[0xC000] = v,
        _ => cpu.registers.acc = v,
    }
}

fn operand(cpu: &CPU, slot: u8) -> u8 {
    match slot {
        0 => cpu.registers.b,
        1 => cpu.registers.c,
        2 => cpu.registers.d,
        3 => cpu.registers.e,
        4 => cpu.registers.high,
        5 => cpu.registers.low,
        6 => cpu.memory.ram[0xC000],
        _ => cpu.registers.acc,
    }
}

/// The result and the carry of the rotate or shift `kind` on `v`.
fn shifted(kind: u8, v: u8, carry: bool) -> (u8, bool) {
    match kind {
        0 => (v.rotate_left(1), v & 0x80 != 0),
        1 => (v.rotate_right(1), v & 0x01 != 0),
        2 => ((v << 1) | carry as u8, v & 0x80 != 0),
        3 => ((v >> 1) | ((carry as u8) << 7), v & 0x01 != 0),
        4 => (v << 1, v & 0x80 != 0),
        5 => ((v >> 1) | (v & 0x80), v & 0x01 != 0),
        6 => ((v << 4) | (v >> 4), false),
        _ => (v >> 1, v & 0x01 != 0),
    }
}

#[test]
fn rotates_and_shifts_on_every_operand() {
    for kind in 0..8u8 {
        for slot in [0u8, 1, 2, 3, 6, 7] {
            for v in [0x00u8, 0x01, 0x80, 0x85, 0xF0, 0xFF] {
                for carry in [false, true] {
                    let mut cpu = prefixed(kind * 8 + slot);
                    set_operand(&mut cpu, slot, v);
                    cpu.set_flag(ALUFlag::C, carry);
                    cpu.set_flag(ALUFlag::N, true);
                    cpu.set_flag(ALUFlag::H, true);
                    cpu.exec();
                    let (result, carry_out) = shifted(kind, v, carry);
                    assert_eq!(operand(&cpu, slot), result);
                    assert_eq!(cpu.check_flag(ALUFlag::C), carry_out);
                    assert_eq!(cpu.check_flag(ALUFlag::Z), result == 0);
                    assert!(!cpu.check_flag(ALUFlag::N));
                    assert!(!cpu.check_flag(ALUFlag::H));
                }
            }
        }
    }
}

#[test]
fn shifts_of_h_and_l() {
    // SLA H and SRL L
    let mut cpu = prefixed(0x24);
    cpu.registers.high = 0x81;
    cpu.exec();
    assert_eq!(cpu.registers.high, 0x02);
    assert!(cpu.check_flag(ALUFlag::C));
    let mut cpu = prefixed(0x3D);
    cpu.registers.low = 0x81;
    cpu.exec();
    assert_eq!(cpu.registers.low, 0x40);
    assert!(cpu.check_flag(ALUFlag::C));
}

#[test]
fn bit_res_set_on_every_bit_and_operand() {
    for bit in 0..8u8 {
        for slot in [0u8, 1, 2, 3, 6, 7] {
            for v in [0x00u8, 0xFF, 0xA5, 0x5A] {
                for carry in [false, true] {
                    // BIT
                    let mut cpu = prefixed(0x40 + bit * 8 + slot);
                    set_operand(&mut cpu, slot, v);
                    cpu.set_flag(ALUFlag::C, carry);
                    cpu.set_flag(ALUFlag::N, true);
                    cpu.exec();
                    assert_eq!(operand(&cpu, slot), v);
                    assert_eq!(cpu.check_flag(ALUFlag::Z), v & (1 << bit) == 0);
                    assert!(!cpu.check_flag(ALUFlag::N));
                    assert!(cpu.check_flag(ALUFlag::H));
                    assert_eq!(cpu.check_flag(ALUFlag::C), carry);
                }
                // RES
                let mut cpu = prefixed(0x80 + bit * 8 + slot);
                set_operand(&mut cpu, slot, v);
                cpu.registers.flags = 0xF0;
                cpu.exec();
                assert_eq!(operand(&cpu, slot), v & !(1 << bit));
                assert_eq!(cpu.registers.flags, 0xF0);
                // SET
                let mut cpu = prefixed(0xC0 + bit * 8 + slot);
                set_operand(&mut cpu, slot, v);
                cpu.exec();
                assert_eq!(operand(&cpu, slot), v | (1 << bit));
                assert_eq!(cpu.registers.flags, 0x00);
            }
        }
    }
}

#[test]
fn rl_takes_the_carry_from_bit_7_of_the_operand() {
    // 0x40 rotated left is 0x80; the carry is the old bit 7, which is clear
    let mut cpu = prefixed(0x10);
    cpu.registers.b = 0x40;
    cpu.exec();
    assert_eq!(cpu.registers.b, 0x80);
    assert!(!cpu.check_flag(ALUFlag::C));
}

#[test]
fn rr_takes_the_carry_from_bit_0_of_the_operand() {
    // 0x02 rotated right is 0x01; the carry is the old bit 0, which is clear
    let mut cpu = prefixed(0x18);
    cpu.registers.b = 0x02;
    cpu.exec();
    assert_eq!(cpu.registers.b, 0x01);
    assert!(!cpu.check_flag(ALUFlag::C));
}
