use they::cpu::instructions::{read_pair, write_pair, Reg};
use they::cpu::{ALUFlag, Registers, CPU};

/// A processor at address 0 with the given bytes as its program.
fn program(bytes: &[u8]) -> CPU {
    let mut cpu = CPU::new();
    cpu.registers.pc = 0;
    for (i, b) in bytes.iter().enumerate() {
        cpu.memory.ram[i] = *b;
    }
    cpu
}

fn same_registers(a: &Registers, b: &Registers) -> bool {
    a.acc == b.acc
        && a.flags == b.flags
        && a.b == b.b
        && a.c == b.c
        && a.d == b.d
        && a.e == b.e
        && a.high == b.high
        && a.low == b.low
        && a.sp == b.sp
        && a.pc == b.pc
}

/// The bytes that each opcode occupies; 0 marks the jumps, calls, returns
/// and restarts, which set PC themselves.
const LENGTHS: [u8; 256] = [
    1, 3, 1, 1, 1, 1, 2, 1, 3, 1, 1, 1, 1, 1, 2, 1, // 0x
    2, 3, 1, 1, 1, 1, 2, 1, 0, 1, 1, 1, 1, 1, 2, 1, // 1x
    0, 3, 1, 1, 1, 1, 2, 1, 0, 1, 1, 1, 1, 1, 2, 1, // 2x
    0, 3, 1, 1, 1, 1, 2, 1, 0, 1, 1, 1, 1, 1, 2, 1, // 3x
    1, 1, 1, 1, 1, 1, 1, 1, 1, 1, 1, 1, 1, 1, 1, 1, // 4x
    1, 1, 1, 1, 1, 1, 1, 1, 1, 1, 1, 1, 1, 1, 1, 1, // 5x
    1, 1, 1, 1, 1, 1, 1, 1, 1, 1, 1, 1, 1, 1, 1, 1, // 6x
    1, 1, 1, 1, 1, 1, 1, 1, 1, 1, 1, 1, 1, 1, 1, 1, // 7x
    1, 1, 1, 1, 1, 1, 1, 1, 1, 1, 1, 1, 1, 1, 1, 1, // 8x
    1, 1, 1, 1, 1, 1, 1, 1, 1, 1, 1, 1, 1, 1, 1, 1, // 9x
    1, 1, 1, 1, 1, 1, 1, 1, 1, 1, 1, 1, 1, 1, 1, 1, // Ax
    1, 1, 1, 1, 1, 1, 1, 1, 1, 1, 1, 1, 1, 1, 1, 1, // Bx
    0, 1, 0, 0, 0, 1, 2, 0, 0, 0, 0, 2, 0, 0, 2, 0, // Cx
    0, 1, 0, 1, 0, 1, 2, 0, 0, 0, 0, 1, 0, 1, 2, 0, // Dx
    2, 1, 1, 1, 1, 1, 2, 0, 2, 0, 3, 1, 1, 1, 2, 0, // Ex
    2, 1, 1, 1, 1, 1, 2, 0, 2, 1, 3, 1, 1, 1, 2, 0, // Fx
];

#[test]
fn power_up_registers() {
    let mut cpu = CPU::new();
    assert_eq!(cpu.registers.acc, 0x01);
    assert_eq!(cpu.registers.flags, 0x00);
    assert_eq!(cpu.registers.b, 0xFF);
    assert_eq!(cpu.registers.c, 0x13);
    assert_eq!(cpu.registers.d, 0x00);
    assert_eq!(cpu.registers.e, 0xC1);
    assert_eq!(cpu.registers.high, 0x84);
    assert_eq!(cpu.registers.low, 0x03);
    assert_eq!(cpu.registers.sp, 0xFFFE);
    assert_eq!(cpu.registers.pc, 0x0100);
    assert!(cpu.ime);
    assert!(cpu.ei);
    assert!(!cpu.di);
    assert!(!cpu.halt);
    assert!(!cpu.stop);
    assert!(cpu.memory.serial_drain().is_empty());
    let registers = Registers::new();
    assert!(same_registers(&registers, &cpu.registers));
}

#[test]
fn nop_changes_only_pc() {
    let mut cpu = program(&[0x00]);
    let registers = cpu.registers;
    let ram = cpu.memory.ram;
    let cycles = cpu.exec();
    assert_eq!(cycles, 1);
    assert_eq!(cpu.registers.pc, 0x0001);
    let mut expected = registers;
    expected.pc = 1;
    assert!(same_registers(&expected, &cpu.registers));
    assert!(cpu.memory.ram == ram);
    assert!(!cpu.halt);
    assert!(!cpu.stop);
}

#[test]
fn ld_bc_n16_is_little_endian() {
    let mut cpu = program(&[0x01, 0xFF, 0xEE]);
    let cycles = cpu.exec();
    assert_eq!(cycles, 3);
    assert_eq!(cpu.registers.pc, 3);
    assert_eq!(cpu.registers.b, 0xEE);
    assert_eq!(cpu.registers.c, 0xFF);
}

#[test]
fn inc_b_half_carry() {
    for carry in [false, true] {
        let mut cpu = program(&[0x04]);
        cpu.registers.b = 0x0F;
        cpu.set_flag(ALUFlag::C, carry);
        let cycles = cpu.exec();
        assert_eq!(cycles, 1);
        assert_eq!(cpu.registers.b, 0x10);
        assert!(!cpu.check_flag(ALUFlag::Z));
        assert!(!cpu.check_flag(ALUFlag::N));
        assert!(cpu.check_flag(ALUFlag::H));
        assert_eq!(cpu.check_flag(ALUFlag::C), carry);
    }
}

#[test]
fn inc_sets_half_carry_on_every_nibble_overflow() {
    for v in 0..=255u8 {
        let mut cpu = program(&[0x3C]);
        cpu.registers.acc = v;
        cpu.exec();
        assert_eq!(cpu.registers.acc, v.wrapping_add(1));
        assert_eq!(cpu.check_flag(ALUFlag::H), v & 0x0F == 0x0F);
        assert_eq!(cpu.check_flag(ALUFlag::Z), v == 0xFF);
    }
}

#[test]
fn dec_sets_half_carry_on_every_nibble_borrow() {
    for v in 0..=255u8 {
        let mut cpu = program(&[0x3D]);
        cpu.registers.acc = v;
        cpu.exec();
        assert_eq!(cpu.registers.acc, v.wrapping_sub(1));
        assert_eq!(cpu.check_flag(ALUFlag::H), v & 0x0F == 0x00);
        assert_eq!(cpu.check_flag(ALUFlag::Z), v == 0x01);
        assert!(cpu.check_flag(ALUFlag::N));
    }
}

#[test]
fn rlca_of_0x85() {
    let mut cpu = program(&[0x07]);
    cpu.registers.acc = 0x85;
    let cycles = cpu.exec();
    assert_eq!(cycles, 1);
    assert_eq!(cpu.registers.acc, 0x0B);
    assert!(cpu.check_flag(ALUFlag::C));
    assert!(!cpu.check_flag(ALUFlag::Z));
    assert!(!cpu.check_flag(ALUFlag::N));
    assert!(!cpu.check_flag(ALUFlag::H));
}

#[test]
fn rotates_of_the_accumulator_clear_z() {
    for opcode in [0x07u8, 0x0F, 0x17, 0x1F] {
        let mut cpu = program(&[opcode]);
        cpu.registers.acc = 0;
        cpu.registers.flags = ALUFlag::Z.mask();
        cpu.exec();
        assert_eq!(cpu.registers.acc, 0);
        assert_eq!(cpu.registers.flags, 0);
    }
}

#[test]
fn daa_after_add() {
    let mut cpu = program(&[0x80, 0x27]);
    cpu.registers.acc = 0x45;
    cpu.registers.b = 0x38;
    cpu.exec();
    assert_eq!(cpu.registers.acc, 0x7D);
    assert!(!cpu.check_flag(ALUFlag::N));
    assert!(!cpu.check_flag(ALUFlag::H));
    assert!(!cpu.check_flag(ALUFlag::C));
    cpu.exec();
    assert_eq!(cpu.registers.acc, 0x83);
    assert!(!cpu.check_flag(ALUFlag::C));
    assert!(!cpu.check_flag(ALUFlag::H));
    assert!(!cpu.check_flag(ALUFlag::Z));
    assert!(!cpu.check_flag(ALUFlag::N));
}

#[test]
fn daa_after_add_a_a_of_0x50() {
    let mut cpu = program(&[0x87, 0x27]);
    cpu.registers.acc = 0x50;
    cpu.exec();
    assert_eq!(cpu.registers.acc, 0xA0);
    assert!(!cpu.check_flag(ALUFlag::N));
    cpu.exec();
    assert_eq!(cpu.registers.acc, 0x00);
    assert!(cpu.check_flag(ALUFlag::C));
    assert!(cpu.check_flag(ALUFlag::Z));
    assert!(!cpu.check_flag(ALUFlag::N));
    assert!(!cpu.check_flag(ALUFlag::H));
}

#[test]
fn daa_after_sub() {
    // 0x42 - 0x09 = 0x39 with a borrow from the high nibble; adjusted to 0x33.
    let mut cpu = program(&[0x90, 0x27]);
    cpu.registers.acc = 0x42;
    cpu.registers.b = 0x09;
    cpu.exec();
    assert_eq!(cpu.registers.acc, 0x39);
    assert!(cpu.check_flag(ALUFlag::N));
    assert!(cpu.check_flag(ALUFlag::H));
    assert!(!cpu.check_flag(ALUFlag::C));
    cpu.exec();
    assert_eq!(cpu.registers.acc, 0x33);
    assert!(cpu.check_flag(ALUFlag::N));
    assert!(!cpu.check_flag(ALUFlag::H));
    assert!(!cpu.check_flag(ALUFlag::C));
    assert!(!cpu.check_flag(ALUFlag::Z));
}

#[test]
fn add_sp_e8_minus_one() {
    let mut cpu = program(&[0xE8, 0xFF]);
    cpu.registers.sp = 0x0001;
    cpu.registers.flags = ALUFlag::Z.mask() | ALUFlag::N.mask();
    let cycles = cpu.exec();
    assert_eq!(cycles, 4);
    assert_eq!(cpu.registers.sp, 0x0000);
    assert_eq!(cpu.registers.pc, 2);
    assert!(!cpu.check_flag(ALUFlag::Z));
    assert!(!cpu.check_flag(ALUFlag::N));
    assert!(cpu.check_flag(ALUFlag::H));
    assert!(cpu.check_flag(ALUFlag::C));
}

#[test]
fn ld_hl_sp_e8_has_the_flags_of_add_sp() {
    let mut cpu = program(&[0xF8, 0xFE]);
    cpu.registers.sp = 0x0001;
    let cycles = cpu.exec();
    assert_eq!(cycles, 3);
    assert_eq!(cpu.registers.sp, 0x0001);
    assert_eq!(cpu.registers.high, 0xFF);
    assert_eq!(cpu.registers.low, 0xFF);
    assert_eq!(cpu.registers.flags, 0);

    let mut cpu = program(&[0xF8, 0x08]);
    cpu.registers.sp = 0x00F8;
    cpu.exec();
    assert_eq!(cpu.registers.high, 0x01);
    assert_eq!(cpu.registers.low, 0x00);
    assert_eq!(
        cpu.registers.flags,
        ALUFlag::H.mask() | ALUFlag::C.mask()
    );
}

#[test]
fn low_nibble_of_f_stays_zero_after_every_opcode() {
    for flags in [0x00u8, 0xF0, 0x50, 0xA0] {
        for opcode in 0..=255u8 {
            let mut cpu = program(&[opcode, 0xFF, 0xFF]);
            cpu.registers.flags = flags;
            cpu.registers.sp = 0xC000;
            cpu.memory.ram[0xC000] = 0xFF;
            cpu.memory.ram[0xC001] = 0xFF;
            cpu.exec();
            assert_eq!(cpu.registers.flags & 0x0F, 0, "opcode {:#04x}", opcode);

            let mut cpu = program(&[0xCB, opcode]);
            cpu.registers.flags = flags;
            cpu.exec();
            assert_eq!(cpu.registers.flags & 0x0F, 0, "opcode 0xCB {:#04x}", opcode);
        }
    }
}

#[test]
fn pc_moves_by_the_length_of_the_instruction() {
    for start in [0x0000u16, 0x1234, 0xFFFE, 0xFFFF] {
        for opcode in 0..=255u8 {
            let length = LENGTHS[opcode as usize];
            if length == 0 {
                continue;
            }
            let mut cpu = CPU::new();
            cpu.registers.pc = start;
            cpu.registers.sp = 0xC000;
            cpu.registers.high = 0xD0;
            cpu.registers.low = 0x00;
            cpu.memory.ram[start as usize] = opcode;
            cpu.exec();
            assert_eq!(
                cpu.registers.pc,
                start.wrapping_add(length as u16),
                "opcode {:#04x}",
                opcode
            );
        }
    }
}

#[test]
fn branches_land_on_their_targets() {
    // JR -5 from 7
    let mut cpu = CPU::new();
    cpu.registers.pc = 7;
    cpu.memory.ram[7] = 0x18;
    cpu.memory.ram[8] = 0xFB;
    assert_eq!(cpu.exec(), 3);
    assert_eq!(cpu.registers.pc, 4);

    // JR +127 wraps round the top of the address space
    let mut cpu = CPU::new();
    cpu.registers.pc = 0xFFF0;
    cpu.memory.ram[0xFFF0] = 0x18;
    cpu.memory.ram[0xFFF1] = 0x7F;
    cpu.exec();
    assert_eq!(cpu.registers.pc, 0x0071);

    // JR Z not taken, then taken
    let mut cpu = program(&[0x28, 0x10]);
    assert_eq!(cpu.exec(), 2);
    assert_eq!(cpu.registers.pc, 2);
    let mut cpu = program(&[0x28, 0x10]);
    cpu.registers.flags = ALUFlag::Z.mask();
    assert_eq!(cpu.exec(), 3);
    assert_eq!(cpu.registers.pc, 0x12);

    // JP a16
    let mut cpu = program(&[0xC3, 0x34, 0x12]);
    assert_eq!(cpu.exec(), 4);
    assert_eq!(cpu.registers.pc, 0x1234);

    // JP C, a16 not taken, then taken
    let mut cpu = program(&[0xDA, 0x34, 0x12]);
    assert_eq!(cpu.exec(), 3);
    assert_eq!(cpu.registers.pc, 3);
    let mut cpu = program(&[0xDA, 0x34, 0x12]);
    cpu.registers.flags = ALUFlag::C.mask();
    assert_eq!(cpu.exec(), 4);
    assert_eq!(cpu.registers.pc, 0x1234);

    // JP HL
    let mut cpu = program(&[0xE9]);
    cpu.registers.high = 0x43;
    cpu.registers.low = 0x21;
    assert_eq!(cpu.exec(), 1);
    assert_eq!(cpu.registers.pc, 0x4321);

    // CALL pushes the address after its operand
    let mut cpu = CPU::new();
    cpu.registers.pc = 0x0200;
    cpu.registers.sp = 0xD000;
    cpu.memory.ram[0x0200] = 0xCD;
    cpu.memory.ram[0x0201] = 0x78;
    cpu.memory.ram[0x0202] = 0x56;
    assert_eq!(cpu.exec(), 6);
    assert_eq!(cpu.registers.pc, 0x5678);
    assert_eq!(cpu.registers.sp, 0xCFFE);
    assert_eq!(cpu.memory.ram[0xCFFE], 0x03);
    assert_eq!(cpu.memory.ram[0xCFFF], 0x02);

    // RET goes back to it
    cpu.memory.ram[0x5678] = 0xC9;
    assert_eq!(cpu.exec(), 4);
    assert_eq!(cpu.registers.pc, 0x0203);
    assert_eq!(cpu.registers.sp, 0xD000);

    // CALL NZ not taken
    let mut cpu = program(&[0xC4, 0x78, 0x56]);
    cpu.registers.flags = ALUFlag::Z.mask();
    cpu.registers.sp = 0xD000;
    assert_eq!(cpu.exec(), 3);
    assert_eq!(cpu.registers.pc, 3);
    assert_eq!(cpu.registers.sp, 0xD000);

    // RET NC taken and not taken
    let mut cpu = program(&[0xD0]);
    cpu.registers.sp = 0xD000;
    cpu.memory.ram[0xD000] = 0xCD;
    cpu.memory.ram[0xD001] = 0xAB;
    assert_eq!(cpu.exec(), 5);
    assert_eq!(cpu.registers.pc, 0xABCD);
    assert_eq!(cpu.registers.sp, 0xD002);
    let mut cpu = program(&[0xD0]);
    cpu.registers.flags = ALUFlag::C.mask();
    cpu.registers.sp = 0xD000;
    assert_eq!(cpu.exec(), 2);
    assert_eq!(cpu.registers.pc, 1);
    assert_eq!(cpu.registers.sp, 0xD000);

    // RST pushes the address of the byte after it
    for (opcode, vector) in [
        (0xC7u8, 0x00u16),
        (0xCF, 0x08),
        (0xD7, 0x10),
        (0xDF, 0x18),
        (0xE7, 0x20),
        (0xEF, 0x28),
        (0xF7, 0x30),
        (0xFF, 0x38),
    ] {
        let mut cpu = CPU::new();
        cpu.registers.pc = 0x0150;
        cpu.registers.sp = 0xD000;
        cpu.memory.ram[0x0150] = opcode;
        assert_eq!(cpu.exec(), 4);
        assert_eq!(cpu.registers.pc, vector);
        assert_eq!(cpu.registers.sp, 0xCFFE);
        assert_eq!(cpu.memory.ram[0xCFFE], 0x51);
        assert_eq!(cpu.memory.ram[0xCFFF], 0x01);
    }
}

#[test]
fn register_pairs_are_high_and_low_byte() {
    let mut cpu = CPU::new();
    cpu.registers.acc = 0x12;
    cpu.registers.flags = 0x30;
    cpu.registers.b = 0x34;
    cpu.registers.c = 0x56;
    cpu.registers.d = 0x78;
    cpu.registers.e = 0x9A;
    cpu.registers.high = 0xBC;
    cpu.registers.low = 0xDE;
    assert_eq!(read_pair(&mut cpu, &Reg::A, &Reg::FLAGS), 0x1230);
    assert_eq!(read_pair(&mut cpu, &Reg::B, &Reg::C), 0x3456);
    assert_eq!(read_pair(&mut cpu, &Reg::D, &Reg::E), 0x789A);
    assert_eq!(read_pair(&mut cpu, &Reg::H, &Reg::L), 0xBCDE);

    // a write to one half shows in the pair
    cpu.registers.acc = 0xFF;
    assert_eq!(read_pair(&mut cpu, &Reg::A, &Reg::FLAGS), 0xFF30);

    write_pair(&mut cpu, &Reg::D, &Reg::E, 0xCAFE);
    assert_eq!(cpu.registers.d, 0xCA);
    assert_eq!(cpu.registers.e, 0xFE);

    // of a value written to AF, F keeps the upper nibble only
    write_pair(&mut cpu, &Reg::A, &Reg::FLAGS, 0x12FF);
    assert_eq!(cpu.registers.acc, 0x12);
    assert_eq!(cpu.registers.flags, 0xF0);
}

#[test]
fn push_then_pop_gives_the_value_back() {
    // PUSH BC; POP DE
    let mut cpu = program(&[0xC5, 0xD1]);
    cpu.registers.b = 0x12;
    cpu.registers.c = 0x34;
    cpu.registers.sp = 0xD000;
    assert_eq!(cpu.exec(), 4);
    assert_eq!(cpu.registers.sp, 0xCFFE);
    assert_eq!(cpu.memory.ram[0xCFFE], 0x34);
    assert_eq!(cpu.memory.ram[0xCFFF], 0x12);
    assert_eq!(cpu.exec(), 3);
    assert_eq!(cpu.registers.sp, 0xD000);
    assert_eq!(cpu.registers.d, 0x12);
    assert_eq!(cpu.registers.e, 0x34);
}

#[test]
fn pop_af_clears_the_low_nibble_of_f() {
    // PUSH BC; POP AF
    let mut cpu = program(&[0xC5, 0xF1]);
    cpu.registers.b = 0xAB;
    cpu.registers.c = 0xFF;
    cpu.registers.sp = 0xD000;
    cpu.exec();
    cpu.exec();
    assert_eq!(cpu.registers.acc, 0xAB);
    assert_eq!(cpu.registers.flags, 0xF0);
    assert_eq!(cpu.registers.sp, 0xD000);

    // PUSH AF; POP AF
    let mut cpu = program(&[0xF5, 0xF1]);
    cpu.registers.acc = 0x77;
    cpu.registers.flags = 0xA0;
    cpu.registers.sp = 0xD000;
    cpu.exec();
    cpu.registers.acc = 0;
    cpu.registers.flags = 0;
    cpu.exec();
    assert_eq!(cpu.registers.acc, 0x77);
    assert_eq!(cpu.registers.flags, 0xA0);
}

#[test]
fn pc_and_sp_wrap() {
    // NOP at the top of memory
    let mut cpu = CPU::new();
    cpu.registers.pc = 0xFFFF;
    cpu.memory.ram[0xFFFF] = 0x00;
    cpu.exec();
    assert_eq!(cpu.registers.pc, 0x0000);

    // an operand that lies across the top of memory
    let mut cpu = CPU::new();
    cpu.registers.pc = 0xFFFE;
    cpu.memory.ram[0xFFFE] = 0x01;
    cpu.memory.ram[0xFFFF] = 0x34;
    cpu.memory.ram[0x0000] = 0x12;
    cpu.exec();
    assert_eq!(cpu.registers.pc, 0x0001);
    assert_eq!(cpu.registers.b, 0x12);
    assert_eq!(cpu.registers.c, 0x34);

    // INC SP and DEC SP
    let mut cpu = program(&[0x33, 0x3B, 0x3B]);
    cpu.registers.sp = 0xFFFF;
    cpu.exec();
    assert_eq!(cpu.registers.sp, 0x0000);
    cpu.exec();
    assert_eq!(cpu.registers.sp, 0xFFFF);

    // PUSH with SP at 1 stores at 0xFFFF and 0x0000
    let mut cpu = CPU::new();
    cpu.registers.pc = 0x0100;
    cpu.registers.sp = 0x0001;
    cpu.registers.b = 0x12;
    cpu.registers.c = 0x34;
    cpu.memory.ram[0x0100] = 0xC5;
    cpu.memory.ram[0x0101] = 0xC1;
    cpu.exec();
    assert_eq!(cpu.registers.sp, 0xFFFF);
    assert_eq!(cpu.memory.ram[0xFFFF], 0x34);
    assert_eq!(cpu.memory.ram[0x0000], 0x12);
    cpu.registers.b = 0;
    cpu.registers.c = 0;
    cpu.exec();
    assert_eq!(cpu.registers.sp, 0x0001);
    assert_eq!(cpu.registers.b, 0x12);
    assert_eq!(cpu.registers.c, 0x34);

    // LD (HL+), A and LD (HL-), A
    let mut cpu = program(&[0x22]);
    cpu.registers.high = 0xFF;
    cpu.registers.low = 0xFF;
    cpu.exec();
    assert_eq!((cpu.registers.high, cpu.registers.low), (0x00, 0x00));
    let mut cpu = program(&[0x32]);
    cpu.registers.acc = 0x32;
    cpu.registers.high = 0x00;
    cpu.registers.low = 0x00;
    cpu.exec();
    assert_eq!((cpu.registers.high, cpu.registers.low), (0xFF, 0xFF));
}

#[test]
fn halt_keeps_pc_until_an_interrupt_is_pending() {
    let mut cpu = program(&[0x76, 0x04]);
    cpu.registers.b = 0;
    assert_eq!(cpu.exec(), 1);
    assert!(cpu.halt);
    assert_eq!(cpu.registers.pc, 1);
    for _ in 0..3 {
        let cycles = cpu.exec();
        assert!(cycles >= 1);
        assert!(cpu.halt);
        assert_eq!(cpu.registers.pc, 1);
        assert_eq!(cpu.registers.b, 0);
    }
    // the timer interrupt is requested but not enabled
    cpu.memory.write_byte(0xFF0F, 0x04);
    cpu.memory.write_byte(0xFFFF, 0x01);
    cpu.exec();
    assert!(cpu.halt);
    assert_eq!(cpu.registers.pc, 1);
    // now it is enabled too
    cpu.memory.write_byte(0xFFFF, 0x04);
    assert_eq!(cpu.exec(), 1);
    assert!(!cpu.halt);
    assert_eq!(cpu.registers.pc, 2);
    assert_eq!(cpu.registers.b, 1);
}

#[test]
fn stop_takes_two_bytes_and_sleeps() {
    let mut cpu = program(&[0x10, 0x00, 0x04]);
    assert_eq!(cpu.exec(), 4);
    assert!(cpu.stop);
    assert_eq!(cpu.registers.pc, 2);
    assert_eq!(cpu.exec(), 1);
    assert_eq!(cpu.registers.pc, 2);
    cpu.memory.write_byte(0xFF0F, 0x10);
    cpu.memory.write_byte(0xFFFF, 0x10);
    cpu.exec();
    assert!(!cpu.stop);
    assert_eq!(cpu.registers.pc, 3);
}

#[test]
fn ei_and_di_take_effect_after_the_next_instruction() {
    // DI; NOP; EI; NOP; NOP
    let mut cpu = program(&[0xF3, 0x00, 0xFB, 0x00, 0x00]);
    cpu.ime = true;
    cpu.ei = false;
    cpu.di = false;
    assert_eq!(cpu.exec(), 1);
    assert!(cpu.di);
    assert!(cpu.ime);
    cpu.exec();
    assert!(!cpu.di);
    assert!(!cpu.ime);
    assert_eq!(cpu.exec(), 1);
    assert!(cpu.ei);
    assert!(!cpu.ime);
    cpu.exec();
    assert!(!cpu.ei);
    assert!(cpu.ime);
    cpu.exec();
    assert!(cpu.ime);
}

#[test]
fn reti_sets_ime_at_once() {
    let mut cpu = program(&[0xD9]);
    cpu.ime = false;
    cpu.ei = false;
    cpu.registers.sp = 0xD000;
    cpu.memory.ram[0xD000] = 0x50;
    cpu.memory.ram[0xD001] = 0x01;
    assert_eq!(cpu.exec(), 4);
    assert!(cpu.ime);
    assert_eq!(cpu.registers.pc, 0x0150);
    assert_eq!(cpu.registers.sp, 0xD002);
}

#[test]
fn undefined_opcodes_do_nothing_for_one_cycle() {
    for opcode in [
        0xD3u8, 0xDB, 0xDD, 0xE3, 0xE4, 0xEB, 0xEC, 0xED, 0xF4, 0xFC, 0xFD,
    ] {
        let mut cpu = program(&[opcode]);
        let registers = cpu.registers;
        let ram = cpu.memory.ram;
        assert_eq!(cpu.exec(), 1);
        let mut expected = registers;
        expected.pc = 1;
        assert!(same_registers(&expected, &cpu.registers));
        assert!(cpu.memory.ram == ram);
    }
}

#[test]
fn cycles_of_loads_and_arithmetic() {
    let cases: [(&[u8], u8); 22] = [
        (&[0x06, 0x00], 2),       // LD B, n8
        (&[0x36, 0x00], 3),       // LD (HL), n8
        (&[0x41], 1),             // LD B, C
        (&[0x46], 2),             // LD B, (HL)
        (&[0x70], 2),             // LD (HL), B
        (&[0x03], 2),             // INC BC
        (&[0x34], 3),             // INC (HL)
        (&[0x35], 3),             // DEC (HL)
        (&[0x08, 0x00, 0xC0], 5), // LD (a16), SP
        (&[0x09], 2),             // ADD HL, BC
        (&[0x80], 1),             // ADD A, B
        (&[0x86], 2),             // ADD A, (HL)
        (&[0xA6], 2),             // AND A, (HL)
        (&[0xAE], 2),             // XOR A, (HL)
        (&[0xB6], 2),             // OR A, (HL)
        (&[0xC6, 0x01], 2),       // ADD A, n8
        (&[0xEE, 0x01], 2),       // XOR A, n8
        (&[0xFE, 0x01], 2),       // CP A, n8
        (&[0xE0, 0x80], 3),       // LDH (a8), A
        (&[0xE2], 2),             // LD (C), A
        (&[0xEA, 0x00, 0xC0], 4), // LD (a16), A
        (&[0xF9], 2),             // LD SP, HL
    ];
    for (bytes, cycles) in cases {
        let mut cpu = program(bytes);
        cpu.registers.high = 0xC0;
        cpu.registers.low = 0x00;
        assert_eq!(cpu.exec(), cycles, "opcode {:#04x}", bytes[0]);
    }
}

#[test]
fn cycles_of_prefixed_instructions() {
    for opcode in 0..=255u8 {
        let mut cpu = program(&[0xCB, opcode]);
        cpu.registers.high = 0xC0;
        cpu.registers.low = 0x00;
        let on_memory = opcode & 0x07 == 0x06;
        let bit_test = (0x40..0x80).contains(&opcode);
        let expected = if !on_memory {
            3
        } else if bit_test {
            4
        } else {
            5
        };
        assert_eq!(cpu.exec(), expected, "opcode 0xCB {:#04x}", opcode);
        assert_eq!(cpu.registers.pc, 2);
    }
}

#[test]
fn add_hl_keeps_z_and_carries_out_of_bits_11_and_15() {
    let mut cpu = program(&[0x09]);
    cpu.registers.flags = ALUFlag::Z.mask() | ALUFlag::N.mask();
    cpu.registers.high = 0x0F;
    cpu.registers.low = 0xFF;
    cpu.registers.b = 0x00;
    cpu.registers.c = 0x01;
    cpu.exec();
    assert_eq!((cpu.registers.high, cpu.registers.low), (0x10, 0x00));
    assert_eq!(
        cpu.registers.flags,
        ALUFlag::Z.mask() | ALUFlag::H.mask()
    );

    let mut cpu = program(&[0x09]);
    cpu.registers.high = 0xF0;
    cpu.registers.low = 0x00;
    cpu.registers.b = 0x10;
    cpu.registers.c = 0x00;
    cpu.exec();
    assert_eq!((cpu.registers.high, cpu.registers.low), (0x00, 0x00));
    assert_eq!(cpu.registers.flags, ALUFlag::C.mask());
}

#[test]
fn adc_and_sbc_use_the_carry() {
    // 0x0F + 0x00 + 1: half carry out of the carry alone
    let mut cpu = program(&[0x88]);
    cpu.registers.acc = 0x0F;
    cpu.registers.b = 0x00;
    cpu.registers.flags = ALUFlag::C.mask();
    cpu.exec();
    assert_eq!(cpu.registers.acc, 0x10);
    assert_eq!(cpu.registers.flags, ALUFlag::H.mask());

    // 0xFF + 0x00 + 1 = 0x100
    let mut cpu = program(&[0x88]);
    cpu.registers.acc = 0xFF;
    cpu.registers.b = 0x00;
    cpu.registers.flags = ALUFlag::C.mask();
    cpu.exec();
    assert_eq!(cpu.registers.acc, 0x00);
    assert_eq!(
        cpu.registers.flags,
        ALUFlag::Z.mask() | ALUFlag::H.mask() | ALUFlag::C.mask()
    );

    // 0x10 - 0x0F - 1 = 0x00 with a half borrow
    let mut cpu = program(&[0x98]);
    cpu.registers.acc = 0x10;
    cpu.registers.b = 0x0F;
    cpu.registers.flags = ALUFlag::C.mask();
    cpu.exec();
    assert_eq!(cpu.registers.acc, 0x00);
    assert_eq!(
        cpu.registers.flags,
        ALUFlag::Z.mask() | ALUFlag::N.mask() | ALUFlag::H.mask()
    );

    // 0x00 - 0xFF - 1 = 0x00 with both borrows
    let mut cpu = program(&[0x98]);
    cpu.registers.acc = 0x00;
    cpu.registers.b = 0xFF;
    cpu.registers.flags = ALUFlag::C.mask();
    cpu.exec();
    assert_eq!(cpu.registers.acc, 0x00);
    assert_eq!(
        cpu.registers.flags,
        ALUFlag::Z.mask() | ALUFlag::N.mask() | ALUFlag::H.mask() | ALUFlag::C.mask()
    );
}

#[test]
fn sub_half_borrow_is_on_the_low_nibble() {
    // 0x10 - 0x01: borrow from bit 4
    let mut cpu = program(&[0x90]);
    cpu.registers.acc = 0x10;
    cpu.registers.b = 0x01;
    cpu.exec();
    assert_eq!(cpu.registers.acc, 0x0F);
    assert_eq!(
        cpu.registers.flags,
        ALUFlag::N.mask() | ALUFlag::H.mask()
    );

    // 0x20 - 0x10: no borrow
    let mut cpu = program(&[0x90]);
    cpu.registers.acc = 0x20;
    cpu.registers.b = 0x10;
    cpu.exec();
    assert_eq!(cpu.registers.acc, 0x10);
    assert_eq!(cpu.registers.flags, ALUFlag::N.mask());

    // CP keeps A
    let mut cpu = program(&[0xB8]);
    cpu.registers.acc = 0x01;
    cpu.registers.b = 0x02;
    cpu.exec();
    assert_eq!(cpu.registers.acc, 0x01);
    assert_eq!(
        cpu.registers.flags,
        ALUFlag::N.mask() | ALUFlag::H.mask() | ALUFlag::C.mask()
    );
}

#[test]
fn cpl_scf_ccf() {
    let mut cpu = program(&[0x2F, 0x37, 0x3F, 0x3F]);
    cpu.registers.acc = 0x35;
    cpu.registers.flags = ALUFlag::Z.mask();
    assert_eq!(cpu.exec(), 1);
    assert_eq!(cpu.registers.acc, 0xCA);
    assert_eq!(
        cpu.registers.flags,
        ALUFlag::Z.mask() | ALUFlag::N.mask() | ALUFlag::H.mask()
    );
    assert_eq!(cpu.exec(), 1);
    assert_eq!(
        cpu.registers.flags,
        ALUFlag::Z.mask() | ALUFlag::C.mask()
    );
    assert_eq!(cpu.exec(), 1);
    assert_eq!(cpu.registers.flags, ALUFlag::Z.mask());
    cpu.registers.flags = ALUFlag::N.mask() | ALUFlag::H.mask();
    cpu.exec();
    assert_eq!(cpu.registers.flags, ALUFlag::C.mask());
}

#[test]
fn set_flag_leaves_the_other_flags() {
    let flags = [ALUFlag::Z, ALUFlag::N, ALUFlag::H, ALUFlag::C];
    for start in [0x00u8, 0xF0, 0x50] {
        for flag in flags {
            for cond in [false, true] {
                let mut cpu = CPU::new();
                cpu.registers.flags = start;
                cpu.set_flag(flag, cond);
                assert_eq!(cpu.check_flag(flag), cond);
                assert_eq!(
                    cpu.registers.flags & !flag.mask(),
                    start & !flag.mask()
                );
            }
        }
    }
    assert_eq!(ALUFlag::C.mask(), 0x10);
    assert_eq!(ALUFlag::H.mask(), 0x20);
    assert_eq!(ALUFlag::N.mask(), 0x40);
    assert_eq!(ALUFlag::Z.mask(), 0x80);
}

#[test]
fn high_memory_loads() {
    // LDH (0x80), A; LD (C), A; LDH A, (0x81); LD A, (C)
    let mut cpu = program(&[0xE0, 0x80, 0xE2, 0xF0, 0x81, 0xF2]);
    cpu.registers.acc = 0x5A;
    cpu.registers.c = 0x81;
    cpu.exec();
    assert_eq!(cpu.memory.ram[0xFF80], 0x5A);
    cpu.exec();
    assert_eq!(cpu.memory.ram[0xFF81], 0x5A);
    cpu.memory.ram[0xFF81] = 0xA5;
    cpu.registers.acc = 0;
    assert_eq!(cpu.exec(), 3);
    assert_eq!(cpu.registers.acc, 0xA5);
    cpu.registers.acc = 0;
    assert_eq!(cpu.exec(), 2);
    assert_eq!(cpu.registers.acc, 0xA5);
}

#[test]
fn get_instr_and_get_word_instr_move_pc() {
    let mut cpu = program(&[0x11, 0x22, 0x33]);
    assert_eq!(cpu.get_instr(), 0x11);
    assert_eq!(cpu.registers.pc, 1);
    assert_eq!(cpu.get_word_instr(), 0x3322);
    assert_eq!(cpu.registers.pc, 3);
    cpu.registers.pc = 0xFFFF;
    cpu.memory.ram[0xFFFF] = 0x44;
    assert_eq!(cpu.get_word_instr(), 0x1144);
    assert_eq!(cpu.registers.pc, 1);
}

#[test]
fn defined_opcodes() {
    let undefined = [
        0xD3u8, 0xDB, 0xDD, 0xE3, 0xE4, 0xEB, 0xEC, 0xED, 0xF4, 0xFC, 0xFD,
    ];
    for opcode in 0..=255u8 {
        assert_eq!(
            they::cpu::instructions::defined(opcode),
            !undefined.contains(&opcode)
        );
    }
}
