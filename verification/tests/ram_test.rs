use they::cpu::CPU;
use they::ram::{Memory, MemoryRegister};

#[test]
fn power_up_values_of_the_hardware_registers() {
    let mut memory = Memory::new();
    let expected: [(u16, u8); 23] = [
        (0xFF10, 0x80),
        (0xFF11, 0xBF),
        (0xFF12, 0xF3),
        (0xFF14, 0xBF),
        (0xFF16, 0x3F),
        (0xFF19, 0xBF),
        (0xFF1A, 0x7F),
        (0xFF1B, 0xFF),
        (0xFF1C, 0x9F),
        (0xFF1E, 0xBF),
        (0xFF20, 0xFF),
        (0xFF23, 0xBF),
        (0xFF24, 0x77),
        (0xFF25, 0xF3),
        (0xFF26, 0xF1),
        (0xFF40, 0x91),
        (0xFF47, 0xFC),
        (0xFF48, 0xFF),
        (0xFF49, 0xFF),
        (0xFF00, 0xCF),
        (0xFF04, 0x18),
        (0xFF07, 0xF8),
        (0xFF0F, 0xE1),
    ];
    for addr in 0..=0xFFFFu16 {
        let value = expected
            .iter()
            .find(|(a, _)| *a == addr)
            .map(|(_, v)| *v)
            .unwrap_or(0);
        assert_eq!(memory.read_byte(addr), value, "address {:#06x}", addr);
    }
    assert!(memory.serial_drain().is_empty());
}

#[test]
fn registers_are_read_and_written_by_name() {
    let mut memory = Memory::new();
    assert_eq!(memory.register_read(MemoryRegister::LCDC), 0x91);
    assert_eq!(memory.register_read(MemoryRegister::BGP), 0xFC);
    assert_eq!(memory.register_read(MemoryRegister::IF), 0xE1);
    assert_eq!(memory.register_read(MemoryRegister::IE), 0x00);
    memory.register_write(MemoryRegister::SCY, 0x42);
    assert_eq!(memory.read_byte(0xFF42), 0x42);
    assert_eq!(memory.register_read(MemoryRegister::SCY), 0x42);
    assert_eq!(MemoryRegister::JOYP.addr(), 0xFF00);
    assert_eq!(MemoryRegister::SB.addr(), 0xFF01);
    assert_eq!(MemoryRegister::NR33.addr(), 0xFF1D);
    assert_eq!(MemoryRegister::WaveRAMStart.addr(), 0xFF30);
    assert_eq!(MemoryRegister::WX.addr(), 0xFF4B);
    assert_eq!(MemoryRegister::PCM34.addr(), 0xFF77);
    assert_eq!(MemoryRegister::IE.addr(), 0xFFFF);
}

#[test]
fn words_are_little_endian() {
    let mut memory = Memory::new();
    memory.write_word(0xC000, 0x1234);
    assert_eq!(memory.read_byte(0xC000), 0x34);
    assert_eq!(memory.read_byte(0xC001), 0x12);
    memory.write_byte(0xC002, 0xCD);
    memory.write_byte(0xC003, 0xAB);
    assert_eq!(memory.read_word(0xC002), 0xABCD);
}

#[test]
fn a_word_reads_back_as_written() {
    for addr in [0x0000u16, 0x0001, 0x7FFF, 0x8000, 0xC000, 0xFF00, 0xFFFE, 0xFFFF] {
        for value in [0x0000u16, 0x0001, 0x00FF, 0x0100, 0x1234, 0x8000, 0xFFFF] {
            let mut memory = Memory::new();
            memory.write_word(addr, value);
            assert_eq!(memory.read_word(addr), value);
        }
    }
}

#[test]
fn a_word_at_the_top_wraps_to_the_bottom() {
    let mut memory = Memory::new();
    memory.write_word(0xFFFF, 0xBEEF);
    assert_eq!(memory.read_byte(0xFFFF), 0xEF);
    assert_eq!(memory.read_byte(0x0000), 0xBE);
}

#[test]
fn writes_to_rom_are_honoured() {
    let mut memory = Memory::new();
    memory.write_byte(0x0000, 0x11);
    memory.write_byte(0x7FFF, 0x22);
    assert_eq!(memory.read_byte(0x0000), 0x11);
    assert_eq!(memory.read_byte(0x7FFF), 0x22);
}

#[test]
fn serial_buffer_holds_the_writes_to_0xff01_in_order() {
    let mut memory = Memory::new();
    memory.write_byte(0xFF00, b'x');
    memory.write_byte(0xFF01, b'a');
    memory.write_byte(0xFF02, b'y');
    memory.write_byte(0xFF01, b'b');
    memory.write_byte(0xFF01, b'b');
    memory.register_write(MemoryRegister::SB, b'c');
    // the low byte of a word written to 0xFF01, and the high byte of one
    // written to 0xFF00
    memory.write_word(0xFF01, 0x5A64);
    memory.write_word(0xFF00, 0x6500);
    assert_eq!(memory.read_byte(0xFF01), b'e');
    assert_eq!(memory.serial_drain(), b"abbcde".to_vec());
    assert!(memory.serial_drain().is_empty());
    memory.write_byte(0xFF01, b'f');
    assert_eq!(memory.serial_drain(), b"f".to_vec());
}

#[test]
fn a_program_echoes_to_the_serial_buffer() {
    // for each letter: LD A, n8; LDH (0x01), A
    let text = b"cpu_instrs";
    let mut cpu = CPU::new();
    cpu.registers.pc = 0x0150;
    let mut addr = 0x0150;
    for letter in text {
        for byte in [0x3E, *letter, 0xE0, 0x01] {
            cpu.memory.ram[addr] = byte;
            addr += 1;
        }
    }
    let mut cycles = 0u32;
    for _ in 0..2 * text.len() {
        cycles += cpu.exec() as u32;
    }
    assert_eq!(cycles, 5 * text.len() as u32);
    assert_eq!(cpu.memory.serial_drain(), text.to_vec());
}
