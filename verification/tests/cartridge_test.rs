use they::cartridge::{Cartridge, HeaderError, Model};

/// An image of 64 KiB with the header of the `cpu_instrs` test ROM.
fn cpu_instrs_image() -> Vec<u8> {
    let mut rom = vec![0u8; 1 << 16];
    rom[0x134..0x13E].copy_from_slice(b"CPU_INSTRS");
    rom[0x147] = 0x01;
    rom[0x148] = 0x01;
    rom[0x149] = 0x00;
    rom
}

fn setup() -> Cartridge {
    Cartridge::new(cpu_instrs_image()).unwrap()
}

#[test]
fn test_initialization() {
    let c = setup();
    assert_eq!(c.title.as_str(), "CPU_INSTRS");
    assert_eq!(c.ram_size, Some(0));
    assert_eq!(c.rom_size, 1 << 16);
}

#[test]
fn header_fields() {
    let mut rom = cpu_instrs_image();
    rom[0x147] = 0x13;
    rom[0x148] = 0x00;
    rom[0x149] = 0x03;
    let c = Cartridge::new(rom.clone()).unwrap();
    assert_eq!(c.model, Model::MBC3RAMBATTERY);
    assert_eq!(c.rom_size, 0x8000);
    assert_eq!(c.ram_size, Some(0x8000));
    assert_eq!(c.rom, rom);
    assert!(c.ram.is_empty());
    assert!(c.mbc.is_empty());
}

#[test]
fn title_ends_at_its_padding() {
    let mut rom = cpu_instrs_image();
    rom[0x134..0x13E].copy_from_slice(b"TETRIS\0\0\0\0");
    assert_eq!(Cartridge::new(rom.clone()).unwrap().title.as_str(), "TETRIS");
    // what follows the first NUL is padding, whatever it holds
    rom[0x134..0x13E].copy_from_slice(b"AB\0CD\xFF\0\0\0\0");
    assert_eq!(Cartridge::new(rom.clone()).unwrap().title.as_str(), "AB");
    rom[0x134..0x13E].copy_from_slice(&[0; 10]);
    assert_eq!(Cartridge::new(rom.clone()).unwrap().title.as_str(), "");
    // the title field ends at 0x13D
    rom[0x134..0x13E].copy_from_slice(b"0123456789");
    rom[0x13E] = b'X';
    assert_eq!(Cartridge::new(rom).unwrap().title.as_str(), "0123456789");
}

#[test]
fn rom_and_ram_sizes() {
    for code in 0..=16u8 {
        let mut rom = cpu_instrs_image();
        rom[0x148] = code;
        assert_eq!(Cartridge::new(rom).unwrap().rom_size, 0x8000u32 << code);
    }
    let sizes = [
        (0u8, Some(0u32)),
        (1, None),
        (2, Some(8 * 1024)),
        (3, Some(32 * 1024)),
        (4, Some(128 * 1024)),
        (5, Some(64 * 1024)),
        (6, None),
        (0xFF, None),
    ];
    for (code, size) in sizes {
        let mut rom = cpu_instrs_image();
        rom[0x149] = code;
        assert_eq!(Cartridge::new(rom).unwrap().ram_size, size);
    }
}

#[test]
fn images_that_are_no_cartridge() {
    assert_eq!(Cartridge::new(vec![]).unwrap_err(), HeaderError::TooShort);
    assert_eq!(
        Cartridge::new(vec![0; 0x14F]).unwrap_err(),
        HeaderError::TooShort
    );
    assert!(Cartridge::new(vec![0; 0x150]).is_ok());

    let mut rom = cpu_instrs_image();
    rom[0x136] = 0x80;
    assert_eq!(Cartridge::new(rom).unwrap_err(), HeaderError::TitleNotAscii);

    let mut rom = cpu_instrs_image();
    rom[0x148] = 17;
    assert_eq!(
        Cartridge::new(rom).unwrap_err(),
        HeaderError::RomSizeOutOfRange
    );

    // a title that is not ASCII is reported before a ROM size that is too large
    let mut rom = cpu_instrs_image();
    rom[0x13D] = 0xC3;
    rom[0x148] = 0xFF;
    assert_eq!(Cartridge::new(rom).unwrap_err(), HeaderError::TitleNotAscii);
}

#[test]
fn models_by_code() {
    let known = [
        (0x00u8, Model::ROM),
        (0x01, Model::MBC1),
        (0x02, Model::MBC1RAM),
        (0x03, Model::MBC1RAMBATTERY),
        (0x05, Model::MBC2),
        (0x06, Model::MBC2BATTERY),
        (0x08, Model::ROMRAM),
        (0x09, Model::ROMRAMBATTERY),
        (0x0B, Model::MMM01),
        (0x0C, Model::MMM01RAM),
        (0x0D, Model::MMM01RAMBATTERY),
        (0x0F, Model::MBC3TIMERBATTERY),
        (0x10, Model::MBC3TIMERRAMBATTERY),
        (0x11, Model::MBC3),
        (0x12, Model::MBC3RAM),
        (0x13, Model::MBC3RAMBATTERY),
        (0x19, Model::MBC5),
        (0x1A, Model::MBC5RAM),
        (0x1B, Model::MBC5RAMBATTERY),
        (0x1C, Model::MBC5RUMBLE),
        (0x1D, Model::MBC5RUMBLERAM),
        (0x1E, Model::MBC5RUMBLERAMBATTERY),
        (0x20, Model::MBC6),
        (0x22, Model::MBC7SENSORRUMBLERAMBATTERY),
        (0xFC, Model::POCKET),
        (0xFD, Model::BANDAI),
        (0xFE, Model::HuC3),
        (0xFF, Model::HuC1RAMBATTERY),
    ];
    for code in 0..=255u8 {
        let expected = known
            .iter()
            .find(|(c, _)| *c == code)
            .map(|(_, m)| *m)
            .unwrap_or(Model::NA);
        assert_eq!(Model::from(code), expected);
    }
}
