use they::cpu::CPU;
use they::ppu::{Display, ObjectAttributeMap, Pixel, Register, Sprite, Tile, LCDC};

fn setup() -> (CPU, Display) {
    (CPU::new(), Display::new(false))
}

#[test]
fn load_pixel_test() {
    let (mut cpu, mut disp) = setup();
    disp.load_tiles(&mut cpu, 0);
    let white_tile = Tile::new(Pixel::White);
    for tile in &disp.tiles[0..128] {
        assert_eq!(tile, &white_tile);
    }
}

#[test]
fn set_lcdc_test() {
    let (mut cpu, mut disp) = setup();
    let flags = vec![
        LCDC::WindowTileMapArea,
        LCDC::WindowEnabled,
        LCDC::WindowDataArea,
        LCDC::PPUEnabled,
        LCDC::ObjSize,
        LCDC::BgTileMapArea,
        LCDC::BgWindowPriority,
        LCDC::ObjEnabled,
    ];
    disp.set_lcdc(&mut cpu, flags.clone(), true);
    assert!(disp.check_lcdc(&mut cpu, flags.clone()));
    assert_eq!(cpu.memory.read_byte(Register::LCDC.addr()), 0xFF);
    disp.set_lcdc(&mut cpu, flags, false);
    assert_eq!(cpu.memory.read_byte(Register::LCDC.addr()), 0);
}

#[test]
fn oam_test() {
    let oam = ObjectAttributeMap::new(0xFFFFFFFF);
    assert_eq!(oam.cgb_palette, 7);
    assert_eq!(oam.x, 0xFF);
    assert_eq!(oam.y, 0xFF);
    assert_eq!(oam.tile_idx, 0xFF);
    assert!(oam.bank);
    assert!(oam.flip_x);
    assert!(oam.flip_y);
    assert!(oam.priority);
    assert!(oam.dmg_palette);
}

#[test]
fn blank_display() {
    for sprite_size in [false, true] {
        let disp = Display::new(sprite_size);
        let black = Tile::new(Pixel::Black);
        assert!(disp.tiles.iter().all(|t| *t == black));
        assert!(disp.tile_map.iter().all(|m| m.iter().all(|b| *b == 0)));
        assert_eq!(disp.sprites.len(), 40);
        for sprite in disp.sprites.iter() {
            match sprite {
                Sprite::Big(rows) => {
                    assert!(sprite_size);
                    assert!(rows.iter().all(|r| r.iter().all(|b| *b == 0)));
                }
                Sprite::Little(rows) => {
                    assert!(!sprite_size);
                    assert!(rows.iter().all(|r| r.iter().all(|b| *b == 0)));
                }
            }
        }
        assert_eq!(disp.view_port, (0, 0));
        assert_eq!(
            (disp.scy, disp.scx, disp.ly, disp.lyx, disp.wy, disp.wx, disp.stat),
            (0, 0, 0, 0, 0, 0, 0)
        );
    }
}

#[test]
fn pixel_colours() {
    assert_eq!(Pixel::White.rgb(), 0xFFFFFF);
    assert_eq!(Pixel::Grey.rgb(), 0x808080);
    assert_eq!(Pixel::DarkGrey.rgb(), 0x696969);
    assert_eq!(Pixel::Black.rgb(), 0x000000);
    assert_eq!(Pixel::decode(false, false), Pixel::White);
    assert_eq!(Pixel::decode(false, true), Pixel::Grey);
    assert_eq!(Pixel::decode(true, false), Pixel::DarkGrey);
    assert_eq!(Pixel::decode(true, true), Pixel::Black);
}

#[test]
fn tile_of_zeros_is_white() {
    let (mut cpu, mut disp) = setup();
    for addr in 0x8000..0x8010 {
        cpu.memory.ram[addr] = 0;
    }
    disp.load_tiles(&mut cpu, 0);
    for row in disp.tiles[0].pixels.iter() {
        for pixel in row.iter() {
            assert_eq!(*pixel, Pixel::White);
        }
    }
}

#[test]
fn tile_rows_pair_the_two_bitplanes() {
    let (b, d, g, w) = (Pixel::Black, Pixel::DarkGrey, Pixel::Grey, Pixel::White);
    let (mut cpu, mut disp) = setup();
    // tile 1 of block 0: row 0 from the bytes 0x3C (low) and 0x7E (high),
    // row 7 from 0xF0 (low) and 0xCC (high)
    cpu.memory.ram[0x8010] = 0x3C;
    cpu.memory.ram[0x8011] = 0x7E;
    cpu.memory.ram[0x801E] = 0xF0;
    cpu.memory.ram[0x801F] = 0xCC;
    let before = cpu.memory.ram;
    disp.load_tiles(&mut cpu, 0);
    assert_eq!(disp.tiles[1].pixels[0], [w, d, b, b, b, b, d, w]);
    assert_eq!(disp.tiles[1].pixels[7], [b, b, g, g, d, d, w, w]);
    assert_eq!(disp.tiles[1].pixels[1], [w; 8]);
    assert_eq!(disp.tiles[0], Tile::new(w));
    // the tiles after the block stay as they were
    assert_eq!(disp.tiles[128], Tile::new(b));
    assert_eq!(disp.tiles[383], Tile::new(b));
    assert!(cpu.memory.ram == before);
}

#[test]
fn blocks_of_tile_data() {
    let (mut cpu, mut disp) = setup();
    cpu.memory.ram[0x8000] = 0xFF;
    cpu.memory.ram[0x8800] = 0xFF;
    cpu.memory.ram[0x8801] = 0xFF;
    cpu.memory.ram[0x9001] = 0xFF;
    cpu.memory.ram[0x97F0] = 0x80;

    disp.load_tiles(&mut cpu, 1);
    assert_eq!(disp.tiles[0].pixels[0], [Pixel::Black; 8]);
    assert_eq!(disp.tiles[127], Tile::new(Pixel::White));
    assert_eq!(disp.tiles[128], Tile::new(Pixel::Black));

    disp.load_tiles(&mut cpu, 2);
    assert_eq!(disp.tiles[0].pixels[0], [Pixel::DarkGrey; 8]);
    assert_eq!(disp.tiles[127].pixels[0][0], Pixel::Grey);
    assert_eq!(disp.tiles[127].pixels[0][1], Pixel::White);
    assert_eq!(disp.tiles[128], Tile::new(Pixel::Black));

    // any other number loads the three blocks one after the other
    disp.load_tiles(&mut cpu, 3);
    assert_eq!(disp.tiles[0].pixels[0], [Pixel::Grey; 8]);
    assert_eq!(disp.tiles[128].pixels[0], [Pixel::Black; 8]);
    assert_eq!(disp.tiles[256].pixels[0], [Pixel::DarkGrey; 8]);
    assert_eq!(disp.tiles[383].pixels[0][0], Pixel::Grey);
    assert_eq!(disp.tiles[383].pixels[1], [Pixel::White; 8]);
}

#[test]
fn tile_maps_are_copied_from_video_memory() {
    let (mut cpu, mut disp) = setup();
    cpu.memory.ram[0x9800] = 1;
    cpu.memory.ram[0x9BFF] = 2;
    cpu.memory.ram[0x9C00] = 3;
    cpu.memory.ram[0x9FFF] = 4;
    cpu.memory.ram[0x97FF] = 9;
    cpu.memory.ram[0xA000] = 9;
    disp.load_tile_map(&mut cpu);
    assert_eq!(disp.tile_map[0][0], 1);
    assert_eq!(disp.tile_map[0][1023], 2);
    assert_eq!(disp.tile_map[1][0], 3);
    assert_eq!(disp.tile_map[1][1023], 4);
    assert_eq!(disp.tile_map[0].iter().map(|b| *b as u32).sum::<u32>(), 3);
    assert_eq!(disp.tile_map[1].iter().map(|b| *b as u32).sum::<u32>(), 7);
    assert_eq!(disp.tiles[0], Tile::new(Pixel::Black));
}

#[test]
fn lcdc_switches_one_by_one() {
    let (mut cpu, mut disp) = setup();
    // 0x91 at power-up: the PPU, the tile data area and the background
    assert!(disp.check_lcdc(&mut cpu, vec![LCDC::PPUEnabled]));
    assert!(disp.check_lcdc(
        &mut cpu,
        vec![LCDC::PPUEnabled, LCDC::WindowDataArea, LCDC::BgWindowPriority]
    ));
    assert!(!disp.check_lcdc(&mut cpu, vec![LCDC::ObjSize]));
    assert!(!disp.check_lcdc(&mut cpu, vec![LCDC::PPUEnabled, LCDC::ObjSize]));
    assert!(disp.check_lcdc(&mut cpu, vec![]));

    assert_eq!(disp.set_lcdc(&mut cpu, vec![LCDC::ObjSize], true), 0x95);
    assert_eq!(cpu.memory.read_byte(0xFF40), 0x95);
    assert!(disp.check_lcdc(&mut cpu, vec![LCDC::ObjSize]));
    assert_eq!(
        disp.set_lcdc(&mut cpu, vec![LCDC::PPUEnabled, LCDC::ObjEnabled], false),
        0x15
    );
    assert_eq!(cpu.memory.read_byte(0xFF40), 0x15);
    assert_eq!(disp.set_lcdc(&mut cpu, vec![], true), 0x15);
    assert_eq!(disp.set_lcdc(&mut cpu, vec![], false), 0x15);

    let masks = [
        (LCDC::PPUEnabled, 0x80),
        (LCDC::WindowTileMapArea, 0x40),
        (LCDC::WindowEnabled, 0x20),
        (LCDC::WindowDataArea, 0x10),
        (LCDC::BgTileMapArea, 0x08),
        (LCDC::ObjSize, 0x04),
        (LCDC::ObjEnabled, 0x02),
        (LCDC::BgWindowPriority, 0x01),
    ];
    for (flag, mask) in masks {
        assert_eq!(flag.mask(), mask);
    }
}

#[test]
fn display_register_addresses() {
    assert_eq!(Register::LCDC.addr(), 0xFF40);
    assert_eq!(Register::STAT.addr(), 0xFF41);
    assert_eq!(Register::SCY.addr(), 0xFF42);
    assert_eq!(Register::SCX.addr(), 0xFF43);
    assert_eq!(Register::LY.addr(), 0xFF44);
    assert_eq!(Register::LYC.addr(), 0xFF45);
    assert_eq!(Register::BGP.addr(), 0xFF47);
    assert_eq!(Register::OBP0.addr(), 0xFF48);
    assert_eq!(Register::OBP1.addr(), 0xFF49);
    assert_eq!(Register::WY.addr(), 0xFF4A);
    assert_eq!(Register::WX.addr(), 0xFF4B);
}

#[test]
fn oam_bytes_and_flags() {
    // y = 0x10, x = 0x20, tile 0x30, flags: y-flip, DMG palette 1, CGB palette 5
    let oam = ObjectAttributeMap::new(0x5530_2010);
    assert_eq!(oam.y, 0x10);
    assert_eq!(oam.x, 0x20);
    assert_eq!(oam.tile_idx, 0x30);
    assert!(!oam.priority);
    assert!(oam.flip_y);
    assert!(!oam.flip_x);
    assert!(oam.dmg_palette);
    assert!(!oam.bank);
    assert_eq!(oam.cgb_palette, 5);

    let oam = ObjectAttributeMap::new(0xA800_0000);
    assert_eq!((oam.y, oam.x, oam.tile_idx), (0, 0, 0));
    assert!(oam.priority);
    assert!(!oam.flip_y);
    assert!(oam.flip_x);
    assert!(!oam.dmg_palette);
    assert!(oam.bank);
    assert_eq!(oam.cgb_palette, 0);
}
