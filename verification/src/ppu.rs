use crate::cpu::CPU;
use crate::ram::Bus;
use std::ops::Range;
use vstd::prelude::*;

verus! {

/// Pixels are represented with 2 bits but need to be converted to RGB to
/// display properly on a modern computer.
#[derive(Debug, Copy, Clone, PartialEq, Eq, Structural)]
pub enum Pixel {
    Grey,
    DarkGrey,
    Black,
    White,
}

impl Pixel {
    /// The colour as 0xRRGGBB.
    pub open spec fn spec_rgb(self) -> u32 {
        match self {
            Pixel::Grey => 0x808080,
            Pixel::DarkGrey => 0x696969,
            Pixel::Black => 0x000000,
            Pixel::White => 0xFFFFFF,
        }
    }

    #[verifier::when_used_as_spec(spec_rgb)]
    pub fn rgb(self) -> (colour: u32)
        ensures
            colour == self.spec_rgb(),
    {
        match self {
            Pixel::Grey => 0x808080,
            Pixel::DarkGrey => 0x696969,
            Pixel::Black => 0x000000,
            Pixel::White => 0xFFFFFF,
        }
    }

    /// The pixel that a bit of the high bitplane and a bit of the low
    /// bitplane stand for.
    pub open spec fn spec_decode(high: bool, low: bool) -> Pixel {
        if high && low {
            Pixel::Black
        } else if high {
            Pixel::DarkGrey
        } else if low {
            Pixel::Grey
        } else {
            Pixel::White
        }
    }

    #[verifier::when_used_as_spec(spec_decode)]
    pub fn decode(high: bool, low: bool) -> (pixel: Pixel)
        ensures
            pixel == Pixel::spec_decode(high, low),
    {
        match (high, low) {
            (true, true) => Pixel::Black,
            (false, false) => Pixel::White,
            (false, true) => Pixel::Grey,
            (true, false) => Pixel::DarkGrey,
        }
    }
}

/// The pixel in column `col` of a tile row, column 0 being the leftmost:
/// it is made of bit `7 - col` of the row's two bytes.
pub open spec fn row_pixel(high: u8, low: u8, col: int) -> Pixel {
    let bit = (7 - col) as u8;
    Pixel::decode((high >> bit) & 1 == 1, (low >> bit) & 1 == 1)
}

/// The pixel at `row`, `col` of the tile whose sixteen bytes start at `addr`:
/// each row takes two bytes, first the low bitplane, then the high one.
pub open spec fn tile_pixel(bus: Bus, addr: int, row: int, col: int) -> Pixel {
    row_pixel(bus.ram[addr + 2 * row + 1], bus.ram[addr + 2 * row], col)
}

#[derive(Debug, Copy, Clone, PartialEq, Eq)]
pub struct Tile {
    pub pixels: [[Pixel; 8]; 8],
}

impl Tile {
    pub open spec fn pixel(self, row: int, col: int) -> Pixel {
        self.pixels[row][col]
    }

    /// Every pixel of the tile is `color`.
    pub open spec fn is_plain(self, color: Pixel) -> bool {
        forall|row: int, col: int|
            0 <= row < 8 && 0 <= col < 8 ==> #[trigger] self.pixel(row, col) == color
    }

    /// The tile holds what the sixteen bytes at `addr` encode.
    pub open spec fn shows(self, bus: Bus, addr: int) -> bool {
        forall|row: int, col: int|
            0 <= row < 8 && 0 <= col < 8 ==> #[trigger] self.pixel(row, col) == tile_pixel(
                bus,
                addr,
                row,
                col,
            )
    }

    pub fn new(color: Pixel) -> (tile: Tile)
        ensures
            tile.is_plain(color),
    {
        Tile { pixels: [[color; 8]; 8] }
    }
}

/// There are two types of sprites that can be used, one that is 8 x 8 pixels
/// and one that is 8 x 16 pixels
#[derive(Debug, Copy, Clone)]
pub enum Sprite {
    Big([[u8; 8]; 16]),
    Little([[u8; 8]; 8]),
}

impl Sprite {
    /// Every byte of the sprite is zero.
    pub open spec fn is_blank(self) -> bool {
        match self {
            Sprite::Big(rows) => forall|row: int, col: int|
                0 <= row < 16 && 0 <= col < 8 ==> #[trigger] rows[row][col] == 0,
            Sprite::Little(rows) => forall|row: int, col: int|
                0 <= row < 8 && 0 <= col < 8 ==> #[trigger] rows[row][col] == 0,
        }
    }
}

/// Registers are actually 16 bit memory addresses to 8 bit storage, this enum
/// only encodes their memory location
#[derive(Debug, Copy, Clone, PartialEq, Eq, Structural)]
pub enum Register {
    LCDC,
    STAT,
    SCY,
    SCX,
    LY,
    LYC,
    BGP,
    OBP0,
    OBP1,
    WY,
    WX,
}

impl Register {
    /// The address at which the register is mapped.
    pub open spec fn spec_addr(self) -> u16 {
        match self {
            Register::LCDC => 0xFF40,
            Register::STAT => 0xFF41,
            Register::SCY => 0xFF42,
            Register::SCX => 0xFF43,
            Register::LY => 0xFF44,
            Register::LYC => 0xFF45,
            Register::BGP => 0xFF47,
            Register::OBP0 => 0xFF48,
            Register::OBP1 => 0xFF49,
            Register::WY => 0xFF4A,
            Register::WX => 0xFF4B,
        }
    }

    #[verifier::when_used_as_spec(spec_addr)]
    pub fn addr(self) -> (addr: u16)
        ensures
            addr == self.spec_addr(),
    {
        match self {
            Register::LCDC => 0xFF40,
            Register::STAT => 0xFF41,
            Register::SCY => 0xFF42,
            Register::SCX => 0xFF43,
            Register::LY => 0xFF44,
            Register::LYC => 0xFF45,
            Register::BGP => 0xFF47,
            Register::OBP0 => 0xFF48,
            Register::OBP1 => 0xFF49,
            Register::WY => 0xFF4A,
            Register::WX => 0xFF4B,
        }
    }
}

/// LCD & PPU enable: 0 = Off; 1 = On
/// Window tile map area: 0 = 9800–9BFF; 1 = 9C00–9FFF
/// Window enable: 0 = Off; 1 = On
/// BG & Window tile data area: 0 = 8800–97FF; 1 = 8000–8FFF
/// BG tile map area: 0 = 9800–9BFF; 1 = 9C00–9FFF
/// OBJ size: 0 = 8×8; 1 = 8×16
/// OBJ enable: 0 = Off; 1 = On
/// BG & Window enable / priority: 0 = Off; 1 = On
#[derive(Debug, Clone, Copy, PartialEq, Eq, Structural)]
pub enum LCDC {
    PPUEnabled,
    WindowTileMapArea,
    WindowEnabled,
    WindowDataArea,
    BgTileMapArea,
    ObjSize,
    ObjEnabled,
    BgWindowPriority,
}

impl LCDC {
    /// The bit of the LCDC register that holds the switch.
    pub open spec fn spec_mask(self) -> u8 {
        match self {
            LCDC::PPUEnabled => 0x80,
            LCDC::WindowTileMapArea => 0x40,
            LCDC::WindowEnabled => 0x20,
            LCDC::WindowDataArea => 0x10,
            LCDC::BgTileMapArea => 0x08,
            LCDC::ObjSize => 0x04,
            LCDC::ObjEnabled => 0x02,
            LCDC::BgWindowPriority => 0x01,
        }
    }

    #[verifier::when_used_as_spec(spec_mask)]
    pub fn mask(self) -> (mask: u8)
        ensures
            mask == self.spec_mask(),
    {
        match self {
            LCDC::PPUEnabled => 0b1000_0000,
            LCDC::WindowTileMapArea => 0b0100_0000,
            LCDC::WindowEnabled => 0b0010_0000,
            LCDC::WindowDataArea => 0b0001_0000,
            LCDC::BgTileMapArea => 0b0000_1000,
            LCDC::ObjSize => 0b0000_0100,
            LCDC::ObjEnabled => 0b0000_0010,
            LCDC::BgWindowPriority => 0b0000_0001,
        }
    }
}

/// The bits of all the switches in `flags`, in one byte.
pub open spec fn lcdc_mask(flags: Seq<LCDC>) -> u8
    decreases flags.len(),
{
    if flags.len() == 0 {
        0
    } else {
        lcdc_mask(flags.drop_last()) | flags.last().mask()
    }
}

/// Once the bits of a mask are set in a byte they are all found set in it,
/// and once they are cleared none of them is.
pub proof fn lemma_mask_set_and_cleared(v: u8, mask: u8)
    ensures
        (v | mask) & mask == mask,
        (v & !mask) & mask == 0,
{
    assert((v | mask) & mask == mask && (v & !mask) & mask == 0) by (bit_vector);
}

/// The combined mask of some switches holds the bit of each of them.
pub proof fn lemma_lcdc_mask_holds(flags: Seq<LCDC>, i: int)
    requires
        0 <= i < flags.len(),
    ensures
        lcdc_mask(flags) & flags[i].mask() == flags[i].mask(),
    decreases flags.len(),
{
    let rest = lcdc_mask(flags.drop_last());
    let last = flags.last().mask();
    let bit = flags[i].mask();
    if i == flags.len() - 1 {
        assert((rest | last) & last == last) by (bit_vector);
    } else {
        lemma_lcdc_mask_holds(flags.drop_last(), i);
        assert((rest | last) & bit == bit) by (bit_vector)
            requires
                rest & bit == bit,
        ;
    }
}

/// The four bytes of an entry of the object attribute memory, taken apart.
pub struct ObjectAttributeMap {
    pub x: u8,
    pub y: u8,
    pub tile_idx: u8,
    pub priority: bool,
    pub flip_x: bool,
    pub flip_y: bool,
    pub dmg_palette: bool,
    // bank is for CGB
    pub bank: bool,
    // palette is for CGB
    pub cgb_palette: u8,
}

impl ObjectAttributeMap {
    /// The entry that the flags byte `flags` and the three bytes before it
    /// stand for.
    pub open spec fn of_bytes(y: u8, x: u8, tile_idx: u8, flags: u8) -> ObjectAttributeMap {
        ObjectAttributeMap {
            y,
            x,
            tile_idx,
            priority: flags & 0x80 != 0,
            flip_y: flags & 0x40 != 0,
            flip_x: flags & 0x20 != 0,
            dmg_palette: flags & 0x10 != 0,
            bank: flags & 0x08 != 0,
            cgb_palette: flags & 0x07,
        }
    }

    /// Takes an entry apart. The entry is read as a little-endian word:
    /// Byte 0: y position
    /// Byte 1: x position
    /// Byte 2: tile index
    /// Byte 3: flags
    pub fn new(v: u32) -> (oam: ObjectAttributeMap)
        ensures
            oam == ObjectAttributeMap::of_bytes(
                (v % 0x100) as u8,
                (v / 0x100 % 0x100) as u8,
                (v / 0x1_0000 % 0x100) as u8,
                (v / 0x100_0000) as u8,
            ),
    {
        let b0 = (v % 0x100) as u8;
        let b1 = (v / 0x100 % 0x100) as u8;
        let b2 = (v / 0x1_0000 % 0x100) as u8;
        let b3 = (v / 0x100_0000) as u8;
        ObjectAttributeMap {
            y: b0,
            x: b1,
            tile_idx: b2,
            priority: b3 & 0b1000_0000 != 0,
            flip_y: b3 & 0b0100_0000 != 0,
            flip_x: b3 & 0b0010_0000 != 0,
            // use OBP0 (false) or OBP1 (true)
            dmg_palette: b3 & 0b0001_0000 != 0,
            bank: b3 & 0b0000_1000 != 0,
            cgb_palette: b3 & 0b0000_0111,
        }
    }
}

/// The display encodes how all the graphics hardware is tied together. The
/// viewport is the actual visible screen while the display itself captures
/// pixels being rendered off screen too. Only 10 sprites can be used at a time
/// but 40 can be represented in memory. Tiles can overlap each other, as the
/// full screen is only 144 x 160 pixels.
#[derive(Debug)]
pub struct Display {
    pub tiles: [Tile; 384],
    // the (x, y) position of what can be shown
    pub view_port: (u8, u8),
    // aka OAM (Object Attribut Memory)
    pub sprites: [Sprite; 40],
    // two maps of 32 x 32 tile numbers
    pub tile_map: [[u8; 1024]; 2],
    pub scy: u8,
    pub scx: u8,
    pub ly: u8,
    pub lyx: u8,
    pub wy: u8,
    pub wx: u8,
    pub stat: u8,
}

impl Display {
    /// The first address and the number of tiles of a block of tile data.
    /// Blocks 0, 1 and 2 hold 128 tiles each; any other number stands for
    /// all three together.
    pub open spec fn block_range(block: u8) -> (int, int) {
        if block == 0 {
            (0x8000, 128)
        } else if block == 1 {
            (0x8800, 128)
        } else if block == 2 {
            (0x9000, 128)
        } else {
            (0x8000, 384)
        }
    }

    /// The display as it is before anything is loaded: every tile black,
    /// both tile maps zero, forty blank sprites of the chosen size, and all
    /// registers zero.
    pub open spec fn is_blank(self, sprite_size: bool) -> bool {
        &&& forall|i: int| 0 <= i < 384 ==> (#[trigger] self.tiles[i]).is_plain(Pixel::Black)
        &&& forall|map: int, i: int|
            0 <= map < 2 && 0 <= i < 1024 ==> #[trigger] self.tile_map[map][i] == 0
        &&& forall|i: int|
            0 <= i < 40 ==> (#[trigger] self.sprites[i]).is_blank() && (self.sprites[i] is Big)
                == sprite_size
        &&& self.view_port == (0u8, 0u8)
        &&& self.scy == 0 && self.scx == 0 && self.ly == 0 && self.lyx == 0
        &&& self.wy == 0 && self.wx == 0 && self.stat == 0
    }

    /// The sprite_size argument defaults to false or small
    pub fn new(sprite_size: bool) -> (display: Display)
        ensures
            display.is_blank(sprite_size),
    {
        let sprite = if sprite_size {
            Sprite::Big([[0; 8]; 16])
        } else {
            Sprite::Little([[0; 8]; 8])
        };
        Display {
            tiles: [Tile::new(Pixel::Black); 384],
            tile_map: [[0u8; 1024]; 2],
            view_port: (0, 0),
            sprites: [sprite; 40],
            scy: 0,
            scx: 0,
            ly: 0,
            lyx: 0,
            wy: 0,
            wx: 0,
            stat: 0,
        }
    }

    /// Folds the switches into one mask.
    fn fold_flags(flags: &Vec<LCDC>) -> (mask: u8)
        ensures
            mask == lcdc_mask(flags@),
    {
        let mut mask: u8 = 0;
        let mut i: usize = 0;
        while i < flags.len()
            invariant
                i <= flags.len(),
                mask == lcdc_mask(flags@.take(i as int)),
            decreases flags.len() - i,
        {
            assert(flags@.take(i + 1).drop_last() =~= flags@.take(i as int));
            mask = mask | flags[i].mask();
            i += 1;
        }
        assert(flags@.take(i as int) =~= flags@);
        mask
    }

    /// Sets the given switches in the LCDC register (0xFF40) where `cond`
    /// holds, clears them where it does not, and returns the register's new
    /// value.
    pub fn set_lcdc(&mut self, cpu: &mut CPU, flags: Vec<LCDC>, cond: bool) -> (v: u8)
        ensures
            v == if cond {
                old(cpu)@.read(0xFF40) | lcdc_mask(flags@)
            } else {
                old(cpu)@.read(0xFF40) & !lcdc_mask(flags@)
            },
            final(cpu)@ == old(cpu)@.write(0xFF40, v),
            *final(self) == *old(self),
    {
        let mask = Self::fold_flags(&flags);
        let lcdc = cpu.memory.read_byte(Register::LCDC.addr());
        let v = if cond {
            lcdc | mask
        } else {
            lcdc & !mask
        };
        cpu.memory.write_byte(Register::LCDC.addr(), v);
        v
    }

    /// Tells whether all the given switches are set in the LCDC register.
    pub fn check_lcdc(&mut self, cpu: &mut CPU, flags: Vec<LCDC>) -> (set: bool)
        ensures
            set == (old(cpu)@.read(0xFF40) & lcdc_mask(flags@) == lcdc_mask(flags@)),
            *final(cpu) == *old(cpu),
            *final(self) == *old(self),
    {
        let f = Self::fold_flags(&flags);
        cpu.memory.read_byte(Register::LCDC.addr()) & f == f
    }

    /// Decodes a block of tile data into the first tiles of the display.
    ///
    /// Blocks can be sequentially loaded in memory, there indexing pattern will be the same across the two different addressing schemes.
    /// * Block 0: 0-127 (LCDC Bit 4: 1)
    /// * Block 1: 128-255
    /// * Block 2: 0-127 (LCDC Bit 4: 0)
    pub fn load_tiles(&mut self, cpu: &mut CPU, block: u8)
        ensures
            forall|i: int|
                0 <= i < Self::block_range(block).1 ==> (#[trigger] final(self).tiles[i]).shows(
                    old(cpu)@.bus,
                    Self::block_range(block).0 + 16 * i,
                ),
            forall|i: int|
                Self::block_range(block).1 <= i < 384 ==> #[trigger] final(self).tiles[i] == old(
                    self,
                ).tiles[i],
            final(self).same_but_tiles(*old(self)),
            *final(cpu) == *old(cpu),
    {
        match block {
            0 => self.load_tile_range(cpu, 0x8000..0x8800),
            1 => self.load_tile_range(cpu, 0x8800..0x9000),
            2 => self.load_tile_range(cpu, 0x9000..0x9800),
            _ => self.load_tile_range(cpu, 0x8000..0x9800),
        }
    }

    /// All but the tiles is as in `other`.
    pub open spec fn same_but_tiles(self, other: Display) -> bool {
        self == (Display { tiles: self.tiles, ..other })
    }

    /// Decodes one row of a tile from its two bytes.
    fn load_row(high: u8, low: u8) -> (row: [Pixel; 8])
        ensures
            forall|col: int| 0 <= col < 8 ==> #[trigger] row[col] == row_pixel(high, low, col),
    {
        let mut row = [Pixel::Black; 8];
        let mut k: usize = 0;
        while k < 8
            invariant
                k <= 8,
                forall|col: int| 0 <= col < k ==> #[trigger] row[col] == row_pixel(high, low, col),
            decreases 8 - k,
        {
            let bit = (7 - k) as u8;
            row[k] = Pixel::decode((high >> bit) & 1 == 1, (low >> bit) & 1 == 1);
            k += 1;
        }
        row
    }

    /// Decodes the tile whose sixteen bytes start at `addr`.
    fn load_tile(cpu: &mut CPU, addr: u16) -> (tile: Tile)
        requires
            addr <= 0xFFF0,
        ensures
            tile.shows(old(cpu)@.bus, addr as int),
            *final(cpu) == *old(cpu),
    {
        let mut tile = Tile::new(Pixel::Black);
        let mut j: usize = 0;
        while j < 8
            invariant
                j <= 8,
                addr <= 0xFFF0,
                *cpu == *old(cpu),
                forall|row: int, col: int|
                    0 <= row < j && 0 <= col < 8 ==> #[trigger] tile.pixel(row, col) == tile_pixel(
                        cpu@.bus,
                        addr as int,
                        row,
                        col,
                    ),
            decreases 8 - j,
        {
            let low = cpu.memory.read_byte(addr + (j * 2) as u16);
            let high = cpu.memory.read_byte(addr + 1 + (j * 2) as u16);
            let row = Self::load_row(high, low);
            let ghost before = tile;
            tile.pixels[j] = row;
            assert forall|r: int, col: int| 0 <= r < j + 1 && 0 <= col < 8 implies #[trigger] tile.pixel(
                r,
                col,
            ) == tile_pixel(cpu@.bus, addr as int, r, col) by {
                if r < j {
                    assert(tile.pixels[r] == before.pixels[r]);
                    assert(before.pixel(r, col) == tile_pixel(cpu@.bus, addr as int, r, col));
                } else {
                    assert(tile.pixels[r] == row);
                }
            }
            j += 1;
        }
        tile
    }

    /// Decodes the tiles whose data lies in `range`, sixteen bytes each,
    /// into the first tiles of the display.
    fn load_tile_range(&mut self, cpu: &mut CPU, range: Range<u16>)
        requires
            range.start <= range.end,
            (range.end - range.start) % 16 == 0,
            range.end - range.start <= 384 * 16,
        ensures
            forall|i: int|
                0 <= i < (range.end - range.start) / 16 ==> (#[trigger] final(self).tiles[i]).shows(
                    old(cpu)@.bus,
                    range.start + 16 * i,
                ),
            forall|i: int|
                (range.end - range.start) / 16 <= i < 384 ==> #[trigger] final(self).tiles[i]
                    == old(self).tiles[i],
            final(self).same_but_tiles(*old(self)),
            *final(cpu) == *old(cpu),
    {
        let count = ((range.end - range.start) / 16) as usize;
        let mut i: usize = 0;
        while i < count
            invariant
                i <= count,
                count == (range.end - range.start) / 16,
                range.start <= range.end,
                (range.end - range.start) % 16 == 0,
                count <= 384,
                *cpu == *old(cpu),
                self.same_but_tiles(*old(self)),
                forall|t: int|
                    0 <= t < i ==> (#[trigger] self.tiles[t]).shows(
                        cpu@.bus,
                        range.start + 16 * t,
                    ),
                forall|t: int| i <= t < 384 ==> #[trigger] self.tiles[t] == old(self).tiles[t],
            decreases count - i,
        {
            let addr = range.start + (i * 16) as u16;
            let tile = Self::load_tile(cpu, addr);
            self.tiles[i] = tile;
            i += 1;
        }
    }

    /// Copies the two tile maps out of video memory.
    ///
    /// There are two maps which contain how each tile should be placed
    /// $9800-$9BFF and $9C00-$9FFF and which one is used is guided by register
    /// values.
    pub fn load_tile_map(&mut self, cpu: &mut CPU)
        ensures
            forall|i: int|
                0 <= i < 1024 ==> #[trigger] final(self).tile_map[0][i] == old(cpu)@.bus.ram[0x9800
                    + i],
            forall|i: int|
                0 <= i < 1024 ==> #[trigger] final(self).tile_map[1][i] == old(cpu)@.bus.ram[0x9C00
                    + i],
            *final(self) == (Display { tile_map: final(self).tile_map, ..*old(self) }),
            *final(cpu) == *old(cpu),
    {
        let mut first = [0u8; 1024];
        let mut second = [0u8; 1024];
        let mut i: usize = 0;
        while i < 1024
            invariant
                i <= 1024,
                *cpu == *old(cpu),
                forall|k: int| 0 <= k < i ==> #[trigger] first[k] == cpu@.bus.ram[0x9800 + k],
                forall|k: int| 0 <= k < i ==> #[trigger] second[k] == cpu@.bus.ram[0x9C00 + k],
            decreases 1024 - i,
        {
            first[i] = cpu.memory.read_byte(0x9800 + i as u16);
            second[i] = cpu.memory.read_byte(0x9C00 + i as u16);
            i += 1;
        }
        self.tile_map = [first, second];
    }
}

} // verus!
