use vstd::prelude::*;
use vstd::std_specs::convert::FromSpecImpl;

verus! {

/// The kind of memory bank controller and the extras of a cartridge, as
/// byte 0x147 of its header names them.
#[derive(Debug, Clone, Copy, PartialEq, Eq, Structural)]
pub enum Model {
    ROM,
    MBC1,
    MBC1RAM,
    MBC1RAMBATTERY,
    MBC2,
    MBC2BATTERY,
    ROMRAM,
    ROMRAMBATTERY,
    MMM01,
    MMM01RAM,
    MMM01RAMBATTERY,
    MBC3TIMERBATTERY,
    MBC3TIMERRAMBATTERY,
    MBC3,
    MBC3RAM,
    MBC3RAMBATTERY,
    MBC5,
    MBC5RAM,
    MBC5RAMBATTERY,
    MBC5RUMBLE,
    MBC5RUMBLERAM,
    MBC5RUMBLERAMBATTERY,
    MBC6,
    MBC7SENSORRUMBLERAMBATTERY,
    POCKET,
    BANDAI,
    HuC3,
    HuC1RAMBATTERY,
    // Not Applicable aka no known mapping
    NA,
}

impl Model {
    /// The model that a cartridge type code stands for; a code that stands
    /// for none is classified as `NA`.
    pub open spec fn of_code(n: u8) -> Model {
        match n {
            0x00 => Model::ROM,
            0x01 => Model::MBC1,
            0x02 => Model::MBC1RAM,
            0x03 => Model::MBC1RAMBATTERY,
            0x05 => Model::MBC2,
            0x06 => Model::MBC2BATTERY,
            0x08 => Model::ROMRAM,
            0x09 => Model::ROMRAMBATTERY,
            0x0B => Model::MMM01,
            0x0C => Model::MMM01RAM,
            0x0D => Model::MMM01RAMBATTERY,
            0x0F => Model::MBC3TIMERBATTERY,
            0x10 => Model::MBC3TIMERRAMBATTERY,
            0x11 => Model::MBC3,
            0x12 => Model::MBC3RAM,
            0x13 => Model::MBC3RAMBATTERY,
            0x19 => Model::MBC5,
            0x1A => Model::MBC5RAM,
            0x1B => Model::MBC5RAMBATTERY,
            0x1C => Model::MBC5RUMBLE,
            0x1D => Model::MBC5RUMBLERAM,
            0x1E => Model::MBC5RUMBLERAMBATTERY,
            0x20 => Model::MBC6,
            0x22 => Model::MBC7SENSORRUMBLERAMBATTERY,
            0xFC => Model::POCKET,
            0xFD => Model::BANDAI,
            0xFE => Model::HuC3,
            0xFF => Model::HuC1RAMBATTERY,
            _ => Model::NA,
        }
    }
}

impl From<u8> for Model {
    fn from(n: u8) -> (model: Model) {
        match n {
            0x00 => Model::ROM,
            0x01 => Model::MBC1,
            0x02 => Model::MBC1RAM,
            0x03 => Model::MBC1RAMBATTERY,
            0x05 => Model::MBC2,
            0x06 => Model::MBC2BATTERY,
            0x08 => Model::ROMRAM,
            0x09 => Model::ROMRAMBATTERY,
            0x0B => Model::MMM01,
            0x0C => Model::MMM01RAM,
            0x0D => Model::MMM01RAMBATTERY,
            0x0F => Model::MBC3TIMERBATTERY,
            0x10 => Model::MBC3TIMERRAMBATTERY,
            0x11 => Model::MBC3,
            0x12 => Model::MBC3RAM,
            0x13 => Model::MBC3RAMBATTERY,
            0x19 => Model::MBC5,
            0x1A => Model::MBC5RAM,
            0x1B => Model::MBC5RAMBATTERY,
            0x1C => Model::MBC5RUMBLE,
            0x1D => Model::MBC5RUMBLERAM,
            0x1E => Model::MBC5RUMBLERAMBATTERY,
            0x20 => Model::MBC6,
            0x22 => Model::MBC7SENSORRUMBLERAMBATTERY,
            0xFC => Model::POCKET,
            0xFD => Model::BANDAI,
            0xFE => Model::HuC3,
            0xFF => Model::HuC1RAMBATTERY,
            _ => Model::NA,
        }
    }
}

impl FromSpecImpl<u8> for Model {
    open spec fn obeys_from_spec() -> bool {
        true
    }

    open spec fn from_spec(n: u8) -> Model {
        Model::of_code(n)
    }
}

/// Why a ROM image is no cartridge.
#[derive(Debug, Clone, Copy, PartialEq, Eq, Structural)]
pub enum HeaderError {
    /// The image ends before the header does: it has fewer than 0x150 bytes.
    TooShort,
    /// The title holds a byte that is no ASCII character.
    TitleNotAscii,
    /// The ROM size code is above 16, so that the size does not fit 32 bits.
    RomSizeOutOfRange,
}

/// The Cartridge's ROM gets stored in memory banks of 16Kb sizes each. The
/// system contains two 16Kb banks so any game of 32Kb or smaller doesn't rely
/// on banking. RAM gets banked in 8Kb chuncks and the system has a RAM size of
/// 8Kb onboard already.
#[derive(Debug, Clone)]
pub struct Cartridge {
    // memory bank controller
    pub mbc: Vec<u8>,
    pub rom: Vec<u8>,
    pub ram: Vec<u8>,
    pub title: String,
    pub model: Model,
    pub rom_size: u32,
    pub ram_size: Option<u32>,
}

/// The first address of the title in the header.
pub const TITLE_START: usize = 0x134;

/// The address after the last byte of the title.
pub const TITLE_END: usize = 0x13E;

/// The length of the header: an image must have at least this many bytes.
pub const HEADER_END: usize = 0x150;

/// Where the title that begins at `from` ends: at its first NUL byte, or
/// at the end of the title field.
pub open spec fn title_end(rom: Seq<u8>, from: int) -> int
    decreases TITLE_END - from,
{
    if from < TITLE_END && rom[from] != 0 {
        title_end(rom, from + 1)
    } else {
        from
    }
}

/// The bytes of the title, without the NUL bytes that pad it.
pub open spec fn title_bytes(rom: Seq<u8>) -> Seq<u8> {
    rom.subrange(TITLE_START as int, title_end(rom, TITLE_START as int))
}

/// Whether every byte of the title is an ASCII character.
pub open spec fn title_is_ascii(rom: Seq<u8>) -> bool {
    forall|i: int| 0 <= i < title_bytes(rom).len() ==> #[trigger] title_bytes(rom)[i] < 0x80
}

/// The title as text.
pub open spec fn title_chars(rom: Seq<u8>) -> Seq<char> {
    title_bytes(rom).map_values(|b: u8| b as char)
}

/// The size of the cartridge's RAM in bytes that a RAM size code stands
/// for, if it stands for one.
pub open spec fn ram_size_of(code: u8) -> Option<u32> {
    match code {
        0 => Some(0),
        2 => Some(0x2000),
        3 => Some(0x8000),
        4 => Some(0x2_0000),
        5 => Some(0x1_0000),
        _ => None,
    }
}

/// `String::push` appends the character to the end of the string.
pub assume_specification[ String::push ](s: &mut String, ch: char)
    ensures
        final(s)@ == old(s)@.push(ch),
;

impl Cartridge {
    /// Reads the header of a ROM image: the title at 0x134 to 0x13D, the
    /// cartridge type at 0x147, the ROM size code at 0x148 and the RAM size
    /// code at 0x149.
    pub fn new(rom: Vec<u8>) -> (result: Result<Cartridge, HeaderError>)
        ensures
            match result {
                Ok(cartridge) => {
                    &&& rom.len() >= HEADER_END
                    &&& title_is_ascii(rom@)
                    &&& rom[0x148] <= 16
                    &&& cartridge.rom@ == rom@
                    &&& cartridge.title@ == title_chars(rom@)
                    &&& cartridge.model == Model::of_code(rom[0x147])
                    &&& cartridge.rom_size == 1u32 << ((15 + rom[0x148]) as u32)
                    &&& cartridge.ram_size == ram_size_of(rom[0x149])
                    &&& cartridge.ram@.len() == 0
                    &&& cartridge.mbc@.len() == 0
                },
                Err(HeaderError::TooShort) => rom.len() < HEADER_END,
                Err(HeaderError::TitleNotAscii) => rom.len() >= HEADER_END && !title_is_ascii(rom@),
                Err(HeaderError::RomSizeOutOfRange) => rom.len() >= HEADER_END && title_is_ascii(
                    rom@,
                ) && rom[0x148] > 16,
            },
    {
        if rom.len() < HEADER_END {
            return Err(HeaderError::TooShort);
        }
        let mut title = String::new();
        let mut i: usize = TITLE_START;
        while i < TITLE_END && rom[i] != 0
            invariant
                TITLE_START <= i <= TITLE_END,
                rom.len() >= HEADER_END,
                title_end(rom@, i as int) == title_end(rom@, TITLE_START as int),
                title@ == rom@.subrange(TITLE_START as int, i as int).map_values(|b: u8| b as char),
                forall|k: int| TITLE_START <= k < i ==> #[trigger] rom[k] < 0x80,
            decreases TITLE_END - i,
        {
            if rom[i] >= 0x80 {
                proof {
                    lemma_title_end_bounds(rom@, i as int + 1);
                    assert(title_bytes(rom@)[i - TITLE_START] == rom[i as int]);
                }
                return Err(HeaderError::TitleNotAscii);
            }
            title.push(rom[i] as char);
            assert(rom@.subrange(TITLE_START as int, i + 1) =~= rom@.subrange(
                TITLE_START as int,
                i as int,
            ).push(rom[i as int]));
            assert(rom@.subrange(TITLE_START as int, i + 1).map_values(|b: u8| b as char)
                =~= rom@.subrange(TITLE_START as int, i as int).map_values(|b: u8| b as char).push(
                rom[i as int] as char,
            ));
            i += 1;
        }
        assert(title_end(rom@, TITLE_START as int) == i);
        let code = rom[0x148];
        if code > 16 {
            return Err(HeaderError::RomSizeOutOfRange);
        }
        let model = Model::from(rom[0x147]);
        let rom_size: u32 = 1u32 << ((15 + code) as u32);
        let ram_size: Option<u32> = match rom[0x149] {
            0 => Some(0),
            2 => Some(1 << 13),
            3 => Some(1 << 15),
            4 => Some(1 << 17),
            5 => Some(1 << 16),
            _ => None,
        };
        proof {
            assert(1u32 << 13 == 0x2000 && 1u32 << 15 == 0x8000 && 1u32 << 17 == 0x2_0000 && 1u32
                << 16 == 0x1_0000) by (bit_vector);
        }
        Ok(Cartridge { rom, title, model, rom_size, ram_size, ram: Vec::new(), mbc: Vec::new() })
    }
}

/// The title ends between where it is looked for and the end of its field.
pub proof fn lemma_title_end_bounds(rom: Seq<u8>, from: int)
    requires
        from <= TITLE_END,
    ensures
        from <= title_end(rom, from) <= TITLE_END,
    decreases TITLE_END - from,
{
    if from < TITLE_END && rom[from] != 0 {
        lemma_title_end_bounds(rom, from + 1);
    }
}

} // verus!
