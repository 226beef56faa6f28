use crate::word::{high_byte, lemma_pair_bytes, low_byte, pair};
use vstd::prelude::*;

verus! {

pub const RAM_SIZE: usize = 0x10000;

/// The address of the serial data register. Every byte written to it is
/// also appended to the serial buffer.
pub const SERIAL_DATA: u16 = 0xFF01;

/// The memory-mapped hardware registers, by name.
#[derive(Debug, Clone, Copy, PartialEq, Eq, Structural)]
pub enum MemoryRegister {
    JOYP,
    SB,
    SC,
    DIV,
    TIMA,
    TMA,
    TAC,
    IF,
    NR10,
    NR11,
    NR12,
    NR13,
    NR14,
    NR21,
    NR22,
    NR23,
    NR24,
    NR30,
    NR31,
    NR32,
    NR33,
    NR34,
    NR41,
    NR42,
    NR43,
    NR44,
    NR50,
    NR51,
    NR52,
    WaveRAMStart,
    LCDC,
    STAT,
    SCY,
    SCX,
    LY,
    LYC,
    DMA,
    BGP,
    OBP0,
    OBP1,
    WY,
    WX,
    KEY1,
    VBK,
    HDMA1,
    HDMA2,
    HDMA3,
    HDMA4,
    HDMA5,
    RP,
    BCPS,
    BCPD,
    OCPS,
    OCPD,
    OPRI,
    SVBK,
    PCM12,
    PCM34,
    IE,
}

impl MemoryRegister {
    /// The address at which the register is mapped.
    pub open spec fn spec_addr(self) -> u16 {
        match self {
            MemoryRegister::JOYP => 0xFF00,
            MemoryRegister::SB => 0xFF01,
            MemoryRegister::SC => 0xFF02,
            MemoryRegister::DIV => 0xFF04,
            MemoryRegister::TIMA => 0xFF05,
            MemoryRegister::TMA => 0xFF06,
            MemoryRegister::TAC => 0xFF07,
            MemoryRegister::IF => 0xFF0F,
            MemoryRegister::NR10 => 0xFF10,
            MemoryRegister::NR11 => 0xFF11,
            MemoryRegister::NR12 => 0xFF12,
            MemoryRegister::NR13 => 0xFF13,
            MemoryRegister::NR14 => 0xFF14,
            MemoryRegister::NR21 => 0xFF16,
            MemoryRegister::NR22 => 0xFF17,
            MemoryRegister::NR23 => 0xFF18,
            MemoryRegister::NR24 => 0xFF19,
            MemoryRegister::NR30 => 0xFF1A,
            MemoryRegister::NR31 => 0xFF1B,
            MemoryRegister::NR32 => 0xFF1C,
            MemoryRegister::NR33 => 0xFF1D,
            MemoryRegister::NR34 => 0xFF1E,
            MemoryRegister::NR41 => 0xFF20,
            MemoryRegister::NR42 => 0xFF21,
            MemoryRegister::NR43 => 0xFF22,
            MemoryRegister::NR44 => 0xFF23,
            MemoryRegister::NR50 => 0xFF24,
            MemoryRegister::NR51 => 0xFF25,
            MemoryRegister::NR52 => 0xFF26,
            MemoryRegister::WaveRAMStart => 0xFF30,
            MemoryRegister::LCDC => 0xFF40,
            MemoryRegister::STAT => 0xFF41,
            MemoryRegister::SCY => 0xFF42,
            MemoryRegister::SCX => 0xFF43,
            MemoryRegister::LY => 0xFF44,
            MemoryRegister::LYC => 0xFF45,
            MemoryRegister::DMA => 0xFF46,
            MemoryRegister::BGP => 0xFF47,
            MemoryRegister::OBP0 => 0xFF48,
            MemoryRegister::OBP1 => 0xFF49,
            MemoryRegister::WY => 0xFF4A,
            MemoryRegister::WX => 0xFF4B,
            MemoryRegister::KEY1 => 0xFF4D,
            MemoryRegister::VBK => 0xFF4F,
            MemoryRegister::HDMA1 => 0xFF51,
            MemoryRegister::HDMA2 => 0xFF52,
            MemoryRegister::HDMA3 => 0xFF53,
            MemoryRegister::HDMA4 => 0xFF54,
            MemoryRegister::HDMA5 => 0xFF55,
            MemoryRegister::RP => 0xFF56,
            MemoryRegister::BCPS => 0xFF68,
            MemoryRegister::BCPD => 0xFF69,
            MemoryRegister::OCPS => 0xFF6A,
            MemoryRegister::OCPD => 0xFF6B,
            MemoryRegister::OPRI => 0xFF6C,
            MemoryRegister::SVBK => 0xFF70,
            MemoryRegister::PCM12 => 0xFF76,
            MemoryRegister::PCM34 => 0xFF77,
            MemoryRegister::IE => 0xFFFF,
        }
    }

    #[verifier::when_used_as_spec(spec_addr)]
    pub fn addr(self) -> (addr: u16)
        ensures
            addr == self.spec_addr(),
    {
        match self {
            MemoryRegister::JOYP => 0xFF00,
            MemoryRegister::SB => 0xFF01,
            MemoryRegister::SC => 0xFF02,
            MemoryRegister::DIV => 0xFF04,
            MemoryRegister::TIMA => 0xFF05,
            MemoryRegister::TMA => 0xFF06,
            MemoryRegister::TAC => 0xFF07,
            MemoryRegister::IF => 0xFF0F,
            MemoryRegister::NR10 => 0xFF10,
            MemoryRegister::NR11 => 0xFF11,
            MemoryRegister::NR12 => 0xFF12,
            MemoryRegister::NR13 => 0xFF13,
            MemoryRegister::NR14 => 0xFF14,
            MemoryRegister::NR21 => 0xFF16,
            MemoryRegister::NR22 => 0xFF17,
            MemoryRegister::NR23 => 0xFF18,
            MemoryRegister::NR24 => 0xFF19,
            MemoryRegister::NR30 => 0xFF1A,
            MemoryRegister::NR31 => 0xFF1B,
            MemoryRegister::NR32 => 0xFF1C,
            MemoryRegister::NR33 => 0xFF1D,
            MemoryRegister::NR34 => 0xFF1E,
            MemoryRegister::NR41 => 0xFF20,
            MemoryRegister::NR42 => 0xFF21,
            MemoryRegister::NR43 => 0xFF22,
            MemoryRegister::NR44 => 0xFF23,
            MemoryRegister::NR50 => 0xFF24,
            MemoryRegister::NR51 => 0xFF25,
            MemoryRegister::NR52 => 0xFF26,
            MemoryRegister::WaveRAMStart => 0xFF30,
            MemoryRegister::LCDC => 0xFF40,
            MemoryRegister::STAT => 0xFF41,
            MemoryRegister::SCY => 0xFF42,
            MemoryRegister::SCX => 0xFF43,
            MemoryRegister::LY => 0xFF44,
            MemoryRegister::LYC => 0xFF45,
            MemoryRegister::DMA => 0xFF46,
            MemoryRegister::BGP => 0xFF47,
            MemoryRegister::OBP0 => 0xFF48,
            MemoryRegister::OBP1 => 0xFF49,
            MemoryRegister::WY => 0xFF4A,
            MemoryRegister::WX => 0xFF4B,
            MemoryRegister::KEY1 => 0xFF4D,
            MemoryRegister::VBK => 0xFF4F,
            MemoryRegister::HDMA1 => 0xFF51,
            MemoryRegister::HDMA2 => 0xFF52,
            MemoryRegister::HDMA3 => 0xFF53,
            MemoryRegister::HDMA4 => 0xFF54,
            MemoryRegister::HDMA5 => 0xFF55,
            MemoryRegister::RP => 0xFF56,
            MemoryRegister::BCPS => 0xFF68,
            MemoryRegister::BCPD => 0xFF69,
            MemoryRegister::OCPS => 0xFF6A,
            MemoryRegister::OCPD => 0xFF6B,
            MemoryRegister::OPRI => 0xFF6C,
            MemoryRegister::SVBK => 0xFF70,
            MemoryRegister::PCM12 => 0xFF76,
            MemoryRegister::PCM34 => 0xFF77,
            MemoryRegister::IE => 0xFFFF,
        }
    }
}

/// The value that the byte at `addr` holds when the machine is switched on:
/// the documented values of the sound, display, joypad, timer and interrupt
/// registers, and zero everywhere else.
pub open spec fn power_up_byte(addr: int) -> u8 {
    if addr == 0xFF10 {
        0x80
    } else if addr == 0xFF11 {
        0xBF
    } else if addr == 0xFF12 {
        0xF3
    } else if addr == 0xFF14 {
        0xBF
    } else if addr == 0xFF16 {
        0x3F
    } else if addr == 0xFF19 {
        0xBF
    } else if addr == 0xFF1A {
        0x7F
    } else if addr == 0xFF1B {
        0xFF
    } else if addr == 0xFF1C {
        0x9F
    } else if addr == 0xFF1E {
        0xBF
    } else if addr == 0xFF20 {
        0xFF
    } else if addr == 0xFF23 {
        0xBF
    } else if addr == 0xFF24 {
        0x77
    } else if addr == 0xFF25 {
        0xF3
    } else if addr == 0xFF26 {
        0xF1
    } else if addr == 0xFF40 {
        0x91
    } else if addr == 0xFF47 {
        0xFC
    } else if addr == 0xFF48 {
        0xFF
    } else if addr == 0xFF49 {
        0xFF
    } else if addr == 0xFF00 {
        0xCF
    } else if addr == 0xFF04 {
        0x18
    } else if addr == 0xFF07 {
        0xF8
    } else if addr == 0xFF0F {
        0xE1
    } else {
        0
    }
}

/// Mathematical model of the bus: the 64 KiB of addressable bytes and the
/// bytes captured from the serial data register, oldest first.
pub ghost struct Bus {
    pub ram: Seq<u8>,
    pub serial: Seq<u8>,
}

impl Bus {
    /// Every address of the 16-bit address space holds a byte.
    pub open spec fn wf(self) -> bool {
        self.ram.len() == 0x10000
    }

    /// The bus as it is when the machine is switched on.
    pub open spec fn power_up() -> Bus {
        Bus { ram: Seq::new(0x10000, |addr: int| power_up_byte(addr)), serial: Seq::empty() }
    }

    pub open spec fn read_byte(self, addr: u16) -> u8 {
        self.ram[addr as int]
    }

    /// Little-endian: the low byte is at `addr`, the high byte at the next
    /// address, which wraps round from 0xFFFF to 0x0000.
    pub open spec fn read_word(self, addr: u16) -> u16 {
        pair(self.read_byte(addr.wrapping_add(1)), self.read_byte(addr))
    }

    /// A write is honoured at every address; one to the serial data register
    /// is appended to the serial buffer as well.
    pub open spec fn write_byte(self, addr: u16, val: u8) -> Bus {
        Bus {
            ram: self.ram.update(addr as int, val),
            serial: if addr == SERIAL_DATA {
                self.serial.push(val)
            } else {
                self.serial
            },
        }
    }

    /// Little-endian: first the low byte to `addr`, then the high byte to
    /// the next address.
    pub open spec fn write_word(self, addr: u16, val: u16) -> Bus {
        self.write_byte(addr, low_byte(val)).write_byte(addr.wrapping_add(1), high_byte(val))
    }

    /// The bus after the byte writes `writes`, each an address and a value,
    /// made in order.
    pub open spec fn write_all(self, writes: Seq<(u16, u8)>) -> Bus
        decreases writes.len(),
    {
        if writes.len() == 0 {
            self
        } else {
            self.write_all(writes.drop_last()).write_byte(writes.last().0, writes.last().1)
        }
    }
}

/// The values of those among `writes` that go to the serial data register,
/// in the order of the writes.
pub open spec fn serial_bytes(writes: Seq<(u16, u8)>) -> Seq<u8> {
    writes.filter(|w: (u16, u8)| w.0 == SERIAL_DATA).map_values(|w: (u16, u8)| w.1)
}

/// The serial buffer grows by exactly the bytes written to the serial data
/// register, each once, in the order in which they were written.
pub proof fn lemma_serial_follows_writes(bus: Bus, writes: Seq<(u16, u8)>)
    ensures
        bus.write_all(writes).serial == bus.serial + serial_bytes(writes),
    decreases writes.len(),
{
    let to_serial = |w: (u16, u8)| w.0 == SERIAL_DATA;
    let value = |w: (u16, u8)| w.1;
    reveal_with_fuel(Seq::filter, 2);
    if writes.len() == 0 {
        assert(bus.serial + serial_bytes(writes) =~= bus.serial);
    } else {
        let before = writes.drop_last();
        let last = writes.last();
        lemma_serial_follows_writes(bus, before);
        if last.0 == SERIAL_DATA {
            before.filter(to_serial).lemma_push_map_commute(value, last);
            assert(serial_bytes(writes) == serial_bytes(before).push(last.1));
            assert((bus.serial + serial_bytes(before)).push(last.1) =~= bus.serial
                + serial_bytes(before).push(last.1));
        } else {
            assert(serial_bytes(writes) == serial_bytes(before));
        }
    }
}

/// A word reads back as it was written, at every address: the two bytes
/// lie at `addr` and at the address after it, modulo 2^16.
pub proof fn lemma_word_round_trip(bus: Bus, addr: u16, val: u16)
    requires
        bus.wf(),
    ensures
        bus.write_word(addr, val).read_word(addr) == val,
{
    lemma_pair_bytes(0, 0, val);
}

/// A byte reads back as it was written, and a write leaves every other
/// address as it was.
pub proof fn lemma_byte_round_trip(bus: Bus, addr: u16, val: u8, other: u16)
    requires
        bus.wf(),
    ensures
        bus.write_byte(addr, val).wf(),
        bus.write_byte(addr, val).read_byte(addr) == val,
        other != addr ==> bus.write_byte(addr, val).read_byte(other) == bus.read_byte(other),
{
}

/// The bytes captured from the serial data register, oldest first.
#[derive(Debug)]
pub struct SerialBuffer {
    bytes: Vec<u8>,
}

impl View for SerialBuffer {
    type V = Seq<u8>;

    closed spec fn view(&self) -> Seq<u8> {
        self.bytes@
    }
}

impl SerialBuffer {
    pub fn new() -> (buffer: SerialBuffer)
        ensures
            buffer@ == Seq::<u8>::empty(),
    {
        SerialBuffer { bytes: Vec::new() }
    }

    /// Appends one byte.
    pub fn push(&mut self, val: u8)
        ensures
            final(self)@ == old(self)@.push(val),
    {
        self.bytes.push(val);
    }

    /// Hands out the captured bytes and leaves the buffer empty.
    pub fn drain(&mut self) -> (bytes: Vec<u8>)
        ensures
            bytes@ == old(self)@,
            final(self)@ == Seq::<u8>::empty(),
    {
        let mut bytes: Vec<u8> = Vec::new();
        core::mem::swap(&mut bytes, &mut self.bytes);
        bytes
    }
}

#[derive(Debug)]
pub struct Memory {
    pub ram: [u8; 0x10000],
    pub serial_out: SerialBuffer,
}

impl View for Memory {
    type V = Bus;

    open spec fn view(&self) -> Bus {
        Bus { ram: self.ram@, serial: self.serial_out@ }
    }
}

impl Memory {
    pub fn new() -> (memory: Memory)
        ensures
            memory@ == Bus::power_up(),
    {
        let mut m = Memory { serial_out: SerialBuffer::new(), ram: [0; 0x10000] };
        m.initialize();
        assert(m@.ram =~= Bus::power_up().ram);
        m
    }

    pub fn register_read(&mut self, r: MemoryRegister) -> (val: u8)
        ensures
            val == old(self)@.read_byte(r.addr()),
            *final(self) == *old(self),
    {
        self.read_byte(r.addr())
    }

    pub fn register_write(&mut self, r: MemoryRegister, v: u8)
        ensures
            final(self)@ == old(self)@.write_byte(r.addr(), v),
    {
        self.write_byte(r.addr(), v);
    }

    /// Writes the power-up values of the hardware registers.
    fn initialize(&mut self)
        ensures
            final(self)@.serial == old(self)@.serial,
            forall|addr: int|
                0 <= addr < 0x10000 ==> #[trigger] final(self)@.ram[addr] == (if power_up_byte(addr)
                    != 0 {
                    power_up_byte(addr)
                } else {
                    old(self)@.ram[addr]
                }),
    {
        self.write_byte(MemoryRegister::NR10.addr(), 0x80);
        self.write_byte(MemoryRegister::NR11.addr(), 0xBF);
        self.write_byte(MemoryRegister::NR12.addr(), 0xF3);
        self.write_byte(MemoryRegister::NR14.addr(), 0xBF);
        self.write_byte(MemoryRegister::NR21.addr(), 0x3F);
        self.write_byte(MemoryRegister::NR24.addr(), 0xBF);
        self.write_byte(MemoryRegister::NR30.addr(), 0x7F);
        self.write_byte(MemoryRegister::NR31.addr(), 0xFF);
        self.write_byte(MemoryRegister::NR32.addr(), 0x9F);
        self.write_byte(MemoryRegister::NR34.addr(), 0xBF);
        self.write_byte(MemoryRegister::NR41.addr(), 0xFF);
        self.write_byte(MemoryRegister::NR44.addr(), 0xBF);
        self.write_byte(MemoryRegister::NR50.addr(), 0x77);
        self.write_byte(MemoryRegister::NR51.addr(), 0xF3);
        self.write_byte(MemoryRegister::NR52.addr(), 0xF1);
        self.write_byte(MemoryRegister::LCDC.addr(), 0x91);
        self.write_byte(MemoryRegister::BGP.addr(), 0xFC);
        self.write_byte(MemoryRegister::OBP0.addr(), 0xFF);
        self.write_byte(MemoryRegister::OBP1.addr(), 0xFF);
        self.write_byte(MemoryRegister::JOYP.addr(), 0xCF);
        self.write_byte(MemoryRegister::DIV.addr(), 0x18);
        self.write_byte(MemoryRegister::TAC.addr(), 0xF8);
        self.write_byte(MemoryRegister::IF.addr(), 0xE1);
    }

    pub fn read_byte(&mut self, addr: u16) -> (val: u8)
        ensures
            val == old(self)@.read_byte(addr),
            *final(self) == *old(self),
    {
        self.ram[addr as usize]
    }

    pub fn read_word(&mut self, addr: u16) -> (val: u16)
        ensures
            val == old(self)@.read_word(addr),
            *final(self) == *old(self),
    {
        let low = self.read_byte(addr);
        let high = self.read_byte(addr.wrapping_add(1));
        pair(high, low)
    }

    pub fn write_byte(&mut self, addr: u16, val: u8)
        ensures
            final(self)@ == old(self)@.write_byte(addr, val),
    {
        if addr == SERIAL_DATA {
            self.serial_out.push(val);
        }
        self.ram[addr as usize] = val;
    }

    pub fn write_word(&mut self, addr: u16, val: u16)
        ensures
            final(self)@ == old(self)@.write_word(addr, val),
    {
        self.write_byte(addr, low_byte(val));
        self.write_byte(addr.wrapping_add(1), high_byte(val));
    }

    /// Hands out the bytes written to the serial data register since the
    /// last call, oldest first, and empties the buffer.
    pub fn serial_drain(&mut self) -> (bytes: Vec<u8>)
        ensures
            bytes@ == old(self)@.serial,
            final(self)@ == (Bus { serial: Seq::empty(), ..old(self)@ }),
    {
        self.serial_out.drain()
    }
}

} // verus!
