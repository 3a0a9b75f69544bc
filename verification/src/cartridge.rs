//! Cartridge header, ROM and RAM stores, and the memory bank controller.

use vstd::prelude::*;
use vstd::std_specs::convert::FromSpecImpl;
use vstd::std_specs::convert::TryFromSpecImpl;
use crate::error::Error;
use crate::error::HeaderField;
use crate::error::Store;
use crate::memory::MemoryRead;
use crate::memory::MemoryWrite;
use crate::rtc::Rtc;
use vstd::slice::slice_subrange;
use vstd::slice::slice_to_vec;
use vstd::string::StringSliceAdditionalSpecFns;
use vstd::utf8::valid_utf8;

verus! {

/// Size of the cartridge RAM, as the header announces it.
#[derive(Copy, Clone, Debug, PartialEq, Eq, Structural)]
pub enum RamSize {
    NotPresent,
    _2K,
    _8K,
    /// 4 banks of 8 KiB.
    _32K,
    /// 16 banks of 8 KiB.
    _128K,
    /// 8 banks of 8 KiB.
    _64K,
}

impl RamSize {
    /// Size in bytes.
    pub open spec fn bytes(self) -> nat {
        match self {
            RamSize::NotPresent => 0,
            RamSize::_2K => 2048,
            RamSize::_8K => 8192,
            RamSize::_32K => 32768,
            RamSize::_64K => 65536,
            RamSize::_128K => 131072,
        }
    }

    /// Number of 8 KiB banks; a RAM of 8 KiB or less is one bank.
    pub open spec fn banks(self) -> nat {
        if self.bytes() <= 8192 {
            1
        } else {
            self.bytes() / 8192
        }
    }

    /// The variant that a header byte stands for.
    pub open spec fn decode(code: u8) -> Option<RamSize> {
        match code {
            0 => Some(RamSize::NotPresent),
            1 => Some(RamSize::_2K),
            2 => Some(RamSize::_8K),
            3 => Some(RamSize::_32K),
            4 => Some(RamSize::_128K),
            5 => Some(RamSize::_64K),
            _ => None,
        }
    }

    /// The variant that a header byte stands for, or the error that
    /// names the byte.
    pub open spec fn parse(code: u8) -> Result<RamSize, Error> {
        match RamSize::decode(code) {
            Some(v) => Ok(v),
            None => Err(Error::InvalidValue { field: HeaderField::RamSize, value: code }),
        }
    }
}

impl From<RamSize> for usize {
    fn from(s: RamSize) -> (n: usize) {
        match s {
            RamSize::_2K => 2 * 1024,
            RamSize::_8K => 8 * 1024,
            RamSize::_32K => 32 * 1024,
            RamSize::_64K => 64 * 1024,
            RamSize::_128K => 128 * 1024,
            RamSize::NotPresent => 0,
        }
    }
}

impl FromSpecImpl<RamSize> for usize {
    open spec fn obeys_from_spec() -> bool {
        true
    }

    open spec fn from_spec(s: RamSize) -> usize {
        s.bytes() as usize
    }
}

impl TryFrom<u8> for RamSize {
    type Error = Error;

    fn try_from(val: u8) -> (r: Result<Self, Error>) {
        match val {
            0 => Ok(RamSize::NotPresent),
            1 => Ok(RamSize::_2K),
            2 => Ok(RamSize::_8K),
            3 => Ok(RamSize::_32K),
            4 => Ok(RamSize::_128K),
            5 => Ok(RamSize::_64K),
            _ => Err(Error::InvalidValue { field: HeaderField::RamSize, value: val }),
        }
    }
}

impl TryFromSpecImpl<u8> for RamSize {
    open spec fn obeys_try_from_spec() -> bool {
        true
    }

    open spec fn try_from_spec(val: u8) -> Result<Self, Error> {
        RamSize::parse(val)
    }
}

/// Size of the cartridge ROM, as the header announces it.
#[derive(Copy, Clone, Debug, PartialEq, Eq, Structural)]
pub enum RomSize {
    _32K,
    _64K,
    _128K,
    _256K,
    _512K,
    _1M,
    _2M,
    _4M,
    _8M,
    /// 1.1 MiB, 72 banks.
    _1_1M,
    /// 1.2 MiB, 80 banks.
    _1_2M,
    /// 1.5 MiB, 96 banks.
    _1_5M,
}

impl RomSize {
    /// Number of 16 KiB banks.
    pub open spec fn banks(self) -> nat {
        match self {
            RomSize::_32K => 2,
            RomSize::_64K => 4,
            RomSize::_128K => 8,
            RomSize::_256K => 16,
            RomSize::_512K => 32,
            RomSize::_1M => 64,
            RomSize::_1_1M => 72,
            RomSize::_1_2M => 80,
            RomSize::_1_5M => 96,
            RomSize::_2M => 128,
            RomSize::_4M => 256,
            RomSize::_8M => 512,
        }
    }

    /// Size in bytes.
    pub open spec fn bytes(self) -> nat {
        self.banks() * 16384
    }

    /// The variant that a header byte stands for.
    pub open spec fn decode(code: u8) -> Option<RomSize> {
        match code {
            0x00 => Some(RomSize::_32K),
            0x01 => Some(RomSize::_64K),
            0x02 => Some(RomSize::_128K),
            0x03 => Some(RomSize::_256K),
            0x04 => Some(RomSize::_512K),
            0x05 => Some(RomSize::_1M),
            0x06 => Some(RomSize::_2M),
            0x07 => Some(RomSize::_4M),
            0x08 => Some(RomSize::_8M),
            0x52 => Some(RomSize::_1_1M),
            0x53 => Some(RomSize::_1_2M),
            0x54 => Some(RomSize::_1_5M),
            _ => None,
        }
    }

    /// The variant that a header byte stands for, or the error that
    /// names the byte.
    pub open spec fn parse(code: u8) -> Result<RomSize, Error> {
        match RomSize::decode(code) {
            Some(v) => Ok(v),
            None => Err(Error::InvalidValue { field: HeaderField::RomSize, value: code }),
        }
    }
}

impl From<RomSize> for usize {
    fn from(s: RomSize) -> (n: usize) {
        match s {
            RomSize::_32K => 2 * Rom::BANK_SIZE,
            RomSize::_64K => 4 * Rom::BANK_SIZE,
            RomSize::_128K => 8 * Rom::BANK_SIZE,
            RomSize::_256K => 16 * Rom::BANK_SIZE,
            RomSize::_512K => 32 * Rom::BANK_SIZE,
            RomSize::_1M => 64 * Rom::BANK_SIZE,
            RomSize::_1_1M => 72 * Rom::BANK_SIZE,
            RomSize::_1_2M => 80 * Rom::BANK_SIZE,
            RomSize::_1_5M => 96 * Rom::BANK_SIZE,
            RomSize::_2M => 128 * Rom::BANK_SIZE,
            RomSize::_4M => 256 * Rom::BANK_SIZE,
            RomSize::_8M => 512 * Rom::BANK_SIZE,
        }
    }
}

impl FromSpecImpl<RomSize> for usize {
    open spec fn obeys_from_spec() -> bool {
        true
    }

    open spec fn from_spec(s: RomSize) -> usize {
        s.bytes() as usize
    }
}

impl TryFrom<u8> for RomSize {
    type Error = Error;

    fn try_from(val: u8) -> (r: Result<Self, Error>) {
        match val {
            0x00 => Ok(RomSize::_32K),
            0x01 => Ok(RomSize::_64K),
            0x02 => Ok(RomSize::_128K),
            0x03 => Ok(RomSize::_256K),
            0x04 => Ok(RomSize::_512K),
            0x05 => Ok(RomSize::_1M),
            0x06 => Ok(RomSize::_2M),
            0x07 => Ok(RomSize::_4M),
            0x08 => Ok(RomSize::_8M),
            0x52 => Ok(RomSize::_1_1M),
            0x53 => Ok(RomSize::_1_2M),
            0x54 => Ok(RomSize::_1_5M),
            _ => Err(Error::InvalidValue { field: HeaderField::RomSize, value: val }),
        }
    }
}

impl TryFromSpecImpl<u8> for RomSize {
    open spec fn obeys_try_from_spec() -> bool {
        true
    }

    open spec fn try_from_spec(val: u8) -> Result<Self, Error> {
        RomSize::parse(val)
    }
}

/// The controller chip that a cartridge type carries.
#[derive(Copy, Clone, Debug, PartialEq, Eq, Structural)]
pub enum Family {
    /// No controller: plain ROM, with or without RAM.
    Plain,
    Mbc1,
    Mbc2,
    Mbc3,
    Mbc5,
    /// A recognised type whose controller is not emulated.
    Other,
}

/// Cartridge type, as the header announces it.
#[derive(Copy, Clone, Debug, PartialEq, Eq, Structural)]
pub enum CartridgeType {
    Rom,
    Mbc1,
    Mbc1Ram,
    Mbc1RamBattery,
    Mbc2,
    Mbc2Battery,
    RomRam,
    RomRamBattery,
    Mmm01,
    Mmm01Ram,
    Mmm01RamBattery,
    Mbc3TimerBattery,
    Mbc3TimerRamBattery,
    Mbc3,
    Mbc3Ram,
    Mbc3RamBattery,
    Mbc4,
    Mbc4Ram,
    Mbc4RamBattery,
    Mbc5,
    Mbc5Ram,
    Mbc5RamBattery,
    Mbc5Rumble,
    Mbc5RumbleRam,
    Mbc5RumbleRamBattery,
    PocketCamera,
    BandaiTama5,
    HuC3,
    HuC1RamBattery,
}

impl CartridgeType {
    /// The variant that a header byte stands for.
    pub open spec fn decode(code: u8) -> Option<CartridgeType> {
        match code {
            0x00 => Some(CartridgeType::Rom),
            0x01 => Some(CartridgeType::Mbc1),
            0x02 => Some(CartridgeType::Mbc1Ram),
            0x03 => Some(CartridgeType::Mbc1RamBattery),
            0x05 => Some(CartridgeType::Mbc2),
            0x06 => Some(CartridgeType::Mbc2Battery),
            0x08 => Some(CartridgeType::RomRam),
            0x09 => Some(CartridgeType::RomRamBattery),
            0x0B => Some(CartridgeType::Mmm01),
            0x0C => Some(CartridgeType::Mmm01Ram),
            0x0D => Some(CartridgeType::Mmm01RamBattery),
            0x0F => Some(CartridgeType::Mbc3TimerBattery),
            0x10 => Some(CartridgeType::Mbc3TimerRamBattery),
            0x11 => Some(CartridgeType::Mbc3),
            0x12 => Some(CartridgeType::Mbc3Ram),
            0x13 => Some(CartridgeType::Mbc3RamBattery),
            0x15 => Some(CartridgeType::Mbc4),
            0x16 => Some(CartridgeType::Mbc4Ram),
            0x17 => Some(CartridgeType::Mbc4RamBattery),
            0x19 => Some(CartridgeType::Mbc5),
            0x1A => Some(CartridgeType::Mbc5Ram),
            0x1B => Some(CartridgeType::Mbc5RamBattery),
            0x1C => Some(CartridgeType::Mbc5Rumble),
            0x1D => Some(CartridgeType::Mbc5RumbleRam),
            0x1E => Some(CartridgeType::Mbc5RumbleRamBattery),
            0xFC => Some(CartridgeType::PocketCamera),
            0xFD => Some(CartridgeType::BandaiTama5),
            0xFE => Some(CartridgeType::HuC3),
            0xFF => Some(CartridgeType::HuC1RamBattery),
            _ => None,
        }
    }

    /// The variant that a header byte stands for, or the error that
    /// names the byte.
    pub open spec fn parse(code: u8) -> Result<CartridgeType, Error> {
        match CartridgeType::decode(code) {
            Some(v) => Ok(v),
            None => Err(Error::InvalidValue { field: HeaderField::CartridgeType, value: code }),
        }
    }

    /// The controller chip of this cartridge type.
    pub open spec fn spec_family(&self) -> Family {
        match self {
            CartridgeType::Rom | CartridgeType::RomRam | CartridgeType::RomRamBattery => Family::Plain,
            CartridgeType::Mbc1 | CartridgeType::Mbc1Ram | CartridgeType::Mbc1RamBattery => Family::Mbc1,
            CartridgeType::Mbc2 | CartridgeType::Mbc2Battery => Family::Mbc2,
            CartridgeType::Mbc3
            | CartridgeType::Mbc3Ram
            | CartridgeType::Mbc3RamBattery
            | CartridgeType::Mbc3TimerBattery
            | CartridgeType::Mbc3TimerRamBattery => Family::Mbc3,
            CartridgeType::Mbc5
            | CartridgeType::Mbc5Ram
            | CartridgeType::Mbc5RamBattery
            | CartridgeType::Mbc5Rumble
            | CartridgeType::Mbc5RumbleRam
            | CartridgeType::Mbc5RumbleRamBattery => Family::Mbc5,
            _ => Family::Other,
        }
    }

    /// Whether the cartridge RAM is kept alive by a battery.
    pub open spec fn has_battery(self) -> bool {
        matches!(
            self,
            CartridgeType::RomRamBattery
                | CartridgeType::Mbc1RamBattery
                | CartridgeType::Mbc3RamBattery
                | CartridgeType::Mbc3TimerRamBattery
                | CartridgeType::Mbc4RamBattery
                | CartridgeType::Mbc5RamBattery
                | CartridgeType::Mbc5RumbleRamBattery
        )
    }

    /// Whether the cartridge carries a real-time clock.
    pub open spec fn has_rtc(self) -> bool {
        matches!(self, CartridgeType::Mbc3TimerBattery | CartridgeType::Mbc3TimerRamBattery)
    }

    #[verifier::when_used_as_spec(spec_family)]
    pub fn family(&self) -> (f: Family)
        ensures
            f == self.spec_family(),
    {
        match self {
            CartridgeType::Rom | CartridgeType::RomRam | CartridgeType::RomRamBattery => Family::Plain,
            CartridgeType::Mbc1 | CartridgeType::Mbc1Ram | CartridgeType::Mbc1RamBattery => Family::Mbc1,
            CartridgeType::Mbc2 | CartridgeType::Mbc2Battery => Family::Mbc2,
            CartridgeType::Mbc3
            | CartridgeType::Mbc3Ram
            | CartridgeType::Mbc3RamBattery
            | CartridgeType::Mbc3TimerBattery
            | CartridgeType::Mbc3TimerRamBattery => Family::Mbc3,
            CartridgeType::Mbc5
            | CartridgeType::Mbc5Ram
            | CartridgeType::Mbc5RamBattery
            | CartridgeType::Mbc5Rumble
            | CartridgeType::Mbc5RumbleRam
            | CartridgeType::Mbc5RumbleRamBattery => Family::Mbc5,
            _ => Family::Other,
        }
    }

    pub fn is_none(&self) -> (b: bool)
        ensures
            b == (self.spec_family() == Family::Plain),
    {
        match self {
            CartridgeType::Rom | CartridgeType::RomRam | CartridgeType::RomRamBattery => true,
            _ => false,
        }
    }

    pub fn is_mbc1(&self) -> (b: bool)
        ensures
            b == (self.spec_family() == Family::Mbc1),
    {
        match self {
            CartridgeType::Mbc1 | CartridgeType::Mbc1Ram | CartridgeType::Mbc1RamBattery => true,
            _ => false,
        }
    }

    pub fn is_mbc2(&self) -> (b: bool)
        ensures
            b == (self.spec_family() == Family::Mbc2),
    {
        match self {
            CartridgeType::Mbc2 | CartridgeType::Mbc2Battery => true,
            _ => false,
        }
    }

    pub fn is_mbc3(&self) -> (b: bool)
        ensures
            b == (self.spec_family() == Family::Mbc3),
    {
        match self {
            CartridgeType::Mbc3
            | CartridgeType::Mbc3Ram
            | CartridgeType::Mbc3RamBattery
            | CartridgeType::Mbc3TimerBattery
            | CartridgeType::Mbc3TimerRamBattery => true,
            _ => false,
        }
    }

    pub fn is_mbc4(&self) -> (b: bool)
        ensures
            b == (*self == CartridgeType::Mbc4 || *self == CartridgeType::Mbc4Ram || *self
                == CartridgeType::Mbc4RamBattery),
    {
        match self {
            CartridgeType::Mbc4 | CartridgeType::Mbc4Ram | CartridgeType::Mbc4RamBattery => true,
            _ => false,
        }
    }

    pub fn is_mbc5(&self) -> (b: bool)
        ensures
            b == (self.spec_family() == Family::Mbc5),
    {
        match self {
            CartridgeType::Mbc5
            | CartridgeType::Mbc5Ram
            | CartridgeType::Mbc5RamBattery
            | CartridgeType::Mbc5Rumble
            | CartridgeType::Mbc5RumbleRam
            | CartridgeType::Mbc5RumbleRamBattery => true,
            _ => false,
        }
    }

    pub fn is_battery_backed(&self) -> (b: bool)
        ensures
            b == self.has_battery(),
    {
        match self {
            CartridgeType::RomRamBattery
            | CartridgeType::Mbc1RamBattery
            | CartridgeType::Mbc3RamBattery
            | CartridgeType::Mbc3TimerRamBattery
            | CartridgeType::Mbc4RamBattery
            | CartridgeType::Mbc5RamBattery
            | CartridgeType::Mbc5RumbleRamBattery => true,
            _ => false,
        }
    }

    pub fn is_rtc(&self) -> (b: bool)
        ensures
            b == self.has_rtc(),
    {
        match self {
            CartridgeType::Mbc3TimerBattery | CartridgeType::Mbc3TimerRamBattery => true,
            _ => false,
        }
    }
}

impl TryFrom<u8> for CartridgeType {
    type Error = Error;

    fn try_from(val: u8) -> (r: Result<Self, Error>) {
        match val {
            0x00 => Ok(CartridgeType::Rom),
            0x01 => Ok(CartridgeType::Mbc1),
            0x02 => Ok(CartridgeType::Mbc1Ram),
            0x03 => Ok(CartridgeType::Mbc1RamBattery),
            0x05 => Ok(CartridgeType::Mbc2),
            0x06 => Ok(CartridgeType::Mbc2Battery),
            0x08 => Ok(CartridgeType::RomRam),
            0x09 => Ok(CartridgeType::RomRamBattery),
            0x0B => Ok(CartridgeType::Mmm01),
            0x0C => Ok(CartridgeType::Mmm01Ram),
            0x0D => Ok(CartridgeType::Mmm01RamBattery),
            0x0F => Ok(CartridgeType::Mbc3TimerBattery),
            0x10 => Ok(CartridgeType::Mbc3TimerRamBattery),
            0x11 => Ok(CartridgeType::Mbc3),
            0x12 => Ok(CartridgeType::Mbc3Ram),
            0x13 => Ok(CartridgeType::Mbc3RamBattery),
            0x15 => Ok(CartridgeType::Mbc4),
            0x16 => Ok(CartridgeType::Mbc4Ram),
            0x17 => Ok(CartridgeType::Mbc4RamBattery),
            0x19 => Ok(CartridgeType::Mbc5),
            0x1A => Ok(CartridgeType::Mbc5Ram),
            0x1B => Ok(CartridgeType::Mbc5RamBattery),
            0x1C => Ok(CartridgeType::Mbc5Rumble),
            0x1D => Ok(CartridgeType::Mbc5RumbleRam),
            0x1E => Ok(CartridgeType::Mbc5RumbleRamBattery),
            0xFC => Ok(CartridgeType::PocketCamera),
            0xFD => Ok(CartridgeType::BandaiTama5),
            0xFE => Ok(CartridgeType::HuC3),
            0xFF => Ok(CartridgeType::HuC1RamBattery),
            _ => Err(Error::InvalidValue { field: HeaderField::CartridgeType, value: val }),
        }
    }
}

impl TryFromSpecImpl<u8> for CartridgeType {
    open spec fn obeys_try_from_spec() -> bool {
        true
    }

    open spec fn try_from_spec(val: u8) -> Result<Self, Error> {
        CartridgeType::parse(val)
    }
}

/// Cartridge ROM: every bank in one vector, and the two banks that the
/// processor sees.
pub struct Rom {
    /// All banks, 16 KiB each, in order.
    pub data: Vec<u8>,
    /// Bank seen at 0x0000-0x3FFF; moves only on large MBC1 cartridges.
    pub active_bank_0: u16,
    /// Bank seen at 0x4000-0x7FFF.
    pub active_bank_1: u16,
    pub num_banks: u16,
    pub rom_size: RomSize,
}

/// What a [`Rom`] holds.
pub struct RomView {
    pub data: Seq<u8>,
    pub bank_low: u16,
    pub bank_high: u16,
    pub rom_size: RomSize,
}

impl RomView {
    /// Both bank indices are below the number of banks, and the data
    /// fills the banks exactly.
    pub open spec fn wf(self) -> bool {
        &&& self.data.len() == self.rom_size.bytes()
        &&& self.bank_low < self.rom_size.banks()
        &&& self.bank_high < self.rom_size.banks()
    }

    /// Index into `data` of the byte seen at `addr`.
    pub open spec fn offset(self, addr: u16) -> int {
        if addr < 0x4000 {
            self.bank_low * 16384 + addr
        } else {
            self.bank_high * 16384 + (addr - 0x4000)
        }
    }

    pub open spec fn read(self, addr: u16) -> u8 {
        self.data[self.offset(addr)]
    }

    /// A store into the byte seen at `addr`.
    pub open spec fn write(self, addr: u16, value: u8) -> RomView {
        RomView { data: self.data.update(self.offset(addr), value), ..self }
    }

    /// A ROM of the given size, filled with zero, banks 0 and 1 selected.
    pub open spec fn blank(rom_size: RomSize) -> RomView {
        RomView {
            data: Seq::new(rom_size.bytes(), |i: int| 0u8),
            bank_low: 0,
            bank_high: 1,
            rom_size,
        }
    }
}

impl View for Rom {
    type V = RomView;

    open spec fn view(&self) -> RomView {
        RomView {
            data: self.data@,
            bank_low: self.active_bank_0,
            bank_high: self.active_bank_1,
            rom_size: self.rom_size,
        }
    }
}

impl Rom {
    pub const BANK_SIZE: usize = 16384;

    pub const BASE_ADDR: u16 = 0x0000;

    pub const LAST_ADDR: u16 = 0x7FFF;

    pub open spec fn wf(&self) -> bool {
        &&& self@.wf()
        &&& self.num_banks == self.rom_size.banks()
    }

    /// Whether this ROM is well formed.
    pub fn is_wf(&self) -> (b: bool)
        ensures
            b == self.wf(),
    {
        let size = usize::from(self.rom_size);
        self.data.len() == size && self.num_banks as usize == size / Self::BANK_SIZE
            && self.active_bank_0 < self.num_banks && self.active_bank_1 < self.num_banks
    }

    pub fn new(rom_size: RomSize) -> (rom: Rom)
        ensures
            rom.wf(),
            rom@ == RomView::blank(rom_size),
    {
        let size = usize::from(rom_size);
        let num_banks = size / Self::BANK_SIZE;
        let rom = Self {
            data: vec![0u8; size],
            active_bank_0: 0,
            active_bank_1: 1,
            num_banks: num_banks as u16,
            rom_size,
        };
        assert(rom.data@ =~= Seq::new(rom_size.bytes(), |i: int| 0u8));
        rom
    }

    /// Fills the ROM from the front of `image`, the contents of a ROM
    /// file. An image shorter than the ROM is refused and changes nothing.
    pub fn load(&mut self, image: &[u8]) -> (r: Result<(), Error>)
        requires
            old(self).data@.len() == 0 || old(self).data@.len() == old(self).rom_size.bytes(),
            old(self).data@.len() == 0 ==> image@.len() == old(self).rom_size.bytes(),
        ensures
            r is Err <==> image@.len() < old(self).rom_size.bytes(),
            r is Err ==> *final(self) == *old(self) && r == Err::<(), Error>(
                Error::Io { expected: old(self).rom_size.bytes() as usize, found: image@.len() as usize },
            ),
            r is Ok ==> final(self)@ == (RomView {
                data: image@.subrange(0, old(self).rom_size.bytes() as int),
                ..old(self)@
            }) && final(self).num_banks == old(self).num_banks,
    {
        let size = usize::from(self.rom_size);
        if image.len() < size {
            return Err(Error::Io { expected: size, found: image.len() });
        }
        self.data = slice_to_vec(slice_subrange(image, 0, size));
        Ok(())
    }

    pub fn update_bank_0(&mut self, bank: u16)
        requires
            old(self).wf(),
            bank < old(self).rom_size.banks(),
        ensures
            final(self).wf(),
            final(self)@ == (RomView { bank_low: bank, ..old(self)@ }),
    {
        self.active_bank_0 = bank;
    }

    pub fn update_bank(&mut self, bank: u16)
        requires
            old(self).wf(),
            bank < old(self).rom_size.banks(),
        ensures
            final(self).wf(),
            final(self)@ == (RomView { bank_high: bank, ..old(self)@ }),
    {
        self.active_bank_1 = bank;
    }
}

impl MemoryRead<u16, u8> for Rom {
    open spec fn readable(&self, addr: u16) -> bool {
        self.wf() && addr <= 0x7FFF
    }

    open spec fn peek(&self, addr: u16) -> u8 {
        self@.read(addr)
    }

    fn read(&self, addr: u16) -> (value: u8) {
        let addr = addr as usize;
        if addr < 0x4000 {
            let bank_offset = self.active_bank_0 as usize * Self::BANK_SIZE;
            self.data[bank_offset + addr]
        } else {
            let addr = addr - 0x4000;
            let bank_offset = self.active_bank_1 as usize * Self::BANK_SIZE;
            self.data[bank_offset + addr]
        }
    }
}

/// Stores into the ROM image itself, for building one in memory; the bus
/// never writes here.
impl MemoryWrite<u16, u8> for Rom {
    open spec fn writable(&self, addr: u16, value: u8) -> bool {
        self.wf() && addr <= 0x7FFF
    }

    open spec fn written(&self, addr: u16, value: u8, after: &Self) -> bool {
        after.wf() && after@ == self@.write(addr, value)
    }

    fn write(&mut self, addr: u16, value: u8) {
        let addr = addr as usize;
        if addr < 0x4000 {
            let bank_offset = self.active_bank_0 as usize * Self::BANK_SIZE;
            self.data[bank_offset + addr] = value;
        } else {
            let addr = addr - 0x4000;
            let bank_offset = self.active_bank_1 as usize * Self::BANK_SIZE;
            self.data[bank_offset + addr] = value;
        }
    }
}

/// One byte on its way to the save file: `value` goes to byte `offset`.
#[derive(Clone, Copy, Debug, PartialEq, Eq, Structural)]
pub struct SaveWrite {
    pub offset: usize,
    pub value: u8,
}

/// The save image once `writes` have been carried to it, first to last.
pub open spec fn replay(image: Seq<u8>, writes: Seq<SaveWrite>) -> Seq<u8>
    decreases writes.len(),
{
    if writes.len() == 0 {
        image
    } else {
        replay(image, writes.drop_last()).update(writes.last().offset as int, writes.last().value)
    }
}

/// Carries `writes` to a save image held in memory, first to last.
pub fn write_through(image: &mut Vec<u8>, writes: &Vec<SaveWrite>)
    requires
        forall|i: int| 0 <= i < writes@.len() ==> (#[trigger] writes@[i]).offset < old(image)@.len(),
    ensures
        final(image)@ == replay(old(image)@, writes@),
{
    let mut i: usize = 0;
    assert(writes@.subrange(0, 0) =~= Seq::<SaveWrite>::empty());
    while i < writes.len()
        invariant
            i <= writes@.len(),
            image@.len() == old(image)@.len(),
            forall|k: int| 0 <= k < writes@.len() ==> (#[trigger] writes@[k]).offset < image@.len(),
            image@ == replay(old(image)@, writes@.subrange(0, i as int)),
        decreases writes@.len() - i,
    {
        let w = writes[i];
        assert(writes@.subrange(0, i + 1).drop_last() =~= writes@.subrange(0, i as int));
        image[w.offset] = w.value;
        i += 1;
    }
    assert(writes@.subrange(0, i as int) =~= writes@);
}

/// Cartridge RAM: every bank in one vector, the bank that the processor
/// sees, and the writes that the save file has not yet had.
pub struct Ram {
    /// All banks, 8 KiB each, in order.
    pub data: Vec<u8>,
    pub active_bank: u8,
    pub num_banks: u8,
    pub ram_size: RamSize,
    /// Whether a save file stands behind this RAM.
    pub battery: bool,
    /// Stores made since the save file was last brought up to date.
    pub unsaved: Vec<SaveWrite>,
}

/// What a cartridge [`Ram`] holds.
pub struct RamView {
    pub data: Seq<u8>,
    pub active_bank: u8,
    pub ram_size: RamSize,
    pub battery: bool,
    pub unsaved: Seq<SaveWrite>,
}

impl RamView {
    /// The RAM is present, the data fills it exactly, the bank index is
    /// below the number of banks, and every unsaved write lies inside.
    pub open spec fn wf(self) -> bool {
        &&& self.ram_size != RamSize::NotPresent
        &&& self.data.len() == self.ram_size.bytes()
        &&& self.active_bank < self.ram_size.banks()
        &&& forall|i: int|
            0 <= i < self.unsaved.len() ==> (#[trigger] self.unsaved[i]).offset < self.data.len()
    }

    /// Index into `data` of the byte seen at `addr`.
    pub open spec fn offset(self, addr: u16) -> int {
        self.active_bank * 8192 + (addr - 0xA000)
    }

    /// Whether `addr` lies in the RAM window and has a byte behind it.
    pub open spec fn mapped(self, addr: u16) -> bool {
        0xA000 <= addr <= 0xBFFF && self.offset(addr) < self.data.len()
    }

    pub open spec fn read(self, addr: u16) -> u8 {
        self.data[self.offset(addr)]
    }

    /// A store: the byte changes and, with a battery, joins the unsaved
    /// writes.
    pub open spec fn write(self, addr: u16, value: u8) -> RamView {
        RamView {
            data: self.data.update(self.offset(addr), value),
            unsaved: if self.battery {
                self.unsaved.push(SaveWrite { offset: self.offset(addr) as usize, value })
            } else {
                self.unsaved
            },
            ..self
        }
    }

    /// The bank that a request for `bank` selects.
    pub open spec fn masked(self, bank: u8) -> u8 {
        bank & ((self.ram_size.banks() - 1) as u8)
    }

    pub open spec fn set_bank(self, bank: u8) -> RamView {
        RamView { active_bank: self.masked(bank), ..self }
    }

    /// A RAM of the given size, filled with zero, without a battery.
    pub open spec fn blank(ram_size: RamSize) -> RamView {
        RamView {
            data: Seq::new(ram_size.bytes(), |i: int| 0u8),
            active_bank: 0,
            ram_size,
            battery: false,
            unsaved: Seq::empty(),
        }
    }

    /// What the save file is to hold once it is attached, `saved` being
    /// what it held before: with `overwrite` the RAM's contents; else its
    /// own, brought to the RAM's length.
    pub open spec fn save_image(self, saved: Seq<u8>, overwrite: bool) -> Seq<u8> {
        if overwrite {
            self.data
        } else {
            resized(saved, self.data.len() as int)
        }
    }

    /// A save file is attached. In `saved` stands what the file holds. It
    /// becomes the RAM's contents when it has the RAM's length and
    /// `overwrite` is not set; else the RAM keeps its own.
    pub open spec fn enable_battery(self, saved: Seq<u8>, overwrite: bool) -> RamView {
        RamView {
            data: if !overwrite && saved.len() == self.data.len() {
                saved
            } else {
                self.data
            },
            battery: true,
            unsaved: Seq::empty(),
            ..self
        }
    }
}

/// A save image cut or lengthened to `len` bytes, new bytes being zero.
pub open spec fn resized(image: Seq<u8>, len: int) -> Seq<u8> {
    Seq::new(
        len as nat,
        |i: int|
            if i < image.len() {
                image[i]
            } else {
                0u8
            },
    )
}

impl View for Ram {
    type V = RamView;

    open spec fn view(&self) -> RamView {
        RamView {
            data: self.data@,
            active_bank: self.active_bank,
            ram_size: self.ram_size,
            battery: self.battery,
            unsaved: self.unsaved@,
        }
    }
}

proof fn lemma_bank_mask(bank: u8, banks: u8)
    by (bit_vector)
    requires
        banks == 1 || banks == 4 || banks == 8 || banks == 16,
    ensures
        bank & ((banks - 1) as u8) < banks,
{
}

impl Ram {
    pub const BANK_SIZE: usize = 8192;

    pub const BASE_ADDR: u16 = 0xA000;

    pub const LAST_ADDR: u16 = 0xBFFF;

    pub open spec fn wf(&self) -> bool {
        &&& self@.wf()
        &&& self.num_banks == self.ram_size.banks()
    }

    /// Whether this RAM is well formed.
    pub fn is_wf(&self) -> (b: bool)
        ensures
            b == self.wf(),
    {
        let size = usize::from(self.ram_size);
        let banks = if size <= Self::BANK_SIZE {
            1
        } else {
            size / Self::BANK_SIZE
        };
        if self.ram_size == RamSize::NotPresent || self.data.len() != size || self.num_banks as usize
            != banks || self.active_bank >= self.num_banks {
            return false;
        }
        let mut i: usize = 0;
        while i < self.unsaved.len()
            invariant
                i <= self.unsaved@.len(),
                forall|k: int| 0 <= k < i ==> (#[trigger] self.unsaved@[k]).offset < self.data@.len(),
            decreases self.unsaved@.len() - i,
        {
            if self.unsaved[i].offset >= self.data.len() {
                assert(self@.unsaved[i as int].offset >= self@.data.len());
                return false;
            }
            i += 1;
        }
        true
    }

    /// A zeroed RAM of the given size; none where the cartridge has none.
    pub fn new(ram_size: RamSize) -> (ram: Option<Ram>)
        ensures
            ram is None <==> ram_size == RamSize::NotPresent,
            ram matches Some(r) ==> r.wf() && r@ == RamView::blank(ram_size),
    {
        match ram_size {
            RamSize::NotPresent => None,
            _ => {
                let size = usize::from(ram_size);
                let data = vec![0u8; size];
                let num_banks = if ram_size == RamSize::_2K {
                    1
                } else {
                    (size / Self::BANK_SIZE) as u8
                };
                let ram = Self {
                    data,
                    active_bank: 0,
                    num_banks,
                    ram_size,
                    battery: false,
                    unsaved: Vec::new(),
                };
                assert(ram.data@ =~= Seq::new(ram_size.bytes(), |i: int| 0u8));
                Some(ram)
            },
        }
    }

    /// Attaches the save file, whose contents stand in `saved`. With
    /// `overwrite` the RAM keeps what it holds, and the file is to take it
    /// over.
    pub fn enable_battery(&mut self, saved: &[u8], overwrite: bool)
        requires
            old(self).wf(),
        ensures
            final(self).wf(),
            final(self)@ == old(self)@.enable_battery(saved@, overwrite),
    {
        if !overwrite && saved.len() == self.data.len() {
            self.data = slice_to_vec(saved);
        }
        self.battery = true;
        self.unsaved = Vec::new();
    }

    /// What the save file is to hold once it is attached, `saved` being
    /// what it held before.
    pub fn save_image(&self, saved: &[u8], overwrite: bool) -> (image: Vec<u8>)
        requires
            self.wf(),
        ensures
            image@ == self@.save_image(saved@, overwrite),
    {
        let mut image: Vec<u8> = Vec::new();
        let mut i: usize = 0;
        while i < self.data.len()
            invariant
                i <= self.data@.len(),
                image@.len() == i,
                forall|k: int|
                    0 <= k < i ==> image@[k] == (if overwrite {
                        self.data@[k]
                    } else if k < saved@.len() {
                        saved@[k]
                    } else {
                        0u8
                    }),
            decreases self.data@.len() - i,
        {
            if overwrite {
                image.push(self.data[i]);
            } else if i < saved.len() {
                image.push(saved[i]);
            } else {
                image.push(0);
            }
            i += 1;
        }
        assert(image@ =~= self@.save_image(saved@, overwrite));
        image
    }

    /// Handle a bank change request.
    pub fn set_bank(&mut self, bank: u8)
        requires
            old(self).wf(),
        ensures
            final(self).wf(),
            final(self)@ == old(self)@.set_bank(bank),
    {
        proof {
            lemma_bank_mask(bank, self.num_banks);
        }
        self.active_bank = bank & (self.num_banks - 1);
    }

    /// Hands out the writes that the save file has not yet had, first to
    /// last, and keeps none.
    pub fn take_unsaved(&mut self) -> (writes: Vec<SaveWrite>)
        requires
            old(self).wf(),
        ensures
            final(self).wf(),
            writes@ == old(self)@.unsaved,
            final(self)@ == (RamView { unsaved: Seq::empty(), ..old(self)@ }),
    {
        let mut writes: Vec<SaveWrite> = Vec::new();
        std::mem::swap(&mut self.unsaved, &mut writes);
        writes
    }
}

impl MemoryRead<u16, u8> for Ram {
    open spec fn readable(&self, addr: u16) -> bool {
        self.wf() && self@.mapped(addr)
    }

    open spec fn peek(&self, addr: u16) -> u8 {
        self@.read(addr)
    }

    /// Read a byte of data from the current active bank.
    fn read(&self, addr: u16) -> (value: u8) {
        let addr = (addr - Self::BASE_ADDR) as usize;
        let bank_offset = self.active_bank as usize * Self::BANK_SIZE;
        self.data[bank_offset + addr]
    }
}

impl MemoryWrite<u16, u8> for Ram {
    open spec fn writable(&self, addr: u16, value: u8) -> bool {
        self.wf() && self@.mapped(addr)
    }

    open spec fn written(&self, addr: u16, value: u8, after: &Self) -> bool {
        after.wf() && after@ == self@.write(addr, value)
    }

    /// Write a byte of data to the current active bank.
    fn write(&mut self, addr: u16, value: u8) {
        let addr = (addr - Self::BASE_ADDR) as usize;
        let bank_offset = self.active_bank as usize * Self::BANK_SIZE;
        let index = bank_offset + addr;
        self.data[index] = value;
        if self.battery {
            self.unsaved.push(SaveWrite { offset: index, value });
        }
    }
}

/// Once a save file is attached with `overwrite`, or one of the RAM's own
/// length without, the file and the RAM hold the same, and no write is
/// unsaved.
pub proof fn lemma_attached_save_is_ram(ram: RamView, saved: Seq<u8>, overwrite: bool)
    requires
        ram.wf(),
        overwrite || saved.len() == ram.data.len(),
    ensures
        ram.save_image(saved, overwrite) == ram.enable_battery(saved, overwrite).data,
        replay(
            ram.save_image(saved, overwrite),
            ram.enable_battery(saved, overwrite).unsaved,
        ) == ram.enable_battery(saved, overwrite).data,
{
    assert(ram.save_image(saved, overwrite) =~= ram.enable_battery(saved, overwrite).data);
}

/// While the save file is brought up to date with the unsaved writes, it
/// follows the RAM: if the image with the unsaved writes carried to it is
/// what the RAM holds, the same is true after a store.
pub proof fn lemma_save_follows_ram(ram: RamView, image: Seq<u8>, addr: u16, value: u8)
    requires
        ram.wf(),
        ram.battery,
        ram.mapped(addr),
        replay(image, ram.unsaved) == ram.data,
    ensures
        replay(image, ram.write(addr, value).unsaved) == ram.write(addr, value).data,
{
    let w = SaveWrite { offset: ram.offset(addr) as usize, value };
    assert(ram.unsaved.push(w).drop_last() =~= ram.unsaved);
}

/// The boot program, seen at 0x0000-0x00FF until it is switched off.
pub struct BootRom {
    pub data: [u8; 256],
}

impl BootRom {
    pub const BASE_ADDR: u16 = 0x0000;

    pub const LAST_ADDR: u16 = 0x00FF;

    pub fn new(data: [u8; 256]) -> (boot: BootRom)
        ensures
            boot.data == data,
    {
        Self { data }
    }
}

impl MemoryRead<u16, u8> for BootRom {
    open spec fn readable(&self, addr: u16) -> bool {
        addr <= 0x00FF
    }

    open spec fn peek(&self, addr: u16) -> u8 {
        self.data[addr as int]
    }

    fn read(&self, addr: u16) -> (value: u8) {
        let addr = addr as usize;
        self.data[addr]
    }
}

/// Cartridge ROM + RAM controller.
pub struct Controller {
    /// Boot ROM.
    pub boot_rom: Option<BootRom>,
    /// Cartridge ROM.
    pub rom: Rom,
    /// Cartridge RAM.
    pub ram: Option<Ram>,
    pub rom_size: RomSize,
    pub ram_size: RamSize,
    pub cartridge_type: CartridgeType,
    /// Real-time clock.
    pub rtc: Option<Rtc>,
    /// If `true`, the clock is mapped into the cartridge RAM window.
    pub rtc_active: bool,
    /// Banking mode of an MBC1: simple is `false`, advanced is `true`.
    pub banking_mode: bool,
    /// RAM and clock enable flag: if `false`, writes to the window are
    /// ignored.
    pub ram_enable: bool,
    /// The two-bit RAM/ROM bank register of an MBC1.
    pub ram_rom_bank: u8,
}

/// What a [`Controller`] holds.
pub struct ControllerView {
    pub boot_rom: Option<Seq<u8>>,
    pub rom: RomView,
    pub ram: Option<RamView>,
    pub rom_size: RomSize,
    pub ram_size: RamSize,
    pub cartridge_type: CartridgeType,
    pub rtc: Option<Rtc>,
    pub rtc_active: bool,
    pub banking_mode: bool,
    pub ram_enable: bool,
    pub ram_rom_bank: u8,
}

/// A bank number with zero read as one.
pub open spec fn nonzero(bank: u8) -> u8 {
    if bank == 0 {
        1
    } else {
        bank
    }
}

impl ControllerView {
    /// The stores are well formed and of the sizes that the controller
    /// goes by, RAM is there exactly when its size says so, and the clock
    /// is mapped only where there is one.
    pub open spec fn wf(self) -> bool {
        &&& self.rom.wf()
        &&& self.rom.rom_size == self.rom_size
        &&& self.ram is Some <==> self.ram_size != RamSize::NotPresent
        &&& self.ram matches Some(ram) ==> ram.wf() && ram.ram_size == self.ram_size
        &&& self.rtc matches Some(rtc) ==> rtc.wf()
        &&& self.rtc_active ==> self.rtc is Some
        &&& self.ram_rom_bank < 4
        &&& self.boot_rom matches Some(boot) ==> boot.len() == 256
    }

    /// RAM of 32 KiB or more.
    pub open spec fn large_ram(self) -> bool {
        self.ram_size.bytes() >= 32768
    }

    /// ROM of 1 MiB or more.
    pub open spec fn large_rom(self) -> bool {
        self.rom_size.bytes() >= 1048576
    }

    /// The ROM banks seen at 0x0000 and at 0x4000 once `value` is written
    /// to `addr`.
    pub open spec fn banks_after(self, addr: u16, value: u8) -> (u16, u16) {
        let low = self.rom.bank_low;
        let high = self.rom.bank_high;
        match self.cartridge_type.spec_family() {
            Family::Mbc1 => {
                if 0x2000 <= addr <= 0x3FFF {
                    (low, (high & 0x60) | (nonzero(value & 0x1F) as u16))
                } else if 0x4000 <= addr <= 0x5FFF && self.ram_size != RamSize::_32K
                    && self.large_rom() {
                    if !self.banking_mode {
                        (low, (high & 0x1F) | (((value & 0x03) as u16) << 5))
                    } else {
                        (((value & 0x03) as u16) << 5, high)
                    }
                } else {
                    (low, high)
                }
            },
            Family::Mbc2 => {
                if addr <= 0x3FFF && (addr >> 8) & 1 == 1 {
                    (low, nonzero(value & 0x0F) as u16)
                } else {
                    (low, high)
                }
            },
            Family::Mbc3 => {
                if 0x2000 <= addr <= 0x3FFF {
                    (low, nonzero(value & 0x7F) as u16)
                } else {
                    (low, high)
                }
            },
            Family::Mbc5 => {
                if 0x2000 <= addr <= 0x2FFF {
                    (low, (high & 0xFF00) | (value as u16))
                } else if 0x3000 <= addr <= 0x3FFF {
                    (low, (high & 0x00FF) | (((value & 0x01) as u16) << 8))
                } else {
                    (low, high)
                }
            },
            _ => (low, high),
        }
    }

    /// Whether a write of `value` to `addr` selects banks that the ROM
    /// has. A write that does not is an error of the program that runs.
    pub open spec fn accepts(self, addr: u16, value: u8) -> bool {
        &&& self.banks_after(addr, value).0 < self.rom_size.banks()
        &&& self.banks_after(addr, value).1 < self.rom_size.banks()
    }

    /// The RAM with `bank` requested, where there is RAM.
    pub open spec fn ram_banked(self, bank: u8) -> Option<RamView> {
        match self.ram {
            Some(ram) => Some(ram.set_bank(bank)),
            None => None,
        }
    }

    /// What a control write does to an MBC1 besides moving ROM banks.
    pub open spec fn mbc1(self, addr: u16, value: u8) -> ControllerView {
        if addr <= 0x1FFF {
            ControllerView { ram_enable: value & 0x0F == 0x0A, ..self }
        } else if addr <= 0x3FFF {
            self
        } else if addr <= 0x5FFF {
            ControllerView {
                ram_rom_bank: value & 0x03,
                ram: if self.ram_size == RamSize::_32K {
                    self.ram_banked(value & 0x03)
                } else {
                    self.ram
                },
                ..self
            }
        } else if !self.large_ram() && !self.large_rom() {
            self
        } else {
            let advanced = value & 0x01 != 0;
            ControllerView {
                banking_mode: advanced,
                ram: if self.ram_enable && self.large_ram() && advanced {
                    self.ram_banked(self.ram_rom_bank)
                } else {
                    self.ram
                },
                ..self
            }
        }
    }

    /// What a control write does to an MBC2 besides moving ROM banks.
    pub open spec fn mbc2(self, addr: u16, value: u8) -> ControllerView {
        if addr <= 0x3FFF && (addr >> 8) & 1 == 0 {
            ControllerView { ram_enable: value & 0x0F == 0x0A, ..self }
        } else {
            self
        }
    }

    /// What a control write does to an MBC3 besides moving ROM banks.
    pub open spec fn mbc3(self, addr: u16, value: u8) -> ControllerView {
        if addr <= 0x1FFF {
            ControllerView { ram_enable: value == 0x0A, ..self }
        } else if addr <= 0x3FFF {
            self
        } else if addr <= 0x5FFF {
            let select = value & 0x0F;
            if select <= 0x03 {
                ControllerView { ram: self.ram_banked(select), rtc_active: false, ..self }
            } else if 0x08 <= select <= 0x0C {
                match self.rtc {
                    Some(rtc) => ControllerView {
                        rtc: Some(rtc.after_select(select)),
                        rtc_active: true,
                        ..self
                    },
                    None => self,
                }
            } else {
                self
            }
        } else {
            match self.rtc {
                Some(rtc) => ControllerView { rtc: Some(rtc.after_latch(value)), ..self },
                None => self,
            }
        }
    }

    /// What a control write does to an MBC5 besides moving ROM banks.
    pub open spec fn mbc5(self, addr: u16, value: u8) -> ControllerView {
        if addr <= 0x1FFF {
            ControllerView { ram_enable: value == 0x0A, ..self }
        } else if 0x4000 <= addr <= 0x5FFF {
            ControllerView { ram: self.ram_banked(value & 0x0F), ..self }
        } else {
            self
        }
    }

    /// A write to 0x0000-0x7FFF: a control signal, read by the rules of
    /// the cartridge's controller chip.
    pub open spec fn control(self, addr: u16, value: u8) -> ControllerView {
        let banks = self.banks_after(addr, value);
        let banked = ControllerView {
            rom: RomView { bank_low: banks.0, bank_high: banks.1, ..self.rom },
            ..self
        };
        match self.cartridge_type.spec_family() {
            Family::Mbc1 => banked.mbc1(addr, value),
            Family::Mbc2 => banked.mbc2(addr, value),
            Family::Mbc3 => banked.mbc3(addr, value),
            Family::Mbc5 => banked.mbc5(addr, value),
            _ => banked,
        }
    }

    /// The byte that a store of `value` leaves in RAM: an MBC2 keeps the
    /// low four bits.
    pub open spec fn stored(self, value: u8) -> u8 {
        if self.cartridge_type.spec_family() == Family::Mbc2 {
            value & 0x0F
        } else {
            value
        }
    }

    /// Whether RAM answers at `addr`: it is there, enabled, and has a
    /// byte behind the address.
    pub open spec fn ram_answers(self, addr: u16) -> bool {
        self.ram_enable && (self.ram matches Some(ram) && ram.mapped(addr))
    }

    /// A write to 0xA000-0xBFFF: nothing while the enable flag is off;
    /// else to the clock where it is mapped, else to RAM where it
    /// answers.
    pub open spec fn store(self, addr: u16, value: u8) -> ControllerView {
        if !self.ram_enable {
            self
        } else if self.rtc_active {
            match self.rtc {
                Some(rtc) => ControllerView { rtc: Some(rtc.after_write(value)), ..self },
                None => self,
            }
        } else {
            match self.ram {
                Some(ram) => if ram.mapped(addr) {
                    ControllerView { ram: Some(ram.write(addr, self.stored(value))), ..self }
                } else {
                    self
                },
                None => self,
            }
        }
    }

    /// The controller once `value` is written to `addr`. Writes outside
    /// 0x0000-0x7FFF and 0xA000-0xBFFF change nothing.
    pub open spec fn write(self, addr: u16, value: u8) -> ControllerView {
        if addr <= 0x7FFF {
            self.control(addr, value)
        } else if 0xA000 <= addr <= 0xBFFF {
            self.store(addr, value)
        } else {
            self
        }
    }

    /// The byte read at `addr`, in 0x0000-0x7FFF or 0xA000-0xBFFF. In the
    /// RAM window the mapped clock register answers first, then RAM; with
    /// neither the bus is open and reads 0xFF. The upper four bits of an
    /// MBC2's RAM read as ones.
    pub open spec fn read(self, addr: u16) -> u8 {
        if addr <= 0x7FFF {
            self.rom.read(addr)
        } else if self.rtc_active && self.rtc is Some {
            self.rtc->0.value()
        } else if self.ram_answers(addr) {
            if self.cartridge_type.spec_family() == Family::Mbc2 {
                self.ram->0.read(addr) | 0xF0
            } else {
                self.ram->0.read(addr)
            }
        } else {
            0xFF
        }
    }

    /// How `load` ends: with an image shorter than the ROM, an I/O error;
    /// else with a battery-backed type and no RAM, or a clock type and no
    /// clock, the store that is missing; else well.
    pub open spec fn load_result(self, image: Seq<u8>) -> Result<(), Error> {
        if image.len() < self.rom.rom_size.bytes() {
            Err(
                Error::Io {
                    expected: self.rom.rom_size.bytes() as usize,
                    found: image.len() as usize,
                },
            )
        } else if self.cartridge_type.has_battery() && self.ram is None {
            Err(Error::InvalidState { missing: Store::Ram })
        } else if self.cartridge_type.has_rtc() && self.rtc is None {
            Err(Error::InvalidState { missing: Store::Rtc })
        } else {
            Ok(())
        }
    }

    /// What `load` leaves: nothing changed by an image shorter than the
    /// ROM; else the ROM filled from the image and, with a
    /// battery-backed type, the RAM attached to its save file.
    pub open spec fn loaded(self, image: Seq<u8>) -> ControllerView {
        if image.len() < self.rom.rom_size.bytes() {
            self
        } else {
            ControllerView {
                rom: RomView { data: image.subrange(0, self.rom.rom_size.bytes() as int), ..self.rom },
                ram: match self.ram {
                    Some(ram) => if self.cartridge_type.has_battery() {
                        Some(ram.enable_battery(Seq::empty(), true))
                    } else {
                        Some(ram)
                    },
                    None => None,
                },
                ..self
            }
        }
    }

    /// The default controller: an MBC1 with 32 KiB of ROM and 8 KiB of
    /// RAM, all zero.
    pub open spec fn default_state() -> ControllerView {
        ControllerView {
            boot_rom: None,
            rom: RomView::blank(RomSize::_32K),
            ram: Some(RamView::blank(RamSize::_8K)),
            rom_size: RomSize::_32K,
            ram_size: RamSize::_8K,
            cartridge_type: CartridgeType::Mbc1,
            rtc: None,
            rtc_active: false,
            banking_mode: false,
            ram_enable: false,
            ram_rom_bank: 0,
        }
    }

    /// The controller with its RAM taken out and put in anew, zeroed.
    pub open spec fn reset(self) -> ControllerView {
        ControllerView {
            ram: if self.ram_size == RamSize::NotPresent {
                None
            } else {
                Some(RamView::blank(self.ram_size))
            },
            ..self
        }
    }
}

impl View for Controller {
    type V = ControllerView;

    open spec fn view(&self) -> ControllerView {
        ControllerView {
            boot_rom: match self.boot_rom {
                Some(boot) => Some(boot.data@),
                None => None,
            },
            rom: self.rom@,
            ram: match self.ram {
                Some(ram) => Some(ram@),
                None => None,
            },
            rom_size: self.rom_size,
            ram_size: self.ram_size,
            cartridge_type: self.cartridge_type,
            rtc: self.rtc,
            rtc_active: self.rtc_active,
            banking_mode: self.banking_mode,
            ram_enable: self.ram_enable,
            ram_rom_bank: self.ram_rom_bank,
        }
    }
}

proof fn lemma_low_bits(value: u8)
    by (bit_vector)
    ensures
        value & 0x03 < 4,
        value & 0x0F < 16,
{
}

impl Controller {
    pub open spec fn wf(&self) -> bool {
        &&& self@.wf()
        &&& self.rom.wf()
        &&& self.ram matches Some(ram) ==> ram.wf()
    }

    /// Whether this controller is well formed.
    pub fn is_wf(&self) -> (b: bool)
        ensures
            b == self.wf(),
    {
        let ram_ok = match &self.ram {
            Some(ram) => ram.is_wf() && ram.ram_size == self.ram_size,
            None => self.ram_size == RamSize::NotPresent,
        };
        let rtc_ok = match &self.rtc {
            Some(rtc) => rtc.is_wf(),
            None => !self.rtc_active,
        };
        self.rom.is_wf() && self.rom.rom_size == self.rom_size && ram_ok && rtc_ok
            && self.ram_rom_bank < 4
    }

    /// Create a default controller.
    pub fn new() -> (controller: Controller)
        ensures
            controller.wf(),
            controller@ == ControllerView::default_state(),
    {
        let rom_size = RomSize::_32K;
        let ram_size = RamSize::_8K;
        Self {
            boot_rom: None,
            rom: Rom::new(rom_size),
            ram: Ram::new(ram_size),
            rom_size,
            ram_size,
            cartridge_type: CartridgeType::Mbc1,
            rtc: None,
            rtc_active: false,
            banking_mode: false,
            ram_enable: false,
            ram_rom_bank: 0,
        }
    }

    /// Reset this controller: ROM remains unchanged, RAM is reset.
    pub fn reset(&mut self)
        requires
            old(self).wf(),
        ensures
            final(self).wf(),
            final(self)@ == old(self)@.reset(),
    {
        self.ram = Ram::new(self.ram_size);
    }

    /// Create a controller from a `Cartridge`.
    pub fn from_cartridge(cartridge: Cartridge) -> (r: Result<Controller, Error>)
        ensures
            match r {
                Ok(controller) => cartridge.fault() is None && controller.wf() && controller@
                    == cartridge.controller(),
                Err(e) => cartridge.fault() == Some(e),
            },
    {
        let cartridge_type = match cartridge.cartridge_type() {
            Ok(cartridge_type) => cartridge_type,
            Err(e) => {
                return Err(e);
            },
        };
        let rom_size = match cartridge.rom_size() {
            Ok(rom_size) => rom_size,
            Err(e) => {
                return Err(e);
            },
        };
        let ram_size = match cartridge.ram_size() {
            Ok(ram_size) => ram_size,
            Err(e) => {
                return Err(e);
            },
        };
        let rom = match cartridge.rom() {
            Ok(rom) => rom,
            Err(e) => {
                return Err(e);
            },
        };
        let mut ram = Ram::new(ram_size);
        if cartridge_type.is_battery_backed() {
            match &mut ram {
                Some(ram) => {
                    ram.enable_battery(cartridge.save.as_slice(), false);
                },
                None => {},
            }
        }
        let rtc = if cartridge_type.is_rtc() {
            let mut rtc = Rtc::new();
            rtc.restore(cartridge.clock.as_slice());
            Some(rtc)
        } else {
            None
        };
        Ok(
            Self {
                boot_rom: cartridge.boot_rom,
                rom,
                ram,
                rom_size,
                ram_size,
                cartridge_type,
                rtc,
                rtc_active: false,
                banking_mode: false,
                ram_enable: false,
                ram_rom_bank: 0,
            },
        )
    }

    /// Puts the ROM back into a controller that was restored without it,
    /// from the front of `image`, and sees that the stores which the
    /// cartridge type calls for are there. A battery-backed RAM keeps what
    /// it holds, for the save file to take over.
    pub fn load(&mut self, image: &[u8]) -> (r: Result<(), Error>)
        requires
            old(self).rom.data@.len() == 0 || old(self).rom.data@.len() == old(
                self,
            ).rom.rom_size.bytes(),
            old(self).rom.data@.len() == 0 ==> image@.len() == old(self).rom.rom_size.bytes(),
            old(self).ram matches Some(ram) ==> ram.wf(),
        ensures
            r == old(self)@.load_result(image@),
            final(self)@ == old(self)@.loaded(image@),
            final(self).rom.num_banks == old(self).rom.num_banks,
            final(self).ram matches Some(ram) ==> ram.wf(),
    {
        match self.rom.load(image) {
            Ok(()) => {},
            Err(e) => {
                return Err(e);
            },
        }
        if self.cartridge_type.is_battery_backed() {
            match &mut self.ram {
                Some(ram) => {
                    let none: Vec<u8> = Vec::new();
                    ram.enable_battery(none.as_slice(), true);
                },
                None => {
                    return Err(Error::InvalidState { missing: Store::Ram });
                },
            }
        }
        if self.cartridge_type.is_rtc() && self.rtc.is_none() {
            return Err(Error::InvalidState { missing: Store::Rtc });
        }
        Ok(())
    }

    /// The ROM banks that a write would select.
    pub fn banks_after(&self, addr: u16, value: u8) -> (banks: (u16, u16))
        ensures
            banks == self@.banks_after(addr, value),
    {
        let low = self.rom.active_bank_0;
        let high = self.rom.active_bank_1;
        match self.cartridge_type.family() {
            Family::Mbc1 => {
                if 0x2000 <= addr && addr <= 0x3FFF {
                    let bank = value & 0x1F;
                    let bank = if bank == 0 {
                        1
                    } else {
                        bank
                    };
                    (low, (high & 0x60) | (bank as u16))
                } else if 0x4000 <= addr && addr <= 0x5FFF && self.ram_size != RamSize::_32K
                    && usize::from(self.rom_size) >= 1048576 {
                    if !self.banking_mode {
                        (low, (high & 0x1F) | (((value & 0x03) as u16) << 5))
                    } else {
                        (((value & 0x03) as u16) << 5, high)
                    }
                } else {
                    (low, high)
                }
            },
            Family::Mbc2 => {
                if addr <= 0x3FFF && (addr >> 8) & 1 == 1 {
                    let bank = value & 0x0F;
                    let bank = if bank == 0 {
                        1
                    } else {
                        bank
                    };
                    (low, bank as u16)
                } else {
                    (low, high)
                }
            },
            Family::Mbc3 => {
                if 0x2000 <= addr && addr <= 0x3FFF {
                    let bank = value & 0x7F;
                    let bank = if bank == 0 {
                        1
                    } else {
                        bank
                    };
                    (low, bank as u16)
                } else {
                    (low, high)
                }
            },
            Family::Mbc5 => {
                if 0x2000 <= addr && addr <= 0x2FFF {
                    (low, (high & 0xFF00) | (value as u16))
                } else if 0x3000 <= addr && addr <= 0x3FFF {
                    (low, (high & 0x00FF) | (((value & 0x01) as u16) << 8))
                } else {
                    (low, high)
                }
            },
            _ => (low, high),
        }
    }

    /// Whether a write of `value` to `addr` selects ROM banks that exist.
    pub fn accepts(&self, addr: u16, value: u8) -> (b: bool)
        requires
            self.wf(),
        ensures
            b == self@.accepts(addr, value),
    {
        let banks = self.banks_after(addr, value);
        banks.0 < self.rom.num_banks && banks.1 < self.rom.num_banks
    }

    fn set_ram_bank(&mut self, bank: u8)
        requires
            old(self).wf(),
        ensures
            final(self).wf(),
            final(self)@ == (ControllerView { ram: old(self)@.ram_banked(bank), ..old(self)@ }),
    {
        match &mut self.ram {
            Some(ram) => {
                ram.set_bank(bank);
            },
            None => {},
        }
    }

    fn write_mbc1(&mut self, addr: u16, value: u8)
        requires
            old(self).wf(),
            addr <= 0x7FFF,
        ensures
            final(self).wf(),
            final(self)@ == old(self)@.mbc1(addr, value),
    {
        if addr <= 0x1FFF {
            self.ram_enable = value & 0x0F == 0x0A;
        } else if addr <= 0x3FFF {
        } else if addr <= 0x5FFF {
            let bank = value & 0x03;
            proof {
                lemma_low_bits(value);
            }
            if self.ram_size == RamSize::_32K {
                self.set_ram_bank(bank);
            }
            self.ram_rom_bank = bank;
        } else {
            let large_ram = usize::from(self.ram_size) >= 32768;
            let large_rom = usize::from(self.rom_size) >= 1048576;
            if !large_ram && !large_rom {
                return ;
            }
            let advanced = value & 0x01 != 0;
            if self.ram_enable && large_ram && advanced {
                self.set_ram_bank(self.ram_rom_bank);
            }
            self.banking_mode = advanced;
        }
    }

    fn write_mbc2(&mut self, addr: u16, value: u8)
        requires
            old(self).wf(),
            addr <= 0x7FFF,
        ensures
            final(self).wf(),
            final(self)@ == old(self)@.mbc2(addr, value),
    {
        if addr <= 0x3FFF && (addr >> 8) & 1 == 0 {
            self.ram_enable = value & 0x0F == 0x0A;
        }
    }

    fn write_mbc3(&mut self, addr: u16, value: u8)
        requires
            old(self).wf(),
            addr <= 0x7FFF,
        ensures
            final(self).wf(),
            final(self)@ == old(self)@.mbc3(addr, value),
    {
        if addr <= 0x1FFF {
            self.ram_enable = value == 0x0A;
        } else if addr <= 0x3FFF {
        } else if addr <= 0x5FFF {
            let select = value & 0x0F;
            if select <= 0x03 {
                self.set_ram_bank(select);
                self.rtc_active = false;
            } else if 0x08 <= select && select <= 0x0C {
                match &mut self.rtc {
                    Some(rtc) => {
                        rtc.select(select);
                        self.rtc_active = true;
                    },
                    None => {},
                }
            }
        } else {
            match &mut self.rtc {
                Some(rtc) => {
                    rtc.latch(value);
                },
                None => {},
            }
        }
    }

    fn write_mbc5(&mut self, addr: u16, value: u8)
        requires
            old(self).wf(),
            addr <= 0x7FFF,
        ensures
            final(self).wf(),
            final(self)@ == old(self)@.mbc5(addr, value),
    {
        if addr <= 0x1FFF {
            self.ram_enable = value == 0x0A;
        } else if 0x4000 <= addr && addr <= 0x5FFF {
            self.set_ram_bank(value & 0x0F);
        }
    }

    fn write_store(&mut self, addr: u16, value: u8)
        requires
            old(self).wf(),
            0xA000 <= addr <= 0xBFFF,
        ensures
            final(self).wf(),
            final(self)@ == old(self)@.store(addr, value),
    {
        if !self.ram_enable {
            return ;
        }
        if self.rtc_active {
            match &mut self.rtc {
                Some(rtc) => {
                    rtc.write(value);
                },
                None => {},
            }
        } else {
            let stored = if self.cartridge_type.is_mbc2() {
                value & 0x0F
            } else {
                value
            };
            match &mut self.ram {
                Some(ram) => {
                    let offset = ram.active_bank as usize * Ram::BANK_SIZE + (addr - Ram::BASE_ADDR) as usize;
                    if offset < ram.data.len() {
                        ram.write(addr, stored);
                    }
                },
                None => {},
            }
        }
    }
}

impl MemoryRead<u16, u8> for Controller {
    open spec fn readable(&self, addr: u16) -> bool {
        self.wf() && (addr <= 0x7FFF || 0xA000 <= addr <= 0xBFFF)
    }

    open spec fn peek(&self, addr: u16) -> u8 {
        self@.read(addr)
    }

    fn read(&self, addr: u16) -> (value: u8) {
        if addr <= Rom::LAST_ADDR {
            return self.rom.read(addr);
        }
        if self.rtc_active {
            match &self.rtc {
                Some(rtc) => {
                    return rtc.read();
                },
                None => {},
            }
        }
        if self.ram_enable {
            match &self.ram {
                Some(ram) => {
                    let offset = ram.active_bank as usize * Ram::BANK_SIZE + (addr - Ram::BASE_ADDR) as usize;
                    if offset < ram.data.len() {
                        let byte: u8 = ram.read(addr);
                        if self.cartridge_type.is_mbc2() {
                            return byte | 0xF0;
                        } else {
                            return byte;
                        }
                    }
                },
                None => {},
            }
        }
        0xFF
    }
}

impl MemoryWrite<u16, u8> for Controller {
    open spec fn writable(&self, addr: u16, value: u8) -> bool {
        self.wf() && self@.accepts(addr, value)
    }

    open spec fn written(&self, addr: u16, value: u8, after: &Self) -> bool {
        after.wf() && after@ == self@.write(addr, value)
    }

    /// Handle ROM and RAM bank changes as well as regular writes to
    /// cartridge RAM.
    fn write(&mut self, addr: u16, value: u8) {
        if addr <= Rom::LAST_ADDR {
            let banks = self.banks_after(addr, value);
            self.rom.update_bank_0(banks.0);
            self.rom.update_bank(banks.1);
            match self.cartridge_type.family() {
                Family::Mbc1 => self.write_mbc1(addr, value),
                Family::Mbc2 => self.write_mbc2(addr, value),
                Family::Mbc3 => self.write_mbc3(addr, value),
                Family::Mbc5 => self.write_mbc5(addr, value),
                _ => {},
            }
        } else if Ram::BASE_ADDR <= addr && addr <= Ram::LAST_ADDR {
            self.write_store(addr, value);
        }
    }
}

/// The error of [`core::str::from_utf8`]; nothing is read from it.
#[verifier::external_type_specification]
#[verifier::external_body]
pub struct ExUtf8Error(core::str::Utf8Error);

/// [`core::str::from_utf8`] gives the text exactly when the bytes are
/// UTF-8, and the text is then made of those bytes.
pub assume_specification[ core::str::from_utf8 ](v: &[u8]) -> (r: Result<
    &str,
    core::str::Utf8Error,
>)
    ensures
        r is Ok <==> valid_utf8(v@),
        r matches Ok(text) ==> text.spec_bytes() == v@,
;

/// A cartridge as read from disk: the ROM file with the header found in
/// it, and what the files beside it hold.
pub struct Cartridge {
    /// The ROM file's contents.
    pub image: Vec<u8>,
    /// The boot program to run before the game, if any.
    pub boot_rom: Option<BootRom>,
    /// Cartridge header, bytes 0x100-0x14F of the ROM file.
    pub header: [u8; 80],
    /// The save file's contents; empty where there is none.
    pub save: Vec<u8>,
    /// The saved clock's bytes; empty where there are none.
    pub clock: Vec<u8>,
}

/// The byte at `index` of the header found in a ROM image: zero past
/// the image's end.
pub open spec fn header_byte(image: Seq<u8>, index: int) -> u8 {
    if 0x100 + index < image.len() {
        image[0x100 + index]
    } else {
        0
    }
}

/// The header found in a ROM image.
pub open spec fn header_of(image: Seq<u8>) -> Seq<u8> {
    Seq::new(80, |i: int| header_byte(image, i))
}

/// Sum of `-b - 1` over the header bytes `b` at `from` up to, not
/// including, `to`.
pub open spec fn checksum_sum(header: Seq<u8>, from: int, to: int) -> int
    decreases to - from,
{
    if to <= from {
        0
    } else {
        checksum_sum(header, from, to - 1) - header[to - 1] - 1
    }
}

/// The checksum of a header's bytes 0x34 to 0x4C.
pub open spec fn checksum(header: Seq<u8>) -> u8 {
    (checksum_sum(header, 0x34, 0x4D) % 256) as u8
}

/// A header whose checksum byte is the checksum of the bytes it covers.
pub open spec fn conforming(header: Seq<u8>) -> bool {
    header.len() == 80 && header[0x4D] == checksum(header)
}

/// Name of the licensee whose code is the two given characters.
pub open spec fn licensee_name(first: u8, second: u8) -> Seq<char> {
    if first == 0x30 && second == 0x30 {
        "none"@
    } else if first == 0x30 && second == 0x31 {
        "Nintendo R&D 1"@
    } else if first == 0x31 && second == 0x33 {
        "Electronic Arts"@
    } else if first == 0x33 && second == 0x31 {
        "Nintendo"@
    } else {
        "Other"@
    }
}

impl Cartridge {
    pub const HEADER_SIZE: usize = 0x50;

    pub const HEADER_OFFSET: usize = 0x100;

    /// The header's bytes from `from` up to, not including, `to`.
    pub open spec fn field(&self, from: int, to: int) -> Seq<u8> {
        self.header@.subrange(from, to)
    }

    pub open spec fn spec_cartridge_type(&self) -> Result<CartridgeType, Error> {
        CartridgeType::parse(self.header[0x47])
    }

    pub open spec fn spec_rom_size(&self) -> Result<RomSize, Error> {
        RomSize::parse(self.header[0x48])
    }

    pub open spec fn spec_ram_size(&self) -> Result<RamSize, Error> {
        RamSize::parse(self.header[0x49])
    }

    /// Why no controller can be made of this cartridge, if anything: the
    /// first header byte of type, ROM size and RAM size that stands for
    /// nothing, or an image shorter than the ROM size.
    pub open spec fn fault(&self) -> Option<Error> {
        if self.spec_cartridge_type() is Err {
            Some(self.spec_cartridge_type()->Err_0)
        } else if self.spec_rom_size() is Err {
            Some(self.spec_rom_size()->Err_0)
        } else if self.spec_ram_size() is Err {
            Some(self.spec_ram_size()->Err_0)
        } else if self.image@.len() < self.spec_rom_size()->Ok_0.bytes() {
            Some(
                Error::Io {
                    expected: self.spec_rom_size()->Ok_0.bytes() as usize,
                    found: self.image@.len() as usize,
                },
            )
        } else {
            None
        }
    }

    /// The controller of this cartridge as it starts: the ROM image in
    /// place with banks 0 and 1 selected; RAM of the announced size,
    /// zeroed, or with a battery what the save file holds if that has the
    /// RAM's length; a clock for the types that carry one, restored
    /// from its saved bytes; every flag off.
    pub open spec fn controller(&self) -> ControllerView {
        let cartridge_type = self.spec_cartridge_type()->Ok_0;
        let rom_size = self.spec_rom_size()->Ok_0;
        let ram_size = self.spec_ram_size()->Ok_0;
        ControllerView {
            boot_rom: match self.boot_rom {
                Some(boot) => Some(boot.data@),
                None => None,
            },
            rom: RomView {
                data: self.image@.subrange(0, rom_size.bytes() as int),
                ..RomView::blank(rom_size)
            },
            ram: if ram_size == RamSize::NotPresent {
                None
            } else if cartridge_type.has_battery() {
                Some(RamView::blank(ram_size).enable_battery(self.save@, false))
            } else {
                Some(RamView::blank(ram_size))
            },
            rom_size,
            ram_size,
            cartridge_type,
            rtc: if cartridge_type.has_rtc() {
                Some(Rtc::fresh().restored(self.clock@))
            } else {
                None
            },
            rtc_active: false,
            banking_mode: false,
            ram_enable: false,
            ram_rom_bank: 0,
        }
    }

    /// Takes the header out of a ROM image. Header bytes that a short
    /// image lacks are zero.
    pub fn from_image(image: Vec<u8>, boot_rom: Option<BootRom>) -> (cartridge: Cartridge)
        ensures
            cartridge.image == image,
            cartridge.boot_rom == boot_rom,
            cartridge.save@.len() == 0,
            cartridge.clock@.len() == 0,
            cartridge.header@ == header_of(image@),
    {
        let mut header = [0u8; 80];
        let mut i: usize = 0;
        while i < Self::HEADER_SIZE
            invariant
                i <= 80,
                forall|k: int| 0 <= k < i ==> header[k] == header_byte(image@, k),
            decreases 80 - i,
        {
            if Self::HEADER_OFFSET + i < image.len() {
                header[i] = image[Self::HEADER_OFFSET + i];
            } else {
                header[i] = 0;
            }
            i += 1;
        }
        assert(header@ =~= header_of(image@));
        Self { image, boot_rom, header, save: Vec::new(), clock: Vec::new() }
    }

    /// Entry point.
    pub fn entry_point(&self) -> (code: [u8; 4])
        ensures
            code@ == self.field(0, 4),
    {
        let code = [self.header[0], self.header[1], self.header[2], self.header[3]];
        assert(code@ =~= self.field(0, 4));
        code
    }

    /// Nintendo logo.
    pub fn logo(&self) -> (logo: &[u8])
        ensures
            logo@ == self.field(0x04, 0x34),
    {
        slice_subrange(self.header.as_slice(), 0x04, 0x34)
    }

    /// Game title (uppercase ASCII).
    pub fn title(&self) -> (r: Result<&str, Error>)
        ensures
            r is Ok <==> valid_utf8(self.field(0x34, 0x43)),
            r matches Ok(text) ==> text.spec_bytes() == self.field(0x34, 0x43),
            r matches Err(e) ==> e == Error::Utf8,
    {
        let raw = slice_subrange(self.header.as_slice(), 0x34, 0x43);
        match core::str::from_utf8(raw) {
            Ok(text) => Ok(text),
            Err(_) => Err(Error::Utf8),
        }
    }

    pub fn manufacturer_code(&self) -> (r: Result<&str, Error>)
        ensures
            r is Ok <==> valid_utf8(self.field(0x3F, 0x43)),
            r matches Ok(text) ==> text.spec_bytes() == self.field(0x3F, 0x43),
            r matches Err(e) ==> e == Error::Utf8,
    {
        let raw = slice_subrange(self.header.as_slice(), 0x3F, 0x43);
        match core::str::from_utf8(raw) {
            Ok(text) => Ok(text),
            Err(_) => Err(Error::Utf8),
        }
    }

    /// CGB flag: `true` where the game asks for or supports the colour
    /// console.
    pub fn cgb(&self) -> (b: bool)
        ensures
            b == (self.header[0x43] == 0x80 || self.header[0x43] == 0xC0),
    {
        let cgb = self.header[0x43];
        cgb == 0x80 || cgb == 0xC0
    }

    /// Name of the licensee.
    pub fn licensee_code(&self) -> (r: Result<&'static str, Error>)
        ensures
            r is Ok <==> valid_utf8(self.field(0x44, 0x46)),
            r matches Ok(name) ==> name@ == licensee_name(self.header[0x44], self.header[0x45]),
            r matches Err(e) ==> e == Error::Utf8,
    {
        let raw = slice_subrange(self.header.as_slice(), 0x44, 0x46);
        match core::str::from_utf8(raw) {
            Ok(_) => {
                let first = self.header[0x44];
                let second = self.header[0x45];
                if first == 0x30 && second == 0x30 {
                    Ok("none")
                } else if first == 0x30 && second == 0x31 {
                    Ok("Nintendo R&D 1")
                } else if first == 0x31 && second == 0x33 {
                    Ok("Electronic Arts")
                } else if first == 0x33 && second == 0x31 {
                    Ok("Nintendo")
                } else {
                    Ok("Other")
                }
            },
            Err(_) => Err(Error::Utf8),
        }
    }

    /// SGB flag. The header must hold one of its two known values, 0x00
    /// and 0x03.
    pub fn sgb(&self) -> (b: bool)
        requires
            self.header[0x46] == 0x00 || self.header[0x46] == 0x03,
        ensures
            b == (self.header[0x46] == 0x03),
    {
        self.header[0x46] == 0x03
    }

    /// Cartridge type.
    pub fn cartridge_type(&self) -> (r: Result<CartridgeType, Error>)
        ensures
            r == self.spec_cartridge_type(),
    {
        CartridgeType::try_from(self.header[0x47])
    }

    /// ROM size.
    pub fn rom_size(&self) -> (r: Result<RomSize, Error>)
        ensures
            r == self.spec_rom_size(),
    {
        RomSize::try_from(self.header[0x48])
    }

    /// RAM size.
    pub fn ram_size(&self) -> (r: Result<RamSize, Error>)
        ensures
            r == self.spec_ram_size(),
    {
        RamSize::try_from(self.header[0x49])
    }

    /// Destination code: `true` if Japanese, `false` otherwise. The header
    /// must hold one of its two known values, 0x00 and 0x01.
    pub fn destination_code(&self) -> (b: bool)
        requires
            self.header[0x4A] == 0x00 || self.header[0x4A] == 0x01,
        ensures
            b == (self.header[0x4A] == 0x00),
    {
        self.header[0x4A] == 0x00
    }

    pub fn header_checksum(&self) -> (sum: u8)
        ensures
            sum == self.header[0x4D],
    {
        self.header[0x4D]
    }

    /// The checksum of the header bytes that the checksum byte covers.
    pub fn compute_header_checksum(&self) -> (sum: u8)
        ensures
            sum == checksum(self.header@),
    {
        let mut sum: u8 = 0;
        let mut i: usize = 0x34;
        while i < 0x4D
            invariant
                0x34 <= i <= 0x4D,
                sum == checksum_sum(self.header@, 0x34, i as int) % 256,
            decreases 0x4D - i,
        {
            sum = sum.wrapping_sub(self.header[i]).wrapping_sub(1);
            i += 1;
        }
        sum
    }

    /// Returns `true` if computed checksum matches the header checksum.
    pub fn verify_header_checksum(&self) -> (b: bool)
        ensures
            b == conforming(self.header@),
    {
        self.compute_header_checksum() == self.header_checksum()
    }

    pub fn global_checksum(&self) -> (sum: u16)
        ensures
            sum == (self.header[0x4E] as u16) << 8 | (self.header[0x4F] as u16),
    {
        let upper = self.header[0x4E] as u16;
        let lower = self.header[0x4F] as u16;
        upper << 8 | lower
    }

    /// What `rom` gives: the front of the image as a ROM of the announced
    /// size, banks 0 and 1 selected; or the reason why not.
    pub open spec fn spec_rom(&self) -> Result<RomView, Error> {
        match self.spec_rom_size() {
            Ok(rom_size) => if self.image@.len() < rom_size.bytes() {
                Err(
                    Error::Io {
                        expected: rom_size.bytes() as usize,
                        found: self.image@.len() as usize,
                    },
                )
            } else {
                Ok(
                    RomView {
                        data: self.image@.subrange(0, rom_size.bytes() as int),
                        ..RomView::blank(rom_size)
                    },
                )
            },
            Err(e) => Err(e),
        }
    }

    /// Get a Rom from this Cartridge.
    pub fn rom(&self) -> (r: Result<Rom, Error>)
        ensures
            match r {
                Ok(rom) => rom.wf() && self.spec_rom() == Ok::<RomView, Error>(rom@),
                Err(e) => self.spec_rom() == Err::<RomView, Error>(e),
            },
    {
        match self.rom_size() {
            Ok(rom_size) => {
                let mut rom = Rom::new(rom_size);
                match rom.load(self.image.as_slice()) {
                    Ok(()) => Ok(rom),
                    Err(e) => Err(e),
                }
            },
            Err(e) => Err(e),
        }
    }
}

/// The checksum does not depend on bytes outside the range it covers.
proof fn lemma_checksum_sum_frame(header: Seq<u8>, from: int, to: int, index: int, value: u8)
    requires
        0 <= from <= to <= header.len(),
        0 <= index < header.len(),
        index < from || to <= index,
    ensures
        checksum_sum(header.update(index, value), from, to) == checksum_sum(header, from, to),
    decreases to - from,
{
    if to > from {
        lemma_checksum_sum_frame(header, from, to - 1, index, value);
    }
}

/// A header with its checksum put into the checksum byte conforms.
pub proof fn lemma_checksum_round_trip(header: Seq<u8>)
    requires
        header.len() == 80,
    ensures
        conforming(header.update(0x4D, checksum(header))),
{
    lemma_checksum_sum_frame(header, 0x34, 0x4D, 0x4D, checksum(header));
}


proof fn lemma_zero_bank(high: u16)
    by (bit_vector)
    ensures
        0u8 & 0x1F == 0,
        0u8 & 0x0F == 0,
        0u8 & 0x7F == 0,
        (high & 0x60) | 1 != 0,
        high & 0x60 == 0 ==> (high & 0x60) | 1 == 1,
{
}

/// A request for a RAM bank leaves the RAM well formed: the bank it
/// selects is one that the RAM has.
pub proof fn lemma_set_bank_in_range(ram: RamView, bank: u8)
    requires
        ram.wf(),
    ensures
        ram.set_bank(bank).wf(),
{
    lemma_bank_mask(bank, ram.ram_size.banks() as u8);
}

/// Bank indices stay in bounds: a write that selects ROM banks which the
/// ROM has leaves the controller well formed, so that both ROM bank indices
/// and the RAM bank index are below the number of banks of their stores.
pub proof fn lemma_write_keeps_banks_in_bounds(c: ControllerView, addr: u16, value: u8)
    requires
        c.wf(),
        c.accepts(addr, value),
    ensures
        c.write(addr, value).wf(),
        c.write(addr, value).rom.bank_low < c.rom_size.banks(),
        c.write(addr, value).rom.bank_high < c.rom_size.banks(),
        c.write(addr, value).ram matches Some(ram) ==> ram.active_bank < c.ram_size.banks(),
{
    lemma_low_bits(value);
    if c.ram is Some {
        lemma_set_bank_in_range(c.ram->0, value & 0x03);
        lemma_set_bank_in_range(c.ram->0, value & 0x0F);
        lemma_set_bank_in_range(c.ram->0, c.ram_rom_bank);
    }
}

/// A zero written to the ROM bank register selects bank 1, never bank 0:
/// on an MBC3 at 0x2000-0x3FFF, on an MBC2 at an address below 0x4000 with
/// bit 8 set, and on an MBC1 at 0x2000-0x3FFF while the two upper bits of
/// the bank number are clear. With upper bits set an MBC1 keeps them and
/// still does not select bank 0.
pub proof fn lemma_zero_selects_bank_one(c: ControllerView, addr: u16)
    requires
        match c.cartridge_type.spec_family() {
            Family::Mbc1 | Family::Mbc3 => 0x2000 <= addr <= 0x3FFF,
            Family::Mbc2 => addr <= 0x3FFF && (addr >> 8) & 1 == 1,
            _ => false,
        },
    ensures
        c.write(addr, 0).rom.bank_high != 0,
        c.cartridge_type.spec_family() != Family::Mbc1 || c.rom.bank_high & 0x60 == 0 ==> c.write(
            addr,
            0,
        ).rom.bank_high == 1,
{
    lemma_zero_bank(c.rom.bank_high);
}

/// RAM gating: while the enable flag is off, a write to 0xA000-0xBFFF
/// changes nothing, so that every later read gives what it gave before.
pub proof fn lemma_disabled_ram_ignores_writes(c: ControllerView, addr: u16, value: u8)
    requires
        !c.ram_enable,
        0xA000 <= addr <= 0xBFFF,
    ensures
        c.write(addr, value) == c,
        forall|at: u16| c.write(addr, value).read(at) == c.read(at),
{
}

} // verus!
