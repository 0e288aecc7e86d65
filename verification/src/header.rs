//! The cartridge header provides information about the game. It is located at address
//! 0x100 to 0x150 and determines the type of mapper IC used by the cartridge, the size of
//! the ROM, size of the RAM (if any) and the title of the game, among other data.
use vstd::prelude::*;
use vstd::string::StringSliceAdditionalSpecFns;
use vstd::string::StringExecFns;
use vstd::utf8::valid_utf8;

use crate::disassembler::{dec_text, push_dec};

verus! {

/// The licensee of the game
#[derive(Debug, PartialEq, Eq, Clone, Copy)]
pub enum Licensee {
    /// Uses the old cartridge format
    Old(u8),
    /// Uses the new cartridge format
    New([u8; 2]),
}

/// Represents the RAM size in a game
#[derive(Debug, PartialEq, Eq, Clone, Copy, Structural)]
pub enum RamSize {
    /// There is no RAM
    NoRam,
    /// 8 KiB of RAM
    KiloBytes8,
    /// 32 KiB of RAM
    KiloBytes32,
    /// 128 KiB of RAM
    KiloBytes128,
    /// 64 KiB of RAM
    KiloBytes64,
    /// Unknown RAM size. This variant is not found in comercial games.
    Unknown(u8),
}

/// The RAM size that a header byte encodes.
pub open spec fn ram_size_of(value: u8) -> RamSize {
    if value == 0 {
        RamSize::NoRam
    } else if value == 2 {
        RamSize::KiloBytes8
    } else if value == 3 {
        RamSize::KiloBytes32
    } else if value == 4 {
        RamSize::KiloBytes128
    } else if value == 5 {
        RamSize::KiloBytes64
    } else {
        RamSize::Unknown(value)
    }
}

/// The number of bytes of a RAM size, if it is known.
pub open spec fn ram_bytes(size: RamSize) -> Option<usize> {
    match size {
        RamSize::NoRam => Some(0),
        RamSize::KiloBytes8 => Some(0x2000),
        RamSize::KiloBytes32 => Some(0x8000),
        RamSize::KiloBytes128 => Some(0x20000),
        RamSize::KiloBytes64 => Some(0x10000),
        RamSize::Unknown(_) => None,
    }
}

impl RamSize {
    /// Converts the `RamSize` enum to the number of bytes, if the RAM size is known.
    pub fn into_usize(self) -> (r: Option<usize>)
        ensures
            r == ram_bytes(self),
    {
        match self {
            Self::NoRam => Some(0),
            Self::KiloBytes8 => Some(8 * 1024),
            Self::KiloBytes32 => Some(32 * 1024),
            Self::KiloBytes128 => Some(128 * 1024),
            Self::KiloBytes64 => Some(64 * 1024),
            Self::Unknown(_) => None,
        }
    }
}

/// The text of a RAM size: its size in KiB, `None`, or `Unknown` with the code in decimal.
pub open spec fn ram_size_text(size: RamSize) -> Seq<char> {
    match size {
        RamSize::NoRam => "None"@,
        RamSize::KiloBytes8 => "8 KiB"@,
        RamSize::KiloBytes32 => "32 KiB"@,
        RamSize::KiloBytes64 => "64 KiB"@,
        RamSize::KiloBytes128 => "128 KiB"@,
        RamSize::Unknown(v) => "Unknown ("@ + dec_text(v as nat) + ")"@,
    }
}

impl RamSize {
    /// The text of the RAM size (see `ram_size_text`)
    pub fn to_string(&self) -> (r: String)
        ensures
            r@ == ram_size_text(*self),
    {
        match self {
            RamSize::NoRam => String::from_str("None"),
            RamSize::KiloBytes8 => String::from_str("8 KiB"),
            RamSize::KiloBytes32 => String::from_str("32 KiB"),
            RamSize::KiloBytes64 => String::from_str("64 KiB"),
            RamSize::KiloBytes128 => String::from_str("128 KiB"),
            RamSize::Unknown(v) => {
                let mut s = String::from_str("Unknown (");
                push_dec(&mut s, *v as u32);
                s.append(")");
                s
            },
        }
    }
}

impl From<u8> for RamSize {
    fn from(value: u8) -> (r: Self) {
        match value {
            0 => RamSize::NoRam,
            2 => RamSize::KiloBytes8,
            3 => RamSize::KiloBytes32,
            4 => RamSize::KiloBytes128,
            5 => RamSize::KiloBytes64,
            v => RamSize::Unknown(v),
        }
    }
}

impl vstd::std_specs::convert::FromSpecImpl<u8> for RamSize {
    open spec fn obeys_from_spec() -> bool {
        true
    }

    open spec fn from_spec(v: u8) -> Self {
        ram_size_of(v)
    }
}

/// The cartridge type indicates which type of mapper and hardware the cartridge contains
#[derive(Debug, Clone, Copy, Eq, PartialEq, Structural)]
pub enum CartridgeType {
    /// Fixed ROM memory with a fixed mapping and no additional controls
    RomOnly,
    /// MBC1 mapper, without RAM or battery
    Mbc1,
    /// MBC1 mapper, with RAM but without battery
    Mbc1Ram,
    /// MBC1 mapper, with RAM and battery
    Mbc1RamBattery,
    /// MBC2 mapper, without battery. MBC2 has embedded RAM into the mapper
    Mbc2,
    /// MBC2 mapper, with battery. MBC2 has embedded RAM into the mapper
    Mbc2Battery,
    /// Fixed ROM and RAM, without a mapper IC
    RomRam,
    /// Fixed ROM and RAM, without a mapper IC, but with battery
    RomRamBattery,
    /// MMM01 mapper, without RAM or battery
    Mmm01,
    /// MMM01 mapper, with RAM and without battery
    Mmm01Ram,
    /// MMM01 mapper, with RAM and battery
    Mmm01RamBattery,
    /// MBC3 mapper, with RTC and battery
    Mbc3TimerBattery,
    /// MBC3 mapper, with RTC, RAM and battery
    Mbc3TimerRamBattery,
    /// MBC3 mapper, without RTC, RAM or battery
    Mbc3,
    /// MBC3 mapper, with RAM
    Mbc3Ram,
    /// MBC3 mapper, with RAM and battery
    Mbc3RamBattery,
    /// MBC5 mapper, without RAM or battery
    Mbc5,
    /// MBC5 mapper, with RAM and without battery
    Mbc5Ram,
    /// MBC5 mapper, with RAM and battery
    Mbc5RamBattery,
    /// MBC5 mapper, with a rumble pack
    Mbc5Rumble,
    /// MBC5 mapper, with a rumble pack and RAM
    Mbc5RumbleRam,
    /// MBC5 mapper, with a rumble pack, RAM and battery
    Mbc5RumbleRamBattery,
    /// MBC6 mapper
    Mbc6,
    /// MBC7 mapper, with accelerometer, rumble pack, RAM and battery
    Mbc7SensorRumbleRamBattery,
    /// The cartridge is the game boy camera
    PocketCamera,
    /// Bandai Tama cartridge
    BandaiTama5,
    /// HUC3 mapper
    Huc3,
    /// HUC1 mapper
    Huc1RamBattery,
    /// Unknown mapper and cartridge type
    Unknown(u8),
}

/// The cartridge type that a header byte encodes.
pub open spec fn cartridge_type_of(value: u8) -> CartridgeType {
    if value == 0x00 {
        CartridgeType::RomOnly
    } else if value == 0x01 {
        CartridgeType::Mbc1
    } else if value == 0x02 {
        CartridgeType::Mbc1Ram
    } else if value == 0x03 {
        CartridgeType::Mbc1RamBattery
    } else if value == 0x05 {
        CartridgeType::Mbc2
    } else if value == 0x06 {
        CartridgeType::Mbc2Battery
    } else if value == 0x08 {
        CartridgeType::RomRam
    } else if value == 0x09 {
        CartridgeType::RomRamBattery
    } else if value == 0x0B {
        CartridgeType::Mmm01
    } else if value == 0x0C {
        CartridgeType::Mmm01Ram
    } else if value == 0x0D {
        CartridgeType::Mmm01RamBattery
    } else if value == 0x0F {
        CartridgeType::Mbc3TimerBattery
    } else if value == 0x10 {
        CartridgeType::Mbc3TimerRamBattery
    } else if value == 0x11 {
        CartridgeType::Mbc3
    } else if value == 0x12 {
        CartridgeType::Mbc3Ram
    } else if value == 0x13 {
        CartridgeType::Mbc3RamBattery
    } else if value == 0x19 {
        CartridgeType::Mbc5
    } else if value == 0x1A {
        CartridgeType::Mbc5Ram
    } else if value == 0x1B {
        CartridgeType::Mbc5RamBattery
    } else if value == 0x1C {
        CartridgeType::Mbc5Rumble
    } else if value == 0x1D {
        CartridgeType::Mbc5RumbleRam
    } else if value == 0x1E {
        CartridgeType::Mbc5RumbleRamBattery
    } else if value == 0x20 {
        CartridgeType::Mbc6
    } else if value == 0x22 {
        CartridgeType::Mbc7SensorRumbleRamBattery
    } else if value == 0xFC {
        CartridgeType::PocketCamera
    } else if value == 0xFD {
        CartridgeType::BandaiTama5
    } else if value == 0xFE {
        CartridgeType::Huc3
    } else if value == 0xFF {
        CartridgeType::Huc1RamBattery
    } else {
        CartridgeType::Unknown(value)
    }
}

impl From<u8> for CartridgeType {
    fn from(value: u8) -> (r: Self) {
        match value {
            0x00 => CartridgeType::RomOnly,
            0x01 => CartridgeType::Mbc1,
            0x02 => CartridgeType::Mbc1Ram,
            0x03 => CartridgeType::Mbc1RamBattery,
            0x05 => CartridgeType::Mbc2,
            0x06 => CartridgeType::Mbc2Battery,
            0x08 => CartridgeType::RomRam,
            0x09 => CartridgeType::RomRamBattery,
            0x0B => CartridgeType::Mmm01,
            0x0C => CartridgeType::Mmm01Ram,
            0x0D => CartridgeType::Mmm01RamBattery,
            0x0F => CartridgeType::Mbc3TimerBattery,
            0x10 => CartridgeType::Mbc3TimerRamBattery,
            0x11 => CartridgeType::Mbc3,
            0x12 => CartridgeType::Mbc3Ram,
            0x13 => CartridgeType::Mbc3RamBattery,
            0x19 => CartridgeType::Mbc5,
            0x1A => CartridgeType::Mbc5Ram,
            0x1B => CartridgeType::Mbc5RamBattery,
            0x1C => CartridgeType::Mbc5Rumble,
            0x1D => CartridgeType::Mbc5RumbleRam,
            0x1E => CartridgeType::Mbc5RumbleRamBattery,
            0x20 => CartridgeType::Mbc6,
            0x22 => CartridgeType::Mbc7SensorRumbleRamBattery,
            0xFC => CartridgeType::PocketCamera,
            0xFD => CartridgeType::BandaiTama5,
            0xFE => CartridgeType::Huc3,
            0xFF => CartridgeType::Huc1RamBattery,
            v => CartridgeType::Unknown(v),
        }
    }
}

impl vstd::std_specs::convert::FromSpecImpl<u8> for CartridgeType {
    open spec fn obeys_from_spec() -> bool {
        true
    }

    open spec fn from_spec(v: u8) -> Self {
        cartridge_type_of(v)
    }
}

/// Errors related to the cartridge header
#[derive(Debug, PartialEq, Eq, Clone, Copy, Structural)]
pub enum Error {
    /// The cartridge does not contain a header
    NoHeader,
    /// The cartridge contains a header with an invalid title
    InvalidTitle,
    /// The cartridge contains a header with an invalid RAM size
    InvalidRamSize,
}

/// The header of a cartridge, borrowed from the cartridge's data
#[derive(Debug, Clone, Eq, PartialEq)]
pub struct CartridgeHeader<'a> {
    /// The instructions in the entrypoint of the cartridge, located at address 0x100
    pub entrypoint: &'a [u8],
    /// The logo stored in the cartridge. In commercial cartridges this is the Nintendo logo.
    pub logo: &'a [u8],
    /// The title of the game
    pub title: &'a str,
    /// A code that identifies the manufacturer
    pub manufacturer_code: Option<&'a [u8]>,
    /// A code that determines if the game is a game boy color only game
    pub cgb_flag: Option<u8>,
    /// The licensee of the cartridge. Each licensee has a unique code assigned by Nintendo.
    pub licensee: Licensee,
    /// The size of the ROM, in bytes
    pub rom_size: usize,
    /// The size of the RAM
    pub ram_size: RamSize,
    /// The type of cartridge
    pub cartridge_type: CartridgeType,
}

/// The offset of the title in the cartridge.
pub const TITLE_OFFSET: usize = 0x134;

/// The maximum length of the title.
pub const TITLE_CAPACITY: usize = 16;

/// The length of the title that starts at the `i`-th title byte: the title ends at the
/// first zero byte, or after 16 bytes.
pub open spec fn title_len_from(data: Seq<u8>, i: int) -> int
    decreases 16 - i,
{
    if i >= 16 || i < 0 || data[0x134 + i] == 0 {
        i
    } else {
        title_len_from(data, i + 1)
    }
}

/// The length of the title of a cartridge.
pub open spec fn title_len(data: Seq<u8>) -> int {
    title_len_from(data, 0)
}

/// The bytes of the title of a cartridge.
pub open spec fn title_bytes(data: Seq<u8>) -> Seq<u8> {
    data.subrange(0x134, 0x134 + title_len(data))
}

/// The ROM size that the ROM size byte `code` encodes: 32 KiB shifted left by `code`.
pub open spec fn rom_size_of(code: u8) -> usize {
    0x8000usize << (code as usize)
}

/// The header can be read without an overflow of the ROM size: a header that is present,
/// with a valid title, holds a ROM size code below the width of `usize`.
pub open spec fn rom_size_code_ok(data: Seq<u8>) -> bool {
    data.len() >= 0x150 && valid_utf8(title_bytes(data)) ==> data[0x148] < usize::BITS
}

/// Whether the header parsed from `data` is `h`.
pub open spec fn header_matches(h: CartridgeHeader, data: Seq<u8>) -> bool {
    let t = title_len(data);
    &&& h.entrypoint@ == data.subrange(0x100, 0x104)
    &&& h.logo@ == data.subrange(0x104, 0x134)
    &&& h.title.spec_bytes() == title_bytes(data)
    &&& match h.manufacturer_code {
        None => t > 11,
        Some(code) => t <= 11 && code@ == data.subrange(0x13f, 0x143),
    }
    &&& h.cgb_flag == (if t > 14 {
        None
    } else {
        Some(data[0x143])
    })
    &&& h.licensee == (if data[0x14B] == 0x33 {
        Licensee::New([data[0x144], data[0x145]])
    } else {
        Licensee::Old(data[0x14B])
    })
    &&& h.rom_size == rom_size_of(data[0x148])
    &&& h.ram_size == ram_size_of(data[0x149])
    &&& h.cartridge_type == cartridge_type_of(data[0x147])
}

/// The outcome of parsing a header: `NoHeader` below 0x150 bytes, `InvalidTitle` when the
/// title is not UTF-8, else a header that `header_matches`.
pub open spec fn header_result_ok(r: Result<CartridgeHeader, Error>, data: Seq<u8>) -> bool {
    &&& data.len() < 0x150 ==> r == Err::<CartridgeHeader, Error>(Error::NoHeader)
    &&& data.len() >= 0x150 && !valid_utf8(title_bytes(data)) ==> r == Err::<
        CartridgeHeader,
        Error,
    >(Error::InvalidTitle)
    &&& data.len() >= 0x150 && valid_utf8(title_bytes(data)) ==> (r matches Ok(h)
        && header_matches(h, data))
}

/// `core::str::from_utf8`: the bytes as a string slice when they are valid UTF-8.
///
/// Trusted: the result is `Some` exactly when the bytes are valid UTF-8 (as vstd's
/// `valid_utf8` defines it), and then the string holds those bytes.
#[verifier::external_body]
pub(crate) fn str_from_utf8(bytes: &[u8]) -> (r: Option<&str>)
    ensures
        r is Some <==> valid_utf8(bytes@),
        r matches Some(s) ==> s.spec_bytes() == bytes@,
{
    core::str::from_utf8(bytes).ok()
}

/// The length of the title: the number of bytes before the first zero byte among the 16
/// title bytes.
pub(crate) fn title_length(data: &[u8]) -> (n: usize)
    requires
        data@.len() >= 0x150,
    ensures
        n == title_len(data@),
        n <= 16,
{
    let mut i: usize = 0;
    while i < TITLE_CAPACITY && data[TITLE_OFFSET + i] != 0
        invariant
            i <= 16,
            data@.len() >= 0x150,
            title_len_from(data@, i as int) == title_len(data@),
        decreases 16 - i,
    {
        i = i + 1;
    }
    i
}

/// Whether the title of a cartridge that holds a header is valid UTF-8.
pub(crate) fn title_is_valid(data: &[u8]) -> (r: bool)
    requires
        data@.len() >= 0x150,
    ensures
        r == valid_utf8(title_bytes(data@)),
{
    let title_length = title_length(data);
    let title = vstd::slice::slice_subrange(data, TITLE_OFFSET, TITLE_OFFSET + title_length);
    str_from_utf8(title).is_some()
}

impl<'a> CartridgeHeader<'a> {
    /// Attempts to construct a cartridge header from the raw contents of the cartridge
    pub fn try_new(data: &'a [u8]) -> (r: Result<Self, Error>)
        requires
            rom_size_code_ok(data@),
        ensures
            header_result_ok(r, data@),
    {
        if data.len() < 0x150 {
            return Err(Error::NoHeader);
        }
        let title_length = title_length(data);
        let title = vstd::slice::slice_subrange(data, TITLE_OFFSET, TITLE_OFFSET + title_length);
        let title = match str_from_utf8(title) {
            Some(t) => t,
            None => {
                return Err(Error::InvalidTitle);
            },
        };

        let manufacturer_code = if title.len() > 11 {
            None
        } else {
            Some(vstd::slice::slice_subrange(data, 0x13f, 0x143))
        };
        let cgb_flag = if title.len() > 14 {
            None
        } else {
            Some(data[0x143])
        };

        let licensee = if data[0x14B] == 0x33 {
            Licensee::New([data[0x144], data[0x145]])
        } else {
            Licensee::Old(data[0x14B])
        };

        let ty = CartridgeType::from(data[0x147]);
        let rom_size = 0x8000usize << (data[0x148] as usize);
        let ram_size = RamSize::from(data[0x149]);

        Ok(CartridgeHeader {
            entrypoint: vstd::slice::slice_subrange(data, 0x100, 0x104),
            logo: vstd::slice::slice_subrange(data, 0x104, 0x134),
            title,
            manufacturer_code,
            cgb_flag,
            licensee,
            rom_size,
            ram_size,
            cartridge_type: ty,
        })
    }
}

} // verus!
