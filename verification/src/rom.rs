//! An in-memory ROM image, and its header.
use vstd::prelude::*;
use vstd::string::StringSliceAdditionalSpecFns;
use vstd::utf8::valid_utf8;

pub use crate::header::{CartridgeType, Licensee, RamSize};
use crate::header::{
    ram_size_of, rom_size_code_ok, rom_size_of, str_from_utf8, title_bytes, title_len,
    title_length,
};

verus! {

/// Represents an in-memory ROM file for the Game Boy
pub struct Rom<'a> {
    data: &'a [u8],
}

/// Errors of the ROM header
#[derive(Debug, PartialEq, Eq, Clone, Copy, Structural)]
pub enum Error {
    /// The ROM does not contain a header
    NoHeader,
    /// The ROM contains a header with an invalid title
    InvalidTitle,
}

/// The header of a ROM, borrowed from the ROM's data
#[derive(Debug)]
pub struct RomHeader<'a> {
    /// The instructions in the entrypoint of the ROM, located at address 0x100
    pub entrypoint: &'a [u8],
    /// The logo stored in the ROM
    pub logo: &'a [u8],
    /// The title of the game
    pub title: &'a str,
    /// A code that identifies the manufacturer
    pub manufacturer_code: Option<&'a [u8]>,
    /// A code that determines if the game is a game boy color only game
    pub cgb_flag: Option<u8>,
    /// The licensee of the game
    pub licensee: Licensee,
    /// The size of the ROM, in bytes
    pub rom_size: usize,
    /// The size of the RAM
    pub ram_size: RamSize,
}

/// Whether the ROM header parsed from `data` is `h`: the same fields as a cartridge header.
pub open spec fn rom_header_matches(h: RomHeader, data: Seq<u8>) -> bool {
    let t = title_len(data);
    &&& h.entrypoint@ == data.subrange(0x100, 0x104)
    &&& h.logo@ == data.subrange(0x104, 0x134)
    &&& h.title.spec_bytes() == title_bytes(data)
    &&& match h.manufacturer_code {
        None => t > 11,
        Some(code) => t <= 11 && code@ == data.subrange(0x13f, 0x143),
    }
    &&& h.cgb_flag == (if t > 14 {
        None
    } else {
        Some(data[0x143])
    })
    &&& h.licensee == (if data[0x14B] == 0x33 {
        Licensee::New([data[0x144], data[0x145]])
    } else {
        Licensee::Old(data[0x14B])
    })
    &&& h.rom_size == rom_size_of(data[0x148])
    &&& h.ram_size == ram_size_of(data[0x149])
}

impl<'a> Rom<'a> {
    /// A ROM holding `data`
    pub fn new(data: &'a [u8]) -> (r: Self)
        ensures
            r.data() == data@,
    {
        Self { data }
    }

    /// The contents of the ROM
    pub closed spec fn data(&self) -> Seq<u8> {
        self.data@
    }

    /// Parses the header of the ROM: `NoHeader` below 0x150 bytes, `InvalidTitle` when the
    /// title is not UTF-8
    pub fn header(&'a self) -> (r: Result<RomHeader<'a>, Error>)
        requires
            rom_size_code_ok(self.data()),
        ensures
            self.data().len() < 0x150 ==> r == Err::<RomHeader, Error>(Error::NoHeader),
            self.data().len() >= 0x150 && !valid_utf8(title_bytes(self.data())) ==> r == Err::<
                RomHeader,
                Error,
            >(Error::InvalidTitle),
            self.data().len() >= 0x150 && valid_utf8(title_bytes(self.data())) ==> (r matches Ok(
                h,
            ) && rom_header_matches(h, self.data())),
    {
        let data = self.data;
        if data.len() < 0x150 {
            return Err(Error::NoHeader);
        }
        let title_length = title_length(data);
        let title = vstd::slice::slice_subrange(data, 0x134, 0x134 + title_length);
        let title = match str_from_utf8(title) {
            Some(t) => t,
            None => {
                return Err(Error::InvalidTitle);
            },
        };
        let manufacturer_code = if title.len() > 11 {
            None
        } else {
            Some(vstd::slice::slice_subrange(data, 0x13f, 0x143))
        };
        let cgb_flag = if title.len() > 14 {
            None
        } else {
            Some(data[0x143])
        };
        let licensee = if data[0x14B] == 0x33 {
            Licensee::New([data[0x144], data[0x145]])
        } else {
            Licensee::Old(data[0x14B])
        };
        let rom_size = 0x8000usize << (data[0x148] as usize);
        let ram_size = RamSize::from(data[0x149]);
        Ok(RomHeader {
            entrypoint: vstd::slice::slice_subrange(data, 0x100, 0x104),
            logo: vstd::slice::slice_subrange(data, 0x104, 0x134),
            title,
            manufacturer_code,
            cgb_flag,
            licensee,
            rom_size,
            ram_size,
        })
    }
}

} // verus!
