//! Abstraction over a physical Game Boy cartridge.
//!
//! Game Boy cartridges can contain:
//! - A ROM memory, maximum size depending on the mapper type. Typically mapped from 0x0000 to 0x8000.
//! - A RAM memory. Typically mapped from 0xA000 to 0xC000.
//! - An RTC, with memory-mapped registers. Address ranges depends on the specific cartridge type.
use vstd::prelude::*;

use crate::header::{self, CartridgeHeader, header_result_ok, rom_size_code_ok};
use crate::mappers::Mapper;
use crate::mappers::mbc1::{Mbc1, Mbc1Model, lemma_mbc1_write_wf, mbc1_ram_offset};
use crate::mappers::mbc3::{Mbc3, Mbc3Model, lemma_mbc3_write_wf, mbc3_ram_index};
use crate::mappers::mbc5::{
    Mbc5, Mbc5Model, lemma_mbc5_write_wf, mbc5_ram_address, mbc5_ram_index,
};
use crate::mappers::rom_only::RomOnly;
use crate::memory::Address;

verus! {

/// A cartridge error
#[derive(Debug, PartialEq, Eq, Clone, Copy, Structural)]
pub enum Error {
    /// The cartridge does not have RAM memory, but an operation involving RAM memory was
    /// requested.
    CartridgeHasNoRam,
    /// The given RAM backup does not have the expected size of the actual RAM in the cartridge.
    UnexpectedRamSize {
        /// Expected RAM size in bytes
        expected: usize,
        /// Actual RAM size in bytes
        actual: usize,
    },
    /// The header of the cartridge is not valid.
    InvalidHeader(header::Error),
    /// The given mapper is not supported
    UnsupportedMapper(header::CartridgeType),
}

impl From<header::Error> for Error {
    fn from(value: header::Error) -> (r: Self) {
        Self::InvalidHeader(value)
    }
}

impl vstd::std_specs::convert::FromSpecImpl<header::Error> for Error {
    open spec fn obeys_from_spec() -> bool {
        true
    }

    open spec fn from_spec(v: header::Error) -> Self {
        Error::InvalidHeader(v)
    }
}

/// A cartridge with any of the supported mappers
pub enum Cartridge {
    /// A cartridge without a mapper
    RomOnly(RomOnly),
    /// A cartridge with an MBC1 mapper
    Mbc1(Mbc1),
    /// A cartridge with an MBC3 mapper
    Mbc3(Mbc3),
    /// A cartridge with an MBC5 mapper
    Mbc5(Mbc5),
}

/// The state of a cartridge: the state of its mapper.
pub enum CartridgeModel {
    /// The ROM of a cartridge without a mapper
    RomOnly(Seq<u8>),
    /// The state of an MBC1 cartridge
    Mbc1(Mbc1Model),
    /// The state of an MBC3 cartridge
    Mbc3(Mbc3Model),
    /// The state of an MBC5 cartridge
    Mbc5(Mbc5Model),
}

/// Every write that the cartridge serves keeps its invariant.
pub proof fn lemma_cartridge_write_wf(c: CartridgeModel, address: Address, value: u8)
    requires
        Cartridge::wf_view(c),
        Cartridge::can_access(c, address),
    ensures
        Cartridge::wf_view(Cartridge::write_view(c, address, value)),
{
    match c {
        CartridgeModel::Mbc1(m) => lemma_mbc1_write_wf(m, address, value),
        CartridgeModel::Mbc5(m) => lemma_mbc5_write_wf(m, address, value),
        CartridgeModel::Mbc3(m) => lemma_mbc3_write_wf(m, address, value),
        CartridgeModel::RomOnly(_) => {},
    }
}

/// Whether the RAM address `address` reads and writes a byte of the cartridge RAM: the
/// cartridge has a mapper with RAM, the RAM is enabled and the byte exists; for the MBC3, a
/// RAM bank is selected, not a clock register.
pub open spec fn ram_is_mapped(c: CartridgeModel, address: Address) -> bool {
    &&& 0xA000 <= address <= 0xBFFF
    &&& match c {
        CartridgeModel::RomOnly(_) => false,
        CartridgeModel::Mbc1(m) => m.ram_enabled && address - 0xA000 + mbc1_ram_offset(m)
            < m.ram.len(),
        CartridgeModel::Mbc5(m) => m.ram_enabled && m.ram.len() > 0,
        CartridgeModel::Mbc3(m) => m.ram_enabled && m.ram_bank <= 3 && mbc3_ram_index(m, address)
            < m.ram.len(),
    }
}

/// A read of a cartridge RAM address gives back the value last written there.
pub proof fn lemma_cartridge_ram_write_read(c: CartridgeModel, address: Address, value: u8)
    requires
        Cartridge::wf_view(c),
        ram_is_mapped(c, address),
    ensures
        Cartridge::can_access(c, address),
        Cartridge::can_access(Cartridge::write_view(c, address, value), address),
        Cartridge::read_view(Cartridge::write_view(c, address, value), address) == value,
{
    if let CartridgeModel::Mbc5(m) = c {
        let mask = (m.ram.len() - 1) as usize;
        let a = mbc5_ram_address(m, address);
        assert(a & mask <= mask) by (bit_vector);
        assert(0 <= mbc5_ram_index(m, a) < m.ram.len());
    }
}

/// Writes never change the ROM of a cartridge.
pub proof fn lemma_cartridge_rom_read_only(c: CartridgeModel, address: Address, value: u8)
    requires
        Cartridge::wf_view(c),
    ensures
        Cartridge::rom_view(Cartridge::write_view(c, address, value)) == Cartridge::rom_view(c),
{
}

/// Restoring the battery-backed RAM from a backup of its size makes the battery-backed RAM
/// equal to the backup, and changes nothing else that reads see of the ROM.
pub proof fn lemma_cartridge_restore_backup(c: CartridgeModel, ram: Seq<u8>)
    requires
        Cartridge::wf_view(c),
        Cartridge::battery_view(c) matches Some(current) && current.len() == ram.len(),
    ensures
        Cartridge::battery_view(Cartridge::restore_view(c, ram)) == Some(ram),
        Cartridge::rom_view(Cartridge::restore_view(c, ram)) == Cartridge::rom_view(c),
        Cartridge::wf_view(Cartridge::restore_view(c, ram)),
{
}

impl View for Cartridge {
    type V = CartridgeModel;

    open spec fn view(&self) -> CartridgeModel {
        match self {
            Cartridge::RomOnly(c) => CartridgeModel::RomOnly(c@),
            Cartridge::Mbc1(c) => CartridgeModel::Mbc1(c@),
            Cartridge::Mbc3(c) => CartridgeModel::Mbc3(c@),
            Cartridge::Mbc5(c) => CartridgeModel::Mbc5(c@),
        }
    }
}

impl Mapper for Cartridge {
    open spec fn wf_view(m: CartridgeModel) -> bool {
        match m {
            CartridgeModel::RomOnly(c) => RomOnly::wf_view(c),
            CartridgeModel::Mbc1(c) => Mbc1::wf_view(c),
            CartridgeModel::Mbc3(c) => Mbc3::wf_view(c),
            CartridgeModel::Mbc5(c) => Mbc5::wf_view(c),
        }
    }

    open spec fn rom_view(m: CartridgeModel) -> Seq<u8> {
        match m {
            CartridgeModel::RomOnly(c) => RomOnly::rom_view(c),
            CartridgeModel::Mbc1(c) => Mbc1::rom_view(c),
            CartridgeModel::Mbc3(c) => Mbc3::rom_view(c),
            CartridgeModel::Mbc5(c) => Mbc5::rom_view(c),
        }
    }

    open spec fn can_access(m: CartridgeModel, address: Address) -> bool {
        match m {
            CartridgeModel::RomOnly(c) => RomOnly::can_access(c, address),
            CartridgeModel::Mbc1(c) => Mbc1::can_access(c, address),
            CartridgeModel::Mbc3(c) => Mbc3::can_access(c, address),
            CartridgeModel::Mbc5(c) => Mbc5::can_access(c, address),
        }
    }

    open spec fn read_view(m: CartridgeModel, address: Address) -> u8 {
        match m {
            CartridgeModel::RomOnly(c) => RomOnly::read_view(c, address),
            CartridgeModel::Mbc1(c) => Mbc1::read_view(c, address),
            CartridgeModel::Mbc3(c) => Mbc3::read_view(c, address),
            CartridgeModel::Mbc5(c) => Mbc5::read_view(c, address),
        }
    }

    open spec fn write_view(m: CartridgeModel, address: Address, value: u8) -> CartridgeModel {
        match m {
            CartridgeModel::RomOnly(c) => CartridgeModel::RomOnly(
                RomOnly::write_view(c, address, value),
            ),
            CartridgeModel::Mbc1(c) => CartridgeModel::Mbc1(Mbc1::write_view(c, address, value)),
            CartridgeModel::Mbc3(c) => CartridgeModel::Mbc3(Mbc3::write_view(c, address, value)),
            CartridgeModel::Mbc5(c) => CartridgeModel::Mbc5(Mbc5::write_view(c, address, value)),
        }
    }

    open spec fn battery_view(m: CartridgeModel) -> Option<Seq<u8>> {
        match m {
            CartridgeModel::RomOnly(c) => RomOnly::battery_view(c),
            CartridgeModel::Mbc1(c) => Mbc1::battery_view(c),
            CartridgeModel::Mbc3(c) => Mbc3::battery_view(c),
            CartridgeModel::Mbc5(c) => Mbc5::battery_view(c),
        }
    }

    open spec fn restore_view(m: CartridgeModel, ram: Seq<u8>) -> CartridgeModel {
        match m {
            CartridgeModel::RomOnly(c) => CartridgeModel::RomOnly(RomOnly::restore_view(c, ram)),
            CartridgeModel::Mbc1(c) => CartridgeModel::Mbc1(Mbc1::restore_view(c, ram)),
            CartridgeModel::Mbc3(c) => CartridgeModel::Mbc3(Mbc3::restore_view(c, ram)),
            CartridgeModel::Mbc5(c) => CartridgeModel::Mbc5(Mbc5::restore_view(c, ram)),
        }
    }

    fn serves(&self, address: Address) -> (r: bool) {
        match self {
            Cartridge::RomOnly(c) => c.serves(address),
            Cartridge::Mbc1(c) => c.serves(address),
            Cartridge::Mbc3(c) => c.serves(address),
            Cartridge::Mbc5(c) => c.serves(address),
        }
    }

    fn header(&self) -> (r: Result<CartridgeHeader<'_>, header::Error>) {
        match self {
            Cartridge::RomOnly(c) => c.header(),
            Cartridge::Mbc1(c) => c.header(),
            Cartridge::Mbc3(c) => c.header(),
            Cartridge::Mbc5(c) => c.header(),
        }
    }

    fn read(&self, address: Address) -> (r: u8) {
        match self {
            Cartridge::RomOnly(c) => c.read(address),
            Cartridge::Mbc1(c) => c.read(address),
            Cartridge::Mbc3(c) => c.read(address),
            Cartridge::Mbc5(c) => c.read(address),
        }
    }

    fn write(&mut self, address: Address, value: u8) {
        match self {
            Cartridge::RomOnly(c) => c.write(address, value),
            Cartridge::Mbc1(c) => c.write(address, value),
            Cartridge::Mbc3(c) => c.write(address, value),
            Cartridge::Mbc5(c) => c.write(address, value),
        }
    }

    fn battery_backed_ram(&self) -> (r: Option<&[u8]>) {
        match self {
            Cartridge::RomOnly(c) => c.battery_backed_ram(),
            Cartridge::Mbc1(c) => c.battery_backed_ram(),
            Cartridge::Mbc3(c) => c.battery_backed_ram(),
            Cartridge::Mbc5(c) => c.battery_backed_ram(),
        }
    }

    fn restore_battery_backed_ram(&mut self, ram: &[u8]) -> (r: Result<(), Error>) {
        match self {
            Cartridge::RomOnly(c) => c.restore_battery_backed_ram(ram),
            Cartridge::Mbc1(c) => c.restore_battery_backed_ram(ram),
            Cartridge::Mbc3(c) => c.restore_battery_backed_ram(ram),
            Cartridge::Mbc5(c) => c.restore_battery_backed_ram(ram),
        }
    }
}

} // verus!
