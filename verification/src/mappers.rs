//! Mappers are integrated circuits that control the address space of the cartridge and translate
//! memory accesses into control signals for memories (ROM and RAM), as well as internal register
//! and additional peripherals (RTC, accelerometers, etc).
use vstd::prelude::*;

use vstd::utf8::valid_utf8;

use crate::cartridge::{Cartridge, CartridgeModel, Error};
use crate::header::{
    self, CartridgeHeader, CartridgeType, RamSize, cartridge_type_of, header_result_ok, ram_bytes,
    ram_size_of, rom_size_code_ok, title_bytes, title_is_valid,
};
use crate::memory::Address;
use mbc1::{Mbc1, Mbc1Model, Mode, mbc1_rom_size_ok};
use mbc3::{Mbc3, Mbc3Model, mbc3_rom_size_ok};
use mbc5::{Mbc5, Mbc5Model, mbc5_rom_byte, mbc5_rom_size_ok};
use rom_only::RomOnly;

pub mod mbc1;
pub mod mbc3;
pub mod mbc5;
pub mod rom_only;

verus! {

/// Whether `n` is a power of two.
pub open spec fn is_power_of_two(n: nat) -> bool
    decreases n,
{
    if n == 0 {
        false
    } else if n == 1 {
        true
    } else {
        n % 2 == 0 && is_power_of_two(n / 2)
    }
}

/// Whether `n` is a power of two (exactly one bit of `n` is set).
pub fn power_of_two(n: usize) -> (r: bool)
    ensures
        r == is_power_of_two(n as nat),
{
    if n == 0 {
        return false;
    }
    let mut m: usize = n;
    while m > 1 && m % 2 == 0
        invariant
            m >= 1,
            is_power_of_two(m as nat) == is_power_of_two(n as nat),
        decreases m,
    {
        m = m / 2;
    }
    m == 1
}

/// Whether `address` belongs to the address space of a cartridge: the ROM (0x0000 to 0x8000)
/// or the external RAM (0xA000 to 0xC000).
pub open spec fn is_cartridge_address(address: Address) -> bool {
    address <= 0x7FFF || (0xA000 <= address <= 0xBFFF)
}

/// All mappers must implement this trait. Allows accessing memory-mapped ROM, RAM and any
/// peripherals, as well as obtaining header information and other cartridge-specific functionality.
///
/// A mapper is described by its model (its view): the ROM it holds, what a read of each address
/// returns, the model that a write leaves and its battery-backed RAM.
pub trait Mapper: View + Sized {
    /// The invariant of the mapper's state.
    spec fn wf_view(m: Self::V) -> bool;

    /// The contents of the ROM.
    spec fn rom_view(m: Self::V) -> Seq<u8>;

    /// The accesses to `address` that the mapper serves.
    spec fn can_access(m: Self::V, address: Address) -> bool;

    /// The value that a read of `address` returns.
    spec fn read_view(m: Self::V, address: Address) -> u8;

    /// The state after a write of `value` at `address`.
    spec fn write_view(m: Self::V, address: Address, value: u8) -> Self::V;

    /// The battery-backed RAM, for mappers that have one.
    spec fn battery_view(m: Self::V) -> Option<Seq<u8>>;

    /// The state after the battery-backed RAM is replaced with `ram`.
    spec fn restore_view(m: Self::V, ram: Seq<u8>) -> Self::V;

    /// Whether the mapper serves accesses to `address` (see `can_access`).
    fn serves(&self, address: Address) -> (r: bool)
        requires
            Self::wf_view(self@),
        ensures
            r == Self::can_access(self@, address),
    ;

    /// Obtains the header of the cartridge. It can fail if the rom does not contain enough data
    /// for the header or the title of the game is not a valid string.
    fn header(&self) -> (r: Result<CartridgeHeader<'_>, crate::header::Error>)
        requires
            Self::wf_view(self@),
            rom_size_code_ok(Self::rom_view(self@)),
        ensures
            header_result_ok(r, Self::rom_view(self@)),
    ;

    /// Reads the given memory-mapped address of the cartridge.
    fn read(&self, address: Address) -> (r: u8)
        requires
            Self::wf_view(self@),
            Self::can_access(self@, address),
        ensures
            r == Self::read_view(self@, address),
    ;

    /// Writes the given memory-mapped address of the cartridge with the given value.
    fn write(&mut self, address: Address, value: u8)
        requires
            Self::wf_view(old(self)@),
            Self::can_access(old(self)@, address),
        ensures
            final(self)@ == Self::write_view(old(self)@, address, value),
            Self::wf_view(final(self)@),
    ;

    /// Returns a slice of the RAM that is battery-backed in the cartridge.
    /// Not all cartridge types have this memory.
    fn battery_backed_ram(&self) -> (r: Option<&[u8]>)
        requires
            Self::wf_view(self@),
        ensures
            match Self::battery_view(self@) {
                Some(ram) => r matches Some(s) && s@ == ram,
                None => r is None,
            },
    ;

    /// Attempts to restore the battery-backed RAM from the given slice. This may be used to restore
    /// RAM from a save file after the emulator starts up.
    fn restore_battery_backed_ram(&mut self, ram: &[u8]) -> (r: Result<(), Error>)
        requires
            Self::wf_view(old(self)@),
        ensures
            Self::wf_view(final(self)@),
            match Self::battery_view(old(self)@) {
                None => r == Err::<(), Error>(Error::CartridgeHasNoRam) && final(self)@ == old(
                    self,
                )@,
                Some(current) => if current.len() == ram@.len() {
                    r is Ok && final(self)@ == Self::restore_view(old(self)@, ram@)
                } else {
                    r == Err::<(), Error>(
                        Error::UnexpectedRamSize {
                            expected: current.len() as usize,
                            actual: ram@.len() as usize,
                        },
                    ) && final(self)@ == old(self)@
                },
            },
    ;
}

/// Whether the cartridge type is served by the MBC1 mapper.
pub open spec fn is_mbc1_type(t: CartridgeType) -> bool {
    t == CartridgeType::Mbc1 || t == CartridgeType::Mbc1Ram || t == CartridgeType::Mbc1RamBattery
}

/// Whether the cartridge type is served by the MBC3 mapper.
pub open spec fn is_mbc3_type(t: CartridgeType) -> bool {
    ||| t == CartridgeType::Mbc3
    ||| t == CartridgeType::Mbc3Ram
    ||| t == CartridgeType::Mbc3RamBattery
}

/// Whether the cartridge type is served by the MBC5 mapper.
pub open spec fn is_mbc5_type(t: CartridgeType) -> bool {
    t == CartridgeType::Mbc5 || t == CartridgeType::Mbc5Ram || t == CartridgeType::Mbc5RamBattery
}

/// The cartridge that a ROM image describes, or the error that it is refused with: the
/// header must be present, with a valid title and a known RAM size, and name a supported
/// mapper. A cartridge starts with its RAM cleared and the mapper registers at reset.
pub open spec fn mapper_for(data: Seq<u8>) -> Result<CartridgeModel, Error> {
    if data.len() < 0x150 {
        Err(Error::InvalidHeader(header::Error::NoHeader))
    } else if !valid_utf8(title_bytes(data)) {
        Err(Error::InvalidHeader(header::Error::InvalidTitle))
    } else {
        match ram_bytes(ram_size_of(data[0x149])) {
            None => Err(Error::InvalidHeader(header::Error::InvalidRamSize)),
            Some(ram_size) => {
                let t = cartridge_type_of(data[0x147]);
                let ram = Seq::new(ram_size as nat, |i: int| 0u8);
                if t == CartridgeType::RomOnly {
                    Ok(CartridgeModel::RomOnly(data))
                } else if is_mbc1_type(t) {
                    Ok(
                        CartridgeModel::Mbc1(
                            Mbc1Model {
                                rom: data,
                                ram: ram,
                                ram_enabled: false,
                                rom_bank: 1,
                                ram_bank: 0,
                                mode: Mode::Simple,
                            },
                        ),
                    )
                } else if is_mbc3_type(t) {
                    Ok(
                        CartridgeModel::Mbc3(
                            Mbc3Model {
                                rom: data,
                                ram: ram,
                                ram_enabled: false,
                                rom_bank: 1,
                                ram_bank: 0,
                                rtc: seq![0u8, 0u8, 0u8, 0u8, 0u8],
                            },
                        ),
                    )
                } else if is_mbc5_type(t) {
                    Ok(
                        CartridgeModel::Mbc5(
                            Mbc5Model {
                                rom: data,
                                ram: ram,
                                ram_enabled: false,
                                rom_bank: 0,
                                ram_bank: 0,
                            },
                        ),
                    )
                } else {
                    Err(Error::UnsupportedMapper(t))
                }
            },
        }
    }
}

/// The ROM images that `new_mapper` accepts without failing an assertion: the ROM size code
/// of the header fits the width of `usize`, and the size of the ROM of a supported mapper is
/// one that mapper supports.
pub open spec fn mapper_accepts(data: Seq<u8>) -> bool {
    &&& rom_size_code_ok(data)
    &&& (mapper_for(data) matches Ok(m) ==> match m {
        CartridgeModel::Mbc1(_) => mbc1_rom_size_ok(data.len()),
        CartridgeModel::Mbc3(_) => mbc3_rom_size_ok(data.len()),
        CartridgeModel::Mbc5(_) => mbc5_rom_size_ok(data.len()),
        CartridgeModel::RomOnly(_) => true,
    })
}

/// A power of two is a multiple of every power of two that is not larger.
proof fn lemma_power_of_two_multiple(n: nat, k: nat)
    requires
        is_power_of_two(n),
        is_power_of_two(k),
        n >= k,
    ensures
        n % k == 0,
    decreases n,
{
    if k > 1 && n > 1 {
        let m = n / 2;
        let j = k / 2;
        lemma_power_of_two_multiple(m, j);
        let q = m / j;
        vstd::arithmetic::div_mod::lemma_fundamental_div_mod(m as int, j as int);
        assert(n == q * k) by (nonlinear_arith)
            requires
                n == 2 * m,
                k == 2 * j,
                m == j * q + 0,
        ;
        vstd::arithmetic::div_mod::lemma_mod_multiples_basic(q as int, k as int);
    }
}

/// In a cartridge made from a ROM image of at least 16 KiB, the addresses 0x0000 to 0x3FFF
/// read the first bank of the image.
pub proof fn lemma_bank0_reads_rom(data: Seq<u8>, address: Address)
    requires
        mapper_accepts(data),
        mapper_for(data) is Ok,
        data.len() >= 0x4000,
        address <= 0x3FFF,
    ensures
        Cartridge::read_view(mapper_for(data)->Ok_0, address) == data[address as int],
{
    let c = mapper_for(data)->Ok_0;
    if let CartridgeModel::Mbc5(m) = c {
        assert(is_power_of_two(0x4000)) by {
            reveal_with_fuel(is_power_of_two, 16);
        }
        lemma_power_of_two_multiple(data.len(), 0x4000);
        let len = data.len() as usize;
        let a = address as usize;
        assert(a & ((len - 1) as usize) == a) by (bit_vector)
            requires
                len % 0x4000 == 0,
                len > 0,
                a < 0x4000,
        ;
        assert(mbc5_rom_byte(m, a) == data[address as int]);
    } else if let CartridgeModel::Mbc1(_) = c {
        vstd::arithmetic::div_mod::lemma_small_mod(address as nat, data.len());
    } else if let CartridgeModel::Mbc3(_) = c {
        vstd::arithmetic::div_mod::lemma_small_mod(address as nat, data.len());
    }
}

/// Creates a new mapper from the given ROM. The rom header is parsed to determine the required
/// mapper type, and a cartridge with that mapper is returned.
pub fn new_mapper(data: Vec<u8>) -> (r: Result<Cartridge, Error>)
    requires
        mapper_accepts(data@),
    ensures
        match mapper_for(data@) {
            Ok(m) => r matches Ok(c) && c@ == m && Cartridge::wf_view(c@),
            Err(e) => r == Err::<Cartridge, Error>(e),
        },
{
    let header = match CartridgeHeader::try_new(data.as_slice()) {
        Ok(h) => h,
        Err(e) => {
            return Err(Error::InvalidHeader(e));
        },
    };
    let cartridge_type = header.cartridge_type;
    let ram_size = match header.ram_size.into_usize() {
        Some(n) => n,
        None => {
            return Err(Error::InvalidHeader(header::Error::InvalidRamSize));
        },
    };
    match cartridge_type {
        CartridgeType::RomOnly => Ok(Cartridge::RomOnly(RomOnly::new(data))),
        CartridgeType::Mbc1 | CartridgeType::Mbc1Ram | CartridgeType::Mbc1RamBattery => {
            Ok(Cartridge::Mbc1(Mbc1::new(data, ram_size)))
        },
        CartridgeType::Mbc3
        | CartridgeType::Mbc3Ram
        | CartridgeType::Mbc3RamBattery => Ok(Cartridge::Mbc3(Mbc3::new(data, ram_size))),
        CartridgeType::Mbc5 | CartridgeType::Mbc5Ram | CartridgeType::Mbc5RamBattery => {
            Ok(Cartridge::Mbc5(Mbc5::new(data, ram_size)))
        },
        v => {
            // Other cartridge types are currently unsupported
            Err(Error::UnsupportedMapper(v))
        },
    }
}

/// Whether `new_mapper` accepts the ROM image `data` (see `mapper_accepts`).
pub fn mapper_accepts_rom(data: &[u8]) -> (r: bool)
    ensures
        r == mapper_accepts(data@),
{
    if data.len() < 0x150 || !title_is_valid(data) {
        return true;
    }
    if data[0x148] as u32 >= usize::BITS {
        return false;
    }
    if RamSize::from(data[0x149]).into_usize().is_none() {
        return true;
    }
    let len = data.len();
    match CartridgeType::from(data[0x147]) {
        CartridgeType::Mbc1 | CartridgeType::Mbc1Ram | CartridgeType::Mbc1RamBattery => {
            power_of_two(len) && len <= 0x80000
        },
        CartridgeType::Mbc3
        | CartridgeType::Mbc3Ram
        | CartridgeType::Mbc3RamBattery => power_of_two(len) && len <= 0x200000,
        CartridgeType::Mbc5 | CartridgeType::Mbc5Ram | CartridgeType::Mbc5RamBattery => {
            power_of_two(len) && len <= 0x800000
        },
        _ => true,
    }
}

} // verus!
