//! The MBC1 mapper: up to 32 banks of 16 KiB of ROM and up to 4 banks of 8 KiB of RAM.
use vstd::prelude::*;

use super::{Mapper, is_power_of_two};
use crate::bits::lemma_mask_bounds;
use crate::cartridge::Error;
use crate::header::{CartridgeHeader, header_result_ok, rom_size_code_ok};
use crate::memory::Address;

verus! {

const ROM_BANK_SIZE: usize = 0x4000;

const ROM_BANK_SELECT_MASK: usize = 0x1F;

const RAM_BASE: usize = 0xA000;

const RAM_BANK_SIZE: usize = 0x2000;

const RAM_BANK_SELECT_MASK: usize = 0x03;

const BANK_MODE_SELECT_MASK: usize = 0x01;

/// The banking mode of the MBC1
#[derive(Debug, PartialEq, Eq, Clone, Copy, Structural)]
pub enum Mode {
    /// The RAM is not banked
    Simple,
    /// The selected RAM bank is mapped
    Advanced,
}

/// A cartridge with the MBC1 mapper
pub struct Mbc1 {
    ram: Vec<u8>,
    rom: Vec<u8>,
    ram_enabled: bool,
    selected_rom_bank: usize,
    selected_ram_bank: usize,
    mode: Mode,
}

/// The state of an MBC1 cartridge.
pub struct Mbc1Model {
    /// The contents of the ROM
    pub rom: Seq<u8>,
    /// The contents of the RAM
    pub ram: Seq<u8>,
    /// Whether the RAM can be accessed
    pub ram_enabled: bool,
    /// The ROM bank mapped at 0x4000
    pub rom_bank: usize,
    /// The selected RAM bank
    pub ram_bank: usize,
    /// The banking mode
    pub mode: Mode,
}

impl View for Mbc1 {
    type V = Mbc1Model;

    closed spec fn view(&self) -> Mbc1Model {
        Mbc1Model {
            rom: self.rom@,
            ram: self.ram@,
            ram_enabled: self.ram_enabled,
            rom_bank: self.selected_rom_bank,
            ram_bank: self.selected_ram_bank,
            mode: self.mode,
        }
    }
}

/// The ROM sizes that the MBC1 supports: a power of two up to 512 KiB.
pub open spec fn mbc1_rom_size_ok(len: nat) -> bool {
    is_power_of_two(len) && len <= 0x80000
}

/// The offset of the mapped RAM bank.
pub open spec fn mbc1_ram_offset(m: Mbc1Model) -> int {
    if m.mode == Mode::Advanced {
        m.ram_bank * 0x2000
    } else {
        0
    }
}

/// The byte of the ROM that the ROM address `address` reads: banks that do not exist read
/// the wrapped address.
pub open spec fn mbc1_rom_byte(m: Mbc1Model, address: int) -> u8 {
    m.rom[address % (m.rom.len() as int)]
}

/// The byte of the RAM at `address`, or 0 when the RAM is disabled or smaller.
pub open spec fn mbc1_ram_byte(m: Mbc1Model, address: int) -> u8 {
    if address < m.ram.len() && m.ram_enabled {
        m.ram[address]
    } else {
        0
    }
}

/// Every write keeps the invariant of the MBC1.
pub proof fn lemma_mbc1_write_wf(m: Mbc1Model, address: Address, value: u8)
    requires
        Mbc1::wf_view(m),
    ensures
        Mbc1::wf_view(Mbc1::write_view(m, address, value)),
{
    lemma_mask_bounds(value as usize, 1, 0, 0);
}

/// A write of `value` to 0x2000 to 0x3FFF selects the ROM bank numbered by the low five bits
/// of `value` (bank 1 in place of bank 0): reads of 0x4000 to 0x7FFF then give the bytes of
/// that bank, wrapped to the size of the ROM.
pub proof fn lemma_mbc1_rom_bank_select(m: Mbc1Model, address: Address, value: u8, read: Address)
    requires
        Mbc1::wf_view(m),
        0x2000 <= address <= 0x3FFF,
        0x4000 <= read <= 0x7FFF,
    ensures
        Mbc1::read_view(Mbc1::write_view(m, address, value), read) == m.rom[((if value % 32 == 0 {
            1
        } else {
            value % 32
        }) * 0x4000 + (read - 0x4000)) % (m.rom.len() as int)],
{
    let v = value as usize;
    assert(v & 0x1F == v % 32) by (bit_vector);
}

impl Mbc1 {
    /// Creates the cartridge from its ROM, with `ram_size` bytes of RAM.
    pub fn new(rom: Vec<u8>, ram_size: usize) -> (r: Self)
        requires
            mbc1_rom_size_ok(rom@.len()),
        ensures
            r@ == (Mbc1Model {
                rom: rom@,
                ram: Seq::new(ram_size as nat, |i: int| 0u8),
                ram_enabled: false,
                rom_bank: 1,
                ram_bank: 0,
                mode: Mode::Simple,
            }),
            Mbc1::wf_view(r@),
    {
        let ram = vec![0u8; ram_size];
        let r = Self {
            rom,
            ram,
            ram_enabled: false,
            selected_rom_bank: 1,
            selected_ram_bank: 0,
            mode: Mode::Simple,
        };
        assert(r@.ram =~= Seq::new(ram_size as nat, |i: int| 0u8));
        r
    }

    fn read_rom(&self, address: usize) -> (r: u8)
        requires
            self.rom@.len() > 0,
        ensures
            r == mbc1_rom_byte(self@, address as int),
    {
        let address = address % self.rom.len();
        self.rom[address]
    }

    fn read_ram(&self, address: usize) -> (r: u8)
        ensures
            r == mbc1_ram_byte(self@, address as int),
    {
        if address < self.ram.len() && self.ram_enabled {
            self.ram[address]
        } else {
            0
        }
    }

    fn write_ram(&mut self, address: usize, value: u8)
        ensures
            final(self)@ == (Mbc1Model {
                ram: if (address as int) < old(self)@.ram.len() && old(self)@.ram_enabled {
                    old(self)@.ram.update(address as int, value)
                } else {
                    old(self)@.ram
                },
                ..old(self)@
            }),
    {
        if address < self.ram.len() && self.ram_enabled {
            self.ram.set(address, value);
        }
    }

    fn ram_offset(&self) -> (r: usize)
        requires
            self.selected_ram_bank < 4,
        ensures
            r == mbc1_ram_offset(self@),
    {
        if self.mode == Mode::Advanced {
            self.selected_ram_bank * RAM_BANK_SIZE
        } else {
            0
        }
    }
}

impl Mapper for Mbc1 {
    open spec fn wf_view(m: Mbc1Model) -> bool {
        &&& mbc1_rom_size_ok(m.rom.len())
        &&& 1 <= m.rom_bank < 0x20
        &&& m.ram_bank < 4
    }

    open spec fn rom_view(m: Mbc1Model) -> Seq<u8> {
        m.rom
    }

    open spec fn can_access(m: Mbc1Model, address: Address) -> bool {
        super::is_cartridge_address(address)
    }

    /// ROM bank 0 at 0x0000, the selected ROM bank at 0x4000 and the RAM at 0xA000.
    open spec fn read_view(m: Mbc1Model, address: Address) -> u8 {
        if address <= 0x3FFF {
            mbc1_rom_byte(m, address as int)
        } else if address <= 0x7FFF {
            mbc1_rom_byte(m, (m.rom_bank - 1) * 0x4000 + address)
        } else if 0xA000 <= address <= 0xBFFF {
            mbc1_ram_byte(m, address - 0xA000 + mbc1_ram_offset(m))
        } else {
            0
        }
    }

    /// Writes to the ROM area select the RAM enable, the ROM bank, the RAM bank and the mode.
    open spec fn write_view(m: Mbc1Model, address: Address, value: u8) -> Mbc1Model {
        if address <= 0x1FFF {
            Mbc1Model { ram_enabled: value & 0xF == 0x0A, ..m }
        } else if address <= 0x3FFF {
            let bank = (value as usize) & 0x1F;
            Mbc1Model { rom_bank: if bank == 0 { 1 } else { bank }, ..m }
        } else if address <= 0x5FFF {
            Mbc1Model { ram_bank: (value as usize) & 0x03, ..m }
        } else if address <= 0x7FFF {
            Mbc1Model {
                mode: if (value as usize) & 0x01 != 0 { Mode::Advanced } else { Mode::Simple },
                ..m
            }
        } else if 0xA000 <= address <= 0xBFFF {
            let index = address - 0xA000 + mbc1_ram_offset(m);
            if index < m.ram.len() && m.ram_enabled {
                Mbc1Model { ram: m.ram.update(index, value), ..m }
            } else {
                m
            }
        } else {
            m
        }
    }

    open spec fn battery_view(m: Mbc1Model) -> Option<Seq<u8>> {
        None
    }

    open spec fn restore_view(m: Mbc1Model, ram: Seq<u8>) -> Mbc1Model {
        m
    }

    fn serves(&self, address: Address) -> (r: bool) {
        address <= 0x7FFF || (0xA000 <= address && address <= 0xBFFF)
    }

    fn header(&self) -> (r: Result<CartridgeHeader<'_>, crate::header::Error>) {
        CartridgeHeader::try_new(self.rom.as_slice())
    }

    fn read(&self, address: Address) -> (r: u8) {
        if address <= 0x3FFF {
            // ROM bank 0 (16 KiB)
            self.read_rom(address as usize)
        } else if address <= 0x7FFF {
            // ROM bank 1 to 0x1F (16 KiB each)
            let address = (self.selected_rom_bank - 1) * ROM_BANK_SIZE + address as usize;
            self.read_rom(address)
        } else if 0xA000 <= address && address <= 0xBFFF {
            let offset = self.ram_offset();
            self.read_ram(address as usize - RAM_BASE + offset)
        } else {
            0
        }
    }

    fn write(&mut self, address: Address, value: u8) {
        proof {
            lemma_mask_bounds(value as usize, 1, 0, 0);
        }
        if address <= 0x1FFF {
            // Ram is enabled if lower nibble is A
            self.ram_enabled = value & 0xF == 0x0A;
        } else if address <= 0x3FFF {
            // ROM Bank number
            let bank = (value as usize) & ROM_BANK_SELECT_MASK;
            if bank == 0 {
                self.selected_rom_bank = 1;
            } else {
                self.selected_rom_bank = bank;
            }
        } else if address <= 0x5FFF {
            // RAM Bank number
            self.selected_ram_bank = (value as usize) & RAM_BANK_SELECT_MASK;
        } else if address <= 0x7FFF {
            // Banking mode selection
            let mode = (value as usize) & BANK_MODE_SELECT_MASK;
            self.mode = if mode != 0 {
                Mode::Advanced
            } else {
                Mode::Simple
            };
        } else if 0xA000 <= address && address <= 0xBFFF {
            let offset = self.ram_offset();
            self.write_ram(address as usize - RAM_BASE + offset, value);
        }
    }

    fn battery_backed_ram(&self) -> (r: Option<&[u8]>) {
        None
    }

    fn restore_battery_backed_ram(&mut self, ram: &[u8]) -> (r: Result<(), Error>) {
        Err(Error::CartridgeHasNoRam)
    }
}

} // verus!
