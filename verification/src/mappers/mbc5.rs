//! The MBC5 mapper: up to 512 banks of 16 KiB of ROM and up to 16 banks of 8 KiB of RAM.
use vstd::prelude::*;

use super::{Mapper, is_power_of_two};
use crate::bits::lemma_mask_bounds;
use crate::cartridge::Error;
use crate::header::{CartridgeHeader, header_result_ok, rom_size_code_ok};
use crate::memory::Address;

verus! {

const ROM_BANK_SIZE: usize = 0x4000;

const ROM_BANK_MSB_SELECT_MASK: usize = 0x0100;

const ROM_BANK_MSB_SELECT_OFFSET: usize = 8;

const ROM_BANK_LSB_SELECT_MASK: usize = 0xFF;

const RAM_BASE: usize = 0xA000;

const RAM_BANK_SIZE: usize = 0x2000;

const RAM_BANK_SELECT_MASK: usize = 0x0f;

/// A cartridge with the MBC5 mapper
pub struct Mbc5 {
    rom: Vec<u8>,
    ram: Vec<u8>,
    ram_enabled: bool,
    selected_rom_bank: usize,
    selected_ram_bank: usize,
}

/// The state of an MBC5 cartridge.
pub struct Mbc5Model {
    /// The contents of the ROM
    pub rom: Seq<u8>,
    /// The contents of the RAM
    pub ram: Seq<u8>,
    /// Whether the RAM can be accessed
    pub ram_enabled: bool,
    /// The ROM bank mapped at 0x4000
    pub rom_bank: usize,
    /// The RAM bank mapped at 0xA000
    pub ram_bank: usize,
}

impl View for Mbc5 {
    type V = Mbc5Model;

    closed spec fn view(&self) -> Mbc5Model {
        Mbc5Model {
            rom: self.rom@,
            ram: self.ram@,
            ram_enabled: self.ram_enabled,
            rom_bank: self.selected_rom_bank,
            ram_bank: self.selected_ram_bank,
        }
    }
}

/// The ROM sizes that the MBC5 supports: a power of two up to 8 MiB.
pub open spec fn mbc5_rom_size_ok(len: nat) -> bool {
    is_power_of_two(len) && len <= 0x800000
}

/// The byte of the ROM at `address`, wrapped to the size of the ROM.
pub open spec fn mbc5_rom_byte(m: Mbc5Model, address: usize) -> u8 {
    m.rom[(address & ((m.rom.len() - 1) as usize)) as int]
}

/// The index in the RAM of `address`, wrapped to the size of the RAM.
pub open spec fn mbc5_ram_index(m: Mbc5Model, address: usize) -> int {
    (address & ((m.ram.len() - 1) as usize)) as int
}

/// The offset in the RAM of the RAM address `address` (0xA000 to 0xC000) in the selected bank.
pub open spec fn mbc5_ram_address(m: Mbc5Model, address: Address) -> usize {
    (address - 0xA000 + m.ram_bank * 0x2000) as usize
}

/// A write to 0x2000 to 0x2FFF sets the low eight bits of the ROM bank number and keeps its
/// ninth bit; a write to 0x3000 to 0x3FFF sets the bits above the low eight and keeps those.
pub proof fn lemma_mbc5_rom_bank_select(m: Mbc5Model, address: Address, value: u8)
    requires
        Mbc5::wf_view(m),
        0x2000 <= address <= 0x3FFF,
    ensures
        address <= 0x2FFF ==> Mbc5::write_view(m, address, value).rom_bank == (m.rom_bank / 256)
            % 2 * 256 + value,
        address >= 0x3000 ==> Mbc5::write_view(m, address, value).rom_bank == m.rom_bank % 256
            + value * 256,
{
    let b = m.rom_bank;
    let v = value as usize;
    assert((b & 0x100) | v == (b / 256) % 2 * 256 + v && (b & 0xFF) | (v << 8usize) == b % 256
        + v * 256) by (bit_vector)
        requires
            b < 0x10000,
            v < 256,
    ;
}

/// Every write keeps the invariant of the MBC5.
pub proof fn lemma_mbc5_write_wf(m: Mbc5Model, address: Address, value: u8)
    requires
        Mbc5::wf_view(m),
    ensures
        Mbc5::wf_view(Mbc5::write_view(m, address, value)),
{
    lemma_mask_bounds(value as usize, 1, m.rom_bank, value as usize);
    if 0xA000 <= address && m.ram_enabled && m.ram.len() > 0 {
        let mask = (m.ram.len() - 1) as usize;
        let a = mbc5_ram_address(m, address);
        assert(a & mask <= mask) by (bit_vector);
    }
}

impl Mbc5 {
    /// Creates the cartridge from its ROM, with `ram_size` bytes of RAM.
    pub fn new(rom: Vec<u8>, ram_size: usize) -> (r: Self)
        requires
            mbc5_rom_size_ok(rom@.len()),
        ensures
            r@ == (Mbc5Model {
                rom: rom@,
                ram: Seq::new(ram_size as nat, |i: int| 0u8),
                ram_enabled: false,
                rom_bank: 0,
                ram_bank: 0,
            }),
            Mbc5::wf_view(r@),
    {
        let ram = vec![0u8; ram_size];
        let r = Self { rom, ram, ram_enabled: false, selected_rom_bank: 0, selected_ram_bank: 0 };
        assert(r@.ram =~= Seq::new(ram_size as nat, |i: int| 0u8));
        r
    }

    fn read_rom(&self, address: usize) -> (r: u8)
        requires
            self.rom@.len() > 0,
        ensures
            r == mbc5_rom_byte(self@, address),
    {
        // Banks that don't exist need to read the wrapped address value.
        let index = address & (self.rom.len() - 1);
        proof {
            lemma_mask_bounds(address, self.rom.len(), 0, 0);
        }
        self.rom[index]
    }

    fn read_ram(&self, address: usize) -> (r: u8)
        requires
            self.ram@.len() > 0,
        ensures
            r == self@.ram[mbc5_ram_index(self@, address)],
    {
        let index = address & (self.ram.len() - 1);
        proof {
            lemma_mask_bounds(address, self.ram.len(), 0, 0);
        }
        self.ram[index]
    }

    fn write_ram(&mut self, address: usize, value: u8)
        requires
            old(self)@.ram.len() > 0,
        ensures
            final(self)@ == (Mbc5Model {
                ram: old(self)@.ram.update(mbc5_ram_index(old(self)@, address), value),
                ..old(self)@
            }),
            final(self)@.ram.len() == old(self)@.ram.len(),
    {
        let index = address & (self.ram.len() - 1);
        proof {
            lemma_mask_bounds(address, self.ram.len(), 0, 0);
        }
        self.ram.set(index, value);
    }
}

impl Mapper for Mbc5 {
    open spec fn wf_view(m: Mbc5Model) -> bool {
        &&& mbc5_rom_size_ok(m.rom.len())
        &&& m.rom_bank < 0x10000
        &&& m.ram_bank < 16
        &&& m.ram.len() <= usize::MAX
    }

    open spec fn rom_view(m: Mbc5Model) -> Seq<u8> {
        m.rom
    }

    open spec fn can_access(m: Mbc5Model, address: Address) -> bool {
        super::is_cartridge_address(address)
    }

    /// ROM bank 0 at 0x0000, the selected ROM bank at 0x4000 and the selected RAM bank at
    /// 0xA000, which reads 0xFF while the RAM is disabled or when the cartridge has none.
    open spec fn read_view(m: Mbc5Model, address: Address) -> u8 {
        if address <= 0x3FFF {
            mbc5_rom_byte(m, address as usize)
        } else if address <= 0x7FFF {
            mbc5_rom_byte(m, (address - 0x4000 + m.rom_bank * 0x4000) as usize)
        } else if 0xA000 <= address <= 0xBFFF {
            if !m.ram_enabled || m.ram.len() == 0 {
                0xff
            } else {
                m.ram[mbc5_ram_index(m, mbc5_ram_address(m, address))]
            }
        } else {
            0
        }
    }

    /// Writes to the ROM area select the RAM enable, the ROM bank and the RAM bank.
    open spec fn write_view(m: Mbc5Model, address: Address, value: u8) -> Mbc5Model {
        if address <= 0x1FFF {
            Mbc5Model { ram_enabled: value & 0xF == 0x0A, ..m }
        } else if address <= 0x2FFF {
            Mbc5Model { rom_bank: (m.rom_bank & 0x100) | (value as usize), ..m }
        } else if address <= 0x3FFF {
            Mbc5Model { rom_bank: (m.rom_bank & 0xFF) | ((value as usize) << 8usize), ..m }
        } else if address <= 0x5FFF {
            Mbc5Model { ram_bank: (value as usize) & 0x0f, ..m }
        } else if 0xA000 <= address <= 0xBFFF && m.ram_enabled && m.ram.len() > 0 {
            Mbc5Model {
                ram: m.ram.update(mbc5_ram_index(m, mbc5_ram_address(m, address)), value),
                ..m
            }
        } else {
            m
        }
    }

    /// The whole RAM is battery-backed.
    open spec fn battery_view(m: Mbc5Model) -> Option<Seq<u8>> {
        Some(m.ram)
    }

    open spec fn restore_view(m: Mbc5Model, ram: Seq<u8>) -> Mbc5Model {
        Mbc5Model { ram: ram, ..m }
    }

    fn serves(&self, address: Address) -> (r: bool) {
        address <= 0x7FFF || (0xA000 <= address && address <= 0xBFFF)
    }

    fn header(&self) -> (r: Result<CartridgeHeader<'_>, crate::header::Error>) {
        CartridgeHeader::try_new(self.rom.as_slice())
    }

    fn read(&self, address: Address) -> (r: u8) {
        if address <= 0x3FFF {
            // ROM bank 0 (16 KiB)
            self.read_rom(address as usize)
        } else if address <= 0x7FFF {
            // ROM bank 0 to 0x1FF (16 KiB each)
            let offset = self.selected_rom_bank * ROM_BANK_SIZE;
            self.read_rom(address as usize - ROM_BANK_SIZE + offset)
        } else if 0xA000 <= address && address <= 0xBFFF {
            if !self.ram_enabled || self.ram.len() == 0 {
                // Disabled RAM, or a cartridge without RAM, reads as an open bus
                return 0xff;
            }
            let offset = self.selected_ram_bank * RAM_BANK_SIZE;
            self.read_ram(address as usize - RAM_BASE + offset)
        } else {
            0
        }
    }

    fn write(&mut self, address: Address, value: u8) {
        proof {
            lemma_mask_bounds(value as usize, 1, self.selected_rom_bank, value as usize);
        }
        if address <= 0x1FFF {
            // Ram is enabled if lower nibble is A
            self.ram_enabled = value & 0xF == 0x0A;
        } else if address <= 0x2FFF {
            // Low 8-bits of ROM Bank number
            self.selected_rom_bank = (self.selected_rom_bank & ROM_BANK_MSB_SELECT_MASK)
                | (value as usize);
        } else if address <= 0x3FFF {
            // Bit 9 of ROM Bank number
            self.selected_rom_bank = (self.selected_rom_bank & ROM_BANK_LSB_SELECT_MASK) | ((
            value as usize) << ROM_BANK_MSB_SELECT_OFFSET);
        } else if address <= 0x5FFF {
            // RAM Bank number
            self.selected_ram_bank = (value as usize) & RAM_BANK_SELECT_MASK;
        } else if 0xA000 <= address && address <= 0xBFFF {
            if !self.ram_enabled || self.ram.len() == 0 {
                return ;
            }
            let offset = self.selected_ram_bank * RAM_BANK_SIZE;
            self.write_ram(address as usize - RAM_BASE + offset, value);
        }
    }

    fn battery_backed_ram(&self) -> (r: Option<&[u8]>) {
        Some(self.ram.as_slice())
    }

    fn restore_battery_backed_ram(&mut self, ram: &[u8]) -> (r: Result<(), Error>) {
        if ram.len() != self.ram.len() {
            return Err(Error::UnexpectedRamSize { expected: self.ram.len(), actual: ram.len() });
        }
        let mut i: usize = 0;
        while i < ram.len()
            invariant
                i <= ram@.len(),
                self.ram@.len() == ram@.len(),
                forall|j: int| 0 <= j < i ==> self.ram@[j] == ram@[j],
                self.rom@ == old(self).rom@,
                self.ram_enabled == old(self).ram_enabled,
                self.selected_rom_bank == old(self).selected_rom_bank,
                self.selected_ram_bank == old(self).selected_ram_bank,
            decreases ram@.len() - i,
        {
            self.ram.set(i, ram[i]);
            i = i + 1;
        }
        assert(self.ram@ =~= ram@);
        Ok(())
    }
}

} // verus!
