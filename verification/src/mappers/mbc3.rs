//! The MBC3 mapper: up to 128 banks of 16 KiB of ROM, up to 4 banks of 8 KiB of RAM, and the
//! five registers of a real-time clock, mapped in place of the RAM. The clock does not run:
//! its registers hold what the game writes to them.
use vstd::prelude::*;

use super::{Mapper, is_power_of_two};
use crate::cartridge::Error;
use crate::header::{CartridgeHeader, header_result_ok, rom_size_code_ok};
use crate::memory::Address;

verus! {

const ROM_BANK_SIZE: usize = 0x4000;

const ROM_BANK_SELECT_MASK: u8 = 0x7F;

const RAM_BASE: usize = 0xA000;

const RAM_BANK_SIZE: usize = 0x2000;

/// The first value of the RAM bank register that selects a register of the clock
const RTC_FIRST_REGISTER: u8 = 0x08;

/// The last value of the RAM bank register that selects a register of the clock
const RTC_LAST_REGISTER: u8 = 0x0C;

/// A cartridge with the MBC3 mapper
pub struct Mbc3 {
    rom: Vec<u8>,
    ram: Vec<u8>,
    ram_enabled: bool,
    selected_rom_bank: usize,
    selected_ram_bank: u8,
    rtc: [u8; 5],
}

/// The state of an MBC3 cartridge.
pub struct Mbc3Model {
    /// The contents of the ROM
    pub rom: Seq<u8>,
    /// The contents of the RAM
    pub ram: Seq<u8>,
    /// Whether the RAM and the clock can be accessed
    pub ram_enabled: bool,
    /// The ROM bank mapped at 0x4000
    pub rom_bank: usize,
    /// The RAM bank (0 to 3) or clock register (8 to 0xC) mapped at 0xA000
    pub ram_bank: u8,
    /// The registers of the clock: seconds, minutes, hours, and the low and high bytes of the
    /// day counter
    pub rtc: Seq<u8>,
}

impl View for Mbc3 {
    type V = Mbc3Model;

    closed spec fn view(&self) -> Mbc3Model {
        Mbc3Model {
            rom: self.rom@,
            ram: self.ram@,
            ram_enabled: self.ram_enabled,
            rom_bank: self.selected_rom_bank,
            ram_bank: self.selected_ram_bank,
            rtc: self.rtc@,
        }
    }
}

/// The ROM sizes that the MBC3 supports: a power of two up to 2 MiB.
pub open spec fn mbc3_rom_size_ok(len: nat) -> bool {
    is_power_of_two(len) && len <= 0x200000
}

/// The byte of the ROM that the ROM address `address` reads: banks that do not exist read
/// the wrapped address.
pub open spec fn mbc3_rom_byte(m: Mbc3Model, address: int) -> u8 {
    m.rom[address % (m.rom.len() as int)]
}

/// The index in the RAM of the RAM address `address` (0xA000 to 0xC000) in the selected bank.
pub open spec fn mbc3_ram_index(m: Mbc3Model, address: Address) -> int {
    m.ram_bank * 0x2000 + address - 0xA000
}

/// Whether the RAM bank register selects a register of the clock.
pub open spec fn selects_rtc(bank: u8) -> bool {
    0x08 <= bank <= 0x0C
}

/// Every write keeps the invariant of the MBC3.
pub proof fn lemma_mbc3_write_wf(m: Mbc3Model, address: Address, value: u8)
    requires
        Mbc3::wf_view(m),
    ensures
        Mbc3::wf_view(Mbc3::write_view(m, address, value)),
{
    assert(value & 0x7F < 0x80) by (bit_vector);
}

/// A write of `value` to 0x2000 to 0x3FFF selects the ROM bank numbered by the low seven bits
/// of `value` (bank 1 in place of bank 0): reads of 0x4000 to 0x7FFF then give the bytes of
/// that bank, wrapped to the size of the ROM.
pub proof fn lemma_mbc3_rom_bank_select(m: Mbc3Model, address: Address, value: u8, read: Address)
    requires
        Mbc3::wf_view(m),
        0x2000 <= address <= 0x3FFF,
        0x4000 <= read <= 0x7FFF,
    ensures
        Mbc3::read_view(Mbc3::write_view(m, address, value), read) == m.rom[((if value % 128 == 0 {
            1
        } else {
            value % 128
        }) * 0x4000 + (read - 0x4000)) % (m.rom.len() as int)],
{
    assert(value & 0x7F == value % 128) by (bit_vector);
}

impl Mbc3 {
    /// Creates the cartridge from its ROM, with `ram_size` bytes of RAM.
    pub fn new(rom: Vec<u8>, ram_size: usize) -> (r: Self)
        requires
            mbc3_rom_size_ok(rom@.len()),
        ensures
            r@ == (Mbc3Model {
                rom: rom@,
                ram: Seq::new(ram_size as nat, |i: int| 0u8),
                ram_enabled: false,
                rom_bank: 1,
                ram_bank: 0,
                rtc: seq![0u8, 0u8, 0u8, 0u8, 0u8],
            }),
            Mbc3::wf_view(r@),
    {
        let ram = vec![0u8; ram_size];
        let r = Self {
            rom,
            ram,
            ram_enabled: false,
            selected_rom_bank: 1,
            selected_ram_bank: 0,
            rtc: [0; 5],
        };
        assert(r@.ram =~= Seq::new(ram_size as nat, |i: int| 0u8));
        assert(r@.rtc =~= seq![0u8, 0u8, 0u8, 0u8, 0u8]);
        r
    }

    fn read_rom(&self, address: usize) -> (r: u8)
        requires
            self.rom@.len() > 0,
        ensures
            r == mbc3_rom_byte(self@, address as int),
    {
        let address = address % self.rom.len();
        self.rom[address]
    }
}

impl Mapper for Mbc3 {
    open spec fn wf_view(m: Mbc3Model) -> bool {
        &&& mbc3_rom_size_ok(m.rom.len())
        &&& 1 <= m.rom_bank < 0x80
        &&& m.rtc.len() == 5
    }

    open spec fn rom_view(m: Mbc3Model) -> Seq<u8> {
        m.rom
    }

    open spec fn can_access(m: Mbc3Model, address: Address) -> bool {
        super::is_cartridge_address(address)
    }

    /// ROM bank 0 at 0x0000, the selected ROM bank at 0x4000, and at 0xA000 the selected RAM
    /// bank or clock register; disabled RAM, banks beyond the RAM and unknown registers read
    /// 0xFF.
    open spec fn read_view(m: Mbc3Model, address: Address) -> u8 {
        if address <= 0x3FFF {
            mbc3_rom_byte(m, address as int)
        } else if address <= 0x7FFF {
            mbc3_rom_byte(m, m.rom_bank * 0x4000 + address - 0x4000)
        } else if 0xA000 <= address <= 0xBFFF {
            if !m.ram_enabled {
                0xFF
            } else if m.ram_bank <= 3 && mbc3_ram_index(m, address) < m.ram.len() {
                m.ram[mbc3_ram_index(m, address)]
            } else if selects_rtc(m.ram_bank) {
                m.rtc[m.ram_bank - 8]
            } else {
                0xFF
            }
        } else {
            0
        }
    }

    /// Writes to the ROM area select the RAM enable, the ROM bank and the RAM bank or clock
    /// register; a write to 0x6000 to 0x7FFF latches the clock, which does not run. Writes to
    /// 0xA000 go to the selected RAM byte or clock register while the RAM is enabled.
    open spec fn write_view(m: Mbc3Model, address: Address, value: u8) -> Mbc3Model {
        if address <= 0x1FFF {
            Mbc3Model { ram_enabled: value & 0xF == 0x0A, ..m }
        } else if address <= 0x3FFF {
            let bank = (value & 0x7F) as usize;
            Mbc3Model { rom_bank: if bank == 0 { 1 } else { bank }, ..m }
        } else if address <= 0x5FFF {
            Mbc3Model { ram_bank: value, ..m }
        } else if address <= 0x7FFF {
            m
        } else if 0xA000 <= address <= 0xBFFF && m.ram_enabled {
            if m.ram_bank <= 3 && mbc3_ram_index(m, address) < m.ram.len() {
                Mbc3Model { ram: m.ram.update(mbc3_ram_index(m, address), value), ..m }
            } else if selects_rtc(m.ram_bank) {
                Mbc3Model { rtc: m.rtc.update(m.ram_bank - 8, value), ..m }
            } else {
                m
            }
        } else {
            m
        }
    }

    /// The whole RAM is battery-backed.
    open spec fn battery_view(m: Mbc3Model) -> Option<Seq<u8>> {
        Some(m.ram)
    }

    open spec fn restore_view(m: Mbc3Model, ram: Seq<u8>) -> Mbc3Model {
        Mbc3Model { ram: ram, ..m }
    }

    fn serves(&self, address: Address) -> (r: bool) {
        address <= 0x7FFF || (0xA000 <= address && address <= 0xBFFF)
    }

    fn header(&self) -> (r: Result<CartridgeHeader<'_>, crate::header::Error>) {
        CartridgeHeader::try_new(self.rom.as_slice())
    }

    fn read(&self, address: Address) -> (r: u8) {
        if address <= 0x3FFF {
            // ROM bank 0 (16 KiB)
            self.read_rom(address as usize)
        } else if address <= 0x7FFF {
            // ROM bank 1 to 0x7F (16 KiB each)
            let offset = self.selected_rom_bank * ROM_BANK_SIZE;
            self.read_rom(offset + address as usize - ROM_BANK_SIZE)
        } else if 0xA000 <= address && address <= 0xBFFF {
            if !self.ram_enabled {
                return 0xFF;
            }
            let bank = self.selected_ram_bank;
            if bank <= 3 {
                let index = bank as usize * RAM_BANK_SIZE + address as usize - RAM_BASE;
                if index < self.ram.len() {
                    return self.ram[index];
                }
            }
            if RTC_FIRST_REGISTER <= bank && bank <= RTC_LAST_REGISTER {
                self.rtc[(bank - RTC_FIRST_REGISTER) as usize]
            } else {
                0xFF
            }
        } else {
            0
        }
    }

    fn write(&mut self, address: Address, value: u8) {
        proof {
            lemma_mbc3_write_wf(self@, address, value);
        }
        if address <= 0x1FFF {
            // RAM and clock are enabled if the lower nibble is A
            self.ram_enabled = value & 0xF == 0x0A;
        } else if address <= 0x3FFF {
            // ROM bank number
            let bank = (value & ROM_BANK_SELECT_MASK) as usize;
            self.selected_rom_bank = if bank == 0 {
                1
            } else {
                bank
            };
        } else if address <= 0x5FFF {
            // RAM bank number or clock register
            self.selected_ram_bank = value;
        } else if address <= 0x7FFF {
            // Latch of the clock: the clock does not run, its registers stay as they are
        } else if 0xA000 <= address && address <= 0xBFFF && self.ram_enabled {
            let bank = self.selected_ram_bank;
            if bank <= 3 {
                let index = bank as usize * RAM_BANK_SIZE + address as usize - RAM_BASE;
                if index < self.ram.len() {
                    self.ram.set(index, value);
                    return ;
                }
            }
            if RTC_FIRST_REGISTER <= bank && bank <= RTC_LAST_REGISTER {
                self.rtc[(bank - RTC_FIRST_REGISTER) as usize] = value;
                assert(self.rtc@ =~= old(self).rtc@.update(bank - 8, value));
            }
        }
    }

    fn battery_backed_ram(&self) -> (r: Option<&[u8]>) {
        Some(self.ram.as_slice())
    }

    fn restore_battery_backed_ram(&mut self, ram: &[u8]) -> (r: Result<(), Error>) {
        if ram.len() != self.ram.len() {
            return Err(Error::UnexpectedRamSize { expected: self.ram.len(), actual: ram.len() });
        }
        let mut i: usize = 0;
        while i < ram.len()
            invariant
                i <= ram@.len(),
                self.ram@.len() == ram@.len(),
                forall|j: int| 0 <= j < i ==> self.ram@[j] == ram@[j],
                self.rom@ == old(self).rom@,
                self.ram_enabled == old(self).ram_enabled,
                self.selected_rom_bank == old(self).selected_rom_bank,
                self.selected_ram_bank == old(self).selected_ram_bank,
                self.rtc@ == old(self).rtc@,
            decreases ram@.len() - i,
        {
            self.ram.set(i, ram[i]);
            i = i + 1;
        }
        assert(self.ram@ =~= ram@);
        Ok(())
    }
}

} // verus!
