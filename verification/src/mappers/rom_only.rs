//! Cartridges with a fixed ROM mapping and no mapper IC.
use vstd::prelude::*;

use super::Mapper;
use crate::cartridge::Error;
use crate::header::{CartridgeHeader, header_result_ok, rom_size_code_ok};
use crate::memory::Address;

verus! {

/// A cartridge that holds only a ROM, mapped from address 0.
pub struct RomOnly {
    data: Vec<u8>,
}

impl View for RomOnly {
    type V = Seq<u8>;

    closed spec fn view(&self) -> Seq<u8> {
        self.data@
    }
}

impl RomOnly {
    /// Creates the cartridge from the contents of its ROM
    pub fn new(data: Vec<u8>) -> (r: Self)
        ensures
            r@ == data@,
    {
        Self { data }
    }
}

impl Mapper for RomOnly {
    open spec fn wf_view(m: Seq<u8>) -> bool {
        true
    }

    open spec fn rom_view(m: Seq<u8>) -> Seq<u8> {
        m
    }

    open spec fn can_access(m: Seq<u8>, address: Address) -> bool {
        true
    }

    /// Reads beyond the end of the ROM return 0.
    open spec fn read_view(m: Seq<u8>, address: Address) -> u8 {
        if (address as int) < m.len() {
            m[address as int]
        } else {
            0
        }
    }

    /// Writes are ignored.
    open spec fn write_view(m: Seq<u8>, address: Address, value: u8) -> Seq<u8> {
        m
    }

    open spec fn battery_view(m: Seq<u8>) -> Option<Seq<u8>> {
        None
    }

    open spec fn restore_view(m: Seq<u8>, ram: Seq<u8>) -> Seq<u8> {
        m
    }

    fn serves(&self, address: Address) -> (r: bool) {
        true
    }

    fn header(&self) -> (r: Result<CartridgeHeader<'_>, crate::header::Error>) {
        CartridgeHeader::try_new(self.data.as_slice())
    }

    fn read(&self, address: Address) -> (r: u8) {
        if (address as usize) < self.data.len() {
            self.data[address as usize]
        } else {
            0
        }
    }

    fn write(&mut self, address: Address, value: u8) {
    }

    fn battery_backed_ram(&self) -> (r: Option<&[u8]>) {
        None
    }

    fn restore_battery_backed_ram(&mut self, ram: &[u8]) -> (r: Result<(), Error>) {
        Err(Error::CartridgeHasNoRam)
    }
}

} // verus!
