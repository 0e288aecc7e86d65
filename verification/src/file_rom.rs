//! A ROM image held in memory, as read from a file.
use vstd::prelude::*;

use crate::memory::Address;

verus! {

/// The contents of a ROM file
pub struct FileRom {
    data: Vec<u8>,
}

impl View for FileRom {
    type V = Seq<u8>;

    closed spec fn view(&self) -> Seq<u8> {
        self.data@
    }
}

impl FileRom {
    /// The ROM with the contents `data`, as read from its file
    pub fn new(data: Vec<u8>) -> (r: Self)
        ensures
            r@ == data@,
    {
        Self { data }
    }

    /// The byte at `address` of the ROM
    pub fn read(&self, address: Address) -> (r: u8)
        requires
            (address as int) < self@.len(),
        ensures
            r == self@[address as int],
    {
        self.data[address as usize]
    }

    /// The contents of the ROM
    pub fn rom(&self) -> (r: &[u8])
        ensures
            r@ == self@,
    {
        self.data.as_slice()
    }
}

} // verus!
