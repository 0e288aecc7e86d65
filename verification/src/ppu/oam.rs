//! Implements the memory mapped interface to OAM
use vstd::prelude::*;

use super::vram::TileIndex;
use crate::memory::Address;

verus! {

/// Bit of the attributes: the background and window color indexes 1-3 are drawn over the object
pub const OBJ_ATTRS_PRIO: u8 = 0x80;

/// Bit of the attributes: the object is flipped vertically
pub const OBJ_ATTRS_Y_FLIP: u8 = 0x40;

/// Bit of the attributes: the object is flipped horizontally
pub const OBJ_ATTRS_X_FLIP: u8 = 0x20;

/// Bit of the attributes: the object uses the object palette 1
pub const OBJ_ATTRS_PALETTE_SELECTOR: u8 = 0x10;

/// An entry of the OAM: the position, tile and attributes of an 8x8 or 8x16 object
#[derive(Debug, Clone, Copy, PartialEq, Eq, Structural)]
pub struct Object {
    /// The vertical position of the object plus 16
    pub y: u8,
    /// The horizontal position of the object plus 8
    pub x: u8,
    /// The tile of the object
    pub tile_idx: TileIndex,
    /// The attributes of the object (priority, flips and palette)
    pub attrs: u8,
}

/// The byte `offset` of an object in OAM: its y, x, tile index and attributes.
pub open spec fn object_byte(o: Object, offset: int) -> u8 {
    if offset == 0 {
        o.y
    } else if offset == 1 {
        o.x
    } else if offset == 2 {
        o.tile_idx.0
    } else {
        o.attrs
    }
}

/// The object after a write of `value` to its byte `offset`.
pub open spec fn object_with_byte(o: Object, offset: int, value: u8) -> Object {
    if offset == 0 {
        Object { y: value, ..o }
    } else if offset == 1 {
        Object { x: value, ..o }
    } else if offset == 2 {
        Object { tile_idx: TileIndex(value), ..o }
    } else {
        Object { attrs: value, ..o }
    }
}

impl Object {
    /// An object at position 0 with tile 0 and no attributes
    pub fn new() -> (r: Self)
        ensures
            r == (Object { y: 0, x: 0, tile_idx: TileIndex(0), attrs: 0 }),
    {
        Self { x: 0, y: 0, tile_idx: TileIndex::new(0), attrs: 0 }
    }

    /// Reads the byte `offset` of the object
    pub fn read(&self, offset: usize) -> (r: u8)
        requires
            offset < 4,
        ensures
            r == object_byte(*self, offset as int),
    {
        match offset {
            0 => self.y,
            1 => self.x,
            2 => self.tile_idx.into(),
            _ => self.attrs,
        }
    }

    /// Writes the byte `offset` of the object
    pub fn write(&mut self, offset: usize, value: u8)
        requires
            offset < 4,
        ensures
            *final(self) == object_with_byte(*old(self), offset as int, value),
    {
        match offset {
            0 => self.y = value,
            1 => self.x = value,
            2 => self.tile_idx = value.into(),
            _ => self.attrs = value,
        }
    }
}

/// The number of objects that fit in the OAM
pub const NUM_OBJECTS: usize = 40;

/// The size of an object in OAM, in bytes
const OBJECT_SIZE: usize = 4;

/// The size of the OAM RAM in bytes
pub const OAM_SIZE: usize = 160;

/// The object attribute memory: 40 objects.
pub struct Oam {
    objects: [Object; 40],
}

/// Whether `address` is an OAM address (0xFE00 to 0xFEA0).
pub open spec fn is_oam_address(address: Address) -> bool {
    0xFE00 <= address < 0xFEA0
}

/// The byte `i` of the OAM.
pub open spec fn oam_byte(objects: Seq<Object>, i: int) -> u8 {
    object_byte(objects[i / 4], i % 4)
}

/// The objects after a write of `value` to byte `i` of the OAM.
pub open spec fn oam_with_byte(objects: Seq<Object>, i: int, value: u8) -> Seq<Object> {
    objects.update(i / 4, object_with_byte(objects[i / 4], i % 4, value))
}

impl View for Oam {
    type V = Seq<Object>;

    closed spec fn view(&self) -> Seq<Object> {
        self.objects@
    }
}

impl Oam {
    const OAM_BASE: usize = 0xFE00;

    /// An OAM of 40 objects at position 0, with tile 0 and no attributes
    pub fn new() -> (r: Self)
        ensures
            r@ == Seq::new(40, |i: int| Object { y: 0, x: 0, tile_idx: TileIndex(0), attrs: 0 }),
    {
        let r = Self { objects: [Object::new(); 40] };
        assert(r@ =~= Seq::new(
            40,
            |i: int| Object { y: 0, x: 0, tile_idx: TileIndex(0), attrs: 0 },
        ));
        r
    }

    fn cpu_addr_to_object_addr(address: Address) -> (r: (usize, usize))
        requires
            is_oam_address(address),
        ensures
            r.0 == (address - 0xFE00) / 4,
            r.1 == (address - 0xFE00) % 4,
            r.0 < 40,
    {
        let address = address as usize - Self::OAM_BASE;
        (address / OBJECT_SIZE, address % OBJECT_SIZE)
    }

    /// The objects of the OAM
    pub fn objects(&self) -> (r: &[Object])
        ensures
            r@ == self@,
    {
        self.objects.as_slice()
    }

    /// Reads the byte at the OAM address `address`
    pub fn read(&self, address: Address) -> (r: u8)
        requires
            is_oam_address(address),
        ensures
            r == oam_byte(self@, address - 0xFE00),
    {
        let (object_idx, object_member_offset) = Self::cpu_addr_to_object_addr(address);
        self.objects[object_idx].read(object_member_offset)
    }

    /// Writes the byte at the OAM address `address`
    pub fn write(&mut self, address: Address, value: u8)
        requires
            is_oam_address(address),
        ensures
            final(self)@ == oam_with_byte(old(self)@, address - 0xFE00, value),
    {
        let (object_idx, object_member_offset) = Self::cpu_addr_to_object_addr(address);
        self.objects[object_idx].write(object_member_offset, value);
        assert(self@ =~= oam_with_byte(old(self)@, address - 0xFE00, value));
    }
}

} // verus!
