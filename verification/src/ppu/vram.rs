//! Implements the memory mapped interface to VRAM
use vstd::prelude::*;

use super::PaletteIndex;
use crate::memory::Address;

verus! {

/// The width of the tile
pub const TILE_WIDTH: usize = 8;

/// The number of lines in each tile (height)
pub const TILE_HEIGHT: usize = 8;

/// The number of bits used to index the tile palette.
pub const COLOR_BITS: usize = 2;

/// The number of bytes that make up a single tile line.
pub const TILE_LINE_SIZE: usize = 2;

/// The number of tiles in a block
pub const TILES_PER_BLOCK: usize = 128;

/// The number of tile blocks in VRAM
pub const NUM_TILE_BLOCKS: usize = 3;

/// The number of tile maps in VRAM
pub const NUM_TILE_MAPS: usize = 2;

/// The width of a tile map, in tiles
pub const TILE_MAP_WIDTH: usize = 32;

/// The height of a tile map, in tiles
pub const TILE_MAP_HEIGHT: usize = 32;

/// The size of a tile, in bytes
const TILE_SIZE: usize = 16;

/// The size of a tile block, in bytes
const TILE_BLOCK_SIZE: usize = 0x800;

/// The size of a tile map, in bytes
const TILE_MAP_SIZE: usize = 0x400;

/// The tile maps that can be selected for the background and the window.
#[derive(Debug, Clone, Copy, PartialEq, Eq, Structural)]
pub enum TileMapArea {
    /// The map at 0x9800
    LowMap,
    /// The map at 0x9C00
    HighMap,
}

/// The addressing modes of the tiles of the background and the window.
#[derive(Debug, Clone, Copy, PartialEq, Eq, Structural)]
pub enum TileDataArea {
    /// Tiles 0 to 255 in blocks 0 and 1 (0x8000 addressing)
    Blocks0And1,
    /// Tiles 0 to 127 in block 2 and 128 to 255 in block 1 (0x8800 addressing)
    Blocks2And1,
}

/// The palette index of pixel `index` of a tile line with bytes `lsb` and `msb`: bit `index`
/// of `lsb` is the low bit of the index and bit `index` of `msb` its high bit.
pub open spec fn pixel_of(lsb: u8, msb: u8, index: usize) -> PaletteIndex {
    let l = (lsb & (1u8 << index)) != 0;
    let m = (msb & (1u8 << index)) != 0;
    if !m && !l {
        PaletteIndex::Id0
    } else if !m && l {
        PaletteIndex::Id1
    } else if m && !l {
        PaletteIndex::Id2
    } else {
        PaletteIndex::Id3
    }
}

/// Represents a single line of a tile: the low bits of its 8 pixels and their high bits.
#[derive(Clone, Copy, Eq, PartialEq, Debug)]
pub struct TileLine(pub [u8; 2]);

impl View for TileLine {
    type V = Seq<u8>;

    open spec fn view(&self) -> Seq<u8> {
        self.0@
    }
}

impl TileLine {
    /// A line of pixels with index 0
    pub fn new() -> (r: Self)
        ensures
            r@ == seq![0u8, 0u8],
    {
        let r = Self([0u8; 2]);
        assert(r@ =~= seq![0u8, 0u8]);
        r
    }

    /// Iterates over the pixels of the line, from the leftmost (bit 7) to the rightmost (bit 0)
    pub fn iter(&self) -> (r: TileLineIter)
        ensures
            r.remaining() == Seq::new(8, |k: int| pixel_of(self@[0], self@[1], (7 - k) as usize)),
    {
        let r = TileLineIter { tile_line: *self, idx: 8 };
        assert(r.remaining() =~= Seq::new(
            8,
            |k: int| pixel_of(self@[0], self@[1], (7 - k) as usize),
        ));
        r
    }

    /// The palette index of pixel `index` (bit `index` of both bytes)
    pub fn pixel(&self, index: usize) -> (r: PaletteIndex)
        requires
            index < 8,
        ensures
            r == pixel_of(self@[0], self@[1], index),
    {
        let bit: u8 = 1u8 << index;
        let lsb = (self.0[0] & bit) != 0;
        let msb = (self.0[1] & bit) != 0;
        match (msb, lsb) {
            (false, false) => PaletteIndex::Id0,
            (false, true) => PaletteIndex::Id1,
            (true, false) => PaletteIndex::Id2,
            (true, true) => PaletteIndex::Id3,
        }
    }

    fn write(&mut self, address: Address, value: u8)
        requires
            address < 2,
        ensures
            final(self)@ == old(self)@.update(address as int, value),
    {
        self.0[address as usize] = value;
    }

    fn read(&self, address: Address) -> (r: u8)
        requires
            address < 2,
        ensures
            r == self@[address as int],
    {
        self.0[address as usize]
    }
}

/// The pixels of a tile line that are still to be visited, from left to right.
pub struct TileLineIter {
    tile_line: TileLine,
    idx: usize,
}

impl TileLineIter {
    #[verifier::type_invariant]
    spec fn inv(&self) -> bool {
        self.idx <= 8
    }

    /// The pixels that `next` yields, in order.
    pub closed spec fn remaining(&self) -> Seq<PaletteIndex> {
        Seq::new(
            self.idx as nat,
            |k: int|
                pixel_of(self.tile_line@[0], self.tile_line@[1], (self.idx - 1 - k) as usize),
        )
    }

    /// The pixel index of the next pixel, if any is left.
    pub fn next(&mut self) -> (r: Option<PaletteIndex>)
        ensures
            old(self).remaining().len() > 0 ==> r == Some(old(self).remaining()[0])
                && final(self).remaining() == old(self).remaining().drop_first(),
            old(self).remaining().len() == 0 ==> r is None && final(self).remaining() == old(
                self,
            ).remaining(),
    {
        proof {
            use_type_invariant(&*self);
        }
        if self.idx > 0 {
            self.idx = self.idx - 1;
            let result = self.tile_line.pixel(self.idx);
            assert(self.remaining() =~= old(self).remaining().drop_first());
            Some(result)
        } else {
            None
        }
    }
}

/// A tile of 8x8 pixels: 8 lines of 2 bytes.
#[derive(Clone, Copy, Eq, PartialEq, Debug)]
pub struct Tile(pub [TileLine; 8]);

impl View for Tile {
    type V = Seq<u8>;

    /// The 16 bytes of the tile, line after line.
    open spec fn view(&self) -> Seq<u8> {
        Seq::new(16, |i: int| self.0@[i / 2]@[i % 2])
    }
}

impl Tile {
    /// A tile whose pixels all have index 0
    pub fn new() -> (r: Self)
        ensures
            r@ == Seq::new(16, |i: int| 0u8),
    {
        let r = Self([TileLine::new(); 8]);
        assert(r@ =~= Seq::new(16, |i: int| 0u8));
        r
    }

    fn tile_address_to_tile_line_address(address: Address) -> (r: (usize, Address))
        ensures
            r.0 == address / 2,
            r.1 == address % 2,
    {
        let line_idx = address as usize / TILE_LINE_SIZE;
        let line_address = address % (TILE_LINE_SIZE as u16);
        (line_idx, line_address)
    }

    /// The line `line` of the tile
    pub fn get_line(&self, line: usize) -> (r: TileLine)
        requires
            line < 8,
        ensures
            r@ == seq![self@[2 * line], self@[2 * line + 1]],
    {
        let r = self.0[line];
        assert(r@ =~= seq![self@[2 * line], self@[2 * line + 1]]);
        r
    }

    fn write(&mut self, address: Address, value: u8)
        requires
            address < 16,
        ensures
            final(self)@ == old(self)@.update(address as int, value),
    {
        let (line_idx, line_address) = Self::tile_address_to_tile_line_address(address);
        self.0[line_idx].write(line_address, value);
        assert(self@ =~= old(self)@.update(address as int, value));
    }

    fn read(&self, address: Address) -> (r: u8)
        requires
            address < 16,
        ensures
            r == self@[address as int],
    {
        let (line_idx, line_address) = Self::tile_address_to_tile_line_address(address);
        self.0[line_idx].read(line_address)
    }
}

/// A block of 128 tiles
#[derive(Clone, Copy, Eq, PartialEq, Debug)]
pub struct TileBlock(pub [Tile; 128]);

impl View for TileBlock {
    type V = Seq<u8>;

    /// The 2048 bytes of the block, tile after tile.
    open spec fn view(&self) -> Seq<u8> {
        Seq::new(2048, |i: int| self.0@[i / 16]@[i % 16])
    }
}

impl TileBlock {
    /// A block of tiles whose pixels all have index 0
    pub fn new() -> (r: Self)
        ensures
            r@ == Seq::new(2048, |i: int| 0u8),
    {
        let r = Self([Tile::new(); 128]);
        assert(r@ =~= Seq::new(2048, |i: int| 0u8));
        r
    }

    fn block_address_to_tile_address(address: Address) -> (r: (usize, Address))
        ensures
            r.0 == address / 16,
            r.1 == address % 16,
    {
        let tile_idx = address as usize / TILE_SIZE;
        let tile_address = address % (TILE_SIZE as u16);
        (tile_idx, tile_address)
    }

    /// The tile `index` of the block
    pub fn get_tile(&self, index: usize) -> (r: &Tile)
        requires
            index < 128,
        ensures
            r@ == self@.subrange(16 * index, 16 * index + 16),
    {
        let r = &self.0[index];
        assert(r@ =~= self@.subrange(16 * index, 16 * index + 16));
        r
    }

    fn write(&mut self, address: Address, value: u8)
        requires
            address < 2048,
        ensures
            final(self)@ == old(self)@.update(address as int, value),
    {
        let (tile_idx, tile_address) = Self::block_address_to_tile_address(address);
        self.0[tile_idx].write(tile_address, value);
        assert(self@ =~= old(self)@.update(address as int, value));
    }

    fn read(&self, address: Address) -> (r: u8)
        requires
            address < 2048,
        ensures
            r == self@[address as int],
    {
        let (tile_idx, tile_address) = Self::block_address_to_tile_address(address);
        self.0[tile_idx].read(tile_address)
    }
}

/// The index of a tile in a tile map or an object
#[derive(Debug, Clone, Copy, PartialEq, Eq, Structural)]
pub struct TileIndex(pub u8);

impl TileIndex {
    /// The tile index `index`
    pub fn new(index: u8) -> (r: Self)
        ensures
            r.0 == index,
    {
        Self(index)
    }

    /// The index of the following tile
    pub fn next(self) -> (r: Self)
        requires
            self.0 < 255,
        ensures
            r.0 == self.0 + 1,
    {
        Self(self.0 + 1)
    }

    /// The index with bit 0 cleared: the first tile of the pair that an 8x16 object uses
    pub fn discard_bit_zero(self) -> (r: Self)
        ensures
            r.0 == self.0 & 0xFE,
    {
        Self(self.0 & 0xFE)
    }
}

impl From<u8> for TileIndex {
    fn from(val: u8) -> (r: Self) {
        Self(val)
    }
}

impl vstd::std_specs::convert::FromSpecImpl<u8> for TileIndex {
    open spec fn obeys_from_spec() -> bool {
        true
    }

    open spec fn from_spec(v: u8) -> Self {
        TileIndex(v)
    }
}

impl From<TileIndex> for u8 {
    fn from(val: TileIndex) -> (r: Self) {
        val.0
    }
}

impl vstd::std_specs::convert::FromSpecImpl<TileIndex> for u8 {
    open spec fn obeys_from_spec() -> bool {
        true
    }

    open spec fn from_spec(v: TileIndex) -> Self {
        v.0
    }
}

/// A map of 32x32 tile indexes
#[derive(Clone, Copy, PartialEq, Eq, Debug)]
pub struct TileMap(pub [[TileIndex; 32]; 32]);

impl View for TileMap {
    type V = Seq<u8>;

    /// The 1024 tile indexes of the map, row after row.
    open spec fn view(&self) -> Seq<u8> {
        Seq::new(1024, |i: int| self.0@[i / 32]@[i % 32].0)
    }
}

/// The row of a tile map that pixel line `line` falls in.
pub open spec fn tile_map_row(line: int) -> int {
    (line / 8) % 32
}

impl TileMap {
    /// A tile map of tile index 0
    pub fn new() -> (r: Self)
        ensures
            r@ == Seq::new(1024, |i: int| 0u8),
    {
        let r = Self([[TileIndex(0); 32]; 32]);
        assert(r@ =~= Seq::new(1024, |i: int| 0u8));
        r
    }

    /// The row of tile indexes that covers the pixel line `line`, wrapping around the map.
    pub fn line(&self, line: usize) -> (r: &[TileIndex; 32])
        ensures
            forall|j: int|
                0 <= j < 32 ==> (#[trigger] r@[j]).0 == self@[32 * tile_map_row(line as int) + j],
    {
        let line = (line / TILE_HEIGHT) % TILE_MAP_HEIGHT;
        &self.0[line]
    }

    fn write(&mut self, address: Address, value: u8)
        requires
            address < 1024,
        ensures
            final(self)@ == old(self)@.update(address as int, value),
    {
        let line = address as usize / TILE_MAP_WIDTH;
        let offset = address as usize % TILE_MAP_WIDTH;
        self.0[line][offset] = TileIndex(value);
        assert(self@ =~= old(self)@.update(address as int, value));
    }

    fn read(&self, address: Address) -> (r: u8)
        requires
            address < 1024,
        ensures
            r == self@[address as int],
    {
        let line = address as usize / TILE_MAP_WIDTH;
        let offset = address as usize % TILE_MAP_WIDTH;
        self.0[line][offset].0
    }
}

/// The video RAM: three blocks of tiles and two tile maps.
#[derive(Clone, PartialEq, Eq, Debug)]
pub struct Vram {
    tile_blocks: [TileBlock; 3],
    tile_maps: [TileMap; 2],
}

/// Whether `address` is a VRAM address (0x8000 to 0xA000).
pub open spec fn is_vram_address(address: Address) -> bool {
    0x8000 <= address < 0xA000
}

/// The first byte of the tile with index `index` in VRAM, in the addressing mode `mode`.
pub open spec fn tile_base(index: u8, mode: TileDataArea) -> int {
    let block = index / 128;
    let block = match mode {
        TileDataArea::Blocks0And1 => block as int,
        TileDataArea::Blocks2And1 => 2 - block,
    };
    block * 0x800 + (index % 128) * 16
}

/// The first byte of a tile map in VRAM.
pub open spec fn tile_map_base(map: TileMapArea) -> int {
    match map {
        TileMapArea::LowMap => 0x1800,
        TileMapArea::HighMap => 0x1C00,
    }
}

impl View for Vram {
    type V = Seq<u8>;

    /// The 0x2000 bytes of the VRAM: the tile blocks from 0x8000 and the tile maps from 0x9800.
    closed spec fn view(&self) -> Seq<u8> {
        Seq::new(
            0x2000,
            |i: int|
                if i < 0x1800 {
                    self.tile_blocks@[i / 0x800]@[i % 0x800]
                } else {
                    self.tile_maps@[(i - 0x1800) / 0x400]@[(i - 0x1800) % 0x400]
                },
        )
    }
}

/// A read of a VRAM address gives back the value last written there, and a write changes no
/// other byte of the VRAM.
pub proof fn lemma_vram_write_read(v: Vram, address: Address, other: Address, value: u8)
    requires
        is_vram_address(address),
        is_vram_address(other),
    ensures
        v@.update(address - 0x8000, value)[address - 0x8000] == value,
        other != address ==> v@.update(address - 0x8000, value)[other - 0x8000] == v@[other
            - 0x8000],
{
    v.lemma_len();
}

impl Vram {
    /// The VRAM holds 0x2000 bytes, from 0x8000 to 0xA000.
    pub proof fn lemma_len(&self)
        ensures
            self@.len() == 0x2000,
    {
    }

    /// A VRAM filled with zeros
    pub fn new() -> (r: Self)
        ensures
            r@ == Seq::new(0x2000, |i: int| 0u8),
    {
        let r = Self { tile_blocks: [TileBlock::new(); 3], tile_maps: [TileMap::new(); 2] };
        assert(r@ =~= Seq::new(0x2000, |i: int| 0u8));
        r
    }

    fn vram_address_to_block_address(address: Address) -> (r: (usize, Address))
        requires
            0x8000 <= address < 0x9800,
        ensures
            r.0 == (address - 0x8000) / 0x800,
            r.1 == (address - 0x8000) % 0x800,
            r.0 < 3,
    {
        let address = address - 0x8000;
        let blk_idx = address as usize / TILE_BLOCK_SIZE;
        let blk_address = address % (TILE_BLOCK_SIZE as u16);
        (blk_idx, blk_address)
    }

    fn vram_address_to_tile_map_address(address: Address) -> (r: (usize, Address))
        requires
            0x9800 <= address < 0xA000,
        ensures
            r.0 == (address - 0x9800) / 0x400,
            r.1 == (address - 0x9800) % 0x400,
            r.0 < 2,
    {
        let address = address - 0x9800;
        let tile_map_idx = address as usize / TILE_MAP_SIZE;
        let tile_map_address = address % (TILE_MAP_SIZE as u16);
        (tile_map_idx, tile_map_address)
    }

    /// The tile map that the background uses
    pub fn get_bg_tile_map(&self, map: TileMapArea) -> (r: &TileMap)
        ensures
            r@ == self@.subrange(tile_map_base(map), tile_map_base(map) + 0x400),
    {
        let r = match map {
            TileMapArea::HighMap => &self.tile_maps[1],
            TileMapArea::LowMap => &self.tile_maps[0],
        };
        assert(r@ =~= self@.subrange(tile_map_base(map), tile_map_base(map) + 0x400));
        r
    }

    /// The tile map that the window uses
    pub fn get_win_tile_map(&self, map: TileMapArea) -> (r: &TileMap)
        ensures
            r@ == self@.subrange(tile_map_base(map), tile_map_base(map) + 0x400),
    {
        let r = match map {
            TileMapArea::HighMap => &self.tile_maps[1],
            TileMapArea::LowMap => &self.tile_maps[0],
        };
        assert(r@ =~= self@.subrange(tile_map_base(map), tile_map_base(map) + 0x400));
        r
    }

    /// The tile with index `index` in the addressing mode `index_mode`
    pub fn get_tile(&self, index: TileIndex, index_mode: TileDataArea) -> (r: &Tile)
        ensures
            r@ == self@.subrange(tile_base(index.0, index_mode), tile_base(index.0, index_mode) + 16),
    {
        let block = (index.0 / 128) as usize;
        let idx = (index.0 % 128) as usize;
        let block = match index_mode {
            TileDataArea::Blocks0And1 => block,
            TileDataArea::Blocks2And1 => 2 - block,
        };
        let r = self.tile_blocks[block].get_tile(idx);
        assert(r@ =~= self@.subrange(
            tile_base(index.0, index_mode),
            tile_base(index.0, index_mode) + 16,
        ));
        r
    }

    /// Reads the byte at the VRAM address `address`
    pub fn read(&self, address: Address) -> (r: u8)
        requires
            is_vram_address(address),
        ensures
            r == self@[address - 0x8000],
            self@.len() == 0x2000,
    {
        if address < 0x9800 {
            let (blk_idx, blk_address) = Self::vram_address_to_block_address(address);
            self.tile_blocks[blk_idx].read(blk_address)
        } else {
            let (tile_map_idx, tile_map_address) = Self::vram_address_to_tile_map_address(address);
            self.tile_maps[tile_map_idx].read(tile_map_address)
        }
    }

    /// Writes the byte at the VRAM address `address`
    pub fn write(&mut self, address: Address, value: u8)
        requires
            is_vram_address(address),
        ensures
            final(self)@ == old(self)@.update(address - 0x8000, value),
            final(self)@.len() == 0x2000,
    {
        if address < 0x9800 {
            let (blk_idx, blk_address) = Self::vram_address_to_block_address(address);
            self.tile_blocks[blk_idx].write(blk_address, value);
        } else {
            let (tile_map_idx, tile_map_address) = Self::vram_address_to_tile_map_address(address);
            self.tile_maps[tile_map_idx].write(tile_map_address, value);
        }
        assert(self@ =~= old(self)@.update(address - 0x8000, value));
    }
}

} // verus!
