//! Implements the memory mapped interface to the LCD registers
use vstd::prelude::*;

use super::Palette;
use crate::memory::Address;

verus! {

/// LCDC bit 7: the LCD and the PPU are on
pub const LCDC_ENABLE: u8 = 0x80;

/// LCDC bit 6: the window uses the tile map at 0x9C00 (else 0x9800)
pub const LCDC_WINDOW_TILE_MAP: u8 = 0x40;

/// LCDC bit 5: the window is displayed
pub const LCDC_WINDOW_ENABLE: u8 = 0x20;

/// LCDC bit 4: the background and window use the tiles of blocks 0 and 1 (else blocks 2 and 1)
pub const LCDC_BG_AND_WINDOW_TILE_DATA: u8 = 0x10;

/// LCDC bit 3: the background uses the tile map at 0x9C00 (else 0x9800)
pub const LCDC_BG_TILE_MAP: u8 = 0x08;

/// LCDC bit 2: the objects are 8x16 pixels (else 8x8)
pub const LCDC_OBJ_SIZE: u8 = 0x04;

/// LCDC bit 1: the objects are displayed
pub const LCDC_OBJ_ENABLE: u8 = 0x02;

/// LCDC bit 0: the background and the window are displayed
pub const LCDC_BG_AND_WINDOW_ENABLE: u8 = 0x01;

/// STAT bit 6: the LYC == LY condition raises the LCD interrupt
pub const STAT_LYC_INT_SELECT: u8 = 0x40;

/// STAT bit 5: the mode 2 condition raises the LCD interrupt
pub const STAT_MODE_2_INT_SELECT: u8 = 0x20;

/// STAT bit 4: the mode 1 condition raises the LCD interrupt
pub const STAT_MODE_1_INT_SELECT: u8 = 0x10;

/// STAT bit 3: the mode 0 condition raises the LCD interrupt
pub const STAT_MODE_0_INT_SELECT: u8 = 0x08;

/// STAT bit 2: LY equals LYC
pub const STAT_LYC_EQ_LY: u8 = 0x04;

/// STAT bits 1 and 0: the mode of the PPU
pub const STAT_PPU_MODE: u8 = 0x03;

/// The OAM DMA register: the high byte of the source address, and whether a transfer was
/// requested since the PPU last started one.
#[derive(Debug, Clone, Copy, PartialEq, Eq, Structural)]
pub struct DmaConfig {
    /// The high byte of the source address of the transfer
    pub address: u8,
    /// A transfer was requested
    pub triggered: bool,
}

/// The registers of the PPU, mapped from 0xFF40 to 0xFF4B
#[derive(Debug, Clone, Copy, PartialEq, Eq, Structural)]
pub struct Registers {
    /// LCD control => 0xFF40
    pub lcdc: u8,
    /// LCD status => 0xFF41
    pub status: u8,
    /// Background viewport Y coordinate => 0xFF42
    pub scy: u8,
    /// Background viewport X coordinate => 0xFF43
    pub scx: u8,
    /// LCD Y coordinate => 0xFF44
    pub ly: u8,
    /// LCD Y compare coordinate => 0xFF45
    pub lyc: u8,
    /// OAM DMA source and start => 0xFF46
    pub dma_config: DmaConfig,
    /// BG palette => 0xFF47
    pub bg_palette: Palette,
    /// Obj palette 0 => 0xFF48
    pub obj_palette0: Palette,
    /// Obj palette 1 => 0xFF49
    pub obj_palette1: Palette,
    /// Window Y coordinate => 0xFF4A
    pub wy: u8,
    /// Window X coordinate => 0xFF4B
    pub wx: u8,
}

/// Whether `address` is a register of the PPU (0xFF40 to 0xFF4B).
pub open spec fn is_register_address(address: Address) -> bool {
    0xFF40 <= address <= 0xFF4B
}

/// The value that a read of the register at `address` returns.
pub open spec fn register_value(r: Registers, address: Address) -> u8 {
    if address == 0xFF40 {
        r.lcdc
    } else if address == 0xFF41 {
        r.status
    } else if address == 0xFF42 {
        r.scy
    } else if address == 0xFF43 {
        r.scx
    } else if address == 0xFF44 {
        r.ly
    } else if address == 0xFF45 {
        r.lyc
    } else if address == 0xFF46 {
        r.dma_config.address
    } else if address == 0xFF47 {
        r.bg_palette.0
    } else if address == 0xFF48 {
        r.obj_palette0.0
    } else if address == 0xFF49 {
        r.obj_palette1.0
    } else if address == 0xFF4A {
        r.wy
    } else {
        r.wx
    }
}

/// The status register after a write of `value`: the three low bits are read-only.
pub open spec fn status_after_write(status: u8, value: u8) -> u8 {
    (status & 0x7) | (value & !0x7u8)
}

/// The registers after a write of `value` to the register at `address`: LY is read-only and a
/// write to the DMA register requests a transfer.
pub open spec fn registers_after_write(r: Registers, address: Address, value: u8) -> Registers {
    if address == 0xFF40 {
        Registers { lcdc: value, ..r }
    } else if address == 0xFF41 {
        Registers { status: status_after_write(r.status, value), ..r }
    } else if address == 0xFF42 {
        Registers { scy: value, ..r }
    } else if address == 0xFF43 {
        Registers { scx: value, ..r }
    } else if address == 0xFF44 {
        r
    } else if address == 0xFF45 {
        Registers { lyc: value, ..r }
    } else if address == 0xFF46 {
        Registers { dma_config: DmaConfig { address: value, triggered: true }, ..r }
    } else if address == 0xFF47 {
        Registers { bg_palette: Palette(value), ..r }
    } else if address == 0xFF48 {
        Registers { obj_palette0: Palette(value), ..r }
    } else if address == 0xFF49 {
        Registers { obj_palette1: Palette(value), ..r }
    } else if address == 0xFF4A {
        Registers { wy: value, ..r }
    } else {
        Registers { wx: value, ..r }
    }
}

impl Registers {
    /// The registers at power on: all zero.
    pub open spec fn spec_new() -> Registers {
        Registers {
            lcdc: 0,
            status: 0,
            scy: 0,
            scx: 0,
            ly: 0,
            lyc: 0,
            dma_config: DmaConfig { address: 0, triggered: false },
            bg_palette: Palette(0),
            obj_palette0: Palette(0),
            obj_palette1: Palette(0),
            wy: 0,
            wx: 0,
        }
    }

    /// All registers at zero
    pub fn new() -> (r: Self)
        ensures
            r == Registers::spec_new(),
    {
        Self {
            lcdc: 0,
            status: 0,
            scy: 0,
            scx: 0,
            ly: 0,
            lyc: 0,
            dma_config: DmaConfig { address: 0, triggered: false },
            bg_palette: Palette(0),
            obj_palette0: Palette(0),
            obj_palette1: Palette(0),
            wy: 0,
            wx: 0,
        }
    }

    fn set_status_reg(&mut self, new_val: u8)
        ensures
            *final(self) == (Registers {
                status: status_after_write(old(self).status, new_val),
                ..*old(self)
            }),
    {
        let ro_bits: u8 = 0x7;
        self.status = (self.status & ro_bits) | (new_val & !ro_bits);
    }

    /// Reads the register at `address`
    pub fn read(&self, address: Address) -> (r: u8)
        requires
            is_register_address(address),
        ensures
            r == register_value(*self, address),
    {
        match address {
            0xFF40 => self.lcdc,
            0xFF41 => self.status,
            0xFF42 => self.scy,
            0xFF43 => self.scx,
            0xFF44 => self.ly,
            0xFF45 => self.lyc,
            0xFF46 => self.dma_config.address,
            0xFF47 => self.bg_palette.into(),
            0xFF48 => self.obj_palette0.into(),
            0xFF49 => self.obj_palette1.into(),
            0xFF4A => self.wy,
            _ => self.wx,
        }
    }

    /// Writes the register at `address`
    pub fn write(&mut self, address: Address, value: u8)
        requires
            is_register_address(address),
        ensures
            *final(self) == registers_after_write(*old(self), address, value),
    {
        match address {
            0xFF40 => self.lcdc = value,
            0xFF41 => self.set_status_reg(value),
            0xFF42 => self.scy = value,
            0xFF43 => self.scx = value,
            0xFF44 => {},
            0xFF45 => self.lyc = value,
            0xFF46 => self.dma_config = DmaConfig { address: value, triggered: true },
            0xFF47 => self.bg_palette = value.into(),
            0xFF48 => self.obj_palette0 = value.into(),
            0xFF49 => self.obj_palette1 = value.into(),
            0xFF4A => self.wy = value,
            _ => self.wx = value,
        };
    }
}

} // verus!
