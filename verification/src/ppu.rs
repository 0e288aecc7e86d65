//! The Picture Processing Unit: draws the background, the window and the objects of each line
//! into the frame buffer, following the LCD timing.
use vstd::prelude::*;

pub mod dma;
pub mod modes;
pub mod oam;
pub mod regs;
pub mod selection;
pub mod vram;

use crate::alu::Cycles;
use crate::interrupts::{Interrupt, Interrupts};
use crate::memory::Address;
use dma::{DmaEngine, DmaState, dma_wf};
use modes::{Mode, mode_number};
use oam::{
    OBJ_ATTRS_PALETTE_SELECTOR, OBJ_ATTRS_PRIO, OBJ_ATTRS_X_FLIP, OBJ_ATTRS_Y_FLIP, Oam, Object,
    is_oam_address, oam_byte, oam_with_byte,
};
use regs::{
    LCDC_BG_AND_WINDOW_ENABLE, LCDC_BG_AND_WINDOW_TILE_DATA, LCDC_BG_TILE_MAP, LCDC_ENABLE,
    LCDC_OBJ_ENABLE, LCDC_OBJ_SIZE, LCDC_WINDOW_ENABLE, LCDC_WINDOW_TILE_MAP, Registers,
    STAT_LYC_EQ_LY, STAT_LYC_INT_SELECT, STAT_MODE_0_INT_SELECT, STAT_MODE_1_INT_SELECT,
    STAT_MODE_2_INT_SELECT, is_register_address, register_value, registers_after_write,
};
use selection::{selection_as_slice, selection_items, selection_new, selection_push};
use vram::{
    TileDataArea, TileIndex, TileMapArea, Vram, is_vram_address, pixel_of, tile_base,
    tile_map_base, tile_map_row,
};

verus! {

/// A color of the display
#[derive(Debug, Clone, Copy, PartialEq, Eq, Structural)]
pub enum Color {
    /// Color 0
    White,
    /// Color 1
    LightGrey,
    /// Color 2
    DarkGrey,
    /// Color 3
    Black,
}

/// An index into the palette, which resolves to a specific color
#[derive(Debug, Clone, Copy, PartialEq, Eq, Structural)]
pub enum PaletteIndex {
    /// Index 0
    Id0,
    /// Index 1
    Id1,
    /// Index 2
    Id2,
    /// Index 3
    Id3,
}

/// The number of a palette index.
pub open spec fn palette_index_number(idx: PaletteIndex) -> u8 {
    match idx {
        PaletteIndex::Id0 => 0,
        PaletteIndex::Id1 => 1,
        PaletteIndex::Id2 => 2,
        PaletteIndex::Id3 => 3,
    }
}

/// The color with number `n` (0 to 3).
pub open spec fn color_of_number(n: u8) -> Color {
    if n == 0 {
        Color::White
    } else if n == 1 {
        Color::LightGrey
    } else if n == 2 {
        Color::DarkGrey
    } else {
        Color::Black
    }
}

/// A palette: two bits for the color of each of the four palette indexes.
#[derive(Debug, Clone, Copy, PartialEq, Eq, Structural)]
pub struct Palette(pub u8);

/// The color that palette `p` gives to index `idx`: bits `2 * idx` and `2 * idx + 1`.
pub open spec fn palette_color(p: u8, idx: PaletteIndex) -> Color {
    color_of_number(3u8 & (p >> (2 * palette_index_number(idx))))
}

impl Palette {
    /// Resolves the palette index to a color
    pub fn color(&self, idx: PaletteIndex) -> (r: Color)
        ensures
            r == palette_color(self.0, idx),
    {
        let shift: u8 = match idx {
            PaletteIndex::Id0 => 0,
            PaletteIndex::Id1 => 2,
            PaletteIndex::Id2 => 4,
            PaletteIndex::Id3 => 6,
        };
        let p = self.0;
        let color = 3u8 & (p >> shift);
        assert(color < 4) by (bit_vector)
            requires
                color == 3u8 & (p >> shift),
        ;
        match color {
            0 => Color::White,
            1 => Color::LightGrey,
            2 => Color::DarkGrey,
            _ => Color::Black,
        }
    }
}

impl From<u8> for Palette {
    fn from(value: u8) -> (r: Self) {
        Self(value)
    }
}

impl vstd::std_specs::convert::FromSpecImpl<u8> for Palette {
    open spec fn obeys_from_spec() -> bool {
        true
    }

    open spec fn from_spec(v: u8) -> Self {
        Palette(v)
    }
}

impl From<Palette> for u8 {
    fn from(value: Palette) -> (r: Self) {
        value.0
    }
}

impl vstd::std_specs::convert::FromSpecImpl<Palette> for u8 {
    open spec fn obeys_from_spec() -> bool {
        true
    }

    open spec fn from_spec(v: Palette) -> Self {
        v.0
    }
}


/// The width of the display, in pixels
pub const DISPLAY_WIDTH: usize = 160;

/// The height of the display, in pixels
pub const DISPLAY_HEIGHT: usize = 144;

/// The result of running the PPU
#[derive(PartialEq, Eq, Debug, Clone, Copy, Structural)]
pub enum PpuResult {
    /// The frame is being drawn; the PPU is in the given mode
    InProgress(Mode),
    /// The frame is complete: the PPU entered the vertical blank
    FrameComplete,
}

/// A frame of the display, lines from the top, pixels from the left
pub type Frame = [[Color; 160]; 144];

const OAM_SCAN_LEN: usize = 80;

const DRAWING_PIXELS_LEN: usize = 172;

const HBLANK_LEN: usize = 204;

/// The number of cycles of a line
pub const LINE_LENGTH: usize = 456;

/// The number of lines of a frame, including the vertical blank
pub const NUM_LINES: usize = 154;

const VBLANK_START_LINE: usize = 144;

const OBJ_OFFSET_Y: usize = 16;

const OBJ_OFFSET_X: usize = 8;

const WX_OFFSET: usize = 8;

/// The mode of the PPU at cycle `line_cycles` of line `line`: the vertical blank from line 144,
/// else the OAM scan for 80 cycles, the drawing of pixels for 172 and the horizontal blank.
pub open spec fn mode_for(line_cycles: usize, line: usize) -> Mode {
    if line >= 144 {
        Mode::Vblank
    } else if line_cycles < 80 {
        Mode::OamScan
    } else if line_cycles < 252 {
        Mode::DrawingPixels
    } else {
        Mode::Hblank
    }
}

fn mode_for_current_cycle_count(line_cycles: Cycles, line: usize) -> (r: Mode)
    ensures
        r == mode_for(line_cycles.0, line),
{
    // This is a simplified implementation that considers a fixed time mode 3.
    let line_cycles: usize = line_cycles.value();
    if line >= VBLANK_START_LINE {
        Mode::Vblank
    } else if line_cycles < OAM_SCAN_LEN {
        Mode::OamScan
    } else if line_cycles < (OAM_SCAN_LEN + DRAWING_PIXELS_LEN) {
        Mode::DrawingPixels
    } else {
        Mode::Hblank
    }
}

/// The state of the PPU.
pub struct PpuModel {
    /// The 0x2000 bytes of the VRAM
    pub vram: Seq<u8>,
    /// The registers
    pub regs: Registers,
    /// The 40 objects of the OAM
    pub oam: Seq<Object>,
    /// The current mode
    pub mode: Mode,
    /// The cycles elapsed in the current line
    pub cycles: usize,
    /// The current line
    pub line: usize,
    /// The level of the LCD interrupt line
    pub stat_irq: bool,
    /// The line of the window drawn next
    pub window_line: usize,
    /// The OAM indexes of the objects selected for the line
    pub selected: Seq<usize>,
    /// The frame buffer, lines from the top
    pub frame: Seq<Seq<Color>>,
}

/// Whether bit `bit` of LCDC is set.
pub open spec fn lcdc_set(r: Registers, bit: u8) -> bool {
    r.lcdc & bit != 0
}

/// The tile map of the background (LCDC bit 3).
pub open spec fn bg_map_area(r: Registers) -> TileMapArea {
    if lcdc_set(r, 0x08) {
        TileMapArea::HighMap
    } else {
        TileMapArea::LowMap
    }
}

/// The tile map of the window (LCDC bit 6).
pub open spec fn win_map_area(r: Registers) -> TileMapArea {
    if lcdc_set(r, 0x40) {
        TileMapArea::HighMap
    } else {
        TileMapArea::LowMap
    }
}

/// The addressing mode of the tiles of the background and the window (LCDC bit 4).
pub open spec fn data_area(r: Registers) -> TileDataArea {
    if lcdc_set(r, 0x10) {
        TileDataArea::Blocks0And1
    } else {
        TileDataArea::Blocks2And1
    }
}

/// The palette index of bit `bit` of line `tile_line` of the tile whose bytes start at `base`.
pub open spec fn tile_pixel(vram: Seq<u8>, base: int, tile_line: int, bit: int) -> PaletteIndex {
    pixel_of(vram[base + 2 * tile_line], vram[base + 2 * tile_line + 1], bit as usize)
}

/// The tile index at row `row` and column `col` of a tile map.
pub open spec fn map_tile(vram: Seq<u8>, map: TileMapArea, row: int, col: int) -> u8 {
    vram[tile_map_base(map) + 32 * row + col]
}

/// The background pixel at column `x` of the current line: the background is scrolled by
/// SCX and SCY and wraps around the 256x256 pixels of its tile map.
pub open spec fn background_pixel(m: PpuModel, x: int) -> PaletteIndex {
    let y = m.regs.scy + m.line;
    let p = m.regs.scx + x;
    let tile = map_tile(m.vram, bg_map_area(m.regs), tile_map_row(y), (p / 8) % 32);
    tile_pixel(m.vram, tile_base(tile, data_area(m.regs)), y % 8, 7 - p % 8)
}

/// The palette indexes of the background for the current line; all 0 while the background
/// and window are disabled.
pub open spec fn background_line(m: PpuModel) -> Seq<PaletteIndex> {
    if !lcdc_set(m.regs, 0x01) {
        Seq::new(160, |x: int| PaletteIndex::Id0)
    } else {
        Seq::new(160, |x: int| background_pixel(m, x))
    }
}

/// The palette of the background: palette 0 while the background is disabled.
pub open spec fn background_palette(m: PpuModel) -> Palette {
    if !lcdc_set(m.regs, 0x01) {
        Palette(0)
    } else {
        m.regs.bg_palette
    }
}

/// The first column of the window on the display (WX minus 8, at least 0).
pub open spec fn window_offset(r: Registers) -> int {
    if r.wx >= 8 {
        r.wx - 8
    } else {
        0
    }
}

/// The columns of the window that are left of the display (8 minus WX, at least 0).
pub open spec fn window_skip(r: Registers) -> int {
    if r.wx >= 8 {
        0
    } else {
        8 - r.wx
    }
}

/// The window is drawn on the current line: the background and window are enabled, the line
/// is at or below WY and the window starts on the display.
pub open spec fn window_drawn(m: PpuModel) -> bool {
    &&& lcdc_set(m.regs, 0x01)
    &&& m.line >= m.regs.wy
    &&& window_offset(m.regs) < 160
}

/// The window pixel at column `x` of the display.
pub open spec fn window_pixel(m: PpuModel, x: int) -> PaletteIndex {
    let q = x - window_offset(m.regs) + window_skip(m.regs);
    let wl = m.window_line as int;
    let tile = map_tile(m.vram, win_map_area(m.regs), tile_map_row(wl), q / 8);
    tile_pixel(m.vram, tile_base(tile, data_area(m.regs)), wl % 8, 7 - q % 8)
}

/// The line `bg` with the window drawn over it, from the first column of the window.
pub open spec fn with_window(m: PpuModel, bg: Seq<PaletteIndex>) -> Seq<PaletteIndex> {
    if window_drawn(m) {
        Seq::new(
            160,
            |x: int|
                if x >= window_offset(m.regs) {
                    window_pixel(m, x)
                } else {
                    bg[x]
                },
        )
    } else {
        bg
    }
}

/// The height of the objects: 16 in 8x16 mode (LCDC bit 2), else 8.
pub open spec fn obj_height(r: Registers) -> int {
    if lcdc_set(r, 0x04) {
        16
    } else {
        8
    }
}

/// The object covers the line `line` of the display.
pub open spec fn object_on_line(o: Object, line: int, height: int) -> bool {
    line + 16 >= o.y && line + 16 < o.y + height
}

/// The indexes below `n` of the objects that cover line `line`, in OAM order.
pub open spec fn objects_on_line(objs: Seq<Object>, n: int, line: int, height: int) -> Seq<usize>
    decreases n,
{
    if n <= 0 {
        Seq::empty()
    } else {
        let s = objects_on_line(objs, n - 1, line, height);
        if object_on_line(objs[n - 1], line, height) {
            s.push((n - 1) as usize)
        } else {
            s
        }
    }
}

/// At most the first 10 items of `s`.
pub open spec fn first_ten(s: Seq<usize>) -> Seq<usize> {
    if s.len() > 10 {
        s.take(10)
    } else {
        s
    }
}

/// The objects selected for a line: the first 10 objects of the OAM that cover it.
pub open spec fn selected_objects(objs: Seq<Object>, line: int, height: int) -> Seq<usize> {
    first_ten(objects_on_line(objs, 40, line, height))
}

/// `sorted` with `e` inserted after the last item whose object is not right of object `e`.
pub open spec fn insert_by_x(sorted: Seq<usize>, e: usize, objs: Seq<Object>) -> Seq<usize>
    decreases sorted.len(),
{
    if sorted.len() == 0 {
        seq![e]
    } else if objs[sorted.last() as int].x <= objs[e as int].x {
        sorted.push(e)
    } else {
        insert_by_x(sorted.drop_last(), e, objs).push(sorted.last())
    }
}

/// The object indexes `s` sorted by the X coordinate of their objects; objects with the same X
/// coordinate keep their order (a stable sort).
pub open spec fn sort_by_x(s: Seq<usize>, objs: Seq<Object>) -> Seq<usize>
    decreases s.len(),
{
    if s.len() == 0 {
        s
    } else {
        insert_by_x(sort_by_x(s.drop_last(), objs), s.last(), objs)
    }
}

/// The palette of an object (attribute bit 4).
pub open spec fn object_palette(r: Registers, o: Object) -> Palette {
    if o.attrs & 0x10 != 0 {
        r.obj_palette1
    } else {
        r.obj_palette0
    }
}

/// The line of the object's tiles (0 to the height) that the current line shows, flipped when
/// the object is flipped vertically.
pub open spec fn object_row(m: PpuModel, o: Object) -> int {
    let row = 16 + m.line - o.y;
    if o.attrs & 0x40 != 0 {
        obj_height(m.regs) - 1 - row
    } else {
        row
    }
}

/// The tile of the object that the current line shows: the second tile of the pair of an
/// 8x16 object for its rows 8 to 15.
pub open spec fn object_tile(m: PpuModel, o: Object) -> u8 {
    let first = if obj_height(m.regs) == 16 {
        o.tile_idx.0 & 0xFE
    } else {
        o.tile_idx.0
    };
    if object_row(m, o) >= 8 {
        (first + 1) as u8
    } else {
        first
    }
}

/// The line of the object's tile that the current line shows.
pub open spec fn tile_line_index(m: PpuModel, o: Object) -> int {
    object_row(m, o) % 8
}

/// The palette index of the object `o` at column `x` of the current line, if the object
/// shows there: it covers the column and the line, the pixel is not transparent (index 0) and
/// is not behind a background pixel other than index 0 (attribute bit 7).
pub open spec fn object_pixel(m: PpuModel, bg: Seq<PaletteIndex>, o: Object, x: int) -> Option<
    PaletteIndex,
> {
    let d = x + 8 - o.x;
    if !(0 <= 16 + m.line - o.y < obj_height(m.regs)) || !(0 <= d < 8) {
        None
    } else {
        let i = if o.attrs & 0x20 != 0 {
            7 - d
        } else {
            d
        };
        let p = tile_pixel(
            m.vram,
            tile_base(object_tile(m, o), TileDataArea::Blocks0And1),
            tile_line_index(m, o),
            7 - i,
        );
        if p == PaletteIndex::Id0 {
            None
        } else if bg[x] != PaletteIndex::Id0 && o.attrs & 0x80 != 0 {
            None
        } else {
            Some(p)
        }
    }
}

/// The object pixel at column `x` among the first `n` objects of `sorted`: the first that
/// shows there, with its rank and color.
pub open spec fn objects_pixel(
    m: PpuModel,
    bg: Seq<PaletteIndex>,
    sorted: Seq<usize>,
    n: int,
    x: int,
) -> Option<(usize, Color)>
    decreases n,
{
    if n <= 0 {
        None
    } else {
        match objects_pixel(m, bg, sorted, n - 1, x) {
            Some(v) => Some(v),
            None => {
                let o = m.oam[sorted[n - 1] as int];
                match object_pixel(m, bg, o, x) {
                    Some(p) => Some(((n - 1) as usize, palette_color(object_palette(m.regs, o).0, p))),
                    None => None,
                }
            },
        }
    }
}

/// The background and window palette indexes of the current line.
pub open spec fn bg_and_window_line(m: PpuModel) -> Seq<PaletteIndex> {
    if lcdc_set(m.regs, 0x20) {
        with_window(m, background_line(m))
    } else {
        background_line(m)
    }
}

/// The colors of the current line: an object's color where one shows (objects enabled by LCDC
/// bit 1), else the background or window color.
pub open spec fn line_colors(m: PpuModel) -> Seq<Color> {
    let bg = bg_and_window_line(m);
    let sorted = sort_by_x(m.selected, m.oam);
    Seq::new(
        160,
        |x: int|
            match objects_pixel(m, bg, sorted, sorted.len() as int, x) {
                Some((_, c)) if lcdc_set(m.regs, 0x02) => c,
                _ => palette_color(background_palette(m).0, bg[x]),
            },
    )
}

/// The state after drawing the current line: nothing while the LCD is off; else the line of
/// the frame holds `line_colors`, and the window line advances when the window was drawn.
pub open spec fn after_draw_line(m: PpuModel) -> PpuModel {
    if !lcdc_set(m.regs, 0x80) {
        m
    } else {
        PpuModel {
            frame: m.frame.update(m.line as int, line_colors(m)),
            window_line: if lcdc_set(m.regs, 0x20) && window_drawn(m) {
                (m.window_line + 1) as usize
            } else {
                m.window_line
            },
            ..m
        }
    }
}

/// The state after the OAM scan of the current line.
pub open spec fn after_oam_scan(m: PpuModel) -> PpuModel {
    PpuModel { selected: selected_objects(m.oam, m.line as int, obj_height(m.regs)), ..m }
}

/// The status register with the mode and the LYC == LY bit of the current state.
pub open spec fn status_with(status: u8, mode: Mode, lyc_eq_ly: bool) -> u8 {
    (status & 0xF8) | mode_number(mode) | (if lyc_eq_ly {
        4u8
    } else {
        0u8
    })
}

/// The state after the registers LY and STAT reflect the current line and mode.
pub open spec fn after_update_registers(m: PpuModel) -> PpuModel {
    let ly = m.line as u8;
    PpuModel {
        regs: Registers {
            ly: ly,
            status: status_with(m.regs.status, m.mode, ly == m.regs.lyc),
            ..m.regs
        },
        ..m
    }
}

/// The LCD interrupt condition: LYC == LY while selected, or the mode condition selected for
/// the current mode (modes 0, 1 and 2).
pub open spec fn lcd_condition(m: PpuModel) -> bool {
    let status = m.regs.status;
    let lyc_eq_ly = status & 0x40 != 0 && status & 0x04 != 0;
    let mode_irq = match m.mode {
        Mode::Hblank => status & 0x08 != 0,
        Mode::Vblank => status & 0x10 != 0,
        Mode::OamScan => status & 0x20 != 0,
        Mode::DrawingPixels => false,
    };
    lyc_eq_ly || mode_irq
}

/// The LCD interrupt is requested on a rising edge of its condition.
pub open spec fn lcd_irq(m: PpuModel) -> (PpuModel, u8) {
    let status = lcd_condition(m);
    if status == m.stat_irq {
        (m, 0)
    } else {
        (PpuModel { stat_irq: status, ..m }, if status {
            0x02u8
        } else {
            0u8
        })
    }
}

/// The state, interrupts and result after the PPU enters the mode `new_mode`: a new mode runs
/// its work (the OAM scan and the drawing of the line only when rendering; the vertical blank
/// restarts the window and completes the frame).
pub open spec fn after_mode(m: PpuModel, new_mode: Mode, render: bool) -> (PpuModel, u8, PpuResult) {
    if m.mode == new_mode {
        (after_update_registers(m), 0, PpuResult::InProgress(m.mode))
    } else {
        let m1 = PpuModel { mode: new_mode, ..m };
        if new_mode == Mode::Vblank {
            (
                after_update_registers(PpuModel { window_line: 0, ..m1 }),
                0x01,
                PpuResult::FrameComplete,
            )
        } else {
            let m2 = if new_mode == Mode::OamScan && render {
                after_oam_scan(m1)
            } else if new_mode == Mode::DrawingPixels && render {
                after_draw_line(m1)
            } else {
                m1
            };
            (after_update_registers(m2), 0, PpuResult::InProgress(new_mode))
        }
    }
}

/// The cycle count and line after `cycles` more cycles: a line ends after 456 cycles, and the
/// frame after 154 lines.
pub open spec fn after_cycles(m: PpuModel, cycles: usize) -> PpuModel {
    let c = m.cycles + cycles;
    if c >= 456 {
        PpuModel {
            cycles: (c - 456) as usize,
            line: if m.line + 1 >= 154 {
                0
            } else {
                (m.line + 1) as usize
            },
            ..m
        }
    } else {
        PpuModel { cycles: c as usize, ..m }
    }
}

/// The PPU, the DMA engine, the interrupts requested and the result after `cycles` cycles: a
/// pending DMA request starts a transfer.
pub open spec fn ppu_step(m: PpuModel, d: DmaState, cycles: usize, render: bool) -> (
    PpuModel,
    DmaState,
    u8,
    PpuResult,
) {
    let m1 = after_cycles(m, cycles);
    let new_mode = mode_for(m1.cycles, m1.line);
    let triggered = m1.regs.dma_config.triggered;
    let d2 = if triggered {
        DmaState {
            active: true,
            base_address: (m1.regs.dma_config.address as int * 256) as u16,
            current_element: 0,
        }
    } else {
        d
    };
    let m2 = PpuModel {
        regs: Registers {
            dma_config: regs::DmaConfig { triggered: false, ..m1.regs.dma_config },
            ..m1.regs
        },
        ..m1
    };
    let (m3, irq, result) = after_mode(m2, new_mode, render);
    let (m4, lcd) = lcd_irq(m3);
    (m4, d2, irq | lcd, result)
}

/// The sizes of the memories of the PPU, its line and cycle count, and the selected objects,
/// which are OAM indexes.
pub open spec fn ppu_mem_wf(m: PpuModel) -> bool {
    &&& m.vram.len() == 0x2000
    &&& m.oam.len() == 40
    &&& m.frame.len() == 144
    &&& (forall|i: int| 0 <= i < 144 ==> (#[trigger] m.frame[i]).len() == 160)
    &&& m.line < 154
    &&& m.cycles < 912
    &&& m.selected.len() <= 10
    &&& (forall|i: int| 0 <= i < m.selected.len() ==> (#[trigger] m.selected[i]) < 40)
}

/// The window line restarts at the vertical blank and advances at most once per line: it is
/// 0 during the vertical blank, and at most the line number, plus one once the line was drawn.
pub open spec fn window_line_ok(m: PpuModel) -> bool {
    &&& (m.line >= 144 ==> m.window_line == 0)
    &&& (m.line < 144 ==> m.window_line <= m.line + (if m.mode == Mode::DrawingPixels || m.mode
        == Mode::Hblank {
        1int
    } else {
        0int
    }))
}

/// The invariant of the PPU: the sizes of its memories, the mode matches the cycle count and
/// line, the selected objects are OAM indexes, and the window line stays below the line count.
pub open spec fn ppu_wf(m: PpuModel) -> bool {
    &&& ppu_mem_wf(m)
    &&& m.mode == mode_for(m.cycles, m.line)
    &&& window_line_ok(m)
}

/// Whether `address` belongs to the PPU: the VRAM, the OAM or the LCD registers.
pub open spec fn is_ppu_address(address: Address) -> bool {
    is_vram_address(address) || is_oam_address(address) || is_register_address(address)
}

/// The value that a read of `address` returns.
pub open spec fn ppu_read(m: PpuModel, address: Address) -> u8 {
    if is_vram_address(address) {
        m.vram[address - 0x8000]
    } else if is_oam_address(address) {
        oam_byte(m.oam, address - 0xFE00)
    } else {
        register_value(m.regs, address)
    }
}

/// The state after a write of `value` at `address`.
pub open spec fn ppu_write(m: PpuModel, address: Address, value: u8) -> PpuModel {
    if is_vram_address(address) {
        PpuModel { vram: m.vram.update(address - 0x8000, value), ..m }
    } else if is_oam_address(address) {
        PpuModel { oam: oam_with_byte(m.oam, address - 0xFE00, value), ..m }
    } else {
        PpuModel { regs: registers_after_write(m.regs, address, value), ..m }
    }
}


/// The Picture Processing Unit
pub struct Ppu {
    vram: Vram,
    regs: Registers,
    oam: Oam,
    mode: Mode,
    cycles: Cycles,
    line: usize,
    stat_irq: bool,
    current_window_line: usize,
    // Vector of indexes into OAM entries
    selected_oam_entries: heapless::Vec<usize, 10>,
    /// Origin of coordinates is top-left pixel.
    framebuffer: [[Color; 160]; 144],
}

impl View for Ppu {
    type V = PpuModel;

    closed spec fn view(&self) -> PpuModel {
        PpuModel {
            vram: self.vram@,
            regs: self.regs,
            oam: self.oam@,
            mode: self.mode,
            cycles: self.cycles.0,
            line: self.line,
            stat_irq: self.stat_irq,
            window_line: self.current_window_line,
            selected: selection_items(self.selected_oam_entries),
            frame: self.framebuffer@.map_values(|row: [Color; 160]| row@),
        }
    }
}

/// The state of a PPU at power on: memories and registers cleared, the frame black, the OAM
/// scan of line 0 starting.
pub open spec fn initial_ppu(m: PpuModel) -> bool {
    &&& m.vram == Seq::new(0x2000, |i: int| 0u8)
    &&& m.regs == Registers::spec_new()
    &&& m.oam == Seq::new(40, |i: int| Object { y: 0, x: 0, tile_idx: TileIndex(0), attrs: 0 })
    &&& m.mode == Mode::OamScan
    &&& m.cycles == 0
    &&& m.line == 0
    &&& !m.stat_irq
    &&& m.window_line == 0
    &&& m.selected == Seq::<usize>::empty()
    &&& m.frame == Seq::new(144, |i: int| Seq::new(160, |j: int| Color::Black))
}

impl Ppu {
    /// Constructs a PPU instance
    pub fn new() -> (r: Self)
        ensures
            initial_ppu(r@),
            ppu_wf(r@),
    {
        let r = Self {
            vram: Vram::new(),
            regs: Registers::new(),
            oam: Oam::new(),
            mode: Mode::OamScan,
            cycles: Cycles::new(0),
            line: 0,
            stat_irq: false,
            current_window_line: 0,
            selected_oam_entries: selection_new(),
            framebuffer: [[Color::Black; 160]; 144],
        };
        assert(r@.frame =~= Seq::new(144, |i: int| Seq::new(160, |j: int| Color::Black))) by {
            assert forall|i: int| 0 <= i < 144 implies r@.frame[i] =~= Seq::new(
                160,
                |j: int| Color::Black,
            ) by {}
        }
        r
    }

    /// The current mode of the PPU
    pub fn mode(&self) -> (r: Mode)
        ensures
            r == self@.mode,
    {
        self.mode
    }

    /// The frame buffer
    pub fn frame(&self) -> (r: &Frame)
        ensures
            r@.map_values(|row: [Color; 160]| row@) == self@.frame,
    {
        &self.framebuffer
    }

    fn update_line_and_cycles(&mut self, cycles: Cycles)
        requires
            ppu_wf(old(self)@),
            cycles.0 <= 456,
        ensures
            final(self)@ == after_cycles(old(self)@, cycles.0),
    {
        self.cycles = self.cycles.plus(cycles);
        if self.cycles.value() >= LINE_LENGTH {
            self.cycles = self.cycles.minus(Cycles::new(LINE_LENGTH));
            self.line = self.line + 1;
            if self.line >= NUM_LINES {
                self.line = 0;
            }
        }
    }

    /// Reads the VRAM, the OAM or a register
    pub fn read(&self, address: Address) -> (r: u8)
        requires
            is_ppu_address(address),
        ensures
            r == ppu_read(self@, address),
    {
        if 0x8000 <= address && address <= 0x9FFF {
            self.vram.read(address)
        } else if 0xFE00 <= address && address <= 0xFE9F {
            self.oam.read(address)
        } else {
            self.regs.read(address)
        }
    }

    /// Writes the VRAM, the OAM or a register
    pub fn write(&mut self, address: Address, value: u8)
        requires
            is_ppu_address(address),
        ensures
            final(self)@ == ppu_write(old(self)@, address, value),
    {
        if 0x8000 <= address && address <= 0x9FFF {
            self.vram.write(address, value);
        } else if 0xFE00 <= address && address <= 0xFE9F {
            self.oam.write(address, value);
        } else {
            self.regs.write(address, value);
        }
    }

    fn update_registers(&mut self)
        requires
            old(self).line < 154,
        ensures
            final(self)@ == after_update_registers(old(self)@),
    {
        let line = self.line as u8;
        self.regs.ly = line;
        let eq: u8 = if line == self.regs.lyc {
            STAT_LYC_EQ_LY
        } else {
            0
        };
        self.regs.status = (self.regs.status & 0xF8) | self.mode.number() | eq;
    }

    fn update_lcd_irq(&mut self) -> (r: Interrupts)
        ensures
            (final(self)@, r.0) == lcd_irq(old(self)@),
    {
        let status = self.regs.status;
        let lyc_eq_ly = status & STAT_LYC_INT_SELECT != 0 && status & STAT_LYC_EQ_LY != 0;
        let mode_irq = match self.mode {
            Mode::Hblank => status & STAT_MODE_0_INT_SELECT != 0,
            Mode::Vblank => status & STAT_MODE_1_INT_SELECT != 0,
            Mode::OamScan => status & STAT_MODE_2_INT_SELECT != 0,
            Mode::DrawingPixels => false,
        };
        let status = lyc_eq_ly || mode_irq;
        if status == self.stat_irq {
            return Interrupts::new();
        }
        if status {
            self.stat_irq = true;
            Interrupts::from_interrupt(Interrupt::Lcd)
        } else {
            self.stat_irq = false;
            Interrupts::new()
        }
    }
}


/// The object indexes `entries` sorted by the X coordinate of their objects, stably.
fn sort_entries_by_x(entries: &[usize], objects: &[Object]) -> (r: Vec<usize>)
    requires
        forall|i: int| 0 <= i < entries@.len() ==> (#[trigger] entries@[i]) < objects@.len(),
    ensures
        r@ == sort_by_x(entries@, objects@),
        forall|i: int| 0 <= i < r@.len() ==> (#[trigger] r@[i]) < objects@.len(),
        r@.len() == entries@.len(),
{
    let mut r: Vec<usize> = Vec::new();
    let mut k: usize = 0;
    while k < entries.len()
        invariant
            k <= entries@.len(),
            forall|i: int| 0 <= i < entries@.len() ==> (#[trigger] entries@[i]) < objects@.len(),
            r@ == sort_by_x(entries@.take(k as int), objects@),
            forall|i: int| 0 <= i < r@.len() ==> (#[trigger] r@[i]) < objects@.len(),
            r@.len() == k,
        decreases entries@.len() - k,
    {
        let e = entries[k];
        let key = objects[e].x;
        let mut j = r.len();
        proof {
            assert(r@.take(j as int) =~= r@);
            assert(r@.skip(j as int) =~= Seq::<usize>::empty());
            assert(insert_by_x(r@, e, objects@) =~= insert_by_x(r@.take(j as int), e, objects@)
                + r@.skip(j as int));
        }
        while j > 0 && objects[r[j - 1]].x > key
            invariant
                j <= r@.len(),
                e < objects@.len(),
                key == objects@[e as int].x,
                forall|i: int| 0 <= i < r@.len() ==> (#[trigger] r@[i]) < objects@.len(),
                insert_by_x(r@, e, objects@) == insert_by_x(r@.take(j as int), e, objects@) + r@.skip(
                    j as int,
                ),
            decreases j,
        {
            proof {
                let t = r@.take(j as int);
                assert(t.drop_last() =~= r@.take(j - 1));
                assert(r@.skip(j - 1) =~= seq![r@[j - 1]] + r@.skip(j as int));
                assert(insert_by_x(t, e, objects@) == insert_by_x(t.drop_last(), e, objects@).push(
                    t.last(),
                ));
                assert(insert_by_x(r@.take(j - 1), e, objects@).push(r@[j - 1]) + r@.skip(j as int)
                    =~= insert_by_x(r@.take(j - 1), e, objects@) + r@.skip(j - 1));
            }
            j = j - 1;
        }
        proof {
            let t = r@.take(j as int);
            assert(insert_by_x(t, e, objects@) =~= t.push(e));
            assert(t.push(e) + r@.skip(j as int) =~= r@.insert(j as int, e));
            assert(entries@.take(k + 1).drop_last() =~= entries@.take(k as int));
        }
        r.insert(j, e);
        k = k + 1;
    }
    assert(entries@.take(k as int) =~= entries@);
    r
}

impl Ppu {
    fn oam_scan(&mut self)
        requires
            ppu_mem_wf(old(self)@),
        ensures
            final(self)@ == after_oam_scan(old(self)@),
    {
        self.selected_oam_entries = selection_new();
        let height: usize = if self.regs.lcdc & LCDC_OBJ_SIZE != 0 {
            16
        } else {
            8
        };
        let cur_obj_line = self.line + OBJ_OFFSET_Y;
        let mut i: usize = 0;
        // Walk all entries from 0 to NUM_OBJS
        while i < oam::NUM_OBJECTS
            invariant
                i <= 40,
                ppu_mem_wf(old(self)@),
                height == obj_height(old(self)@.regs),
                cur_obj_line == old(self)@.line + 16,
                self@ == (PpuModel { selected: self@.selected, ..old(self)@ }),
                self@.selected == first_ten(
                    objects_on_line(self@.oam, i as int, self@.line as int, height as int),
                ),
            decreases 40 - i,
        {
            let objects = self.oam.objects();
            let object = objects[i];
            if cur_obj_line >= object.y as usize && cur_obj_line < object.y as usize + height {
                let ghost before = self@.selected;
                let ghost s = objects_on_line(self@.oam, i as int, self@.line as int, height as int);
                selection_push(&mut self.selected_oam_entries, i);
                proof {
                    if s.len() >= 10 {
                        assert(s.push(i).take(10) =~= s.take(10));
                    } else {
                        assert(first_ten(s.push(i)) =~= s.push(i));
                    }
                }
            }
            i = i + 1;
        }
    }
}


fn bg_tile_map(regs: &Registers) -> (r: TileMapArea)
    ensures
        r == bg_map_area(*regs),
{
    if regs.lcdc & LCDC_BG_TILE_MAP != 0 {
        TileMapArea::HighMap
    } else {
        TileMapArea::LowMap
    }
}

fn win_tile_map(regs: &Registers) -> (r: TileMapArea)
    ensures
        r == win_map_area(*regs),
{
    if regs.lcdc & LCDC_WINDOW_TILE_MAP != 0 {
        TileMapArea::HighMap
    } else {
        TileMapArea::LowMap
    }
}

fn tile_data(regs: &Registers) -> (r: TileDataArea)
    ensures
        r == data_area(*regs),
{
    if regs.lcdc & LCDC_BG_AND_WINDOW_TILE_DATA != 0 {
        TileDataArea::Blocks0And1
    } else {
        TileDataArea::Blocks2And1
    }
}

impl Ppu {
    fn draw_line_background(&self, line: &mut [PaletteIndex; 160]) -> (r: Palette)
        requires
            ppu_mem_wf(self@),
        ensures
            final(line)@ == background_line(self@),
            r == background_palette(self@),
    {
        if self.regs.lcdc & LCDC_BG_AND_WINDOW_ENABLE == 0 {
            // BG is disabled
            let mut x: usize = 0;
            while x < DISPLAY_WIDTH
                invariant
                    x <= 160,
                    forall|k: int| 0 <= k < x ==> line@[k] == PaletteIndex::Id0,
                decreases 160 - x,
            {
                line[x] = PaletteIndex::Id0;
                x = x + 1;
            }
            assert(line@ =~= background_line(self@));
            return Palette(0);
        }
        let bg_y_offset = self.regs.scy as usize;
        let bg_x_offset = self.regs.scx as usize;
        let map = self.vram.get_bg_tile_map(bg_tile_map(&self.regs));
        let area = tile_data(&self.regs);
        let tile_line_idx = (bg_y_offset + self.line) % vram::TILE_HEIGHT;
        let row = map.line(bg_y_offset + self.line);
        let mut x: usize = 0;
        while x < DISPLAY_WIDTH
            invariant
                x <= 160,
                ppu_mem_wf(self@),
                lcdc_set(self@.regs, 0x01),
                bg_y_offset == self@.regs.scy,
                bg_x_offset == self@.regs.scx,
                area == data_area(self@.regs),
                tile_line_idx == (bg_y_offset + self@.line) % 8,
                map@ == self@.vram.subrange(
                    tile_map_base(bg_map_area(self@.regs)),
                    tile_map_base(bg_map_area(self@.regs)) + 0x400,
                ),
                forall|j: int|
                    0 <= j < 32 ==> (#[trigger] row@[j]).0 == map@[32 * tile_map_row(
                        bg_y_offset + self@.line,
                    ) + j],
                forall|k: int| 0 <= k < x ==> line@[k] == background_pixel(self@, k),
            decreases 160 - x,
        {
            let p = bg_x_offset + x;
            let tile = self.vram.get_tile(row[(p / vram::TILE_WIDTH) % vram::TILE_MAP_WIDTH], area);
            line[x] = tile.get_line(tile_line_idx).pixel(7 - p % vram::TILE_WIDTH);
            x = x + 1;
        }
        assert(line@ =~= background_line(self@));
        self.regs.bg_palette
    }

    fn draw_line_window(&mut self, line: &mut [PaletteIndex; 160])
        requires
            ppu_mem_wf(old(self)@),
            old(self)@.line < 144,
            old(self)@.window_line <= 145,
        ensures
            final(line)@ == with_window(old(self)@, old(line)@),
            final(self)@ == (PpuModel {
                window_line: if window_drawn(old(self)@) {
                    (old(self)@.window_line + 1) as usize
                } else {
                    old(self)@.window_line
                },
                ..old(self)@
            }),
    {
        if self.regs.lcdc & LCDC_BG_AND_WINDOW_ENABLE == 0 {
            return ;
        }
        let wy = self.regs.wy as usize;
        if self.line < wy {
            // Nothing to draw, return
            return ;
        }
        let wx = self.regs.wx as usize;
        let disp_x_offset = wx.saturating_sub(WX_OFFSET);
        if disp_x_offset >= DISPLAY_WIDTH {
            return ;
        }
        let current_window_line = self.current_window_line;
        self.current_window_line = self.current_window_line + 1;
        let ghost m = old(self)@;
        let disp_x_initial_skip = WX_OFFSET.saturating_sub(wx);
        let tile_line_idx = current_window_line % vram::TILE_HEIGHT;
        let map = self.vram.get_win_tile_map(win_tile_map(&self.regs));
        let area = tile_data(&self.regs);
        let row = map.line(current_window_line);
        let mut x: usize = disp_x_offset;
        while x < DISPLAY_WIDTH
            invariant
                disp_x_offset <= x <= 160,
                ppu_mem_wf(m),
                window_drawn(m),
                self@.vram == m.vram,
                self@.regs == m.regs,
                disp_x_offset == window_offset(m.regs),
                disp_x_initial_skip == window_skip(m.regs),
                current_window_line == m.window_line,
                area == data_area(m.regs),
                tile_line_idx == current_window_line % 8,
                map@ == m.vram.subrange(
                    tile_map_base(win_map_area(m.regs)),
                    tile_map_base(win_map_area(m.regs)) + 0x400,
                ),
                forall|j: int|
                    0 <= j < 32 ==> (#[trigger] row@[j]).0 == map@[32 * tile_map_row(
                        current_window_line as int,
                    ) + j],
                forall|k: int| 0 <= k < disp_x_offset ==> line@[k] == old(line)@[k],
                forall|k: int| disp_x_offset <= k < x ==> line@[k] == window_pixel(m, k),
            decreases 160 - x,
        {
            let q = x - disp_x_offset + disp_x_initial_skip;
            let tile = self.vram.get_tile(row[q / vram::TILE_WIDTH], area);
            line[x] = tile.get_line(tile_line_idx).pixel(7 - q % vram::TILE_WIDTH);
            x = x + 1;
        }
        assert(line@ =~= with_window(m, old(line)@));
    }
}


/// Column `x` of the display shows one of the first `i` pixels that the object draws.
spec fn drawn_by(o: Object, x: int, i: int) -> bool {
    let d = x + 8 - o.x;
    &&& 0 <= d < 8
    &&& (if o.attrs & 0x20 != 0 {
        7 - d
    } else {
        d
    }) < i
}

/// The rank of the object pixel among the first `n` objects is below `n`.
proof fn lemma_objects_pixel_rank(
    m: PpuModel,
    bg: Seq<PaletteIndex>,
    sorted: Seq<usize>,
    n: int,
    x: int,
)
    ensures
        objects_pixel(m, bg, sorted, n, x) matches Some((k, _)) ==> k < n,
    decreases n,
{
    if n > 0 {
        lemma_objects_pixel_rank(m, bg, sorted, n - 1, x);
    }
}

/// The objects covering a line are OAM indexes below `n`, at most `n` of them.
proof fn lemma_objects_on_line_bounds(objs: Seq<Object>, n: int, line: int, height: int)
    requires
        0 <= n,
    ensures
        objects_on_line(objs, n, line, height).len() <= n,
        forall|i: int|
            0 <= i < objects_on_line(objs, n, line, height).len() ==> (#[trigger] objects_on_line(
                objs,
                n,
                line,
                height,
            )[i]) < n,
    decreases n,
{
    if n > 0 {
        lemma_objects_on_line_bounds(objs, n - 1, line, height);
    }
}

/// Every step of the PPU keeps its invariant: in particular the mode always matches the cycle
/// count and the line, and the window line stays within the lines of the frame.
pub proof fn lemma_step_keeps_wf(m: PpuModel, d: DmaState, cycles: usize, render: bool)
    requires
        ppu_wf(m),
        cycles <= 456,
    ensures
        ppu_wf(ppu_step(m, d, cycles, render).0),
{
    let m1 = after_cycles(m, cycles);
    let new_mode = mode_for(m1.cycles, m1.line);
    lemma_objects_on_line_bounds(m1.oam, 40, m1.line as int, obj_height(m1.regs));
    let s = objects_on_line(m1.oam, 40, m1.line as int, obj_height(m1.regs));
    assert(forall|i: int| 0 <= i < first_ten(s).len() ==> first_ten(s)[i] == s[i]);
}

/// The place of the PPU in a frame, in cycles from the start of line 0.
pub open spec fn frame_position(m: PpuModel) -> int {
    m.line * 456 + m.cycles
}

/// A frame lasts 154 lines of 456 cycles, 70224 cycles: a step moves the PPU on by its cycles
/// around the frame, and the frame completes exactly when the step reaches line 144, where
/// the vertical blank starts, at cycle 65664 of the frame.
pub proof fn lemma_frame_timing(m: PpuModel, d: DmaState, cycles: usize, render: bool)
    requires
        ppu_wf(m),
        m.cycles < 456,
        cycles <= 456,
    ensures
        ppu_step(m, d, cycles, render).0.cycles < 456,
        frame_position(ppu_step(m, d, cycles, render).0) == (frame_position(m) + cycles) % 70224,
        (ppu_step(m, d, cycles, render).3 == PpuResult::FrameComplete) <==> (frame_position(m)
            < 65664 <= frame_position(m) + cycles),
{
    let m1 = after_cycles(m, cycles);
    let s = ppu_step(m, d, cycles, render);
    assert(s.0.line == m1.line && s.0.cycles == m1.cycles);
}

/// A step raises the vertical-blank interrupt exactly when it completes a frame, which is
/// exactly when it moves the PPU from another mode into the vertical blank; the only other
/// interrupt that a step can raise is the LCD interrupt.
pub proof fn lemma_frame_vblank(m: PpuModel, d: DmaState, cycles: usize, render: bool)
    ensures
        (ppu_step(m, d, cycles, render).3 == PpuResult::FrameComplete) <==> (ppu_step(
            m,
            d,
            cycles,
            render,
        ).2 & 0x01 != 0),
        (ppu_step(m, d, cycles, render).3 == PpuResult::FrameComplete) <==> (m.mode != Mode::Vblank
            && ppu_step(m, d, cycles, render).0.mode == Mode::Vblank),
        ppu_step(m, d, cycles, render).2 & 0xFC == 0,
{
    let m1 = after_cycles(m, cycles);
    let new_mode = mode_for(m1.cycles, m1.line);
    let m2 = PpuModel {
        regs: Registers {
            dma_config: regs::DmaConfig { triggered: false, ..m1.regs.dma_config },
            ..m1.regs
        },
        ..m1
    };
    let (m3, irq, result) = after_mode(m2, new_mode, render);
    let (m4, lcd) = lcd_irq(m3);
    assert(m3.mode == new_mode);
    assert(m4.mode == new_mode);
    assert(irq == 0 || irq == 1);
    assert(lcd == 0 || lcd == 2);
    assert(((irq | lcd) & 0x01 != 0) == (irq == 1) && (irq | lcd) & 0xFC == 0) by (bit_vector)
        requires
            irq == 0 || irq == 1,
            lcd == 0 || lcd == 2,
    ;
}

/// The PPU and DMA state after steps of the given numbers of cycles, and the number of frames
/// completed on the way.
pub open spec fn ppu_run(m: PpuModel, d: DmaState, steps: Seq<usize>, render: bool) -> (
    PpuModel,
    DmaState,
    nat,
)
    decreases steps.len(),
{
    if steps.len() == 0 {
        (m, d, 0)
    } else {
        let (m0, d0, n) = ppu_run(m, d, steps.drop_last(), render);
        let s = ppu_step(m0, d0, steps.last(), render);
        (s.0, s.1, if s.3 == PpuResult::FrameComplete {
            n + 1
        } else {
            n
        })
    }
}

/// The sum of the numbers of cycles of the steps.
pub open spec fn total_cycles(steps: Seq<usize>) -> int
    decreases steps.len(),
{
    if steps.len() == 0 {
        0
    } else {
        total_cycles(steps.drop_last()) + steps.last()
    }
}

/// Moving on by `c` cycles from absolute cycle `t` passes the start of a vertical blank once
/// or not at all, as the place in the frame says.
proof fn lemma_frame_crossing(t: int, c: int)
    requires
        0 <= t,
        0 <= c <= 456,
    ensures
        (t + c) % 70224 == ((t % 70224) + c) % 70224,
        (t + c - 65664) / 70224 - (t - 65664) / 70224 == (if t % 70224 < 65664 <= t % 70224 + c {
            1int
        } else {
            0int
        }),
{
    let k = t / 70224;
    let q = t % 70224;
    vstd::arithmetic::div_mod::lemma_fundamental_div_mod(t, 70224);
    assert(t == k * 70224 + q);
    let j = (q + c) / 70224;
    let r = (q + c) % 70224;
    vstd::arithmetic::div_mod::lemma_fundamental_div_mod(q + c, 70224);
    vstd::arithmetic::div_mod::lemma_fundamental_div_mod_converse(t + c, 70224, k + j, r);
    if q >= 65664 {
        vstd::arithmetic::div_mod::lemma_fundamental_div_mod_converse(
            t - 65664,
            70224,
            k,
            q - 65664,
        );
        vstd::arithmetic::div_mod::lemma_fundamental_div_mod_converse(
            t + c - 65664,
            70224,
            k,
            q + c - 65664,
        );
    } else {
        vstd::arithmetic::div_mod::lemma_fundamental_div_mod_converse(
            t - 65664,
            70224,
            k - 1,
            q + 4560,
        );
        if q + c < 65664 {
            vstd::arithmetic::div_mod::lemma_fundamental_div_mod_converse(
                t + c - 65664,
                70224,
                k - 1,
                q + c + 4560,
            );
        } else {
            vstd::arithmetic::div_mod::lemma_fundamental_div_mod_converse(
                t + c - 65664,
                70224,
                k,
                q + c - 65664,
            );
        }
    }
}

/// Over steps of at most one line each, the PPU keeps its invariant and moves on by the sum of
/// their cycles around the frame, and the frames completed are the starts of a vertical blank
/// (cycle 65664 of a frame) that the steps pass.
pub proof fn lemma_frames_over_steps(m: PpuModel, d: DmaState, steps: Seq<usize>, render: bool)
    requires
        ppu_wf(m),
        m.cycles < 456,
        forall|i: int| 0 <= i < steps.len() ==> #[trigger] steps[i] <= 456,
    ensures
        ppu_wf(ppu_run(m, d, steps, render).0),
        ppu_run(m, d, steps, render).0.cycles < 456,
        frame_position(ppu_run(m, d, steps, render).0) == (frame_position(m) + total_cycles(steps))
            % 70224,
        ppu_run(m, d, steps, render).2 == (frame_position(m) + total_cycles(steps) - 65664) / 70224
            - (frame_position(m) - 65664) / 70224,
    decreases steps.len(),
{
    let p = frame_position(m);
    if steps.len() == 0 {
        vstd::arithmetic::div_mod::lemma_fundamental_div_mod_converse(p, 70224, 0, p);
    } else {
        let prefix = steps.drop_last();
        let c = steps.last();
        assert(c == steps[steps.len() - 1]);
        assert forall|i: int| 0 <= i < prefix.len() implies #[trigger] prefix[i] <= 456 by {
            assert(prefix[i] == steps[i]);
        }
        lemma_frames_over_steps(m, d, prefix, render);
        let (m0, d0, n) = ppu_run(m, d, prefix, render);
        lemma_frame_timing(m0, d0, c, render);
        lemma_step_keeps_wf(m0, d0, c, render);
        let t = total_cycles(prefix);
        assert(0 <= t) by {
            lemma_total_cycles_nonneg(prefix);
        }
        lemma_frame_crossing(p + t, c as int);
    }
}

/// The sum of the numbers of cycles of steps is not negative.
proof fn lemma_total_cycles_nonneg(steps: Seq<usize>)
    ensures
        total_cycles(steps) >= 0,
    decreases steps.len(),
{
    if steps.len() > 0 {
        lemma_total_cycles_nonneg(steps.drop_last());
    }
}

/// From a new PPU, steps of at most one line each that take `n` frames of 70224 cycles in all
/// complete exactly `n` frames, and end at the start of a frame.
pub proof fn lemma_frames_from_new(
    m: PpuModel,
    d: DmaState,
    steps: Seq<usize>,
    render: bool,
    n: nat,
)
    requires
        initial_ppu(m),
        ppu_wf(m),
        forall|i: int| 0 <= i < steps.len() ==> #[trigger] steps[i] <= 456,
        total_cycles(steps) == 70224 * n,
    ensures
        ppu_run(m, d, steps, render).2 == n,
        frame_position(ppu_run(m, d, steps, render).0) == 0,
{
    lemma_frames_over_steps(m, d, steps, render);
    assert(frame_position(m) == 0);
    vstd::arithmetic::div_mod::lemma_fundamental_div_mod_converse(
        70224 * n - 65664,
        70224,
        n - 1,
        4560,
    );
    vstd::arithmetic::div_mod::lemma_fundamental_div_mod_converse(-65664, 70224, -1, 4560);
    vstd::arithmetic::div_mod::lemma_fundamental_div_mod_converse((70224 * n) as int, 70224, n as int, 0);
}

/// The object pixel at a column is that of the first object in the order that shows there,
/// coloured by OBP1 when bit 4 of the object's attributes is set and by OBP0 otherwise; no
/// object pixel is there when no object shows.
pub proof fn lemma_object_colors(
    m: PpuModel,
    bg: Seq<PaletteIndex>,
    sorted: Seq<usize>,
    n: int,
    x: int,
)
    requires
        n <= usize::MAX,
    ensures
        objects_pixel(m, bg, sorted, n, x) matches Some((k, col)) ==> {
            &&& 0 <= k < n
            &&& object_pixel(m, bg, m.oam[sorted[k as int] as int], x) matches Some(p)
            &&& col == palette_color(
                if m.oam[sorted[k as int] as int].attrs & 0x10 != 0 {
                    m.regs.obj_palette1.0
                } else {
                    m.regs.obj_palette0.0
                },
                p,
            )
            &&& forall|j: int|
                0 <= j < k ==> (#[trigger] object_pixel(m, bg, m.oam[sorted[j] as int], x)) is None
        },
        objects_pixel(m, bg, sorted, n, x) is None ==> forall|j: int|
            0 <= j < n ==> (#[trigger] object_pixel(m, bg, m.oam[sorted[j] as int], x)) is None,
    decreases n,
{
    if n > 0 {
        lemma_object_colors(m, bg, sorted, n - 1, x);
    }
}

/// A pixel of a drawn line shows the object pixel there when objects are enabled (LCDC bit 1)
/// and one shows; otherwise it shows the background or window palette index through BGP while
/// LCDC bit 0 is set, and white while it is clear.
pub proof fn lemma_line_pixel_colors(m: PpuModel, x: int)
    requires
        0 <= x < 160,
    ensures
        ({
            let bg = bg_and_window_line(m);
            let sorted = sort_by_x(m.selected, m.oam);
            let obj = objects_pixel(m, bg, sorted, sorted.len() as int, x);
            &&& obj matches Some((_, c)) ==> (m.regs.lcdc & 0x02 != 0 ==> line_colors(m)[x] == c)
            &&& (m.regs.lcdc & 0x02 == 0 || obj is None) ==> line_colors(m)[x] == if m.regs.lcdc
                & 0x01 != 0 {
                palette_color(m.regs.bg_palette.0, bg[x])
            } else {
                Color::White
            }
        }),
{
    let bg = bg_and_window_line(m);
    let k = palette_index_number(bg[x]);
    let z = 0u8;
    assert(3u8 & (z >> (2 * k) as u8) == 0) by (bit_vector)
        requires
            z == 0,
    ;
}

/// Inserting an item adds one to the length.
proof fn lemma_insert_by_x_len(sorted: Seq<usize>, e: usize, objs: Seq<Object>)
    ensures
        insert_by_x(sorted, e, objs).len() == sorted.len() + 1,
    decreases sorted.len(),
{
    if sorted.len() > 0 {
        lemma_insert_by_x_len(sorted.drop_last(), e, objs);
    }
}

/// Sorting keeps the length.
proof fn lemma_sort_by_x_len(s: Seq<usize>, objs: Seq<Object>)
    ensures
        sort_by_x(s, objs).len() == s.len(),
    decreases s.len(),
{
    if s.len() > 0 {
        lemma_sort_by_x_len(s.drop_last(), objs);
        lemma_insert_by_x_len(sort_by_x(s.drop_last(), objs), s.last(), objs);
    }
}

/// The object pixels depend only on the VRAM, the registers, the OAM and the line.
proof fn lemma_objects_pixel_same(
    m1: PpuModel,
    m2: PpuModel,
    bg: Seq<PaletteIndex>,
    sorted: Seq<usize>,
    n: int,
    x: int,
)
    requires
        m1.vram == m2.vram,
        m1.regs == m2.regs,
        m1.oam == m2.oam,
        m1.line == m2.line,
    ensures
        objects_pixel(m1, bg, sorted, n, x) == objects_pixel(m2, bg, sorted, n, x),
    decreases n,
{
    if n > 0 {
        lemma_objects_pixel_same(m1, m2, bg, sorted, n - 1, x);
    }
}

proof fn lemma_first_tile_of_pair(idx: u8)
    ensures
        idx & 0xFE < 255,
{
    assert(idx & 0xFE < 255) by (bit_vector);
}

impl Ppu {
    #[verifier::spinoff_prover]
    #[verifier::rlimit(50)]
    fn draw_line_objects(
        &self,
        bg_line: &[PaletteIndex; 160],
        line: &mut [Option<(usize, Color)>; 160],
    )
        requires
            ppu_mem_wf(self@),
            self@.line < 144,
            forall|x: int| 0 <= x < 160 ==> (#[trigger] old(line)@[x]) is None,
        ensures
            forall|x: int|
                0 <= x < 160 ==> (#[trigger] final(line)@[x]) == objects_pixel(
                    self@,
                    bg_line@,
                    sort_by_x(self@.selected, self@.oam),
                    self@.selected.len() as int,
                    x,
                ),
    {
        let double_size_tiles = self.regs.lcdc & LCDC_OBJ_SIZE != 0;
        let height: usize = if double_size_tiles {
            16
        } else {
            8
        };
        let objects = self.oam.objects();
        // OAM object priorities are based on the X coordinate.
        let oam_entries = sort_entries_by_x(selection_as_slice(&self.selected_oam_entries), objects);
        let ghost m = self@;
        let ghost bg = bg_line@;
        let ghost sorted = oam_entries@;
        let mut obj_prio: usize = 0;
        while obj_prio < oam_entries.len()
            invariant
                obj_prio <= oam_entries@.len(),
                oam_entries@ == sorted,
                sorted == sort_by_x(m.selected, m.oam),
                sorted.len() == m.selected.len(),
                forall|i: int| 0 <= i < sorted.len() ==> (#[trigger] sorted[i]) < 40,
                objects@ == m.oam,
                m == self@,
                bg == bg_line@,
                ppu_mem_wf(m),
                m.line < 144,
                double_size_tiles == lcdc_set(m.regs, 0x04),
                height == obj_height(m.regs),
                forall|x: int|
                    0 <= x < 160 ==> (#[trigger] line@[x]) == objects_pixel(
                        m,
                        bg,
                        sorted,
                        obj_prio as int,
                        x,
                    ),
            decreases oam_entries@.len() - obj_prio,
        {
            let object = objects[oam_entries[obj_prio]];
            let ghost n = obj_prio as int;
            assert(object == m.oam[sorted[n] as int]);
            let y_flip = object.attrs & OBJ_ATTRS_Y_FLIP != 0;
            let x_flip = object.attrs & OBJ_ATTRS_X_FLIP != 0;
            let top = self.line + OBJ_OFFSET_Y;
            if top >= object.y as usize && top - (object.y as usize) < height {
                let tile_line = top - object.y as usize;
                let tile_line = if y_flip {
                    height - 1 - tile_line
                } else {
                    tile_line
                };
                assert(tile_line == object_row(m, object));
                // In 8x16 mode, the tile index is always aligned to 2, enforced by the hardware.
                let tile_idx = if double_size_tiles {
                    object.tile_idx.discard_bit_zero()
                } else {
                    object.tile_idx
                };
                proof {
                    lemma_first_tile_of_pair(object.tile_idx.0);
                }
                let (tile_idx, tile_line) = if tile_line >= vram::TILE_HEIGHT {
                    (tile_idx.next(), tile_line - vram::TILE_HEIGHT)
                } else {
                    (tile_idx, tile_line)
                };
                let palette = if object.attrs & OBJ_ATTRS_PALETTE_SELECTOR != 0 {
                    self.regs.obj_palette1
                } else {
                    self.regs.obj_palette0
                };
                let tile = self.vram.get_tile(tile_idx, TileDataArea::Blocks0And1);
                let bg_prio = object.attrs & OBJ_ATTRS_PRIO != 0;
                let tile_line = tile.get_line(tile_line);
                let mut i: usize = 0;
                while i < 8
                    invariant
                        i <= 8,
                        obj_prio < sorted.len(),
                        n == obj_prio,
                        object == m.oam[sorted[n] as int],
                        ppu_mem_wf(m),
                        m.line < 144,
                        bg == bg_line@,
                        x_flip == (object.attrs & 0x20 != 0),
                        bg_prio == (object.attrs & 0x80 != 0),
                        palette == object_palette(m.regs, object),
                        0 <= 16 + m.line - object.y < obj_height(m.regs),
                        forall|k: int|
                            0 <= k < 8 ==> pixel_of(tile_line@[0], tile_line@[1], k as usize)
                                == tile_pixel(
                                m.vram,
                                tile_base(tile_idx.0, TileDataArea::Blocks0And1),
                                tile_line_index(m, object),
                                k,
                            ),
                        tile_idx.0 == object_tile(m, object),
                        forall|x: int|
                            0 <= x < 160 ==> (#[trigger] line@[x]) == (if drawn_by(object, x, i as int) {
                                objects_pixel(m, bg, sorted, n + 1, x)
                            } else {
                                objects_pixel(m, bg, sorted, n, x)
                            }),
                    decreases 8 - i,
                {
                    let pixel = tile_line.pixel(7 - i);
                    let ghost before = line@;
                    if pixel != PaletteIndex::Id0 {
                        let x = (if x_flip {
                            OBJ_OFFSET_X - 1 - i
                        } else {
                            i
                        }) + object.x as usize;
                        if OBJ_OFFSET_X <= x && x < OBJ_OFFSET_X + DISPLAY_WIDTH {
                            let x = x - OBJ_OFFSET_X;
                            if !(bg_line[x] != PaletteIndex::Id0 && bg_prio) {
                                let color = palette.color(pixel);
                                proof {
                                    lemma_objects_pixel_rank(m, bg, sorted, n, x as int);
                                }
                                line[x] = Some(
                                    match line[x] {
                                        None => (obj_prio, color),
                                        Some((prio, c)) => if prio > obj_prio {
                                            (obj_prio, color)
                                        } else {
                                            (prio, c)
                                        },
                                    },
                                );
                            }
                        }
                    }
                    i = i + 1;
                }
            }
            obj_prio = obj_prio + 1;
        }
    }
}


impl Ppu {
    fn draw_line(&mut self)
        requires
            ppu_mem_wf(old(self)@),
            old(self)@.line < 144,
            old(self)@.window_line <= 145,
        ensures
            final(self)@ == after_draw_line(old(self)@),
    {
        if self.regs.lcdc & LCDC_ENABLE == 0 {
            return ;
        }
        let ghost m = self@;
        let mut line: [PaletteIndex; 160] = [PaletteIndex::Id0; 160];
        let bg_palette = self.draw_line_background(&mut line);
        if self.regs.lcdc & LCDC_WINDOW_ENABLE != 0 {
            self.draw_line_window(&mut line);
        }
        assert(line@ == bg_and_window_line(m));
        // Either a selected (color, and x coordinate) or nothing
        let mut line_objs: [Option<(usize, Color)>; 160] = [None; 160];
        if self.regs.lcdc & LCDC_OBJ_ENABLE != 0 {
            self.draw_line_objects(&line, &mut line_objs);
            proof {
                assert forall|k: int| 0 <= k < 160 implies (#[trigger] line_objs@[k])
                    == objects_pixel(
                    m,
                    line@,
                    sort_by_x(m.selected, m.oam),
                    m.selected.len() as int,
                    k,
                ) by {
                    lemma_objects_pixel_same(
                        self@,
                        m,
                        line@,
                        sort_by_x(m.selected, m.oam),
                        m.selected.len() as int,
                        k,
                    );
                }
            }
        }
        let ghost colors = line_colors(m);
        proof {
            lemma_sort_by_x_len(m.selected, m.oam);
        }
        let ghost m1 = self@;
        let l = self.line;
        let mut x: usize = 0;
        while x < DISPLAY_WIDTH
            invariant
                x <= 160,
                l == m.line,
                l < 144,
                ppu_mem_wf(m),
                bg_palette == background_palette(m),
                line@ == bg_and_window_line(m),
                lcdc_set(m.regs, 0x02) ==> forall|k: int|
                    0 <= k < 160 ==> (#[trigger] line_objs@[k]) == objects_pixel(
                        m,
                        line@,
                        sort_by_x(m.selected, m.oam),
                        m.selected.len() as int,
                        k,
                    ),
                !lcdc_set(m.regs, 0x02) ==> forall|k: int|
                    0 <= k < 160 ==> (#[trigger] line_objs@[k]) is None,
                colors == line_colors(m),
                sort_by_x(m.selected, m.oam).len() == m.selected.len(),
                self@ == (PpuModel { frame: self@.frame, ..m1 }),
                m1.frame == m.frame,
                self@.frame.len() == 144,
                self@.frame[l as int].len() == 160,
                forall|r: int| 0 <= r < 144 && r != l ==> self@.frame[r] == m.frame[r],
                forall|k: int| 0 <= k < x ==> self@.frame[l as int][k] == colors[k],
            decreases 160 - x,
        {
            let color = match line_objs[x] {
                Some((_, object_color)) => object_color,
                None => bg_palette.color(line[x]),
            };
            assert(color == colors[x as int]);
            let ghost before = self@.frame;
            self.framebuffer[l][x] = color;
            assert(self@.frame[l as int] == before[l as int].update(x as int, color));
            x = x + 1;
        }
        assert(self@.frame[l as int] =~= colors);
        assert(self@.frame =~= m.frame.update(m.line as int, colors));
    }

    fn step_inner(&mut self, new_mode: Mode, render: bool) -> (r: (Interrupts, PpuResult))
        requires
            ppu_mem_wf(old(self)@),
            new_mode == mode_for(old(self)@.cycles, old(self)@.line),
            old(self)@.window_line <= 145,
        ensures
            (final(self)@, r.0.0, r.1) == after_mode(old(self)@, new_mode, render),
    {
        if self.mode == new_mode {
            self.update_registers();
            return (Interrupts::new(), PpuResult::InProgress(self.mode));
        }
        self.mode = new_mode;
        match self.mode {
            Mode::OamScan => {
                if render {
                    self.oam_scan();
                }
            },
            Mode::DrawingPixels => {
                if render {
                    self.draw_line();
                }
            },
            Mode::Vblank => {
                self.current_window_line = 0;
                self.update_registers();
                return (Interrupts::from_interrupt(Interrupt::Vblank), PpuResult::FrameComplete);
            },
            _ => {},
        }
        self.update_registers();
        (Interrupts::new(), PpuResult::InProgress(self.mode))
    }

    /// Runs the PPU for the given number of cycles and then returns the PPU state
    pub fn step(&mut self, cycles: Cycles, dma_engine: &mut DmaEngine, render: bool) -> (r: (
        Interrupts,
        PpuResult,
    ))
        requires
            ppu_wf(old(self)@),
            dma_wf(old(dma_engine)@),
            cycles.0 <= 456,
        ensures
            ppu_wf(final(self)@),
            dma_wf(final(dma_engine)@),
            (final(self)@, final(dma_engine)@, r.0.0, r.1) == ppu_step(
                old(self)@,
                old(dma_engine)@,
                cycles.0,
                render,
            ),
    {
        self.update_line_and_cycles(cycles);
        let new_mode = mode_for_current_cycle_count(self.cycles, self.line);
        if self.regs.dma_config.triggered {
            dma_engine.trigger(self.regs.dma_config.address);
            self.regs.dma_config.triggered = false;
        }
        let (interrupts, result) = self.step_inner(new_mode, render);
        let lcd = self.update_lcd_irq();
        proof {
            lemma_step_keeps_wf(old(self)@, old(dma_engine)@, cycles.0, render);
        }
        (interrupts.bitor(lcd), result)
    }
}

} // verus!
