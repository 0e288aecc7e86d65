use rusty_boy::alu::Cycles;
use rusty_boy::interrupts::Interrupt;
use rusty_boy::ppu::dma::DmaEngine;
use rusty_boy::ppu::modes::Mode;
use rusty_boy::ppu::vram::{TileIndex, TileLine, Vram};
use rusty_boy::ppu::{Color, Palette, PaletteIndex, Ppu, PpuResult};

#[test]
fn palette_colors() {
    let p = Palette(0b11_10_01_00);
    assert_eq!(p.color(PaletteIndex::Id0), Color::White);
    assert_eq!(p.color(PaletteIndex::Id1), Color::LightGrey);
    assert_eq!(p.color(PaletteIndex::Id2), Color::DarkGrey);
    assert_eq!(p.color(PaletteIndex::Id3), Color::Black);
    let p = Palette(0b00_01_10_11);
    assert_eq!(p.color(PaletteIndex::Id0), Color::Black);
}

#[test]
fn tile_line_pixels() {
    let line = TileLine([0b1010_0000, 0b1100_0000]);
    assert_eq!(line.pixel(7), PaletteIndex::Id3);
    assert_eq!(line.pixel(6), PaletteIndex::Id2);
    assert_eq!(line.pixel(5), PaletteIndex::Id1);
    assert_eq!(line.pixel(4), PaletteIndex::Id0);
    let mut iter = line.iter();
    assert_eq!(iter.next(), Some(PaletteIndex::Id3));
    assert_eq!(iter.next(), Some(PaletteIndex::Id2));
    assert_eq!(iter.next(), Some(PaletteIndex::Id1));
    for _ in 0..5 {
        assert_eq!(iter.next(), Some(PaletteIndex::Id0));
    }
    assert_eq!(iter.next(), None);
}

#[test]
fn tile_index_next() {
    assert_eq!(TileIndex::new(4).next(), TileIndex(5));
    assert_eq!(TileIndex::new(5).discard_bit_zero(), TileIndex(4));
}

#[test]
fn vram_write_read() {
    let mut vram = Vram::new();
    assert_eq!(vram.read(0x8000), 0);
    vram.write(0x8010, 0x12);
    vram.write(0x97FF, 0x34);
    vram.write(0x9800, 0x56);
    vram.write(0x9FFF, 0x78);
    assert_eq!(vram.read(0x8010), 0x12);
    assert_eq!(vram.read(0x97FF), 0x34);
    assert_eq!(vram.read(0x9800), 0x56);
    assert_eq!(vram.read(0x9FFF), 0x78);
    assert_eq!(vram.read(0x8011), 0);
}

#[test]
fn ppu_registers_and_memories() {
    let mut ppu = Ppu::new();
    ppu.write(0xFF42, 0x10);
    assert_eq!(ppu.read(0xFF42), 0x10);
    // LY is read-only
    ppu.write(0xFF44, 0x20);
    assert_eq!(ppu.read(0xFF44), 0);
    // The low bits of STAT are read-only
    ppu.write(0xFF41, 0xFF);
    assert_eq!(ppu.read(0xFF41), 0xF8);
    ppu.write(0xFE00, 0x30);
    ppu.write(0xFE9F, 0x31);
    assert_eq!(ppu.read(0xFE00), 0x30);
    assert_eq!(ppu.read(0xFE9F), 0x31);
    ppu.write(0x8123, 0x32);
    assert_eq!(ppu.read(0x8123), 0x32);
    ppu.write(0xFF47, 0xE4);
    assert_eq!(ppu.read(0xFF47), 0xE4);
}

#[test]
fn ppu_modes_along_a_line_and_frame() {
    let mut ppu = Ppu::new();
    let mut dma = DmaEngine::new();
    assert_eq!(ppu.mode(), Mode::OamScan);
    let (_, r) = ppu.step(Cycles::new(80), &mut dma, true);
    assert_eq!(r, PpuResult::InProgress(Mode::DrawingPixels));
    let (_, r) = ppu.step(Cycles::new(172), &mut dma, true);
    assert_eq!(r, PpuResult::InProgress(Mode::Hblank));
    let (_, r) = ppu.step(Cycles::new(204), &mut dma, true);
    assert_eq!(r, PpuResult::InProgress(Mode::OamScan));
    assert_eq!(ppu.read(0xFF44), 1);

    // Run to the vertical blank
    let mut frames = 0;
    let mut vblank_irq = false;
    for _ in 0..(143 * 456 / 4) {
        let (irqs, r) = ppu.step(Cycles::new(4), &mut dma, true);
        if r == PpuResult::FrameComplete {
            frames += 1;
            vblank_irq = irqs.0 & 0x01 != 0;
        }
    }
    assert_eq!(frames, 1);
    assert!(vblank_irq);
    assert_eq!(ppu.mode(), Mode::Vblank);
    let _ = Interrupt::Vblank;
}

#[test]
fn background_is_drawn_from_tiles() {
    let mut ppu = Ppu::new();
    let mut dma = DmaEngine::new();
    // Tile 1: every pixel has palette index 3
    for i in 0..16u16 {
        ppu.write(0x8010 + i, 0xFF);
    }
    // The first tile of the background map is tile 1
    ppu.write(0x9800, 1);
    // LCD on, tiles from 0x8000, background on; palette: index 3 is black, 0 is white
    ppu.write(0xFF40, 0x91);
    ppu.write(0xFF47, 0b11_10_01_00);
    let _ = ppu.step(Cycles::new(80), &mut dma, true);
    let frame = ppu.frame();
    for x in 0..8 {
        assert_eq!(frame[0][x], Color::Black);
    }
    assert_eq!(frame[0][8], Color::White);
    assert_eq!(frame[1][0], Color::Black);
}

#[test]
fn three_frames_in_three_frame_times() {
    let mut ppu = Ppu::new();
    let mut dma = DmaEngine::new();
    let mut frames = 0;
    for _ in 0..(3 * 70224 / 4) {
        let (irqs, r) = ppu.step(Cycles::new(4), &mut dma, false);
        let complete = r == PpuResult::FrameComplete;
        assert_eq!(complete, irqs.0 & 0x01 != 0);
        assert_eq!(irqs.0 & 0xFC, 0);
        if complete {
            frames += 1;
        }
    }
    assert_eq!(frames, 3);
    assert_eq!(ppu.read(0xFF44), 0);
    assert_eq!(ppu.mode(), Mode::OamScan);
}
