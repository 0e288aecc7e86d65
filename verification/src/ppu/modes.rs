//! The modes of the PPU along each line.
use vstd::prelude::*;

verus! {

/// The mode of the PPU
#[derive(Debug, Clone, Copy, PartialEq, Eq, Structural)]
pub enum Mode {
    /// Mode 0
    Hblank,
    /// Mode 1
    Vblank,
    /// Mode 2
    OamScan,
    /// Mode 3
    DrawingPixels,
}

/// The number of a mode, as the STAT register reports it.
pub open spec fn mode_number(m: Mode) -> u8 {
    match m {
        Mode::Hblank => 0,
        Mode::Vblank => 1,
        Mode::OamScan => 2,
        Mode::DrawingPixels => 3,
    }
}

impl Mode {
    /// The number of the mode, as the STAT register reports it.
    pub fn number(self) -> (r: u8)
        ensures
            r == mode_number(self),
    {
        match self {
            Mode::Hblank => 0,
            Mode::Vblank => 1,
            Mode::OamScan => 2,
            Mode::DrawingPixels => 3,
        }
    }
}

} // verus!
