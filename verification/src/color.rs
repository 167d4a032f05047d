//! Pixel quantization: mapping an 8-bit luminance sample to the
//! panel's four ordered grey levels, or to a single black/white bit.
use vstd::prelude::*;

verus! {

/// Luminance at or below this is a mark (device black) in the
/// monochrome modes; the threshold is the midpoint of the 8-bit range.
pub const MONO_THRESHOLD: u8 = u8::MAX / 2;

/// The single-threshold quantization used by the monochrome modes.
pub open spec fn spec_mono_mark(lum: u8) -> bool {
    lum <= MONO_THRESHOLD
}

/// One of the four device grey levels, ordered darkest first.  The
/// level is a 2-bit code (Black = 00, Dark = 01, Light = 10,
/// White = 11) split across the panel's two greyscale bit planes.
#[derive(Clone, Copy, Debug, PartialEq, Eq, Structural)]
pub enum ColorGreyscale {
    Black,
    Dark,
    Light,
    White,
}

impl ColorGreyscale {
    /// The four equal-width luminance bins, boundaries from integer
    /// division of the 8-bit range into quarters.
    pub const B_FROM: u8 = 0;
    pub const B_TO: u8 = Self::B_FROM + u8::MAX / 4;

    pub const D_FROM: u8 = Self::B_TO + 1;
    pub const D_TO: u8 = Self::D_FROM + u8::MAX / 4;

    pub const L_FROM: u8 = Self::D_TO + 1;
    pub const L_TO: u8 = Self::L_FROM + u8::MAX / 4;

    pub const W_FROM: u8 = Self::L_TO + 1;
    pub const W_TO: u8 = Self::W_FROM + u8::MAX / 4;

    /// Which grey level a luminance sample quantizes to: the four
    /// bins partition 0..=255, so every sample lands in exactly one.
    pub open spec fn spec_new(lum: u8) -> ColorGreyscale {
        if lum <= Self::B_TO {
            ColorGreyscale::Black
        } else if lum <= Self::D_TO {
            ColorGreyscale::Dark
        } else if lum <= Self::L_TO {
            ColorGreyscale::Light
        } else {
            ColorGreyscale::White
        }
    }

    /// The 2-bit grey code of this level.
    pub open spec fn spec_code(self) -> u8 {
        match self {
            ColorGreyscale::Black => 0,
            ColorGreyscale::Dark => 1,
            ColorGreyscale::Light => 2,
            ColorGreyscale::White => 3,
        }
    }

    /// The high bit of the grey code, carried by the "0011" plane.
    pub open spec fn spec_bit_0011(self) -> bool {
        self.spec_code() / 2 == 1
    }

    /// The low bit of the grey code, carried by the "0101" plane.
    pub open spec fn spec_bit_0101(self) -> bool {
        self.spec_code() % 2 == 1
    }

    /// Quantize a luminance sample to its grey level.
    pub fn new(lum: u8) -> (r: Self)
        ensures
            r == Self::spec_new(lum),
    {
        if lum <= Self::B_TO {
            ColorGreyscale::Black
        } else if lum <= Self::D_TO {
            ColorGreyscale::Dark
        } else if lum <= Self::L_TO {
            ColorGreyscale::Light
        } else {
            ColorGreyscale::White
        }
    }

    /// The bit this level contributes to the "0011" plane.
    pub fn bit_0011(&self) -> (r: bool)
        ensures
            r == self.spec_bit_0011(),
    {
        match self {
            ColorGreyscale::Black | ColorGreyscale::Dark => false,
            ColorGreyscale::Light | ColorGreyscale::White => true,
        }
    }

    /// The bit this level contributes to the "0101" plane.
    pub fn bit_0101(&self) -> (r: bool)
        ensures
            r == self.spec_bit_0101(),
    {
        match self {
            ColorGreyscale::Black | ColorGreyscale::Light => false,
            ColorGreyscale::Dark | ColorGreyscale::White => true,
        }
    }
}

} // verus!
