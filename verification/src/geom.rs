//! Plain geometry and colour types shared by the scene model and the
//! compositor: grid positions in whole tile units, pixel rectangles, screen
//! placements, image dimensions, and 8-bit RGBA colours.

use vstd::prelude::*;

verus! {

/// A position on the tile grid, in whole tile units.
#[derive(Clone, Copy, PartialEq, Eq, Structural, Debug)]
pub struct GridPos {
    pub x: u16,
    pub y: u16,
}

/// A pixel rectangle within an image: top-left corner, width and height.
#[derive(Clone, Copy, PartialEq, Eq, Structural, Debug)]
pub struct Rect {
    pub x: u32,
    pub y: u32,
    pub w: u32,
    pub h: u32,
}

/// A placement on the screen, in pixels. The corner is signed: centring a
/// wide image near an edge may push it off the left or the top.
#[derive(Clone, Copy, PartialEq, Eq, Structural, Debug)]
pub struct ScreenRect {
    pub x: i64,
    pub y: i64,
    pub w: u32,
    pub h: u32,
}

/// The dimensions of an image the host holds: the library never sees
/// pixels, only how large a rendered image came out.
#[derive(Clone, Copy, PartialEq, Eq, Structural, Debug)]
pub struct ImageDims {
    pub w: u32,
    pub h: u32,
}

/// An RGBA colour with 8-bit channels.
#[derive(Clone, Copy, PartialEq, Eq, Structural, Debug)]
pub struct Color {
    pub r: u8,
    pub g: u8,
    pub b: u8,
    pub a: u8,
}

impl Color {
    /// Opaque black.
    pub open spec fn black() -> Color {
        Color { r: 0, g: 0, b: 0, a: 255 }
    }

    /// Opaque white.
    pub open spec fn white() -> Color {
        Color { r: 255, g: 255, b: 255, a: 255 }
    }

    /// Opaque red.
    pub open spec fn red() -> Color {
        Color { r: 255, g: 0, b: 0, a: 255 }
    }

    /// Opaque purple.
    pub open spec fn purple() -> Color {
        Color { r: 255, g: 0, b: 255, a: 255 }
    }

    /// Opaque blue.
    pub open spec fn blue() -> Color {
        Color { r: 0, g: 0, b: 255, a: 255 }
    }

    /// Half-translucent red, the health bar's background.
    pub open spec fn red_translucent() -> Color {
        Color { r: 255, g: 0, b: 0, a: 128 }
    }
}

} // verus!
