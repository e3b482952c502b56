//! Colours in eight bits per channel, and the backdrops the viewer offers.

use vstd::prelude::*;

verus! {

/// A colour with straight alpha.
#[derive(Clone, Copy, Debug, PartialEq, Eq, Structural)]
pub struct ColorU {
    pub r: u8,
    pub g: u8,
    pub b: u8,
    pub a: u8,
}

impl ColorU {
    pub open spec fn rgba(r: u8, g: u8, b: u8, a: u8) -> ColorU {
        ColorU { r, g, b, a }
    }

    pub fn new(r: u8, g: u8, b: u8, a: u8) -> (color: ColorU)
        ensures
            color == ColorU::rgba(r, g, b, a),
    {
        ColorU { r, g, b, a }
    }

    /// Fully transparent black.
    pub open spec fn transparent_black() -> ColorU {
        ColorU::rgba(0, 0, 0, 0)
    }
}

/// The fill of the ground plane.
pub open spec fn ground_solid_color() -> ColorU {
    ColorU::rgba(80, 80, 80, 255)
}

/// The grid lines of the ground plane.
pub open spec fn ground_line_color() -> ColorU {
    ColorU::rgba(127, 127, 127, 255)
}

/// How many grid lines cross the ground plane in each direction.
pub const GRIDLINE_COUNT: i32 = 10;

/// The backdrop behind the scene.
#[derive(Clone, Copy, Debug, PartialEq, Eq, Structural)]
pub enum BackgroundColor {
    Light,
    Dark,
    Transparent,
}

impl BackgroundColor {
    /// The colour that the backdrop is cleared to.
    pub open spec fn color(self) -> ColorU {
        match self {
            BackgroundColor::Light => ColorU::rgba(248, 248, 248, 255),
            BackgroundColor::Dark => ColorU::rgba(32, 32, 32, 255),
            BackgroundColor::Transparent => ColorU::rgba(0, 0, 0, 0),
        }
    }

    /// The label of the backdrop.
    pub open spec fn label(self) -> Seq<char> {
        match self {
            BackgroundColor::Light => "Light"@,
            BackgroundColor::Dark => "Dark"@,
            BackgroundColor::Transparent => "Transparent"@,
        }
    }

    pub fn as_str(&self) -> (label: &'static str)
        ensures
            label@ == self.label(),
    {
        match *self {
            BackgroundColor::Light => "Light",
            BackgroundColor::Dark => "Dark",
            BackgroundColor::Transparent => "Transparent",
        }
    }

    pub fn to_color(self) -> (color: ColorU)
        ensures
            color == self.color(),
    {
        match self {
            BackgroundColor::Light => ColorU::new(248, 248, 248, 255),
            BackgroundColor::Dark => ColorU::new(32, 32, 32, 255),
            BackgroundColor::Transparent => ColorU::new(0, 0, 0, 0),
        }
    }
}

} // verus!
