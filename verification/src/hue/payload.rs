//! What is said to the bridge, and what the bridge says.

use crate::device::{Flt, Rgb};
use crate::hue::color::Chroma;
use vstd::prelude::*;

verus! {

/// Whether a light is on.
#[derive(Clone, Copy, Debug, PartialEq, Eq, Structural)]
pub struct On {
    pub on: bool,
}

/// The brightness that a light is to have.
#[derive(Clone, Copy, Debug, PartialEq, Eq, Structural)]
pub enum Brightness {
    /// A percentage.
    Percent(Flt),
    /// A part of 255.
    Alpha(u8),
}

/// A command for a light. What is left out stays as it is.
#[derive(Clone, Copy, Debug, PartialEq, Eq, Structural)]
pub struct LightCommand {
    pub on: Option<On>,
    pub dimming: Option<Brightness>,
    pub color: Option<Chroma>,
}

/// The brightness that a light has, in both of the forms in use.
#[derive(Clone, Copy, Debug, PartialEq, Eq, Structural)]
pub struct Dimming {
    /// The percentage, rounded to a whole number.
    pub percent: Flt,
    /// The part of 255, rounded to a whole number.
    pub alpha: u8,
}

/// The chromaticity that a light has.
#[derive(Clone, Copy, Debug, PartialEq, Eq, Structural)]
pub struct XyReading {
    /// The coordinates, as `Chroma::Point` has them.
    pub x: u32,
    pub y: u32,
    /// The color at these coordinates.
    pub rgb: Rgb,
    /// Whether the coordinates are so close to the last known ones, if there are
    /// any, that they may differ from them by rounding alone.
    pub near_last: bool,
}

/// The part of the state of a light that the bridge tells.
#[derive(Clone, Copy, Debug, PartialEq, Eq, Structural)]
pub struct ResourceData {
    pub on: Option<On>,
    pub dimming: Option<Dimming>,
    pub xy: Option<XyReading>,
}

} // verus!
