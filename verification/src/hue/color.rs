//! Colors, as clients set them and as the bridge has them.

use crate::device::{ColorType, Rgb, Rgba};
use vstd::prelude::*;

verus! {

/// A chromaticity. Each form denotes a point of the CIE xy color space.
#[derive(Clone, Copy, Debug, PartialEq, Eq, Structural)]
pub enum Chroma {
    /// The chromaticity of a color in linear sRGB.
    Rgb(Rgb),
    /// The chromaticity of a color temperature.
    Kelvin(u16),
    /// The point itself: the bit patterns of two single-precision numbers.
    Point { x: u32, y: u32 },
}

/// What the bridge needs to know of a light's setting: whether it is on, its
/// brightness as a part of 255, and its chromaticity.
#[derive(Clone, Copy, Debug, PartialEq, Eq, Structural)]
pub struct BridgeState {
    pub on: bool,
    pub brightness: u8,
    pub xy: Chroma,
}

/// The brightness that a color conveys.
pub open spec fn alpha(color: ColorType) -> u8 {
    match color {
        ColorType::Rgba { color } => color.alpha,
        ColorType::Ccta { a, .. } => a,
    }
}

/// The chromaticity of a color.
pub open spec fn chroma(color: ColorType) -> Chroma {
    match color {
        ColorType::Rgba { color } => Chroma::Rgb(hue_of(color)),
        ColorType::Ccta { kelvin, .. } => Chroma::Kelvin(kelvin),
    }
}

/// A color without its brightness.
pub open spec fn hue_of(color: Rgba) -> Rgb {
    Rgb { red: color.red, green: color.green, blue: color.blue }
}

/// A color with a brightness.
pub open spec fn lit(hue: Rgb, alpha: u8) -> ColorType {
    ColorType::Rgba { color: Rgba { red: hue.red, green: hue.green, blue: hue.blue, alpha } }
}

/// The hue that a color has as a `ColorType::Rgba`. Every color temperature is a
/// shade of white.
pub open spec fn rgb_of(color: ColorType) -> Rgb {
    match color {
        ColorType::Rgba { color } => hue_of(color),
        ColorType::Ccta { .. } => Rgb { red: 255, green: 255, blue: 255 },
    }
}

/// What the bridge is told of a color.
pub open spec fn bridge_state(color: ColorType) -> BridgeState {
    BridgeState { on: alpha(color) > 0, brightness: alpha(color), xy: chroma(color) }
}

/// The brightness of a light of which the bridge has told `on` and `brightness`
/// and which had `prev` before.
pub open spec fn merged_alpha(prev: u8, on: Option<bool>, brightness: Option<u8>) -> u8 {
    match (on, brightness) {
        (Some(false), _) => 0,
        (Some(true), Some(brightness)) => brightness,
        (Some(true), None) => 255,
        (None, Some(brightness)) => if prev > 0 {
            brightness
        } else {
            0
        },
        (None, None) => prev,
    }
}

/// The color of a light of which the bridge has told a part.
pub open spec fn merged(
    prev: ColorType,
    on: Option<bool>,
    brightness: Option<u8>,
    xy: Option<Rgb>,
) -> ColorType {
    let hue = match xy {
        Some(rgb) => rgb,
        None => rgb_of(prev),
    };
    lit(hue, merged_alpha(alpha(prev), on, brightness))
}

/// Breaks a color down into what the bridge needs. The brightness is conveyed by
/// the color's alpha: 0 is off and 255 is full brightness.
pub fn color_to_bridge(color: &ColorType) -> (r: BridgeState)
    ensures
        r == bridge_state(*color),
{
    let (alpha, xy): (u8, Chroma) = match color {
        ColorType::Rgba { color } => (
            color.alpha,
            Chroma::Rgb(Rgb { red: color.red, green: color.green, blue: color.blue }),
        ),
        ColorType::Ccta { kelvin, a } => (*a, Chroma::Kelvin(*kelvin)),
    };
    BridgeState { on: alpha > 0, brightness: alpha, xy }
}

/// Merges the (possibly partial) state that the bridge tells into a color, with
/// `prev` for what it does not tell. Since the bridge only knows coordinates,
/// the result is always a `ColorType::Rgba`.
pub fn merge_bridge_update(
    prev: &ColorType,
    on: Option<bool>,
    brightness: Option<u8>,
    xy: Option<Rgb>,
) -> (r: ColorType)
    ensures
        r == merged(*prev, on, brightness, xy),
{
    let prev_rgba: Rgba = match prev {
        ColorType::Rgba { color } => *color,
        ColorType::Ccta { a, .. } => Rgba { red: 255, green: 255, blue: 255, alpha: *a },
    };
    let rgb: Rgb = match xy {
        Some(rgb) => rgb,
        None => Rgb { red: prev_rgba.red, green: prev_rgba.green, blue: prev_rgba.blue },
    };
    let is_on = match on {
        Some(on) => on,
        None => prev_rgba.alpha > 0,
    };
    let alpha: u8 = if !is_on {
        0
    } else if let Some(brightness) = brightness {
        brightness
    } else if on.is_some() {
        // Just turned on with no explicit brightness: default to full.
        255
    } else {
        prev_rgba.alpha
    };
    ColorType::Rgba { color: Rgba { red: rgb.red, green: rgb.green, blue: rgb.blue, alpha } }
}

/// The chromaticity of a color does not depend on its brightness.
pub proof fn chroma_is_independent_of_brightness(color: Rgba, other: Rgba)
    requires
        hue_of(color) == hue_of(other),
    ensures
        bridge_state(ColorType::Rgba { color }).xy == bridge_state(
            ColorType::Rgba { color: other },
        ).xy,
{
}

/// A light is on exactly if its color has some brightness.
pub proof fn on_means_lit(color: ColorType)
    ensures
        bridge_state(color).on <==> bridge_state(color).brightness > 0,
{
}

/// A light that the bridge tells nothing of keeps its color, and so does one
/// that has exactly what was sent. Color temperatures are left out: the bridge
/// does not know of them.
pub proof fn echoed_color_is_kept(color: Rgba)
    ensures
        merged(ColorType::Rgba { color }, None, None, None) == (ColorType::Rgba { color }),
        ({
            let sent = bridge_state(ColorType::Rgba { color });
            merged(ColorType::Rgba { color }, Some(sent.on), Some(sent.brightness), None) == (
            ColorType::Rgba { color })
        }),
{
}

/// Merging the same report twice is merging it once.
pub proof fn merging_is_idempotent(
    prev: ColorType,
    on: Option<bool>,
    brightness: Option<u8>,
    xy: Option<Rgb>,
)
    ensures
        merged(merged(prev, on, brightness, xy), on, brightness, xy) == merged(
            prev,
            on,
            brightness,
            xy,
        ),
{
}

/// The chromaticity of a color is that of its red, green and blue, and so different
/// hues are told apart.
pub proof fn colors_keep_their_hue(a: Rgba, b: Rgba)
    ensures
        bridge_state(ColorType::Rgba { color: a }).xy matches Chroma::Rgb(rgb) && rgb.red == a.red
            && rgb.green == a.green && rgb.blue == a.blue,
        bridge_state(ColorType::Rgba { color: a }).xy == bridge_state(ColorType::Rgba { color: b }).xy
            <==> a.red == b.red && a.green == b.green && a.blue == b.blue,
{
}

/// The chromaticity of a color temperature is that of its own kelvin, whatever its
/// brightness, and so different temperatures are told apart.
pub proof fn color_temperatures_keep_their_kelvin(kelvin: u16, a: u8, other: u16, b: u8)
    ensures
        bridge_state(ColorType::Ccta { kelvin, a }).xy == Chroma::Kelvin(kelvin),
        bridge_state(ColorType::Ccta { kelvin, a }).xy == bridge_state(
            ColorType::Ccta { kelvin: other, a: b },
        ).xy <==> kelvin == other,
{
}

/// The brightness of a light is the last component of its color, and the light is
/// off exactly if that is zero.
pub proof fn brightness_is_the_last_component(color: Rgba, kelvin: u16, a: u8)
    ensures
        bridge_state(ColorType::Rgba { color }).brightness == color.alpha,
        bridge_state(ColorType::Rgba { color }).on <==> color.alpha != 0,
        bridge_state(ColorType::Ccta { kelvin, a }).brightness == a,
        bridge_state(ColorType::Ccta { kelvin, a }).on <==> a != 0,
{
}

/// Coordinates that are told decide the hue, whatever else is told and whatever the
/// color was before.
pub proof fn told_coordinates_decide_the_hue(
    prev: ColorType,
    on: Option<bool>,
    brightness: Option<u8>,
    told: Rgb,
)
    ensures
        merged(prev, on, brightness, Some(told)) matches ColorType::Rgba { color } && color.red
            == told.red && color.green == told.green && color.blue == told.blue,
{
}

/// Without coordinates a color keeps its hue, whatever is told of the light. A color
/// temperature becomes white.
pub proof fn hue_stays_without_coordinates(
    prev: Rgba,
    kelvin: u16,
    a: u8,
    on: Option<bool>,
    brightness: Option<u8>,
)
    ensures
        merged(ColorType::Rgba { color: prev }, on, brightness, None) matches ColorType::Rgba {
            color,
        } && color.red == prev.red && color.green == prev.green && color.blue == prev.blue,
        merged(ColorType::Ccta { kelvin, a }, on, brightness, None) matches ColorType::Rgba {
            color,
        } && color.red == 255 && color.green == 255 && color.blue == 255,
{
}

/// Whether a color has this brightness.
pub open spec fn has_brightness(color: ColorType, expected: u8) -> bool {
    match color {
        ColorType::Rgba { color } => color.alpha == expected,
        ColorType::Ccta { a, .. } => a == expected,
    }
}

/// The brightness of a light does not depend on its hue: a light that is off has
/// none, whatever brightness is told; one that is on has what is told, or else the
/// full brightness if it was just turned on, or else what it had. What is not told
/// is as it was before.
pub proof fn told_brightness_counts_while_on(
    prev: ColorType,
    before: u8,
    told: u8,
    brightness: Option<u8>,
    xy: Option<Rgb>,
)
    requires
        has_brightness(prev, before),
    ensures
        has_brightness(merged(prev, Some(false), brightness, xy), 0),
        has_brightness(merged(prev, Some(true), Some(told), xy), told),
        has_brightness(merged(prev, Some(true), None, xy), 255),
        before > 0 ==> has_brightness(merged(prev, None, Some(told), xy), told),
        before == 0 ==> has_brightness(merged(prev, None, Some(told), xy), 0),
        has_brightness(merged(prev, None, None, xy), before),
{
}

} // verus!
