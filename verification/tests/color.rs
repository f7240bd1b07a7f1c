use drmem::device::{ColorType, Rgb, Rgba};
use drmem::hue::color::{color_to_bridge, merge_bridge_update, Chroma};
use palette::{IntoColor, LinSrgb, Yxy};

fn rgba(red: u8, green: u8, blue: u8, alpha: u8) -> ColorType {
    ColorType::Rgba {
        color: Rgba { red, green, blue, alpha },
    }
}

/// The percentage that a part of 255 stands for.
fn percent(alpha: u8) -> f32 {
    alpha as f32 / 255.0 * 100.0
}

/// The part of 255 that a percentage stands for.
fn part(percent: f32) -> u8 {
    (percent.clamp(0.0, 100.0) / 100.0 * 255.0).round() as u8
}

fn rgba_to_cie_xy(red: u8, green: u8, blue: u8) -> (f32, f32) {
    let rgb = LinSrgb::new(red as f32 / 255.0, green as f32 / 255.0, blue as f32 / 255.0);
    let yxy: Yxy = rgb.into_color();
    (yxy.x, yxy.y)
}

fn cie_xy_to_rgb(x: f32, y: f32) -> Rgb {
    let rgb: LinSrgb = Yxy::new(x, y, 1.0).into_color();
    Rgb {
        red: (rgb.red.clamp(0.0, 1.0) * 255.0) as u8,
        green: (rgb.green.clamp(0.0, 1.0) * 255.0) as u8,
        blue: (rgb.blue.clamp(0.0, 1.0) * 255.0) as u8,
    }
}

#[test]
fn test_color_to_bridge_alpha_is_brightness() {
    // alpha == 0 means off, and brightness reads as 0%.
    let off = color_to_bridge(&rgba(255, 128, 64, 0));
    assert!(!off.on);
    assert_eq!(percent(off.brightness), 0.0);

    // alpha == 255 means fully on, brightness reads as 100%.
    let full = color_to_bridge(&rgba(255, 128, 64, 255));
    assert!(full.on);
    assert_eq!(percent(full.brightness), 100.0);

    // A mid-range alpha is on, with a proportional brightness.
    let half = color_to_bridge(&rgba(255, 128, 64, 128));
    assert!(half.on);
    assert!((percent(half.brightness) - 50.196).abs() < 0.01);

    // XY is derived only from RGB, independent of alpha.
    assert_eq!(off.xy, full.xy);
    assert_eq!(off.xy, half.xy);
}

#[test]
fn test_color_to_bridge_ccta() {
    let bright = color_to_bridge(&ColorType::Ccta { kelvin: 2700, a: 255 });
    assert!(bright.on);
    assert_eq!(percent(bright.brightness), 100.0);

    let off = color_to_bridge(&ColorType::Ccta { kelvin: 2700, a: 0 });
    assert!(!off.on);

    // xy should match a direct kelvin conversion.
    assert_eq!(bright.xy, Chroma::Kelvin(2700));
}

#[test]
fn test_merge_bridge_update_on_off_only() {
    let prev = rgba(200, 100, 50, 255);

    // Turning off keeps the RGB hue but zeroes the alpha.
    let merged = merge_bridge_update(&prev, Some(false), None, None);
    assert_eq!(merged, rgba(200, 100, 50, 0));
}

#[test]
fn test_merge_bridge_update_dimming_only() {
    let prev = rgba(200, 100, 50, 255);

    // A brightness-only update preserves the RGB hue.
    let merged = merge_bridge_update(&prev, None, Some(part(50.0)), None);
    assert_eq!(merged, rgba(200, 100, 50, 128));
}

#[test]
fn test_merge_bridge_update_xy_only() {
    let prev = rgba(200, 100, 50, 128);
    let (x, y) = rgba_to_cie_xy(10, 20, 30);
    let rgb = cie_xy_to_rgb(x, y);

    // An XY-only update changes the RGB hue but keeps the alpha.
    let merged = merge_bridge_update(&prev, None, None, Some(rgb));
    assert_eq!(merged, rgba(rgb.red, rgb.green, rgb.blue, 128));
}

#[test]
fn test_merge_bridge_update_turned_on_defaults_to_full_brightness() {
    let prev = rgba(200, 100, 50, 0);

    // Turning on with no explicit brightness defaults to 100%.
    let merged = merge_bridge_update(&prev, Some(true), None, None);
    assert_eq!(merged, rgba(200, 100, 50, 255));
}

#[test]
fn brightness_alone_does_not_turn_a_light_on() {
    let prev = rgba(200, 100, 50, 0);
    assert_eq!(merge_bridge_update(&prev, None, Some(77), None), prev);
    assert_eq!(
        merge_bridge_update(&prev, Some(true), Some(77), None),
        rgba(200, 100, 50, 77)
    );
    assert_eq!(
        merge_bridge_update(&prev, Some(false), Some(77), None),
        rgba(200, 100, 50, 0)
    );
}

#[test]
fn color_temperature_becomes_white_of_the_same_brightness() {
    let prev = ColorType::Ccta { kelvin: 2700, a: 90 };
    assert_eq!(merge_bridge_update(&prev, None, None, None), rgba(255, 255, 255, 90));
    let hue = Rgb { red: 1, green: 2, blue: 3 };
    assert_eq!(merge_bridge_update(&prev, None, None, Some(hue)), rgba(1, 2, 3, 90));
    assert_eq!(
        merge_bridge_update(&prev, Some(false), None, None),
        rgba(255, 255, 255, 0)
    );
}

#[test]
fn echo_is_kept_and_merging_is_idempotent() {
    for alpha in [0u8, 1, 128, 255] {
        let color = rgba(9, 8, 7, alpha);
        let sent = color_to_bridge(&color);
        assert_eq!(sent.xy, Chroma::Rgb(Rgb { red: 9, green: 8, blue: 7 }));
        assert_eq!(sent.brightness, alpha);
        assert_eq!(
            merge_bridge_update(&color, Some(sent.on), Some(sent.brightness), None),
            color
        );
        for on in [None, Some(false), Some(true)] {
            for brightness in [None, Some(0u8), Some(40)] {
                let once = merge_bridge_update(&color, on, brightness, None);
                assert_eq!(merge_bridge_update(&once, on, brightness, None), once);
            }
        }
    }
}
