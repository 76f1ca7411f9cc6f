use render_core::atlas::premul_channel;
use render_core::color::{Hsla, Rgba};

#[test]
fn white_and_black_convert_exactly() {
    assert_eq!(
        Hsla::white().to_rgba(),
        Rgba { r: 1000, g: 1000, b: 1000, a: 1000 }
    );
    assert_eq!(Hsla::black().to_rgba(), Rgba { r: 0, g: 0, b: 0, a: 1000 });
}

#[test]
fn zero_saturation_is_exact_grey() {
    for l in [0u16, 125, 250, 499, 500, 501, 777, 1000] {
        let c = Hsla::new(300, 0, l, 800).to_rgba();
        assert_eq!(c, Rgba { r: l, g: l, b: l, a: 800 });
    }
}

#[test]
fn primary_hues_convert_exactly() {
    // Fully saturated, half lightness: chroma is 1000, the offset is 0.
    let red = Hsla::new(0, 1000, 500, 1000).to_rgba();
    assert_eq!(red, Rgba { r: 1000, g: 0, b: 0, a: 1000 });

    // A sixth of a turn: yellow.
    let yellow = Hsla::new(167, 1000, 500, 1000).to_rgba();
    // 6 * 167 = 1002: sextant 1, secondary = 1000 * (1000 - 2) / 1000.
    assert_eq!(yellow, Rgba { r: 998, g: 1000, b: 0, a: 1000 });

    // Two sixths of a turn: green.
    let green = Hsla::new(333, 1000, 500, 1000).to_rgba();
    // 6 * 333 = 1998: sextant 1, secondary = 1000 * (1000 - 998) / 1000.
    assert_eq!(green, Rgba { r: 2, g: 1000, b: 0, a: 1000 });

    // Four sixths of a turn: blue.
    let blue = Hsla::new(667, 1000, 500, 1000).to_rgba();
    // 6 * 667 = 4002: sextant 4, secondary = 1000 * 2 / 1000.
    assert_eq!(blue, Rgba { r: 2, g: 0, b: 1000, a: 1000 });
}

#[test]
fn alpha_passes_through_unchanged() {
    for a in [0u16, 1, 500, 999, 1000] {
        assert_eq!(Hsla::new(123, 456, 789, a).to_rgba().a, a);
    }
}

#[test]
fn channels_stay_in_range() {
    for h in [0u16, 100, 250, 333, 500, 667, 900, 1000] {
        for s in [0u16, 500, 1000] {
            for l in [0u16, 250, 500, 750, 1000] {
                let c = Hsla::new(h, s, l, 1000).to_rgba();
                assert!(c.r <= 1000 && c.g <= 1000 && c.b <= 1000);
            }
        }
    }
}

#[test]
fn premultiplication_is_exact_integer_scaling() {
    assert_eq!(premul_channel(200, 128), 100);
    assert_eq!(premul_channel(255, 255), 255);
    assert_eq!(premul_channel(255, 0), 0);
    assert_eq!(premul_channel(0, 255), 0);
    assert_eq!(premul_channel(100, 51), 20);
}
