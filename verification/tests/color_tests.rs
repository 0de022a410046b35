use ftui::cell::PackedRgba;
use ftui::color::{
    rgb_to_256, rgb_to_ansi16, rgb_to_mono, weighted_distance, weighted_luma, Ansi16Color,
    ColorDowngrader, ColorProfile, MonoColor, TerminalColor,
};

#[test]
fn truecolor_passthrough() {
    let mut downgrader = ColorDowngrader::new(ColorProfile::TrueColor);
    let color = PackedRgba::rgb(10, 20, 30);
    assert_eq!(downgrader.downgrade(color), TerminalColor::TrueColor(color));
}

#[test]
fn rgb_to_256_grayscale_edges() {
    assert_eq!(rgb_to_256(0, 0, 0), 16);
    assert_eq!(rgb_to_256(255, 255, 255), 231);
    assert_eq!(rgb_to_256(8, 8, 8), 232);
}

#[test]
fn rgb_to_256_color_cube() {
    assert_eq!(rgb_to_256(255, 0, 0), 196);
    assert_eq!(rgb_to_256(0, 255, 0), 46);
    assert_eq!(rgb_to_256(0, 0, 255), 21);
}

#[test]
fn rgb_to_ansi16_basic_colors() {
    assert_eq!(rgb_to_ansi16(0, 0, 0), Ansi16Color::Black);
    assert_eq!(rgb_to_ansi16(255, 255, 255), Ansi16Color::BrightWhite);
}

#[test]
fn rgb_to_mono_threshold() {
    assert_eq!(rgb_to_mono(0, 0, 0), MonoColor::Black);
    assert_eq!(rgb_to_mono(255, 255, 255), MonoColor::White);
}

#[test]
fn cache_is_used_for_ansi256() {
    let mut downgrader = ColorDowngrader::new(ColorProfile::Ansi256);
    let color = PackedRgba::rgb(1, 2, 3);
    let first = downgrader.downgrade(color);
    let second = downgrader.downgrade(color);
    assert_eq!(first, second);
    assert_eq!(downgrader.cached_256_len(), 1);
}

#[test]
fn cache_is_used_for_ansi16() {
    let mut downgrader = ColorDowngrader::new(ColorProfile::Ansi16);
    let color = PackedRgba::rgb(20, 40, 60);
    let _ = downgrader.downgrade(color);
    let _ = downgrader.downgrade(color);
    assert_eq!(downgrader.cached_16_len(), 1);
}

#[test]
fn cache_is_used_for_mono() {
    let mut downgrader = ColorDowngrader::new(ColorProfile::Mono);
    let color = PackedRgba::rgb(120, 120, 120);
    let _ = downgrader.downgrade(color);
    let _ = downgrader.downgrade(color);
    assert_eq!(downgrader.cached_mono_len(), 1);
}

#[test]
fn packed_rgba_channels_round_trip() {
    let c = PackedRgba::rgba(1, 2, 3, 4);
    assert_eq!(c.0, 0x0102_0304);
    assert_eq!((c.r(), c.g(), c.b(), c.a()), (1, 2, 3, 4));
    assert_eq!(PackedRgba::rgb(255, 0, 128).0, 0xFF00_80FF);
    assert_eq!(PackedRgba::white().0, 0xFFFF_FFFF);
    assert_eq!(PackedRgba::transparent().0, 0);
}

#[test]
fn ansi16_codes_and_palette() {
    for code in 0..16u8 {
        assert_eq!(Ansi16Color::from_code(code).code(), code);
    }
    assert_eq!(Ansi16Color::from_code(200), Ansi16Color::BrightWhite);
    assert_eq!(Ansi16Color::Blue.rgb(), (0, 0, 238));
    assert_eq!(Ansi16Color::BrightBlue.rgb(), (92, 92, 255));
}

#[test]
fn exact_formula_values() {
    assert_eq!(weighted_distance(10, 20, 30, 0, 25, 40), 100 * 2126 + 25 * 7152 + 100 * 722);
    assert_eq!(weighted_distance(0, 0, 0, 255, 255, 255), 650_250_000);
    assert_eq!(weighted_luma(255, 255, 255), 255);
    assert_eq!(weighted_luma(100, 150, 200), 142);
    assert_eq!(rgb_to_mono(128, 128, 128), MonoColor::White);
    assert_eq!(rgb_to_mono(127, 127, 127), MonoColor::Black);
    assert_eq!(rgb_to_256(7, 7, 7), 16);
    assert_eq!(rgb_to_256(248, 248, 248), 255);
    assert_eq!(rgb_to_256(249, 249, 249), 231);
    assert_eq!(rgb_to_256(128, 128, 128), 244);
    assert_eq!(rgb_to_256(100, 150, 200), 16 + 36 * 2 + 6 * 3 + 4);
    assert_eq!(rgb_to_ansi16(200, 10, 10), Ansi16Color::Red);
    assert_eq!(rgb_to_ansi16(120, 120, 120), Ansi16Color::BrightBlack);
}

#[test]
fn set_profile_clears_caches_only_on_change() {
    let mut d = ColorDowngrader::new(ColorProfile::Ansi256);
    assert_eq!(d.to_ansi256(PackedRgba::rgb(9, 9, 9)), 232);
    assert_eq!(d.to_ansi16(PackedRgba::rgb(0, 0, 250)), Ansi16Color::Blue);
    assert_eq!(d.to_mono(PackedRgba::rgb(250, 250, 250)), MonoColor::White);
    d.set_profile(ColorProfile::Ansi256);
    assert_eq!(d.cached_256_len(), 1);
    d.set_profile(ColorProfile::Mono);
    assert_eq!(d.profile(), ColorProfile::Mono);
    assert_eq!(d.cached_256_len(), 0);
    assert_eq!(d.cached_16_len(), 0);
    assert_eq!(d.cached_mono_len(), 0);
    assert_eq!(
        d.downgrade(PackedRgba::rgb(0, 0, 0)),
        TerminalColor::Mono(MonoColor::Black)
    );
    assert_eq!(ColorDowngrader::default().profile(), ColorProfile::TrueColor);
}
