use nur::theme::{Palette, Rgba, ThemePreference};

#[test]
fn toggles_between_light_and_dark() {
    assert_eq!(ThemePreference::Light.toggle(), ThemePreference::Dark);
    assert_eq!(ThemePreference::Dark.toggle(), ThemePreference::Light);
}

#[test]
fn themes_have_different_backgrounds() {
    assert_ne!(Palette::light().background(), Palette::dark().background());
}

#[test]
fn success_is_green_in_both_themes() {
    assert_eq!(Palette::light().success(), Palette::dark().success());
}

#[test]
fn preference_resolves_palette() {
    assert_eq!(ThemePreference::Dark.palette(), Palette::dark());
}

#[test]
fn palette_colours() {
    assert_eq!(Palette::light().surface(), Rgba { r: 255, g: 255, b: 255, a: 255 });
    assert_eq!(Palette::dark().text(), Rgba::from_rgb(0xF3, 0xF4, 0xF6));
    assert_eq!(Palette::dark().destructive(), Rgba::from_rgb(0xDC, 0x26, 0x26));
    assert_eq!(ThemePreference::Light.toggle().toggle(), ThemePreference::Light);
}
