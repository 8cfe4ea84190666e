//! Light and dark colour palettes and the theme preference that selects one.
use vstd::prelude::*;

verus! {

/// An opaque-or-not colour as red, green, blue and alpha bytes.
#[derive(Debug, Clone, Copy, PartialEq, Eq, Structural)]
pub struct Rgba {
    /// Red.
    pub r: u8,
    /// Green.
    pub g: u8,
    /// Blue.
    pub b: u8,
    /// Alpha.
    pub a: u8,
}

/// An opaque colour.
pub open spec fn opaque(r: u8, g: u8, b: u8) -> Rgba {
    Rgba { r, g, b, a: 255 }
}

impl Rgba {
    /// The opaque colour with these components.
    pub fn from_rgb(r: u8, g: u8, b: u8) -> (c: Rgba)
        ensures
            c == opaque(r, g, b),
    {
        Rgba { r, g, b, a: 255 }
    }
}

/// The colours of one theme.
#[derive(Debug, Clone, Copy, PartialEq, Eq, Structural)]
pub struct Palette {
    background: Rgba,
    surface: Rgba,
    text: Rgba,
    destructive: Rgba,
    success: Rgba,
}

/// Gray-light background, white surface, near-black text, red and green accents.
pub open spec fn light_palette() -> (Rgba, Rgba, Rgba, Rgba, Rgba) {
    (
        opaque(0xF3, 0xF4, 0xF6),
        opaque(0xFF, 0xFF, 0xFF),
        opaque(0x11, 0x18, 0x27),
        opaque(0xDC, 0x26, 0x26),
        opaque(0x16, 0xA3, 0x4A),
    )
}

/// Near-black background, dark-gray surface, light text, the same accents.
pub open spec fn dark_palette() -> (Rgba, Rgba, Rgba, Rgba, Rgba) {
    (
        opaque(0x0A, 0x0A, 0x0A),
        opaque(0x11, 0x18, 0x27),
        opaque(0xF3, 0xF4, 0xF6),
        opaque(0xDC, 0x26, 0x26),
        opaque(0x16, 0xA3, 0x4A),
    )
}

impl Palette {
    /// The colours as `(background, surface, text, destructive, success)`.
    pub closed spec fn colours(&self) -> (Rgba, Rgba, Rgba, Rgba, Rgba) {
        (self.background, self.surface, self.text, self.destructive, self.success)
    }

    /// Light theme.
    pub fn light() -> (p: Palette)
        ensures
            p.colours() == light_palette(),
    {
        Palette {
            background: Rgba::from_rgb(0xF3, 0xF4, 0xF6),
            surface: Rgba::from_rgb(0xFF, 0xFF, 0xFF),
            text: Rgba::from_rgb(0x11, 0x18, 0x27),
            destructive: Rgba::from_rgb(0xDC, 0x26, 0x26),
            success: Rgba::from_rgb(0x16, 0xA3, 0x4A),
        }
    }

    /// Dark theme.
    pub fn dark() -> (p: Palette)
        ensures
            p.colours() == dark_palette(),
    {
        Palette {
            background: Rgba::from_rgb(0x0A, 0x0A, 0x0A),
            surface: Rgba::from_rgb(0x11, 0x18, 0x27),
            text: Rgba::from_rgb(0xF3, 0xF4, 0xF6),
            destructive: Rgba::from_rgb(0xDC, 0x26, 0x26),
            success: Rgba::from_rgb(0x16, 0xA3, 0x4A),
        }
    }

    /// Window background.
    pub fn background(self) -> (c: Rgba)
        ensures
            c == self.colours().0,
    {
        self.background
    }

    /// Surfaces and cards.
    pub fn surface(self) -> (c: Rgba)
        ensures
            c == self.colours().1,
    {
        self.surface
    }

    /// Primary text.
    pub fn text(self) -> (c: Rgba)
        ensures
            c == self.colours().2,
    {
        self.text
    }

    /// Destructive accent (red).
    pub fn destructive(self) -> (c: Rgba)
        ensures
            c == self.colours().3,
    {
        self.destructive
    }

    /// Success accent (green).
    pub fn success(self) -> (c: Rgba)
        ensures
            c == self.colours().4,
    {
        self.success
    }
}

/// The theme the user chose.
#[derive(Debug, Clone, Copy, PartialEq, Eq, Structural)]
pub enum ThemePreference {
    /// Light theme.
    Light,
    /// Dark theme.
    Dark,
}

/// The other theme.
pub open spec fn toggled(p: ThemePreference) -> ThemePreference {
    match p {
        ThemePreference::Light => ThemePreference::Dark,
        ThemePreference::Dark => ThemePreference::Light,
    }
}

/// The colours of a theme.
pub open spec fn palette_of(p: ThemePreference) -> (Rgba, Rgba, Rgba, Rgba, Rgba) {
    match p {
        ThemePreference::Light => light_palette(),
        ThemePreference::Dark => dark_palette(),
    }
}

impl ThemePreference {
    /// Switches between light and dark.
    pub fn toggle(self) -> (r: ThemePreference)
        ensures
            r == toggled(self),
    {
        match self {
            ThemePreference::Light => ThemePreference::Dark,
            ThemePreference::Dark => ThemePreference::Light,
        }
    }

    /// The palette of this theme.
    pub fn palette(self) -> (p: Palette)
        ensures
            p.colours() == palette_of(self),
    {
        match self {
            ThemePreference::Light => Palette::light(),
            ThemePreference::Dark => Palette::dark(),
        }
    }
}

/// Installs the theme's visuals in the user interface.
pub struct ThemeKit;

/// Toggling twice gives back the theme, and toggling always changes it.
pub proof fn lemma_toggle_involution(p: ThemePreference)
    ensures
        toggled(toggled(p)) == p,
        toggled(p) != p,
{
}

/// The two themes have different backgrounds and the same success green.
pub proof fn lemma_themes_differ(p: ThemePreference)
    ensures
        palette_of(p).0 != palette_of(toggled(p)).0,
        palette_of(p).4 == palette_of(toggled(p)).4,
        palette_of(p).4 == opaque(0x16, 0xA3, 0x4A),
{
}

/// Text is readable in both themes: its colour differs from the background
/// and from the surface; the light theme's near-black text is the dark
/// theme's surface colour, and the dark theme's light text is the light
/// theme's background colour.
pub proof fn lemma_text_readable(p: ThemePreference)
    ensures
        palette_of(p).2 != palette_of(p).0,
        palette_of(p).2 != palette_of(p).1,
        palette_of(ThemePreference::Light).2 == opaque(0x11, 0x18, 0x27),
        palette_of(ThemePreference::Light).2 == palette_of(ThemePreference::Dark).1,
        palette_of(ThemePreference::Dark).2 == palette_of(ThemePreference::Light).0,
{
}

} // verus!
