//! Colors and the color settings the compositor reads.

use vstd::prelude::*;

verus! {

/// A 24-bit RGB color, packed as `0xRRGGBB`.
#[derive(Clone, Copy, Debug, PartialEq, Eq, Structural)]
pub struct Color {
    pub rgb: u32,
}

impl Color {
    /// A color uses only the low 24 bits.
    pub open spec fn wf(self) -> bool {
        self.rgb <= 0xFFFFFF
    }

    /// A color from a packed 24-bit value.
    pub fn new(rgb: u32) -> (c: Color)
        requires
            rgb <= 0xFFFFFF,
        ensures
            c.wf(),
            c.rgb == rgb,
    {
        Color { rgb }
    }

    /// A color from its red, green and blue channels.
    pub fn from_channels(r: u8, g: u8, b: u8) -> (c: Color)
        ensures
            c.wf(),
            c.rgb == (r as int) * 0x10000 + (g as int) * 0x100 + (b as int),
    {
        Color { rgb: (r as u32) * 0x10000 + (g as u32) * 0x100 + (b as u32) }
    }
}

/// The color snapshot a render reads: the foreground the digits are
/// drawn in, and an optional background fill (`None` leaves the
/// underlying surface on its neutral fill).
#[derive(Clone, Copy, Debug, PartialEq, Eq)]
pub struct ColorSettings {
    pub foreground: Color,
    pub background: Option<Color>,
}

impl ColorSettings {
    /// Both colors, where present, are 24-bit values.
    pub open spec fn wf(self) -> bool {
        &&& self.foreground.wf()
        &&& (self.background matches Some(b) ==> b.wf())
    }
}

/// The built-in settings used when no stored settings are available: a
/// light-blue foreground and no background fill.
pub open spec fn spec_default_colors() -> ColorSettings {
    ColorSettings { foreground: Color { rgb: 0xADD8E6 }, background: Option::None }
}

impl Default for ColorSettings {
    /// The built-in default settings.
    fn default() -> (c: ColorSettings)
        ensures
            c == spec_default_colors(),
            c.wf(),
    {
        ColorSettings { foreground: Color { rgb: 0xADD8E6 }, background: None }
    }
}

} // verus!
