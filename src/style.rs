use vstd::prelude::*;

verus! {

/// `Color::mode` of the terminal's own default color.
pub const MODE_DEFAULT: u8 = 0;

/// `Color::mode` of a color of the 256-color palette, whose index is `r`.
pub const MODE_INDEXED: u8 = 1;

/// `Color::mode` of a true color given by `r`, `g` and `b`.
pub const MODE_RGB: u8 = 2;

/// A color tagged by `mode`. A `mode` outside the three known values is
/// unrecognised, and a renderer shows it as the terminal default.
#[derive(Debug, Clone, Copy, PartialEq, Eq, Structural)]
pub struct Color {
    /// Red channel, or the palette index in indexed mode.
    pub r: u8,
    /// Green channel; zero unless in RGB mode.
    pub g: u8,
    /// Blue channel; zero unless in RGB mode.
    pub b: u8,
    /// Which kind of color this is: see `MODE_DEFAULT`, `MODE_INDEXED`, `MODE_RGB`.
    pub mode: u8,
}

impl Color {
    /// The canonical form of each mode: the default color has all channels
    /// zero, and an indexed color uses only `r`.
    pub open spec fn wf(self) -> bool {
        &&& (self.mode == MODE_DEFAULT ==> self.r == 0 && self.g == 0 && self.b == 0)
        &&& (self.mode == MODE_INDEXED ==> self.g == 0 && self.b == 0)
    }

    /// The terminal's default color.
    pub open spec fn spec_default_color() -> Color {
        Color { r: 0, g: 0, b: 0, mode: MODE_DEFAULT }
    }

    /// Creates the terminal's default color: mode 0, all channels zero.
    pub fn default_color() -> (c: Color)
        ensures
            c == Color::spec_default_color(),
            c.mode == 0,
            c.r == 0,
            c.g == 0,
            c.b == 0,
            c.wf(),
    {
        Color { r: 0, g: 0, b: 0, mode: MODE_DEFAULT }
    }

    /// Creates the palette color `index`: mode 1, `r` the index, `g` and `b` zero.
    pub fn ansi(index: u8) -> (c: Color)
        ensures
            c.mode == 1,
            c.r == index,
            c.g == 0,
            c.b == 0,
            c.wf(),
    {
        Color { r: index, g: 0, b: 0, mode: MODE_INDEXED }
    }

    /// Creates a true color: mode 2 and the three channels as given.
    pub fn rgb(r: u8, g: u8, b: u8) -> (c: Color)
        ensures
            c.mode == 2,
            c.r == r,
            c.g == g,
            c.b == b,
            c.wf(),
    {
        Color { r, g, b, mode: MODE_RGB }
    }
}

impl Default for Color {
    /// The terminal's default color.
    fn default() -> (c: Color)
        ensures
            c == Color::spec_default_color(),
    {
        Color::default_color()
    }
}

/// How text is drawn: a foreground and a background color and three
/// independent attributes.
#[derive(Debug, Clone, Copy, PartialEq, Eq, Structural)]
pub struct Style {
    /// Foreground color.
    pub fg: Color,
    /// Background color.
    pub bg: Color,
    /// Bold text.
    pub bold: bool,
    /// Italic text.
    pub italic: bool,
    /// Underlined text.
    pub underline: bool,
}

impl Style {
    /// Both colors are in canonical form.
    pub open spec fn wf(self) -> bool {
        self.fg.wf() && self.bg.wf()
    }
}

impl Default for Style {
    /// Default colors in front and behind, no attribute set.
    fn default() -> (s: Style)
        ensures
            s == (Style {
                fg: Color::spec_default_color(),
                bg: Color::spec_default_color(),
                bold: false,
                italic: false,
                underline: false,
            }),
            s.wf(),
    {
        Style {
            fg: Color::default_color(),
            bg: Color::default_color(),
            bold: false,
            italic: false,
            underline: false,
        }
    }
}

} // verus!
