use vstd::prelude::*;

pub mod console;
pub mod mouse;
pub mod screen;

verus! {

/// A colour as its red, green and blue intensities.
#[derive(Clone, Copy, Debug, PartialEq, Eq, Structural)]
pub struct Color {
    pub r: u8,
    pub g: u8,
    pub b: u8,
}

impl Color {
    pub open spec fn white_spec() -> Color {
        Color { r: 0xff, g: 0xff, b: 0xff }
    }

    pub open spec fn black_spec() -> Color {
        Color { r: 0x0, g: 0x0, b: 0x0 }
    }

    #[verifier::when_used_as_spec(white_spec)]
    pub fn white() -> (c: Color)
        ensures
            c == Color::white_spec(),
    {
        Color { r: 0xff, g: 0xff, b: 0xff }
    }

    #[verifier::when_used_as_spec(black_spec)]
    pub fn black() -> (c: Color)
        ensures
            c == Color::black_spec(),
    {
        Color { r: 0x0, g: 0x0, b: 0x0 }
    }

    pub fn red() -> (c: Color)
        ensures
            c == (Color { r: 0xff, g: 0x0, b: 0x0 }),
    {
        Color { r: 0xff, g: 0x0, b: 0x0 }
    }

    pub fn new(r: u8, g: u8, b: u8) -> (c: Color)
        ensures
            c == (Color { r, g, b }),
    {
        Color { r, g, b }
    }
}

/// A position or an extent on the screen: `x` across, `y` down.
#[derive(Clone, Copy, Debug, PartialEq, Eq)]
pub struct Point<T> {
    pub x: T,
    pub y: T,
}

impl<T> Point<T> {
    pub fn new(x: T, y: T) -> (p: Point<T>)
        ensures
            p.x == x,
            p.y == y,
    {
        Point { x, y }
    }
}

/// Foreground and background colour of text.
#[derive(Clone, Copy, Debug, PartialEq, Eq, Structural)]
pub struct Attribute {
    pub fg_color: Color,
    pub bg_color: Color,
}

impl Default for Attribute {
    /// White text on black.
    fn default() -> (a: Attribute)
        ensures
            a == (Attribute { fg_color: Color::white(), bg_color: Color::black() }),
    {
        Attribute { fg_color: Color::white(), bg_color: Color::black() }
    }
}

/// The bitmap font that text is drawn with: each glyph is a cell of
/// `CHAR_WIDTH` by `CHAR_HEIGHT` pixels.
#[derive(Clone, Copy, Debug, PartialEq, Eq, Structural)]
pub struct Font;

impl Font {
    pub const CHAR_WIDTH: usize = 8;

    pub const CHAR_HEIGHT: usize = 16;
}

} // verus!
