use vstd::prelude::*;

verus! {

/// An axis-aligned rectangle of terminal cells. A zero width or height is a
/// valid, empty region; nothing here keeps a rectangle within the screen.
#[derive(Debug, Clone, Copy, PartialEq, Eq, Structural)]
pub struct Rect {
    /// Left column.
    pub x: u16,
    /// Top row.
    pub y: u16,
    /// Width in cells.
    pub width: u16,
    /// Height in cells.
    pub height: u16,
}

impl Rect {
    /// Creates a rectangle holding the four values as given, with no
    /// clamping or validation.
    pub fn new(x: u16, y: u16, width: u16, height: u16) -> (r: Rect)
        ensures
            r.x == x,
            r.y == y,
            r.width == width,
            r.height == height,
    {
        Rect { x, y, width, height }
    }
}

impl Default for Rect {
    /// The all-zero rectangle.
    fn default() -> (r: Rect)
        ensures
            r == (Rect { x: 0, y: 0, width: 0, height: 0 }),
    {
        Rect::new(0, 0, 0, 0)
    }
}

} // verus!
