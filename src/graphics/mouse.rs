use vstd::prelude::*;

use crate::graphics::screen::Screen;
use crate::graphics::{Color, Point};

verus! {

/// Width of the cursor shape in pixels.
pub const CURSOR_WIDTH: usize = 15;

/// Height of the cursor shape in pixels.
pub const CURSOR_HEIGHT: usize = 24;

/// Row `y` of the arrow-shaped cursor: the columns drawn in the edge colour and
/// the columns drawn in the fill colour, column `x` as bit `x`.
pub open spec fn cursor_row_spec(y: int) -> (u16, u16) {
    if y == 0 { (0x0001, 0x0000) }
    else if y == 1 { (0x0003, 0x0000) }
    else if y == 2 { (0x0005, 0x0002) }
    else if y == 3 { (0x0009, 0x0006) }
    else if y == 4 { (0x0011, 0x000e) }
    else if y == 5 { (0x0021, 0x001e) }
    else if y == 6 { (0x0041, 0x003e) }
    else if y == 7 { (0x0081, 0x007e) }
    else if y == 8 { (0x0101, 0x00fe) }
    else if y == 9 { (0x0201, 0x01fe) }
    else if y == 10 { (0x0401, 0x03fe) }
    else if y == 11 { (0x0801, 0x07fe) }
    else if y == 12 { (0x1001, 0x0ffe) }
    else if y == 13 { (0x2001, 0x1ffe) }
    else if y == 14 { (0x7f81, 0x007e) }
    else if y == 15 { (0x0081, 0x007e) }
    else if y == 16 { (0x0161, 0x009e) }
    else if y == 17 { (0x0151, 0x008e) }
    else if y == 18 { (0x0289, 0x0106) }
    else if y == 19 { (0x0285, 0x0102) }
    else if y == 20 { (0x0503, 0x0200) }
    else if y == 21 { (0x0501, 0x0200) }
    else if y == 22 { (0x0a00, 0x0400) }
    else if y == 23 { (0x0e00, 0x0000) }
    else { (0x0000, 0x0000) }
}

/// Row `y` of the cursor shape.
fn cursor_row(y: usize) -> (r: (u16, u16))
    ensures
        r == cursor_row_spec(y as int),
{
    if y == 0 { (0x0001, 0x0000) }
    else if y == 1 { (0x0003, 0x0000) }
    else if y == 2 { (0x0005, 0x0002) }
    else if y == 3 { (0x0009, 0x0006) }
    else if y == 4 { (0x0011, 0x000e) }
    else if y == 5 { (0x0021, 0x001e) }
    else if y == 6 { (0x0041, 0x003e) }
    else if y == 7 { (0x0081, 0x007e) }
    else if y == 8 { (0x0101, 0x00fe) }
    else if y == 9 { (0x0201, 0x01fe) }
    else if y == 10 { (0x0401, 0x03fe) }
    else if y == 11 { (0x0801, 0x07fe) }
    else if y == 12 { (0x1001, 0x0ffe) }
    else if y == 13 { (0x2001, 0x1ffe) }
    else if y == 14 { (0x7f81, 0x007e) }
    else if y == 15 { (0x0081, 0x007e) }
    else if y == 16 { (0x0161, 0x009e) }
    else if y == 17 { (0x0151, 0x008e) }
    else if y == 18 { (0x0289, 0x0106) }
    else if y == 19 { (0x0285, 0x0102) }
    else if y == 20 { (0x0503, 0x0200) }
    else if y == 21 { (0x0501, 0x0200) }
    else if y == 22 { (0x0a00, 0x0400) }
    else if y == 23 { (0x0e00, 0x0000) }
    else { (0x0000, 0x0000) }
}

/// Column `x` is set in a row mask.
pub open spec fn mask_has(mask: u16, x: int) -> bool {
    (mask >> (x as u16)) & 1u16 == 1u16
}

/// The mouse cursor: where its tip is, and its two colours.
#[derive(Clone, Copy, Debug, PartialEq, Eq)]
pub struct MouseCursor {
    pub pos: Point<usize>,
    pub edge_color: Color,
    pub fill_color: Color,
}

impl MouseCursor {
    pub fn new(pos: Point<usize>, edge_color: Color, fill_color: Color) -> (m: MouseCursor)
        ensures
            m == (MouseCursor { pos, edge_color, fill_color }),
    {
        MouseCursor { pos, edge_color, fill_color }
    }

    /// The colour that cell `(dx, dy)` of the cursor gives a pixel of colour
    /// `under`: the edge or fill colour, or `under` where the shape is clear.
    pub open spec fn cell_color(&self, dx: int, dy: int, under: Color) -> Color {
        let (edge, fill) = cursor_row_spec(dy);
        if mask_has(edge, dx) {
            self.edge_color
        } else if mask_has(fill, dx) {
            self.fill_color
        } else {
            under
        }
    }

    /// Draws the cursor with its tip at `pos`; it must lie within the visible
    /// screen. Pixels outside the shape keep their colour.
    pub fn render(&self, screen: &Screen, fb: &mut [u8])
        requires
            screen.wf(),
            old(fb)@.len() == screen.buffer_len(),
            self.pos.x + CURSOR_WIDTH <= screen.horizontal_resolution,
            self.pos.y + CURSOR_HEIGHT <= screen.vertical_resolution,
        ensures
            final(fb)@.len() == old(fb)@.len(),
            forall|x: int, y: int|
                screen.visible(x, y) ==> #[trigger] screen.color_at(final(fb)@, x, y) == if self.pos.x
                    <= x < self.pos.x + CURSOR_WIDTH && self.pos.y <= y < self.pos.y
                    + CURSOR_HEIGHT {
                    self.cell_color(x - self.pos.x, y - self.pos.y, screen.color_at(old(fb)@, x, y))
                } else {
                    screen.color_at(old(fb)@, x, y)
                },
    {
        let ghost start = fb@;
        let px = self.pos.x;
        let py = self.pos.y;
        let mut dy: usize = 0;
        while dy < CURSOR_HEIGHT
            invariant
                screen.wf(),
                fb@.len() == screen.buffer_len(),
                px == self.pos.x,
                py == self.pos.y,
                px + CURSOR_WIDTH <= screen.horizontal_resolution,
                py + CURSOR_HEIGHT <= screen.vertical_resolution,
                0 <= dy <= CURSOR_HEIGHT,
                forall|x: int, y: int|
                    screen.visible(x, y) ==> #[trigger] screen.color_at(fb@, x, y) == if px <= x < px
                        + CURSOR_WIDTH && py <= y < py + dy {
                        self.cell_color(x - px, y - py, screen.color_at(start, x, y))
                    } else {
                        screen.color_at(start, x, y)
                    },
            decreases CURSOR_HEIGHT - dy,
        {
            let (edge, fill) = cursor_row(dy);
            let mut dx: usize = 0;
            while dx < CURSOR_WIDTH
                invariant
                    screen.wf(),
                    fb@.len() == screen.buffer_len(),
                    px == self.pos.x,
                    py == self.pos.y,
                    px + CURSOR_WIDTH <= screen.horizontal_resolution,
                    py + CURSOR_HEIGHT <= screen.vertical_resolution,
                    0 <= dy < CURSOR_HEIGHT,
                    0 <= dx <= CURSOR_WIDTH,
                    (edge, fill) == cursor_row_spec(dy as int),
                    forall|x: int, y: int|
                        screen.visible(x, y) ==> #[trigger] screen.color_at(fb@, x, y) == if (px <= x
                            < px + CURSOR_WIDTH && py <= y < py + dy) || (px <= x < px + dx && y
                            == py + dy) {
                            self.cell_color(x - px, y - py, screen.color_at(start, x, y))
                        } else {
                            screen.color_at(start, x, y)
                        },
                decreases CURSOR_WIDTH - dx,
            {
                let shift = dx as u16;
                if (edge >> shift) & 1 == 1 {
                    screen.draw_pixel(fb, px + dx, py + dy, self.edge_color);
                } else if (fill >> shift) & 1 == 1 {
                    screen.draw_pixel(fb, px + dx, py + dy, self.fill_color);
                }
                dx = dx + 1;
            }
            dy = dy + 1;
        }
    }
}

} // verus!
