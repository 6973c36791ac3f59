use vstd::prelude::*;

use crate::frame_buffer::{FrameBufferConfig, PixelFormat};
use crate::graphics::{Color, Point};

verus! {

/// Bytes that one pixel takes in the frame buffer.
pub const BYTES_PER_PIXEL: usize = 4;

/// Draws pixels into a frame buffer of the geometry and pixel layout it was
/// made with. The frame buffer itself is handed to each drawing call, as a
/// byte slice that starts at `frame_buffer_base`.
pub struct Screen {
    pub frame_buffer_base: u64,
    pub stride: usize,
    pub horizontal_resolution: usize,
    pub vertical_resolution: usize,
    pub r_offset: usize,
    pub g_offset: usize,
    pub b_offset: usize,
}

/// Distinct pixels of a scanline layout own distinct bytes.
proof fn lemma_pixel_bytes_distinct(s: int, x1: int, y1: int, c1: int, x2: int, y2: int, c2: int)
    requires
        0 <= x1 < s,
        0 <= x2 < s,
        0 <= y1,
        0 <= y2,
        0 <= c1 < 4,
        0 <= c2 < 4,
        x1 != x2 || y1 != y2,
    ensures
        4 * (s * y1 + x1) + c1 != 4 * (s * y2 + x2) + c2,
{
    if y1 < y2 {
        assert(s * y1 + s <= s * y2) by (nonlinear_arith)
            requires y1 < y2, s > 0;
    } else if y2 < y1 {
        assert(s * y2 + s <= s * y1) by (nonlinear_arith)
            requires y2 < y1, s > 0;
    }
}

/// The bytes of a visible pixel lie within the frame buffer.
proof fn lemma_pixel_in_buffer(s: int, v: int, x: int, y: int)
    requires
        0 <= x < s,
        0 <= y < v,
    ensures
        4 * (s * y + x) + 3 < 4 * s * v,
{
    assert(s * y + s <= s * v) by (nonlinear_arith)
        requires y < v, s > 0;
    assert(4 * s * v == 4 * (s * v)) by (nonlinear_arith);
}

impl From<FrameBufferConfig> for Screen {
    fn from(config: FrameBufferConfig) -> (s: Screen) {
        let (r_offset, g_offset, b_offset) = match config.format {
            PixelFormat::Rgb => (0, 1, 2),
            PixelFormat::Bgr => (2, 1, 0),
        };
        Screen {
            frame_buffer_base: config.buffer_base,
            stride: config.stride,
            horizontal_resolution: config.horizontal_resolution,
            vertical_resolution: config.vertical_resolution,
            r_offset,
            g_offset,
            b_offset,
        }
    }
}

impl vstd::std_specs::convert::FromSpecImpl<FrameBufferConfig> for Screen {
    open spec fn obeys_from_spec() -> bool {
        true
    }

    open spec fn from_spec(config: FrameBufferConfig) -> Screen {
        let (r_offset, g_offset, b_offset) = match config.format {
            PixelFormat::Rgb => (0usize, 1usize, 2usize),
            PixelFormat::Bgr => (2usize, 1usize, 0usize),
        };
        Screen {
            frame_buffer_base: config.buffer_base,
            stride: config.stride,
            horizontal_resolution: config.horizontal_resolution,
            vertical_resolution: config.vertical_resolution,
            r_offset,
            g_offset,
            b_offset,
        }
    }
}

impl Screen {
    /// The visible width fits a scanline, the buffer size fits `usize`, and the
    /// colour offsets are the three first bytes of a pixel, in some order.
    pub open spec fn wf(&self) -> bool {
        &&& self.horizontal_resolution <= self.stride
        &&& 4 * self.stride * self.vertical_resolution <= usize::MAX
        &&& self.r_offset < 3
        &&& self.g_offset < 3
        &&& self.b_offset < 3
        &&& self.r_offset != self.g_offset
        &&& self.g_offset != self.b_offset
        &&& self.r_offset != self.b_offset
    }

    /// The byte length of the frame buffer.
    pub open spec fn buffer_len(&self) -> int {
        4 * self.stride * self.vertical_resolution
    }

    /// The index of the first byte of pixel `(x, y)`.
    pub open spec fn pixel_base(&self, x: int, y: int) -> int {
        4 * (self.stride * y + x)
    }

    /// The pixel lies within the visible resolution.
    pub open spec fn visible(&self, x: int, y: int) -> bool {
        0 <= x < self.horizontal_resolution && 0 <= y < self.vertical_resolution
    }

    /// The colour that the frame buffer holds at pixel `(x, y)`.
    pub open spec fn color_at(&self, fb: Seq<u8>, x: int, y: int) -> Color {
        let p = self.pixel_base(x, y);
        Color { r: fb[p + self.r_offset], g: fb[p + self.g_offset], b: fb[p + self.b_offset] }
    }

    /// The frame buffer's size in bytes.
    pub fn frame_buffer_size(&self) -> (r: usize)
        requires
            4 * self.stride * self.vertical_resolution <= usize::MAX,
        ensures
            r == self.buffer_len(),
    {
        proof {
            assert(self.stride * self.vertical_resolution <= 4 * self.stride
                * self.vertical_resolution) by (nonlinear_arith);
            assert(4 * (self.stride * self.vertical_resolution) == 4 * self.stride
                * self.vertical_resolution) by (nonlinear_arith);
        }
        BYTES_PER_PIXEL * (self.stride * self.vertical_resolution)
    }

    /// Sets pixel `(x, y)` to `color`; every other visible pixel keeps its colour.
    pub fn draw_pixel(&self, fb: &mut [u8], x: usize, y: usize, color: Color)
        requires
            self.wf(),
            old(fb)@.len() == self.buffer_len(),
            self.visible(x as int, y as int),
        ensures
            final(fb)@.len() == old(fb)@.len(),
            self.color_at(final(fb)@, x as int, y as int) == color,
            forall|x2: int, y2: int|
                self.visible(x2, y2) && (x2 != x || y2 != y) ==> #[trigger] self.color_at(
                    final(fb)@,
                    x2,
                    y2,
                ) == self.color_at(old(fb)@, x2, y2),
    {
        let ghost s = self.stride as int;
        proof {
            lemma_pixel_in_buffer(s, self.vertical_resolution as int, x as int, y as int);
            assert(self.stride * y <= self.stride * self.vertical_resolution) by (nonlinear_arith)
                requires y < self.vertical_resolution;
            assert(self.stride * self.vertical_resolution <= 4 * self.stride
                * self.vertical_resolution) by (nonlinear_arith);
        }
        let position = self.stride * y + x;
        let base = BYTES_PER_PIXEL * position;
        fb[base + self.r_offset] = color.r;
        fb[base + self.g_offset] = color.g;
        fb[base + self.b_offset] = color.b;
        proof {
            assert forall|x2: int, y2: int|
                self.visible(x2, y2) && (x2 != x || y2 != y) implies #[trigger] self.color_at(
                fb@,
                x2,
                y2,
            ) == self.color_at(old(fb)@, x2, y2) by {
                lemma_pixel_in_buffer(s, self.vertical_resolution as int, x2, y2);
                lemma_pixel_bytes_distinct(s, x2, y2, self.r_offset as int, x as int, y as int, self.r_offset as int);
                lemma_pixel_bytes_distinct(s, x2, y2, self.r_offset as int, x as int, y as int, self.g_offset as int);
                lemma_pixel_bytes_distinct(s, x2, y2, self.r_offset as int, x as int, y as int, self.b_offset as int);
                lemma_pixel_bytes_distinct(s, x2, y2, self.g_offset as int, x as int, y as int, self.r_offset as int);
                lemma_pixel_bytes_distinct(s, x2, y2, self.g_offset as int, x as int, y as int, self.g_offset as int);
                lemma_pixel_bytes_distinct(s, x2, y2, self.g_offset as int, x as int, y as int, self.b_offset as int);
                lemma_pixel_bytes_distinct(s, x2, y2, self.b_offset as int, x as int, y as int, self.r_offset as int);
                lemma_pixel_bytes_distinct(s, x2, y2, self.b_offset as int, x as int, y as int, self.g_offset as int);
                lemma_pixel_bytes_distinct(s, x2, y2, self.b_offset as int, x as int, y as int, self.b_offset as int);
            }
        }
    }

    /// Paints the rectangle of `size` pixels whose top left corner is `pos`;
    /// the other visible pixels keep their colour.
    pub fn fill_rectangle(&self, fb: &mut [u8], pos: Point<usize>, size: Point<usize>, color: Color)
        requires
            self.wf(),
            old(fb)@.len() == self.buffer_len(),
            pos.x + size.x <= self.horizontal_resolution,
            pos.y + size.y <= self.vertical_resolution,
        ensures
            final(fb)@.len() == old(fb)@.len(),
            forall|x: int, y: int|
                self.visible(x, y) ==> #[trigger] self.color_at(final(fb)@, x, y) == if pos.x <= x
                    < pos.x + size.x && pos.y <= y < pos.y + size.y {
                    color
                } else {
                    self.color_at(old(fb)@, x, y)
                },
    {
        let ghost start = fb@;
        let mut dy: usize = 0;
        while dy < size.y
            invariant
                self.wf(),
                fb@.len() == self.buffer_len(),
                pos.x + size.x <= self.horizontal_resolution,
                pos.y + size.y <= self.vertical_resolution,
                0 <= dy <= size.y,
                forall|x: int, y: int|
                    self.visible(x, y) ==> #[trigger] self.color_at(fb@, x, y) == if pos.x <= x
                        < pos.x + size.x && pos.y <= y < pos.y + dy {
                        color
                    } else {
                        self.color_at(start, x, y)
                    },
            decreases size.y - dy,
        {
            let mut dx: usize = 0;
            while dx < size.x
                invariant
                    self.wf(),
                    fb@.len() == self.buffer_len(),
                    pos.x + size.x <= self.horizontal_resolution,
                    pos.y + size.y <= self.vertical_resolution,
                    0 <= dy < size.y,
                    0 <= dx <= size.x,
                    forall|x: int, y: int|
                        self.visible(x, y) ==> #[trigger] self.color_at(fb@, x, y) == if (pos.x <= x
                            < pos.x + size.x && pos.y <= y < pos.y + dy) || (pos.x <= x < pos.x
                            + dx && y == pos.y + dy) {
                            color
                        } else {
                            self.color_at(start, x, y)
                        },
                decreases size.x - dx,
            {
                self.draw_pixel(fb, pos.x + dx, pos.y + dy, color);
                dx = dx + 1;
            }
            dy = dy + 1;
        }
    }

    /// Paints every visible pixel with `color`.
    pub fn draw_all(&self, fb: &mut [u8], color: Color)
        requires
            self.wf(),
            old(fb)@.len() == self.buffer_len(),
        ensures
            final(fb)@.len() == old(fb)@.len(),
            forall|x: int, y: int|
                self.visible(x, y) ==> #[trigger] self.color_at(final(fb)@, x, y) == color,
    {
        let origin = Point::new(0, 0);
        let size = Point::new(self.horizontal_resolution, self.vertical_resolution);
        self.fill_rectangle(fb, origin, size, color);
    }
}

/// A solid rectangle: its top left corner, its size, and its colour.
#[derive(Clone, Copy, Debug, PartialEq, Eq)]
pub struct FilledRectangle {
    pub pos: Point<usize>,
    pub size: Point<usize>,
    pub color: Color,
}

impl FilledRectangle {
    pub fn new(pos: Point<usize>, size: Point<usize>, color: Color) -> (r: FilledRectangle)
        ensures
            r == (FilledRectangle { pos, size, color }),
    {
        FilledRectangle { pos, size, color }
    }

    /// Paints the rectangle, which must lie within the visible screen.
    pub fn render(&self, screen: &Screen, fb: &mut [u8])
        requires
            screen.wf(),
            old(fb)@.len() == screen.buffer_len(),
            self.pos.x + self.size.x <= screen.horizontal_resolution,
            self.pos.y + self.size.y <= screen.vertical_resolution,
        ensures
            final(fb)@.len() == old(fb)@.len(),
            forall|x: int, y: int|
                screen.visible(x, y) ==> #[trigger] screen.color_at(final(fb)@, x, y) == if self.pos.x
                    <= x < self.pos.x + self.size.x && self.pos.y <= y < self.pos.y + self.size.y {
                    self.color
                } else {
                    screen.color_at(old(fb)@, x, y)
                },
    {
        screen.fill_rectangle(fb, self.pos, self.size, self.color);
    }
}

} // verus!
