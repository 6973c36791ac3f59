use osboot::frame_buffer::{FrameBufferConfig, PixelFormat};
use osboot::graphics::console::Console;
use osboot::graphics::mouse::MouseCursor;
use osboot::graphics::screen::{FilledRectangle, Screen};
use osboot::graphics::{Attribute, Color, Font, Point};

fn config(format: PixelFormat) -> FrameBufferConfig {
    FrameBufferConfig {
        buffer_base: 0x8000_0000,
        buffer_size: 4 * 40 * 30,
        stride: 40,
        horizontal_resolution: 32,
        vertical_resolution: 30,
        format,
    }
}

fn pixel(screen: &Screen, fb: &[u8], x: usize, y: usize) -> Color {
    let p = 4 * (screen.stride * y + x);
    Color::new(fb[p + screen.r_offset], fb[p + screen.g_offset], fb[p + screen.b_offset])
}

#[test]
fn colors_and_points() {
    assert_eq!(Color::new(1, 2, 3), Color { r: 1, g: 2, b: 3 });
    assert_eq!(Color::white(), Color { r: 0xff, g: 0xff, b: 0xff });
    assert_eq!(Color::black(), Color { r: 0, g: 0, b: 0 });
    assert_eq!(Color::red(), Color { r: 0xff, g: 0, b: 0 });
    let p = Point::new(3usize, 4usize);
    assert_eq!((p.x, p.y), (3, 4));
    let a = Attribute::default();
    assert_eq!(a.fg_color, Color::white());
    assert_eq!(a.bg_color, Color::black());
    assert_eq!((Font::CHAR_WIDTH, Font::CHAR_HEIGHT), (8, 16));
}

#[test]
fn screen_takes_the_pixel_layout() {
    let rgb = Screen::from(config(PixelFormat::Rgb));
    assert_eq!((rgb.r_offset, rgb.g_offset, rgb.b_offset), (0, 1, 2));
    let bgr = Screen::from(config(PixelFormat::Bgr));
    assert_eq!((bgr.r_offset, bgr.g_offset, bgr.b_offset), (2, 1, 0));
    assert_eq!(bgr.stride, 40);
    assert_eq!(bgr.frame_buffer_size(), 4 * 40 * 30);
}

#[test]
fn draw_pixel_writes_three_bytes_in_layout_order() {
    let screen = Screen::from(config(PixelFormat::Bgr));
    let mut fb = vec![0u8; screen.frame_buffer_size()];
    screen.draw_pixel(&mut fb, 5, 2, Color::new(0x11, 0x22, 0x33));
    let p = 4 * (40 * 2 + 5);
    assert_eq!(&fb[p..p + 4], &[0x33, 0x22, 0x11, 0]);
    assert_eq!(fb.iter().filter(|&&b| b != 0).count(), 3);
}

#[test]
fn draw_all_paints_visible_pixels_only() {
    let screen = Screen::from(config(PixelFormat::Rgb));
    let mut fb = vec![0u8; screen.frame_buffer_size()];
    screen.draw_all(&mut fb, Color::new(9, 8, 7));
    for y in 0..30 {
        for x in 0..32 {
            assert_eq!(pixel(&screen, &fb, x, y), Color::new(9, 8, 7));
        }
        for x in 32..40 {
            assert_eq!(pixel(&screen, &fb, x, y), Color::black());
        }
    }
}

#[test]
fn filled_rectangle_covers_its_area() {
    let screen = Screen::from(config(PixelFormat::Rgb));
    let mut fb = vec![0u8; screen.frame_buffer_size()];
    let rect = FilledRectangle::new(Point::new(2, 3), Point::new(4, 5), Color::red());
    assert_eq!(rect.size.x, 4);
    rect.render(&screen, &mut fb);
    for y in 0..30 {
        for x in 0..32 {
            let inside = (2..6).contains(&x) && (3..8).contains(&y);
            let want = if inside { Color::red() } else { Color::black() };
            assert_eq!(pixel(&screen, &fb, x, y), want);
        }
    }
}

#[test]
fn mouse_cursor_draws_its_shape() {
    let screen = Screen::from(config(PixelFormat::Rgb));
    let mut fb = vec![0u8; screen.frame_buffer_size()];
    let grey = Color::new(0x40, 0x40, 0x40);
    screen.draw_all(&mut fb, grey);
    let cursor = MouseCursor::new(Point::new(10, 4), Color::white(), Color::red());
    cursor.render(&screen, &mut fb);
    assert_eq!(pixel(&screen, &fb, 10, 4), Color::white());
    assert_eq!(pixel(&screen, &fb, 11, 4), grey);
    assert_eq!(pixel(&screen, &fb, 11, 6), Color::red());
    assert_eq!(pixel(&screen, &fb, 12, 6), Color::white());
    assert_eq!(pixel(&screen, &fb, 24, 18), Color::white());
    assert_eq!(pixel(&screen, &fb, 19, 27), Color::white());
    assert_eq!(pixel(&screen, &fb, 20, 26), Color::red());
    assert_eq!(pixel(&screen, &fb, 9, 4), grey);
    assert_eq!(pixel(&screen, &fb, 10, 28), grey);
}

#[test]
fn console_wraps_and_scrolls() {
    let mut console = Console::new(2, 3, Font);
    console.put_string("abcd");
    assert_eq!(console.cell(0, 0), Some('a'));
    assert_eq!(console.cell(0, 2), Some('c'));
    assert_eq!(console.cell(1, 0), Some('d'));
    assert_eq!(console.cursor(), (1, 1));
    console.put_char('\n');
    assert_eq!(console.cursor(), (1, 0));
    assert_eq!(console.cell(0, 0), Some('d'));
    assert_eq!(console.cell(1, 0), None);
    console.put_string("xyz");
    assert_eq!(console.cell(0, 0), Some('x'));
    assert_eq!(console.cell(0, 1), Some('y'));
    assert_eq!(console.cell(0, 2), Some('z'));
    assert_eq!(console.cell(1, 0), None);
    assert_eq!(console.cursor(), (1, 0));
}

#[test]
fn console_newline_moves_down_without_scrolling() {
    let mut console = Console::new(3, 4, Font);
    console.put_string("h\nié");
    assert_eq!(console.cell(0, 0), Some('h'));
    assert_eq!(console.cell(1, 0), Some('i'));
    assert_eq!(console.cell(1, 1), Some('é'));
    assert_eq!(console.cursor(), (1, 2));
}
