use torque_tracker::coordinates::{char_into_screen_pos, screen_into_byte_pos, CharPosition, CharRect, PixelRect};
use torque_tracker::draw_buffer::DrawBuffer;

fn pixel(buffer: &DrawBuffer, x: usize, y: usize) -> u32 {
    buffer.framebuffer[y * 640 + x]
}

#[test]
fn new_buffer_is_black_with_the_camouflage_palette() {
    let buffer = DrawBuffer::new();
    assert_eq!(buffer.framebuffer.len(), 640 * 400);
    assert!(buffer.framebuffer.iter().all(|p| *p == 0));
    assert_ne!(buffer.get_raw_color(2), 0);
}

#[test]
fn draw_rect_fills_character_cells() {
    let mut buffer = DrawBuffer::new();
    buffer.draw_rect(5, CharRect::new(1, 2, 3, 4));
    let c = buffer.get_raw_color(5);
    assert_eq!(pixel(&buffer, 24, 8), c);
    assert_eq!(pixel(&buffer, 39, 23), c);
    assert_eq!(pixel(&buffer, 23, 8), 0);
    assert_eq!(pixel(&buffer, 40, 8), 0);
    assert_eq!(pixel(&buffer, 24, 24), 0);
}

#[test]
fn draw_pixel_rect_includes_its_borders() {
    let mut buffer = DrawBuffer::new();
    buffer.draw_pixel_rect(1, PixelRect::new(10, 12, 20, 15));
    let c = buffer.get_raw_color(1);
    assert_eq!(pixel(&buffer, 15, 10), c);
    assert_eq!(pixel(&buffer, 20, 12), c);
    assert_eq!(pixel(&buffer, 21, 12), 0);
    assert_eq!(pixel(&buffer, 15, 13), 0);
}

#[test]
fn clear_paints_everything() {
    let mut buffer = DrawBuffer::new();
    buffer.clear(7);
    let c = buffer.get_raw_color(7);
    assert!(buffer.framebuffer.iter().all(|p| *p == c));
}

#[test]
fn draw_char_draws_a_glyph() {
    let mut buffer = DrawBuffer::new();
    let glyph = [0xFF, 0, 0, 0, 0, 0, 0, 0x01];
    buffer.draw_char(glyph, CharPosition::new(0, 0), 4, 6);
    let fg = buffer.get_raw_color(4);
    let bg = buffer.get_raw_color(6);
    assert_eq!(pixel(&buffer, 7, 0), fg);
    assert_eq!(pixel(&buffer, 0, 7), fg);
    assert_eq!(pixel(&buffer, 1, 7), bg);
    assert_eq!(pixel(&buffer, 3, 3), bg);
}

#[test]
fn draw_box_edges_are_in_two_colours() {
    let mut buffer = DrawBuffer::new();
    buffer.draw_box(CharRect::new(2, 5, 2, 5), 2, 1, 3);
    let tl = buffer.get_raw_color(1);
    let br = buffer.get_raw_color(3);
    // the top edge lies in the top cell row, the bottom edge in the bottom one
    let top_cells: Vec<u32> = (16..24).flat_map(|y| (16..48).map(move |x| (x, y))).map(|(x, y)| pixel(&buffer, x, y)).collect();
    assert!(top_cells.contains(&tl));
    let bottom_cells: Vec<u32> = (40..48).flat_map(|y| (24..48).map(move |x| (x, y))).map(|(x, y)| pixel(&buffer, x, y)).collect();
    assert!(bottom_cells.contains(&br));
}

#[test]
fn coordinates_report_their_values() {
    let rect = CharRect::new(1, 3, 2, 6);
    assert_eq!((rect.top(), rect.bot(), rect.left(), rect.right()), (1, 3, 2, 6));
    assert_eq!(rect.width(), 4);
    assert_eq!(rect.height(), 2);
    let pos = CharPosition::new(5, 7);
    assert_eq!((pos.x(), pos.y()), (5, 7));
    let pixels = PixelRect::from(rect);
    assert_eq!((pixels.top(), pixels.bot(), pixels.left(), pixels.right()), (8, 31, 16, 55));
}

#[test]
fn screen_positions() {
    assert_eq!(char_into_screen_pos(3), 24);
    assert_eq!(char_into_screen_pos(0), 0);
    assert_eq!(screen_into_byte_pos((2, 1)), 2560 + 8);
    assert_eq!(screen_into_byte_pos((639, 399)), 399 * 2560 + 639 * 4);
}
