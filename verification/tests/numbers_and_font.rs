use torque_tracker::coordinates::CharPosition;
use torque_tracker::draw_buffer::DrawBuffer;
use torque_tracker::numbers::{padded_three, parse_i16, push_decimal, push_str, zero_padded};

#[test]
fn zero_padded_keeps_the_last_digits() {
    assert_eq!(zero_padded(7, 3), "007");
    assert_eq!(zero_padded(123, 3), "123");
    assert_eq!(zero_padded(1234, 3), "234");
    assert_eq!(zero_padded(42, 2), "42");
    assert_eq!(zero_padded(5, 0), "");
}

#[test]
fn padded_three_writes_negative_numbers_with_a_sign() {
    assert_eq!(padded_three(-5), "-05");
    assert_eq!(padded_three(-99), "-99");
    assert_eq!(padded_three(0), "000");
    assert_eq!(padded_three(999), "999");
}

#[test]
fn decimal_has_no_leading_zeros() {
    let mut line = Vec::new();
    push_decimal(&mut line, 0);
    push_str(&mut line, "/");
    push_decimal(&mut line, 65535);
    let text: String = line.into_iter().collect();
    assert_eq!(text, "0/65535");
}

fn pixel(buffer: &DrawBuffer, x: usize, y: usize) -> u32 {
    buffer.framebuffer[y * 640 + x]
}

#[test]
fn draw_string_uses_the_font() {
    let mut buffer = DrawBuffer::new();
    buffer.draw_string("A", CharPosition::new(1, 2), 3, 0);
    let fg = buffer.get_raw_color(3);
    let bg = buffer.get_raw_color(0);
    // the glyph of 'A': rows 0x0C, 0x1E, 0x33, 0x33, 0x3F, 0x33, 0x33, 0x00, lowest bit left
    let glyph: [u8; 8] = [0x0C, 0x1E, 0x33, 0x33, 0x3F, 0x33, 0x33, 0x00];
    for (row, bits) in glyph.iter().enumerate() {
        for col in 0..8 {
            let expected = if bits & (1 << col) != 0 { fg } else { bg };
            assert_eq!(pixel(&buffer, 8 + col, 16 + row), expected);
        }
    }
    // the cells around stay black
    assert_eq!(pixel(&buffer, 7, 16), 0);
    assert_eq!(pixel(&buffer, 16, 16), 0);
}

#[test]
fn draw_string_length_fills_the_rest_with_background() {
    let mut buffer = DrawBuffer::new();
    buffer.draw_string_length("ab", CharPosition::new(0, 0), 4, 1, 2);
    let bg = buffer.get_raw_color(2);
    // cells 2 to 4 are background only
    for x in 16..40 {
        for y in 0..8 {
            assert_eq!(pixel(&buffer, x, y), bg);
        }
    }
    assert_eq!(pixel(&buffer, 40, 0), 0);
}

#[test]
fn decimal_numbers_are_read_as_i16() {
    assert_eq!(parse_i16("125"), Some(125));
    assert_eq!(parse_i16("+12"), Some(12));
    assert_eq!(parse_i16("-32768"), Some(-32768));
    assert_eq!(parse_i16("32767"), Some(32767));
    assert_eq!(parse_i16("0000000000000000000042"), Some(42));
    assert_eq!(parse_i16("32768"), None);
    assert_eq!(parse_i16("-32769"), None);
    assert_eq!(parse_i16("99999999999999"), None);
    assert_eq!(parse_i16(""), None);
    assert_eq!(parse_i16("-"), None);
    assert_eq!(parse_i16("1a"), None);
    assert_eq!(parse_i16(" 1"), None);
    assert_eq!(parse_i16("--1"), None);
}
