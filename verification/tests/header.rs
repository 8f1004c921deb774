use torque_tracker::draw_buffer::DrawBuffer;
use torque_tracker::ui::header::{Header, HeaderEvent, PlaybackPosition, PlaybackSettings};

fn cell_colors(buffer: &DrawBuffer, cx: usize, cy: usize) -> Vec<u32> {
    let mut colors = Vec::new();
    for y in cy * 8..cy * 8 + 8 {
        for x in cx * 8..cx * 8 + 8 {
            colors.push(buffer.framebuffer[y * 640 + x]);
        }
    }
    colors
}

#[test]
fn events_set_what_they_name() {
    let mut header = Header::default();
    header.process_event(HeaderEvent::SetPattern(4));
    header.process_event(HeaderEvent::SetOrder(2));
    assert_eq!(header.play_current_pattern(), PlaybackSettings::Pattern { idx: 4, should_loop: true });
    assert_eq!(header.play_current_order(), PlaybackSettings::Order { idx: 2, should_loop: true });
    assert!(header.is_drawable());
    header.process_event(HeaderEvent::SetCursorRow(1000));
    assert!(!header.is_drawable());
    header.process_event(HeaderEvent::SetCursorRow(12));
    header.process_event(HeaderEvent::SetSample(3, "bässe".to_string()));
    assert!(!header.is_drawable());
    header.process_event(HeaderEvent::SetSample(3, "bass".to_string()));
    assert!(header.is_drawable());
}

#[test]
fn playback_line_shows_digits_in_their_own_colour() {
    let mut header = Header::default();
    header.process_event(HeaderEvent::SetPlayback(Some(PlaybackPosition { order: None, pattern: 3, row: 12 })));
    let mut buffer = DrawBuffer::new();
    header.draw(&mut buffer);
    let digit = buffer.get_raw_color(3);
    // "Playing, Pattern: 3, Row: 12" from column 2: the 3 is character 18
    assert!(cell_colors(&buffer, 20, 9).contains(&digit));
    assert!(!cell_colors(&buffer, 2, 9).contains(&digit));
    // past the text only spaces follow: background
    let bg = buffer.get_raw_color(2);
    assert!(cell_colors(&buffer, 40, 9).iter().all(|c| *c == bg));
}

#[test]
fn without_playback_the_row_is_cleared() {
    let mut header = Header::default();
    let mut buffer = DrawBuffer::new();
    header.process_event(HeaderEvent::SetPlayback(Some(PlaybackPosition { order: Some(1), pattern: 3, row: 12 })));
    header.draw(&mut buffer);
    header.process_event(HeaderEvent::SetPlayback(None));
    header.draw(&mut buffer);
    let bg = buffer.get_raw_color(2);
    for cx in 2..=62 {
        assert!(cell_colors(&buffer, cx, 9).iter().all(|c| *c == bg));
    }
}

#[test]
fn numbers_are_drawn_with_three_digits() {
    let mut header = Header::default();
    header.process_event(HeaderEvent::SetCursorRow(5));
    let mut buffer = DrawBuffer::new();
    header.draw(&mut buffer);
    let fg = buffer.get_raw_color(5);
    // "005": the zeros and the five are drawn in colour 5 at columns 12 to 14 of row 7
    for cx in 12..15 {
        assert!(cell_colors(&buffer, cx, 7).contains(&fg));
    }
}
