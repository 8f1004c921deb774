use torque_tracker::file_formats::impulse_format::pattern::{ImpulsePattern, PatternItem};

#[test]
fn packed_rows_and_entries() {
    // length 7: an entry with mask (note and instrument), a row end, an entry without
    // mask, then the second row end
    let buf = [7, 0, 2, 0, 0, 0, 0, 0, 0x81, 0x03, 60, 1, 0, 0x02, 0, 0];
    let items = ImpulsePattern::load(&buf).unwrap();
    assert_eq!(items.len(), 4);
    assert_eq!(
        items[0],
        PatternItem::Entry {
            channel: 0,
            mask: 3,
            note: Some(60),
            instrument: Some(1),
            vol_pan: None,
            command: None,
            command_value: None,
            last_note: false,
            last_instrument: false,
            last_vol_pan: false,
            last_command: false,
        }
    );
    assert_eq!(items[1], PatternItem::EndOfRow(0));
    assert!(matches!(items[2], PatternItem::Entry { channel: 1, mask: 0, note: None, .. }));
    assert_eq!(items[3], PatternItem::EndOfRow(1));
}

#[test]
fn commands_and_last_value_flags() {
    let buf = [5, 0, 1, 0, 0, 0, 0, 0, 0x85, 0xF8, 0x0A, 0x20, 0, 0];
    let items = ImpulsePattern::load(&buf).unwrap();
    assert_eq!(items.len(), 2);
    assert_eq!(
        items[0],
        PatternItem::Entry {
            channel: 4,
            mask: 0xF8,
            note: None,
            instrument: None,
            vol_pan: None,
            command: Some(0x0A),
            command_value: Some(0x20),
            last_note: true,
            last_instrument: true,
            last_vol_pan: true,
            last_command: true,
        }
    );
    assert_eq!(items[1], PatternItem::EndOfRow(0));
}

#[test]
fn short_buffers_are_refused() {
    assert_eq!(ImpulsePattern::load(&[1, 0, 0]), None);
    // the data is announced longer than the buffer
    assert_eq!(ImpulsePattern::load(&[10, 0, 0, 0, 0, 0, 0, 0, 0]), None);
    // an entry whose note lies past the data
    assert_eq!(ImpulsePattern::load(&[1, 0, 0, 0, 0, 0, 0, 0, 0x81, 0x01]), None);
}

#[test]
fn empty_pattern_has_no_items() {
    assert_eq!(ImpulsePattern::load(&[0, 0, 64, 0, 0, 0, 0, 0, 0]), Some(vec![]));
}

#[test]
fn a_256th_row_end_is_refused() {
    let mut buf = vec![0u8, 1, 0, 0, 0, 0, 0, 0];
    buf.extend(std::iter::repeat(0).take(257));
    assert_eq!(ImpulsePattern::load(&buf), None);
    let mut ok = vec![255u8, 0, 0, 0, 0, 0, 0, 0];
    ok.extend(std::iter::repeat(0).take(256));
    let items = ImpulsePattern::load(&ok).unwrap();
    assert_eq!(items.len(), 255);
    assert_eq!(items[254], PatternItem::EndOfRow(254));
}

#[test]
fn the_data_may_end_with_the_buffer() {
    // one row of one byte after the header, and nothing after it
    assert_eq!(ImpulsePattern::load(&[1, 0, 1, 0, 0, 0, 0, 0, 0]), Some(vec![PatternItem::EndOfRow(0)]));
    // an entry that needs a byte more than the data holds is refused
    assert_eq!(ImpulsePattern::load(&[2, 0, 1, 0, 0, 0, 0, 0, 0x81, 0x01]), None);
}
