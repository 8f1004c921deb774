use std::collections::VecDeque;
use torque_tracker::events::GlobalEvent;
use torque_tracker::input::{Key, KeyEvent, Modifiers, NamedKey};
use torque_tracker::playback::pattern::{Event, Pattern, PatternOperation};
use torque_tracker::ui::pages::pattern::{notes_in_range, InEventPosition, PatternPage, PatternPageEvent};
use torque_tracker::ui::pages::PageResponse;

fn note(n: u8) -> Event {
    Event { note: Some(n), instr: Some(1), vol_pan: 64, command: None }
}

fn no_mods() -> Modifiers {
    Modifiers { shift: false, control: false, alt: false, super_key: false }
}

fn named(key: NamedKey) -> KeyEvent {
    KeyEvent { logical_key: Key::Named(key), pressed: true, repeat: false }
}

fn typed(c: &str) -> KeyEvent {
    KeyEvent { logical_key: Key::Character(c.to_string()), pressed: true, repeat: false }
}

#[test]
fn set_get_and_remove_events() {
    let mut pattern = Pattern::new(64);
    assert_eq!(pattern.row_count(), 64);
    assert!(pattern.get_event(3, 2).is_none());
    pattern.set_event(3, 2, note(40));
    pattern.set_event(3, 5, note(41));
    assert_eq!(pattern.get_event(3, 2).unwrap().note, Some(40));
    // setting again replaces
    pattern.set_event(3, 2, note(50));
    assert_eq!(pattern.get_event(3, 2).unwrap().note, Some(50));
    assert_eq!(pattern.get_event(3, 5).unwrap().note, Some(41));
    pattern.remove_event(3, 2);
    assert!(pattern.get_event(3, 2).is_none());
    assert_eq!(pattern.get_event(3, 5).unwrap().note, Some(41));
}

#[test]
fn set_length_keeps_the_rows_that_stay() {
    let mut pattern = Pattern::new(64);
    pattern.set_event(10, 0, note(1));
    pattern.set_event(40, 0, note(2));
    pattern.set_length(32);
    assert_eq!(pattern.row_count(), 32);
    assert_eq!(pattern.get_event(10, 0).unwrap().note, Some(1));
    pattern.set_length(48);
    assert!(pattern.get_event(40, 0).is_none());
}

#[test]
fn removing_a_freshly_set_event_restores_the_row() {
    let mut pattern = Pattern::new(8);
    pattern.set_event(2, 1, note(10));
    pattern.set_event(2, 4, note(11));
    pattern.set_event(2, 9, note(12));
    pattern.remove_event(2, 9);
    assert!(pattern.get_event(2, 9).is_none());
    assert_eq!(pattern.get_event(2, 1).unwrap().note, Some(10));
    assert_eq!(pattern.get_event(2, 4).unwrap().note, Some(11));
    pattern.remove_event(2, 7);
    assert_eq!(pattern.get_event(2, 1).unwrap().note, Some(10));
    assert_eq!(pattern.get_event(2, 4).unwrap().note, Some(11));
    let copy = pattern.clone();
    assert_eq!(copy.row_count(), 8);
    assert_eq!(copy.get_event(2, 4).unwrap().note, Some(11));
}

#[test]
fn operations_apply_like_the_methods() {
    let mut pattern = Pattern::new(32);
    pattern.apply_operation(&PatternOperation::SetEvent { row: 1, channel: 3, event: note(7) });
    assert_eq!(pattern.get_event(1, 3).unwrap().note, Some(7));
    pattern.apply_operation(&PatternOperation::RemoveEvent { row: 1, channel: 3 });
    assert!(pattern.get_event(1, 3).is_none());
}

#[test]
fn notes_above_the_last_octave_are_found() {
    let mut pattern = Pattern::new(32);
    pattern.set_event(0, 0, note(119));
    assert!(notes_in_range(&pattern));
    pattern.set_event(31, 63, note(120));
    assert!(!notes_in_range(&pattern));
}

#[test]
fn event_parts_move_left_and_right() {
    assert_eq!(InEventPosition::Note.to_right(), Some(InEventPosition::Octave));
    assert_eq!(InEventPosition::Effect3.to_right(), None);
    assert_eq!(InEventPosition::Note.to_left(), None);
    assert_eq!(InEventPosition::Octave.to_left(), Some(InEventPosition::Note));
    let mut part = InEventPosition::Note;
    while let Some(next) = part.to_right() {
        assert_eq!(next.to_left(), Some(part));
        part = next;
    }
    assert_eq!(part, InEventPosition::Effect3);
}

#[test]
fn plus_and_minus_ask_for_neighbouring_patterns() {
    let mut page = PatternPage::new();
    let mut events = VecDeque::new();
    // there is no pattern before the first
    assert!(page.key_supported(&no_mods(), &typed("-")));
    assert_eq!(page.process_key_event(&no_mods(), &typed("-"), &mut events), PageResponse::Nothing);
    assert!(events.is_empty());
    assert_eq!(page.process_key_event(&no_mods(), &typed("+"), &mut events), PageResponse::RequestRedraw);
    assert!(matches!(events[0], GlobalEvent::LoadPattern(1)));
}

#[test]
fn octave_digits_change_the_note() {
    let mut page = PatternPage::new();
    let mut events = VecDeque::new();
    let mut pattern = Pattern::new(64);
    pattern.set_event(0, 0, note(40));
    assert!(page.accepts_event(&PatternPageEvent::Loaded(Pattern::new(64), 0)));
    page.process_event(PatternPageEvent::Loaded(pattern, 0), &mut events);
    assert_eq!(events.len(), 2);
    events.clear();
    // move to the octave part and type 5: note 40 is E in octave 3, E in octave 5 is 64
    page.process_key_event(&no_mods(), &named(NamedKey::ArrowRight), &mut events);
    assert!(page.key_supported(&no_mods(), &typed("5")));
    page.process_key_event(&no_mods(), &typed("5"), &mut events);
    assert_eq!(events.len(), 1);
    match &events[0] {
        GlobalEvent::PatternEdit(0, op @ PatternOperation::SetEvent { row: 0, channel: 0, event }) => {
            assert_eq!(event.note, Some(64));
            // the song's copy of the pattern takes the same edit
            let mut copy = Pattern::new(64);
            copy.set_event(0, 0, note(40));
            copy.apply_operation(op);
            assert_eq!(copy.get_event(0, 0).unwrap().note, Some(64));
            assert_eq!(copy.get_event(0, 0).unwrap().instr, Some(1));
        },
        _ => panic!("expected a pattern edit"),
    }
    // further right, typing is not supported yet
    page.process_key_event(&no_mods(), &named(NamedKey::ArrowRight), &mut events);
    assert!(!page.key_supported(&no_mods(), &typed("5")));
}

#[test]
fn cursor_stops_at_the_last_row() {
    let mut page = PatternPage::new();
    let mut events = VecDeque::new();
    for _ in 0..10 {
        page.process_key_event(&no_mods(), &named(NamedKey::PageDown), &mut events);
    }
    // 64 rows: the cursor cannot go further down
    assert_eq!(page.process_key_event(&no_mods(), &named(NamedKey::ArrowDown), &mut events), PageResponse::Nothing);
    assert_eq!(page.process_key_event(&no_mods(), &named(NamedKey::ArrowUp), &mut events), PageResponse::RequestRedraw);
}

#[test]
fn octaves_are_read_as_numbers() {
    let mut page = PatternPage::new();
    let mut events = VecDeque::new();
    let mut pattern = Pattern::new(64);
    pattern.set_event(0, 0, note(40));
    page.process_event(PatternPageEvent::Loaded(pattern, 0), &mut events);
    events.clear();
    page.process_key_event(&no_mods(), &named(NamedKey::ArrowRight), &mut events);
    // octave 10 would lift E to 124, past the last note: the editor does not take it
    assert!(!page.key_supported(&no_mods(), &typed("10")));
    // a text that names no octave changes nothing
    assert!(page.key_supported(&no_mods(), &typed("x")));
    page.process_key_event(&no_mods(), &typed("x"), &mut events);
    assert!(events.is_empty());
    // "07" names octave 7: E in octave 7 is 88
    assert!(page.key_supported(&no_mods(), &typed("07")));
    page.process_key_event(&no_mods(), &typed("07"), &mut events);
    match &events[0] {
        GlobalEvent::PatternEdit(0, PatternOperation::SetEvent { event, .. }) => assert_eq!(event.note, Some(88)),
        _ => panic!("expected a pattern edit"),
    }
    // a released key is taken whatever its text
    let released = KeyEvent { logical_key: Key::Character("10".to_string()), pressed: false, repeat: false };
    assert!(page.key_supported(&no_mods(), &released));
}
