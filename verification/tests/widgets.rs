use std::collections::VecDeque;
use torque_tracker::coordinates::{CharPosition, CharRect};
use torque_tracker::draw_buffer::DrawBuffer;
use torque_tracker::events::{GlobalEvent, SliderTarget};
use torque_tracker::input::{Key, KeyEvent, Modifiers, NamedKey};
use torque_tracker::ui::dialog::Dialog;
use torque_tracker::ui::widgets::button::Button;
use torque_tracker::ui::widgets::slider::{saturating_add_i16, saturating_sub_i16, BoundNumber, Slider};
use torque_tracker::ui::widgets::text_in::TextIn;
use torque_tracker::ui::widgets::text_in_scroll::TextInScroll;
use torque_tracker::ui::widgets::toggle::Toggle;
use torque_tracker::ui::widgets::toggle_button::ToggleButton;
use torque_tracker::ui::widgets::{NextWidget, StandardResponse};

fn no_mods() -> Modifiers {
    Modifiers { shift: false, control: false, alt: false, super_key: false }
}

fn named(key: NamedKey) -> KeyEvent {
    KeyEvent { logical_key: Key::Named(key), pressed: true, repeat: false }
}

fn typed(c: &str) -> KeyEvent {
    KeyEvent { logical_key: Key::Character(c.to_string()), pressed: true, repeat: false }
}

fn no_neighbours() -> NextWidget {
    NextWidget { left: None, right: None, up: None, down: None, tab: None, shift_tab: None }
}

#[test]
fn bound_number_stays_in_bounds() {
    let mut n = BoundNumber::new(5, 0, 10);
    assert_eq!(n.get(), 5);
    assert_eq!(n.try_set(11), Err(()));
    assert_eq!(n.get(), 5);
    assert_eq!(n.try_set(9), Ok(()));
    assert_eq!(n.get(), 9);
    assert_eq!(n.try_set(10), Ok(()));
    assert_eq!(n.try_set(0), Ok(()));
    assert_eq!(n.get(), 0);
    assert_eq!(n.try_set(9), Ok(()));
    n.set_saturating(100);
    assert_eq!(n.get(), 10);
    n.set_saturating(-100);
    assert_eq!(n.get(), 0);
    let m = BoundNumber::new_saturating(50, -3, 7);
    assert_eq!((m.get(), m.min(), m.max()), (7, -3, 7));
    assert_eq!(BoundNumber::new(0, -5, 8).get_middle(), -1);
}

#[test]
fn signed_saturating_arithmetic() {
    assert_eq!(saturating_add_i16(i16::MAX, 1), i16::MAX);
    assert_eq!(saturating_sub_i16(i16::MIN, 1), i16::MIN);
    assert_eq!(saturating_add_i16(3, -5), -2);
}

#[test]
fn text_in_typing_and_backspace() {
    let mut text = TextIn::new(CharPosition::new(2, 2), 5, no_neighbours());
    let r = text.process_input(&no_mods(), &typed("a"));
    assert_eq!(r.standard, StandardResponse::RequestRedraw);
    assert!(r.extra.is_some());
    text.process_input(&no_mods(), &typed("b"));
    assert_eq!(text.get_str(), "ab");
    text.process_input(&no_mods(), &named(NamedKey::Backspace));
    assert_eq!(text.get_str(), "a");
    // a non ASCII character changes nothing but asks for a redraw
    let r = text.process_input(&no_mods(), &typed("ä"));
    assert_eq!(r.standard, StandardResponse::RequestRedraw);
    assert!(r.extra.is_none());
    assert_eq!(text.get_str(), "a");
}

#[test]
fn text_in_is_cut_to_its_width() {
    let mut text = TextIn::new(CharPosition::new(0, 0), 3, no_neighbours());
    assert!(text.set_string("abcdef".to_string()).is_ok());
    assert_eq!(text.get_str(), "abc");
    assert!(text.set_string("größe".to_string()).is_err());
    assert_eq!(text.get_str(), "abc");
    for c in ["x", "y"] {
        text.process_input(&no_mods(), &typed(c));
    }
    assert_eq!(text.get_str().len(), 3);
}

#[test]
fn text_in_focus_moves_on_tab() {
    let next = NextWidget { left: None, right: None, up: None, down: Some(4), tab: Some(7), shift_tab: None };
    let mut text = TextIn::new(CharPosition::new(0, 0), 3, next);
    let r = text.process_input(&no_mods(), &named(NamedKey::Tab));
    assert_eq!(r.standard, StandardResponse::SwitchFocus(7));
    let r = text.process_input(&no_mods(), &named(NamedKey::ArrowDown));
    assert_eq!(r.standard, StandardResponse::SwitchFocus(4));
}

#[test]
fn slider_moves_with_arrows_and_opens_dialog_on_digits() {
    let mut slider = Slider::new(5, 0, 10, CharPosition::new(2, 2), 10, no_neighbours(), SliderTarget::GlobalVolume);
    let mut events = VecDeque::new();
    let r = slider.process_input(&no_mods(), &named(NamedKey::ArrowRight), &mut events);
    assert_eq!(r.standard, StandardResponse::RequestRedraw);
    assert_eq!(slider.get(), 6);
    assert!(events.is_empty());
    slider.process_input(&no_mods(), &typed("3"), &mut events);
    assert_eq!(events.len(), 1);
    assert!(matches!(events[0], GlobalEvent::OpenDialog(Dialog::Slider(_))));
    assert_eq!(slider.try_set(11), Err(()));
    assert_eq!(slider.try_set(9), Ok(9));
    assert_eq!(slider.get(), 9);
    // the bounds themselves are values the slider can take
    assert_eq!(slider.try_set(10), Ok(10));
    assert_eq!(slider.try_set(0), Ok(0));
    assert_eq!(slider.try_set(-1), Err(()));
    assert_eq!(slider.get(), 0);
}

#[test]
fn button_fires_on_release_after_press() {
    let rect = CharRect::new(2, 4, 2, 10);
    let mut button = Button::new("Ok", rect, no_neighbours(), 42u8);
    let press = named(NamedKey::Enter);
    let r = button.process_input(&no_mods(), &press);
    assert!(r.extra.is_none());
    assert!(button.is_pressed());
    let release = KeyEvent { logical_key: Key::Named(NamedKey::Enter), pressed: false, repeat: false };
    let r = button.process_input(&no_mods(), &release);
    assert_eq!(r.extra, Some(42));
    assert!(!button.is_pressed());
}

#[test]
fn toggle_cycles_through_its_variants() {
    let variants = vec![(1u8, "one"), (2u8, "two"), (3u8, "three")];
    let mut toggle = Toggle::new(CharPosition::new(1, 1), 6, no_neighbours(), variants);
    assert_eq!(toggle.get_variant(), 1);
    toggle.next();
    assert_eq!(toggle.get_variant(), 2);
    toggle.next();
    toggle.next();
    assert_eq!(toggle.get_variant(), 1);
}

#[test]
fn slider_stays_at_its_ends() {
    let mut slider = Slider::new(10, 0, 10, CharPosition::new(2, 2), 10, no_neighbours(), SliderTarget::GlobalVolume);
    let mut events = VecDeque::new();
    let r = slider.process_input(&no_mods(), &named(NamedKey::ArrowRight), &mut events);
    assert_eq!(r.standard, StandardResponse::Nothing);
    assert_eq!(slider.get(), 10);
    // shift moves by more, but not past the other end
    let shift = Modifiers { shift: true, control: false, alt: false, super_key: false };
    for _ in 0..5 {
        slider.process_input(&shift, &named(NamedKey::ArrowLeft), &mut events);
    }
    assert_eq!(slider.get(), 0);
}

#[test]
fn super_backspace_clears_the_text() {
    let mut text = TextIn::new(CharPosition::new(2, 2), 8, no_neighbours());
    assert!(text.set_string("abc".to_string()).is_ok());
    let sup = Modifiers { shift: false, control: false, alt: false, super_key: true };
    text.process_input(&sup, &named(NamedKey::Backspace));
    assert_eq!(text.get_str(), "");
}

#[test]
fn scrolling_text_input_keeps_long_text() {
    let mut text = TextInScroll::new(CharPosition::new(2, 2), 4, no_neighbours());
    for c in ["a", "b", "c", "d", "e", "f"] {
        text.process_input(&no_mods(), &typed(c));
    }
    // the text is longer than the field: it scrolls instead of being cut
    assert_eq!(text.get_str(), "abcdef");
    assert!(text.set_string("ümlaut").is_err());
    assert_eq!(text.get_str(), "abcdef");
    assert!(text.set_string("xy").is_ok());
    assert_eq!(text.get_str(), "xy");
}

#[test]
fn toggle_button_reports_its_variant() {
    let mut button = ToggleButton::new("Mono", CharRect::new(2, 4, 2, 10), no_neighbours(), 7u8);
    button.process_input(&no_mods(), &named(NamedKey::Space));
    let release = KeyEvent { logical_key: Key::Named(NamedKey::Space), pressed: false, repeat: false };
    let r = button.process_input(&no_mods(), &release);
    assert_eq!(r.extra, Some(7));
}

#[test]
fn next_widget_answers_by_direction() {
    let next = NextWidget { left: None, right: None, up: Some(1), down: Some(2), tab: Some(3), shift_tab: Some(4) };
    let shift = Modifiers { shift: true, control: false, alt: false, super_key: false };
    let r = next.process_key_event::<()>(&named(NamedKey::ArrowUp), &no_mods());
    assert_eq!(r.standard, StandardResponse::SwitchFocus(1));
    let r = next.process_key_event::<()>(&named(NamedKey::Tab), &shift);
    assert_eq!(r.standard, StandardResponse::SwitchFocus(4));
    let r = next.process_key_event::<()>(&named(NamedKey::ArrowLeft), &no_mods());
    assert_eq!(r.standard, StandardResponse::Nothing);
}

#[test]
fn a_button_is_drawn_by_how_it_is_shown_pressed() {
    let rect = CharRect::new(2, 4, 2, 10);
    let plain = Button::new("Ok", rect, no_neighbours(), 1u8);
    let mut held = Button::new("Ok", rect, no_neighbours(), 1u8);
    held.process_input(&no_mods(), &named(NamedKey::Space));
    assert!(held.is_pressed());
    let mut forced = DrawBuffer::new();
    plain.draw_overwrite_pressed(&mut forced, true, true);
    let mut own = DrawBuffer::new();
    held.draw_overwrite_pressed(&mut own, true, false);
    assert!(forced.framebuffer == own.framebuffer);
    let mut raised = DrawBuffer::new();
    plain.draw_overwrite_pressed(&mut raised, true, false);
    assert!(raised.framebuffer != own.framebuffer);
}

#[test]
fn scrolling_text_keeps_the_cursor_in_view() {
    let mut text = TextInScroll::new(CharPosition::new(2, 2), 3, no_neighbours());
    for c in ["a", "b", "c", "d", "e"] {
        text.process_input(&no_mods(), &typed(c));
    }
    for _ in 0..10 {
        text.process_input(&no_mods(), &named(NamedKey::ArrowLeft));
    }
    // at the start of the text backspace deletes forward
    text.process_input(&no_mods(), &named(NamedKey::Backspace));
    assert_eq!(text.get_str(), "bcde");
    for _ in 0..10 {
        text.process_input(&no_mods(), &named(NamedKey::ArrowRight));
    }
    text.process_input(&no_mods(), &named(NamedKey::Backspace));
    assert_eq!(text.get_str(), "bcd");
    text.process_input(&no_mods(), &typed("x"));
    assert_eq!(text.get_str(), "bcdx");
    let mut buffer = DrawBuffer::new();
    text.draw(&mut buffer, true);
}

#[test]
fn text_fields_ignore_released_keys_of_any_text() {
    let released = KeyEvent { logical_key: Key::Character("ab".to_string()), pressed: false, repeat: false };
    let mut text = TextIn::new(CharPosition::new(2, 2), 8, no_neighbours());
    let r = text.process_input(&no_mods(), &released);
    assert_eq!(r.standard, StandardResponse::Nothing);
    assert_eq!(text.get_str(), "");
    let mut scroll = TextInScroll::new(CharPosition::new(2, 2), 3, no_neighbours());
    let r = scroll.process_input(&no_mods(), &released);
    assert_eq!(r.standard, StandardResponse::Nothing);
    assert_eq!(scroll.get_str(), "");
}

#[test]
fn a_slider_reads_the_first_character_of_longer_text() {
    let mut slider = Slider::new(5, 0, 10, CharPosition::new(2, 2), 10, no_neighbours(), SliderTarget::GlobalVolume);
    let mut events = VecDeque::new();
    slider.process_input(&no_mods(), &typed("ab"), &mut events);
    assert!(events.is_empty());
    slider.process_input(&no_mods(), &typed("42"), &mut events);
    assert!(matches!(events[0], GlobalEvent::OpenDialog(Dialog::Slider(_))));
    slider.process_input(&no_mods(), &typed(""), &mut events);
    assert_eq!(events.len(), 1);
}
