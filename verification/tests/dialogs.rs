use std::collections::VecDeque;
use torque_tracker::draw_buffer::DrawBuffer;
use torque_tracker::events::{GlobalEvent, PlaybackType, SimpleEvent, SliderTarget};
use torque_tracker::input::{Key, KeyEvent, Modifiers, NamedKey};
use torque_tracker::ui::dialog::confirm::ConfirmDialog;
use torque_tracker::ui::dialog::page_menu::PageMenu;
use torque_tracker::ui::dialog::slider_dialog::SliderDialog;
use torque_tracker::ui::dialog::{Dialog, DialogManager, DialogResponse};
use torque_tracker::ui::pages::song_directory_config_page::SDCChange;
use torque_tracker::ui::pages::{PageEvent, PagesEnum};

fn no_mods() -> Modifiers {
    Modifiers { shift: false, control: false, alt: false, super_key: false }
}

fn key(key: NamedKey, pressed: bool) -> KeyEvent {
    KeyEvent { logical_key: Key::Named(key), pressed, repeat: false }
}

fn typed(c: &str) -> KeyEvent {
    KeyEvent { logical_key: Key::Character(c.to_string()), pressed: true, repeat: false }
}

#[test]
fn dialog_manager_is_a_stack() {
    let mut manager = DialogManager::new();
    assert!(!manager.is_active());
    assert!(manager.active_dialog_mut().is_none());
    manager.open_dialog(Dialog::Menu(PageMenu::main()));
    manager.open_dialog(Dialog::Menu(PageMenu::file()));
    assert!(manager.is_active());
    manager.close_dialog();
    assert!(manager.is_active());
    assert!(matches!(manager.active_dialog_mut(), Some(Dialog::Menu(_))));
    manager.close_dialog();
    assert!(!manager.is_active());
    // closing without a dialog changes nothing
    manager.close_dialog();
    assert!(!manager.is_active());
    manager.open_dialog(Dialog::Menu(PageMenu::main()));
    manager.open_dialog(Dialog::Menu(PageMenu::settings()));
    manager.close_all();
    assert!(!manager.is_active());
}

#[test]
fn confirm_dialog_ok_sends_its_event() {
    let mut dialog = ConfirmDialog::new("Close Tracker?", Some(SimpleEvent::CloseApp), None);
    let mut events = VecDeque::new();
    assert_eq!(dialog.process_input(&key(NamedKey::Enter, true), &no_mods(), &mut events), DialogResponse::Nothing);
    assert_eq!(dialog.process_input(&key(NamedKey::Enter, false), &no_mods(), &mut events), DialogResponse::Close);
    assert_eq!(events.len(), 1);
    assert!(matches!(events[0], GlobalEvent::CloseApp));
}

#[test]
fn confirm_dialog_cancel_sends_nothing() {
    let mut dialog = ConfirmDialog::new("Close Tracker?", Some(SimpleEvent::CloseApp), None);
    let mut events = VecDeque::new();
    assert_eq!(dialog.process_input(&key(NamedKey::ArrowRight, true), &no_mods(), &mut events), DialogResponse::RequestRedraw);
    dialog.process_input(&key(NamedKey::Enter, true), &no_mods(), &mut events);
    assert_eq!(dialog.process_input(&key(NamedKey::Enter, false), &no_mods(), &mut events), DialogResponse::Close);
    assert!(events.is_empty());
    let mut other = ConfirmDialog::new("Sure?", None, None);
    assert_eq!(other.process_input(&key(NamedKey::Escape, true), &no_mods(), &mut events), DialogResponse::Close);
    assert!(events.is_empty());
}

#[test]
fn page_menu_goes_to_a_page() {
    let mut menu = PageMenu::main();
    let mut events = VecDeque::new();
    menu.process_input(&key(NamedKey::ArrowDown, true), &no_mods(), &mut events);
    menu.process_input(&key(NamedKey::ArrowDown, true), &no_mods(), &mut events);
    assert_eq!(menu.process_input(&key(NamedKey::Enter, true), &no_mods(), &mut events), DialogResponse::RequestRedraw);
    assert_eq!(menu.process_input(&key(NamedKey::Enter, false), &no_mods(), &mut events), DialogResponse::Close);
    assert_eq!(events.len(), 1);
    assert!(matches!(events[0], GlobalEvent::GoToPage(PagesEnum::Pattern)));
}

#[test]
fn page_menu_opens_and_closes_sub_menus() {
    let mut menu = PageMenu::main();
    let mut events = VecDeque::new();
    // the first button opens the file menu
    menu.process_input(&key(NamedKey::Enter, true), &no_mods(), &mut events);
    assert_eq!(menu.process_input(&key(NamedKey::Enter, false), &no_mods(), &mut events), DialogResponse::RequestRedraw);
    assert!(events.is_empty());
    // escape closes the sub menu only, and the page is drawn again below it
    assert_eq!(menu.process_input(&key(NamedKey::Escape, true), &no_mods(), &mut events), DialogResponse::RequestRedraw);
    assert!(matches!(events[0], GlobalEvent::ConstRedraw));
    assert_eq!(menu.process_input(&key(NamedKey::Escape, true), &no_mods(), &mut events), DialogResponse::Close);
}

#[test]
fn playback_menu_sends_playback_events() {
    let mut menu = PageMenu::playback();
    let mut events = VecDeque::new();
    menu.process_input(&key(NamedKey::ArrowDown, true), &no_mods(), &mut events);
    menu.process_input(&key(NamedKey::Enter, true), &no_mods(), &mut events);
    assert_eq!(menu.process_input(&key(NamedKey::Enter, false), &no_mods(), &mut events), DialogResponse::Close);
    assert!(matches!(events[0], GlobalEvent::Playback(PlaybackType::Song)));
}

#[test]
fn slider_dialog_sends_the_value_entered() {
    let mut dialog = SliderDialog::new('4', 0, 64, SliderTarget::InitialSpeed);
    let mut events = VecDeque::new();
    assert_eq!(dialog.process_input(&typed("2"), &no_mods(), &mut events), DialogResponse::RequestRedraw);
    assert_eq!(dialog.process_input(&key(NamedKey::Enter, true), &no_mods(), &mut events), DialogResponse::Close);
    assert_eq!(events.len(), 1);
    assert!(matches!(events[0], GlobalEvent::PageEvent(PageEvent::Sdc(SDCChange::InitialSpeed(42)))));
}

#[test]
fn slider_dialog_drops_values_out_of_range() {
    let mut dialog = SliderDialog::new('9', 0, 64, SliderTarget::GlobalVolume);
    let mut events = VecDeque::new();
    dialog.process_input(&typed("9"), &no_mods(), &mut events);
    assert_eq!(dialog.process_input(&key(NamedKey::Enter, true), &no_mods(), &mut events), DialogResponse::Close);
    assert!(events.is_empty());
    let mut escaped = SliderDialog::new('1', 0, 64, SliderTarget::GlobalVolume);
    assert_eq!(escaped.process_input(&key(NamedKey::Escape, true), &no_mods(), &mut events), DialogResponse::Close);
    assert!(events.is_empty());
}

#[test]
fn slider_dialog_reads_signed_numbers() {
    let mut events = VecDeque::new();
    let mut minus = SliderDialog::new('-', -50, 50, SliderTarget::InitialTempo);
    minus.process_input(&typed("7"), &no_mods(), &mut events);
    minus.process_input(&key(NamedKey::Enter, true), &no_mods(), &mut events);
    assert!(matches!(events[0], GlobalEvent::PageEvent(PageEvent::Sdc(SDCChange::InitialTempo(-7)))));
    let mut plus = SliderDialog::new('+', -50, 50, SliderTarget::InitialTempo);
    plus.process_input(&typed("5"), &no_mods(), &mut events);
    plus.process_input(&key(NamedKey::Enter, true), &no_mods(), &mut events);
    assert!(matches!(events[1], GlobalEvent::PageEvent(PageEvent::Sdc(SDCChange::InitialTempo(5)))));
    // a sign alone is no number
    let mut sign = SliderDialog::new('-', -50, 50, SliderTarget::InitialTempo);
    sign.process_input(&key(NamedKey::Enter, true), &no_mods(), &mut events);
    assert_eq!(events.len(), 2);
    // letters are no number either
    let mut letters = SliderDialog::new('a', -50, 50, SliderTarget::InitialTempo);
    letters.process_input(&key(NamedKey::Enter, true), &no_mods(), &mut events);
    assert_eq!(events.len(), 2);
}

#[test]
fn quit_in_the_file_menu_asks_to_close() {
    let mut menu = PageMenu::file();
    let mut events = VecDeque::new();
    for _ in 0..6 {
        menu.process_input(&key(NamedKey::ArrowDown, true), &no_mods(), &mut events);
    }
    menu.process_input(&key(NamedKey::Enter, true), &no_mods(), &mut events);
    assert_eq!(menu.process_input(&key(NamedKey::Enter, false), &no_mods(), &mut events), DialogResponse::Close);
    assert!(matches!(events[0], GlobalEvent::CloseRequested));
}

#[test]
fn dialogs_draw_over_the_page() {
    let mut manager = DialogManager::new();
    manager.open_dialog(Dialog::Menu(PageMenu::main()));
    let mut buffer = DrawBuffer::new();
    manager.draw(&mut buffer);
    assert!(buffer.framebuffer.iter().any(|p| *p != 0));
    let mut empty = DrawBuffer::new();
    DialogManager::new().draw(&mut empty);
    assert!(empty.framebuffer.iter().all(|p| *p == 0));
}
