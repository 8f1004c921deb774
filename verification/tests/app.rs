use torque_tracker::app::{App, UserAction};
use torque_tracker::events::{GlobalEvent, SongOperation};
use torque_tracker::input::{Key, KeyEvent, NamedKey};
use torque_tracker::ui::dialog::Dialog;
use torque_tracker::ui::pages::PagesEnum;

fn key(key: NamedKey, pressed: bool) -> KeyEvent {
    KeyEvent { logical_key: Key::Named(key), pressed, repeat: false }
}

fn run_events(app: &mut App) -> Vec<UserAction> {
    let mut actions = Vec::new();
    while let Some(event) = app.next_event() {
        assert!(app.accepts_event(&event));
        actions.push(app.user_event(event));
    }
    actions
}

#[test]
fn closing_asks_first() {
    let mut app = App::new();
    app.close_requested();
    let actions = run_events(&mut app);
    assert!(matches!(actions[..], [UserAction::Redraw]));
    // the ok button is selected: pressing and releasing enter closes the tracker
    assert!(!app.key_input(key(NamedKey::Enter, true)));
    assert!(app.key_input(key(NamedKey::Enter, false)));
    let actions = run_events(&mut app);
    assert!(matches!(actions[..], [UserAction::Exit]));
}

#[test]
fn escape_opens_the_main_menu_and_closes_it() {
    let mut app = App::new();
    assert!(app.accepts_key(&key(NamedKey::Escape, true)));
    app.key_input(key(NamedKey::Escape, true));
    let actions = run_events(&mut app);
    assert!(matches!(actions[..], [UserAction::Redraw]));
    // the menu now takes the keys, and escape closes it
    assert!(app.key_input(key(NamedKey::Escape, true)));
    assert!(run_events(&mut app).is_empty());
    app.key_input(key(NamedKey::Escape, true));
    assert_eq!(run_events(&mut app).len(), 1);
}

#[test]
fn going_to_a_page_closes_the_dialogs() {
    let mut app = App::new();
    app.key_input(key(NamedKey::Escape, true));
    run_events(&mut app);
    // in the main menu, the third button goes to the pattern editor
    app.key_input(key(NamedKey::ArrowDown, true));
    app.key_input(key(NamedKey::ArrowDown, true));
    app.key_input(key(NamedKey::Enter, true));
    assert!(app.key_input(key(NamedKey::Enter, false)));
    let actions = run_events(&mut app);
    assert!(matches!(actions[..], [UserAction::Redraw]));
    assert!(app.can_draw());
    app.redraw();
    // no dialog: a key goes to the pages again
    assert!(app.key_input(key(NamedKey::F1, true)));
}

#[test]
fn outside_work_is_handed_back() {
    let mut app = App::new();
    assert!(matches!(app.user_event(GlobalEvent::LoadPattern(3)), UserAction::LoadPattern(3)));
    assert!(matches!(app.user_event(GlobalEvent::PickSample(7)), UserAction::PickSample(7)));
    assert!(matches!(app.user_event(GlobalEvent::CloseApp), UserAction::Exit));
    assert!(matches!(app.user_event(GlobalEvent::GoToPage(PagesEnum::Help)), UserAction::Redraw));
    assert!(matches!(app.user_event(GlobalEvent::OpenDialog(Dialog::Menu(torque_tracker::ui::dialog::page_menu::PageMenu::main()))), UserAction::Redraw));
}

#[test]
fn new_app_draws_the_header_frame() {
    let app = App::new();
    let bg = {
        let buffer = torque_tracker::draw_buffer::DrawBuffer::new();
        buffer.get_raw_color(2)
    };
    // the header area is filled with the background colour first
    assert_eq!(app.framebuffer()[0], bg);
    assert_eq!(app.framebuffer().len(), 640 * 400);
}

#[test]
fn the_header_stays_drawable() {
    let mut app = App::new();
    // to the pattern editor, then far down and back up
    app.key_input(key(NamedKey::F2, true));
    run_events(&mut app);
    for _ in 0..20 {
        app.key_input(key(NamedKey::PageDown, true));
        run_events(&mut app);
        assert!(app.can_draw());
    }
    app.key_input(key(NamedKey::ArrowUp, true));
    run_events(&mut app);
    assert!(app.can_draw());
    app.redraw();
    // the sample list sends its names to the header
    app.key_input(key(NamedKey::F3, true));
    app.key_input(key(NamedKey::ArrowDown, true));
    run_events(&mut app);
    assert!(app.can_draw());
    app.redraw();
}

#[test]
fn song_changes_go_to_the_event_loop() {
    let mut app = App::new();
    let op = SongOperation::SetInitialSpeed(3);
    assert!(app.accepts_event(&GlobalEvent::SongOp(op)));
    assert!(matches!(app.user_event(GlobalEvent::SongOp(op)), UserAction::SongOp(SongOperation::SetInitialSpeed(3))));
}
