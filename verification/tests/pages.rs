use std::collections::VecDeque;
use torque_tracker::draw_buffer::DrawBuffer;
use torque_tracker::events::{GlobalEvent, SongOperation};
use torque_tracker::input::{Key, KeyEvent, Modifiers, NamedKey};
use torque_tracker::ui::header::HeaderEvent;
use torque_tracker::ui::pages::order_list::{Mode, OrderListPage, OrderListPageEvent};
use torque_tracker::ui::pages::pattern::PatternPageEvent;
use torque_tracker::ui::pages::sample_list::{SampleList, SampleListEvent};
use torque_tracker::ui::pages::song_directory_config_page::{SDCChange, SongDirectoryConfigPage};
use torque_tracker::ui::pages::{AllPages, PageEvent, PageResponse, PagesEnum};

fn no_mods() -> Modifiers {
    Modifiers { shift: false, control: false, alt: false, super_key: false }
}

fn named(key: NamedKey) -> KeyEvent {
    KeyEvent { logical_key: Key::Named(key), pressed: true, repeat: false }
}

#[test]
fn function_keys_switch_pages() {
    let mut pages = AllPages::new();
    let mut events = VecDeque::new();
    assert_eq!(pages.get_title(), "Song Variables & Directory Configuration (F12)");
    assert_eq!(pages.process_key_event(&no_mods(), &named(NamedKey::F2), &mut events), PageResponse::RequestRedraw);
    assert_eq!(pages.get_title(), "Pattern Editor (F2)");
    pages.process_key_event(&no_mods(), &named(NamedKey::F3), &mut events);
    assert_eq!(pages.get_title(), "Sample List (F3)");
    pages.process_key_event(&no_mods(), &named(NamedKey::F1), &mut events);
    assert_eq!(pages.get_title(), "Help");
    assert!(events.is_empty());
}

#[test]
fn f11_switches_the_order_list_mode() {
    let mut pages = AllPages::new();
    let mut events = VecDeque::new();
    pages.process_key_event(&no_mods(), &named(NamedKey::F11), &mut events);
    assert_eq!(pages.get_title(), "Order List and Panning (F11)");
    pages.process_key_event(&no_mods(), &named(NamedKey::F11), &mut events);
    assert_eq!(pages.get_title(), "Order List and Channel Volume (F11)");
    pages.process_key_event(&no_mods(), &named(NamedKey::F11), &mut events);
    assert_eq!(pages.get_title(), "Order List and Panning (F11)");
    // coming back to the order list starts in panning mode
    pages.process_key_event(&no_mods(), &named(NamedKey::F11), &mut events);
    pages.process_key_event(&no_mods(), &named(NamedKey::F1), &mut events);
    pages.process_key_event(&no_mods(), &named(NamedKey::F11), &mut events);
    assert_eq!(pages.get_title(), "Order List and Panning (F11)");
}

#[test]
fn switching_to_the_shown_page_needs_no_redraw() {
    let mut pages = AllPages::new();
    assert_eq!(pages.switch_page(PagesEnum::SongDirectoryConfig), PageResponse::Nothing);
    assert_eq!(pages.switch_page(PagesEnum::Help), PageResponse::RequestRedraw);
}

#[test]
fn function_keys_with_modifiers_go_to_the_page() {
    let mut pages = AllPages::new();
    let mut events = VecDeque::new();
    let shift = Modifiers { shift: true, control: false, alt: false, super_key: false };
    pages.process_key_event(&shift, &named(NamedKey::F2), &mut events);
    assert_eq!(pages.get_title(), "Song Variables & Directory Configuration (F12)");
}

#[test]
fn events_for_hidden_pages_need_no_redraw() {
    let mut pages = AllPages::new();
    let mut events = VecDeque::new();
    let shown = pages.process_page_event(PageEvent::Sdc(SDCChange::InitialTempo(100)), &mut events);
    assert_eq!(shown, PageResponse::RequestRedraw);
    let hidden = pages.process_page_event(PageEvent::SampleList(SampleListEvent::SelectSample(3)), &mut events);
    assert_eq!(hidden, PageResponse::Nothing);
    // the sample list still took it and told the header
    assert!(matches!(events.back(), Some(GlobalEvent::Header(HeaderEvent::SetSample(3, _)))));
    let refused = pages.process_page_event(PageEvent::Sdc(SDCChange::InitialTempo(300)), &mut events);
    assert_eq!(refused, PageResponse::Nothing);
}

#[test]
fn page_events_are_checked() {
    let pages = AllPages::new();
    // no slider is selected on the order list yet
    assert!(!pages.accepts_page_event(&PageEvent::OrderList(OrderListPageEvent::SetVolumeCurrent(3))));
    assert!(!pages.accepts_page_event(&PageEvent::SampleList(SampleListEvent::SelectSample(100))));
    assert!(pages.accepts_page_event(&PageEvent::SampleList(SampleListEvent::SelectSample(99))));
    assert!(pages.accepts_page_event(&PageEvent::Pattern(PatternPageEvent::SetSampleInstr(2))));
}

#[test]
fn drawing_the_title_row() {
    let mut pages = AllPages::new();
    let mut buffer = DrawBuffer::new();
    pages.draw(&mut buffer);
    let dots = buffer.get_raw_color(1);
    let bg = buffer.get_raw_color(2);
    // the dotted line: every other pixel of the fourth pixel row of row 11, from column 1
    assert_eq!(buffer.framebuffer[(11 * 8 + 3) * 640 + 8], dots);
    assert_eq!(buffer.framebuffer[(11 * 8 + 3) * 640 + 9], bg);
    assert_eq!(buffer.framebuffer[(11 * 8 + 2) * 640 + 8], bg);
}

#[test]
fn song_variables_take_values_inside_their_bounds() {
    let mut page = SongDirectoryConfigPage::new();
    assert_eq!(page.ui_change(SDCChange::SetSongName("my song".to_string())), PageResponse::RequestRedraw);
    assert_eq!(page.ui_change(SDCChange::SetSongName("söng".to_string())), PageResponse::Nothing);
    assert_eq!(page.ui_change(SDCChange::InitialSpeed(0)), PageResponse::Nothing);
    assert_eq!(page.ui_change(SDCChange::InitialSpeed(1)), PageResponse::RequestRedraw);
    assert_eq!(page.ui_change(SDCChange::GlobalVolume(129)), PageResponse::Nothing);
    assert_eq!(page.ui_change(SDCChange::GlobalVolume(128)), PageResponse::RequestRedraw);
}

#[test]
fn song_variables_tab_through_the_fields() {
    let mut page = SongDirectoryConfigPage::new();
    let mut events = VecDeque::new();
    assert_eq!(page.process_key_event(&no_mods(), &named(NamedKey::Tab), &mut events), PageResponse::RequestRedraw);
    // the tempo slider is selected: the right arrow moves it, and the song takes the tempo
    assert_eq!(page.process_key_event(&no_mods(), &named(NamedKey::ArrowRight), &mut events), PageResponse::RequestRedraw);
    assert_eq!(events.len(), 1);
    assert!(matches!(events[0], GlobalEvent::SongOp(SongOperation::SetInitialTempo(126))));
    // speed and volume go to their own settings
    page.process_key_event(&no_mods(), &named(NamedKey::Tab), &mut events);
    page.process_key_event(&no_mods(), &named(NamedKey::ArrowLeft), &mut events);
    assert!(matches!(events[1], GlobalEvent::SongOp(SongOperation::SetInitialSpeed(5))));
    page.process_key_event(&no_mods(), &named(NamedKey::Tab), &mut events);
    page.process_key_event(&no_mods(), &named(NamedKey::ArrowLeft), &mut events);
    assert!(matches!(events[2], GlobalEvent::SongOp(SongOperation::SetGlobalVol(127))));
    // at its end a slider does not move, and nothing goes to the song
    page.process_key_event(&no_mods(), &named(NamedKey::ArrowRight), &mut events);
    assert!(matches!(events[3], GlobalEvent::SongOp(SongOperation::SetGlobalVol(128))));
    assert_eq!(page.process_key_event(&no_mods(), &named(NamedKey::ArrowRight), &mut events), PageResponse::Nothing);
    assert_eq!(events.len(), 4);
}

#[test]
fn a_digit_on_a_channel_asks_for_its_panning() {
    let mut page = OrderListPage::new();
    let mut events = VecDeque::new();
    page.process_key_event(&no_mods(), &named(NamedKey::Tab), &mut events);
    let digit = KeyEvent { logical_key: Key::Character("5".to_string()), pressed: true, repeat: false };
    page.process_key_event(&no_mods(), &digit, &mut events);
    let mut dialog = match events.pop_front() {
        Some(GlobalEvent::OpenDialog(d)) => d,
        _ => panic!("expected a dialog"),
    };
    let enter = KeyEvent { logical_key: Key::Named(NamedKey::Enter), pressed: true, repeat: false };
    dialog.process_input(&enter, &no_mods(), &mut events);
    assert!(matches!(events[0], GlobalEvent::PageEvent(PageEvent::OrderList(OrderListPageEvent::SetPanCurrent(5)))));
}

#[test]
fn sample_list_selection_and_names() {
    let mut list = SampleList::new();
    let mut events = VecDeque::new();
    list.process_event(SampleListEvent::SetSample(0, "kick".to_string()), &mut events);
    // the selected slot changed: the header learns the name
    assert!(matches!(events.back(), Some(GlobalEvent::Header(HeaderEvent::SetSample(0, name))) if name == "kick"));
    events.clear();
    assert_eq!(list.process_key_event(&no_mods(), &named(NamedKey::ArrowDown), &mut events), PageResponse::RequestRedraw);
    assert_eq!(events.len(), 2);
    assert!(matches!(events[1], GlobalEvent::PageEvent(PageEvent::Pattern(PatternPageEvent::SetSampleInstr(1)))));
    events.clear();
    assert_eq!(list.process_key_event(&no_mods(), &named(NamedKey::Enter), &mut events), PageResponse::Nothing);
    assert!(matches!(events[0], GlobalEvent::PickSample(1)));
}

#[test]
fn order_list_starts_in_panning_mode() {
    let mut page = OrderListPage::new();
    assert_eq!(page.mode(), Mode::Panning);
    page.switch_mode();
    assert_eq!(page.mode(), Mode::Volume);
    page.reset_mode();
    assert_eq!(page.mode(), Mode::Panning);
}

#[test]
fn selected_sample_stays_shown() {
    let mut list = SampleList::new();
    let mut events = VecDeque::new();
    list.process_event(SampleListEvent::SelectSample(60), &mut events);
    let mut buffer = DrawBuffer::new();
    list.draw(&mut buffer);
    let selected_bg = buffer.get_raw_color(14);
    // 35 rows from row 13 on; sample 60 is the last one shown, in row 47
    let cell = |cx: usize, cy: usize| buffer.framebuffer[(cy * 8 + 4) * 640 + cx * 8 + 4];
    assert_eq!(cell(6, 47), selected_bg);
    assert_ne!(cell(6, 46), selected_bg);
    list.process_event(SampleListEvent::SelectSample(0), &mut events);
    let mut buffer = DrawBuffer::new();
    list.draw(&mut buffer);
    let cell = |cx: usize, cy: usize| buffer.framebuffer[(cy * 8 + 4) * 640 + cx * 8 + 4];
    assert_eq!(cell(6, 13), selected_bg);
}

#[test]
fn pages_leave_the_header_rows_alone() {
    let mut pages = AllPages::new();
    for page in [PagesEnum::Help, PagesEnum::SongDirectoryConfig, PagesEnum::Pattern, PagesEnum::OrderList, PagesEnum::SampleList] {
        pages.switch_page(page);
        let mut buffer = DrawBuffer::new();
        buffer.clear(5);
        let marker = buffer.get_raw_color(5);
        pages.draw(&mut buffer);
        // rows 0 to 10 belong to the header; row 11 gets the title
        assert!(buffer.framebuffer[..88 * 640].iter().all(|p| *p == marker));
        // drawing again without the constant parts leaves row 11 as well
        let title_row: Vec<u32> = buffer.framebuffer[88 * 640..96 * 640].to_vec();
        pages.draw(&mut buffer);
        assert_eq!(&buffer.framebuffer[88 * 640..96 * 640], &title_row[..]);
        assert!(buffer.framebuffer[..88 * 640].iter().all(|p| *p == marker));
    }
}

#[test]
fn order_list_cursor_and_sliders() {
    let mut page = OrderListPage::new();
    let mut events = VecDeque::new();
    // tab moves from the orders to the channels, where the arrows move the sliders
    assert_eq!(page.process_key_event(&no_mods(), &named(NamedKey::Tab), &mut events), PageResponse::RequestRedraw);
    assert!(page.accepts_event(&OrderListPageEvent::SetPanCurrent(10)));
    assert_eq!(page.process_event(OrderListPageEvent::SetPanCurrent(10)), PageResponse::RequestRedraw);
    assert!(page.accepts_event(&OrderListPageEvent::SetPanCurrent(64)));
    assert!(!page.accepts_event(&OrderListPageEvent::SetPanCurrent(65)));
    assert_eq!(page.process_key_event(&no_mods(), &named(NamedKey::ArrowRight), &mut events), PageResponse::RequestRedraw);
    // typing a digit on a slider opens the dialog for its value
    let digit = KeyEvent { logical_key: Key::Character("5".to_string()), pressed: true, repeat: false };
    page.process_key_event(&no_mods(), &digit, &mut events);
    assert!(matches!(events.back(), Some(GlobalEvent::OpenDialog(_))));
}

#[test]
fn the_order_cursor_stays_in_the_list() {
    let mut page = OrderListPage::new();
    let mut events = VecDeque::new();
    assert_eq!(page.process_key_event(&no_mods(), &named(NamedKey::ArrowUp), &mut events), PageResponse::Nothing);
    for _ in 0..20 {
        page.process_key_event(&no_mods(), &named(NamedKey::PageDown), &mut events);
    }
    // the cursor stops at the last order
    assert_eq!(page.process_key_event(&no_mods(), &named(NamedKey::ArrowDown), &mut events), PageResponse::Nothing);
    assert_eq!(page.process_key_event(&no_mods(), &named(NamedKey::ArrowUp), &mut events), PageResponse::RequestRedraw);
    for _ in 0..4 {
        assert_eq!(page.process_key_event(&no_mods(), &named(NamedKey::ArrowRight), &mut events), PageResponse::RequestRedraw);
    }
    let mut buffer = DrawBuffer::new();
    page.draw(&mut buffer);
    // from the channels, up stops at the first channel
    page.process_key_event(&no_mods(), &named(NamedKey::Tab), &mut events);
    assert_eq!(page.process_key_event(&no_mods(), &named(NamedKey::ArrowUp), &mut events), PageResponse::Nothing);
    assert!(events.is_empty());
}

#[test]
fn the_order_list_takes_longer_text_where_it_does_not_read_it() {
    let mut page = OrderListPage::new();
    let mut events = VecDeque::new();
    let text = |t: &str| KeyEvent { logical_key: Key::Character(t.to_string()), pressed: true, repeat: false };
    // on the orders a pressed key gives at most one character
    assert!(!page.accepts_key(&no_mods(), &text("ab")));
    assert!(page.accepts_key(&no_mods(), &text("")));
    assert_eq!(page.process_key_event(&no_mods(), &text(""), &mut events), PageResponse::Nothing);
    let released = KeyEvent { logical_key: Key::Character("ab".to_string()), pressed: false, repeat: false };
    assert!(page.accepts_key(&no_mods(), &released));
    assert_eq!(page.process_key_event(&no_mods(), &released, &mut events), PageResponse::Nothing);
    // on a channel the slider reads the first character only
    page.process_key_event(&no_mods(), &named(NamedKey::Tab), &mut events);
    assert!(page.accepts_key(&no_mods(), &text("ab")));
    assert_eq!(page.process_key_event(&no_mods(), &text("ab"), &mut events), PageResponse::Nothing);
    assert!(events.is_empty());
    // a value at the slider's bound is taken
    assert!(page.accepts_event(&OrderListPageEvent::SetVolumeCurrent(64)));
    assert!(page.accepts_event(&OrderListPageEvent::SetVolumeCurrent(0)));
}

#[test]
fn the_song_name_takes_one_character_at_a_time() {
    let page = SongDirectoryConfigPage::new();
    let text = KeyEvent { logical_key: Key::Character("ab".to_string()), pressed: true, repeat: false };
    assert!(!page.accepts_key(&text));
    let released = KeyEvent { logical_key: Key::Character("ab".to_string()), pressed: false, repeat: false };
    assert!(page.accepts_key(&released));
}
