//! The menus that escape opens, with their sub-menus.
use std::collections::VecDeque;
use vstd::prelude::*;
use vstd::string::*;

use crate::coordinates::{CharPosition, CharRect, PixelRect, FONT_SIZE};
use crate::draw_buffer::{on_screen, paint_pixel, DrawBuffer, Paint};
use crate::events::{GlobalEvent, PlaybackType, SimpleEvent};
use crate::input::{KeyEvent, Modifiers, NamedKey};
use crate::ui::dialog::DialogResponse;
use crate::ui::pages::PagesEnum;

verus! {

/// The menus there are.
#[derive(Debug, Clone, Copy, PartialEq, Eq, Structural)]
pub enum MenuKind {
    /// opened by escape, never from another menu
    Main,
    File,
    Playback,
    Sample,
    Instrument,
    Settings,
}

/// What a menu button does when it is clicked.
#[derive(Debug, Clone, Copy, PartialEq, Eq, Structural)]
pub enum Action {
    Menu(MenuKind),
    Page(PagesEnum),
    Event(SimpleEvent),
    NotYetImplemented,
}

/// The title of a menu.
pub open spec fn menu_name(kind: MenuKind) -> &'static str {
        match kind {
            MenuKind::Main => "Main Menu",
            MenuKind::File => "File Menu",
            MenuKind::Playback => "Playback Menu",
            MenuKind::Sample => "Sample Menu",
            MenuKind::Instrument => "Instrument Menu",
            MenuKind::Settings => "Settings Menu",
        }
}

/// Column and row of the top left corner of a menu, and its width.
pub open spec fn menu_place(kind: MenuKind) -> (int, int, int) {
        match kind {
            MenuKind::Main => (6, 11, 29),
            MenuKind::File => (25, 13, 26),
            MenuKind::Playback => (25, 13, 31),
            MenuKind::Sample => (25, 20, 29),
            MenuKind::Instrument => (20, 23, 33),
            MenuKind::Settings => (22, 25, 38),
        }
}

/// The number of buttons of a menu.
pub open spec fn menu_len(kind: MenuKind) -> int {
        match kind {
            MenuKind::Main => 10,
            MenuKind::File => 7,
            MenuKind::Playback => 9,
            MenuKind::Sample => 2,
            MenuKind::Instrument => 2,
            MenuKind::Settings => 6,
        }
}

/// Label and action of button `i` of a menu.
pub open spec fn menu_button(kind: MenuKind, i: int) -> (&'static str, Action) {
        match kind {
            MenuKind::Main => if i == 0 {
                ("File Menu...", Action::Menu(MenuKind::File))
            } else if i == 1 {
                ("Playback Menu...", Action::Menu(MenuKind::Playback))
            } else if i == 2 {
                ("View Patterns        (F2)", Action::Page(PagesEnum::Pattern))
            } else if i == 3 {
                ("Sample Menu...", Action::Menu(MenuKind::Sample))
            } else if i == 4 {
                ("Instrument Menu...", Action::Menu(MenuKind::Instrument))
            } else if i == 5 {
                ("View Orders/Panning (F11)", Action::Page(PagesEnum::OrderList))
            } else if i == 6 {
                ("View Variables      (F12)", Action::Page(PagesEnum::SongDirectoryConfig))
            } else if i == 7 {
                ("Message Editor (Shift-F9)", Action::NotYetImplemented)
            } else if i == 8 {
                ("Settings Menu...", Action::Menu(MenuKind::Settings))
            } else {
                ("Help!                (F1)", Action::Page(PagesEnum::Help))
            },
            MenuKind::File => if i == 0 {
                ("Load...           (F9)", Action::NotYetImplemented)
            } else if i == 1 {
                ("New...        (Ctrl-N)", Action::NotYetImplemented)
            } else if i == 2 {
                ("Save Current  (Ctrl-S)", Action::NotYetImplemented)
            } else if i == 3 {
                ("Save As...       (F10)", Action::NotYetImplemented)
            } else if i == 4 {
                ("Export...  (Shift-F10)", Action::NotYetImplemented)
            } else if i == 5 {
                ("Message Log (Ctrl-F11)", Action::NotYetImplemented)
            } else {
                ("Quit          (Ctrl-Q)", Action::Event(SimpleEvent::CloseRequested))
            },
            MenuKind::Playback => if i == 0 {
                ("Show Infopage          (F5)", Action::NotYetImplemented)
            } else if i == 1 {
                ("Play Song         (Ctrl-F5)", Action::Event(SimpleEvent::Playback(PlaybackType::Song)))
            } else if i == 2 {
                ("Play Pattern           (F6)", Action::Event(SimpleEvent::Playback(PlaybackType::Pattern)))
            } else if i == 3 {
                ("Play from Order  (Shift-F6)", Action::Event(SimpleEvent::Playback(PlaybackType::FromOrder)))
            } else if i == 4 {
                ("Play from Mark/Cursor  (F7)", Action::NotYetImplemented)
            } else if i == 5 {
                ("Stop                   (F8)", Action::Event(SimpleEvent::Playback(PlaybackType::Stop)))
            } else if i == 6 {
                ("Reinit Soundcard   (Ctrl-I)", Action::NotYetImplemented)
            } else if i == 7 {
                ("Driver Screen    (Shift-F5)", Action::NotYetImplemented)
            } else {
                ("Calculate Length   (Ctrl-P)", Action::NotYetImplemented)
            },
            MenuKind::Sample => if i == 0 {
                ("Sample List          (F3)", Action::Page(PagesEnum::SampleList))
            } else {
                ("Sample Library  (Ctrl-F3)", Action::NotYetImplemented)
            },
            MenuKind::Instrument => if i == 0 {
                ("Instrument List          (F4)", Action::NotYetImplemented)
            } else {
                ("Instrument Library  (Ctrl-F4)", Action::NotYetImplemented)
            },
            MenuKind::Settings => if i == 0 {
                ("Preferences             (Shift-F5)", Action::NotYetImplemented)
            } else if i == 1 {
                ("MIDI Configuration      (Shift-F1)", Action::NotYetImplemented)
            } else if i == 2 {
                ("System Configuration     (Ctrl-F1)", Action::NotYetImplemented)
            } else if i == 3 {
                ("Palette Editor          (Ctrl-F12)", Action::NotYetImplemented)
            } else if i == 4 {
                ("Font Editor            (Shift-F12)", Action::NotYetImplemented)
            } else {
                ("Toggle Fullscreen (Ctrl-Alt-Enter)", Action::NotYetImplemented)
            },
        }
}

/// The action that a button label names, for the labels that name one: a menu, a page to
/// view, quitting, or a kind of playback.
pub open spec fn named_action(label: Seq<char>) -> Option<Action> {
    if label == "File Menu..."@ {
        Some(Action::Menu(MenuKind::File))
    } else if label == "Playback Menu..."@ {
        Some(Action::Menu(MenuKind::Playback))
    } else if label == "Sample Menu..."@ {
        Some(Action::Menu(MenuKind::Sample))
    } else if label == "Instrument Menu..."@ {
        Some(Action::Menu(MenuKind::Instrument))
    } else if label == "Settings Menu..."@ {
        Some(Action::Menu(MenuKind::Settings))
    } else if label == "View Patterns        (F2)"@ {
        Some(Action::Page(PagesEnum::Pattern))
    } else if label == "View Orders/Panning (F11)"@ {
        Some(Action::Page(PagesEnum::OrderList))
    } else if label == "View Variables      (F12)"@ {
        Some(Action::Page(PagesEnum::SongDirectoryConfig))
    } else if label == "Help!                (F1)"@ {
        Some(Action::Page(PagesEnum::Help))
    } else if label == "Sample List          (F3)"@ {
        Some(Action::Page(PagesEnum::SampleList))
    } else if label == "Quit          (Ctrl-Q)"@ {
        Some(Action::Event(SimpleEvent::CloseRequested))
    } else if label == "Play Song         (Ctrl-F5)"@ {
        Some(Action::Event(SimpleEvent::Playback(PlaybackType::Song)))
    } else if label == "Play Pattern           (F6)"@ {
        Some(Action::Event(SimpleEvent::Playback(PlaybackType::Pattern)))
    } else if label == "Play from Order  (Shift-F6)"@ {
        Some(Action::Event(SimpleEvent::Playback(PlaybackType::FromOrder)))
    } else if label == "Stop                   (F8)"@ {
        Some(Action::Event(SimpleEvent::Playback(PlaybackType::Stop)))
    } else {
        None
    }
}

/// Every menu button whose label names an action does that action: the menu buttons
/// open the menu they name, the view buttons go to their page, quit asks to close the
/// tracker, and each play button starts the kind of playback its label names.
pub proof fn lemma_labels_name_actions(kind: MenuKind, i: int)
    requires
        0 <= i < menu_len(kind),
    ensures
        named_action(menu_button(kind, i).0@) matches Some(a) ==> menu_button(kind, i).1 == a,
{
    // labels of one length are told apart by the characters named below
    reveal_strlit("File Menu...");
    assert("File Menu..."@.len() == 12);
    reveal_strlit("Playback Menu...");
    assert("Playback Menu..."@.len() == 16);
    reveal_strlit("Sample Menu...");
    assert("Sample Menu..."@.len() == 14);
    reveal_strlit("Instrument Menu...");
    assert("Instrument Menu..."@.len() == 18);
    reveal_strlit("Settings Menu...");
    assert("Settings Menu..."@.len() == 16);
    reveal_strlit("View Patterns        (F2)");
    assert("View Patterns        (F2)"@.len() == 25);
    reveal_strlit("View Orders/Panning (F11)");
    assert("View Orders/Panning (F11)"@.len() == 25);
    reveal_strlit("View Variables      (F12)");
    assert("View Variables      (F12)"@.len() == 25);
    reveal_strlit("Help!                (F1)");
    assert("Help!                (F1)"@.len() == 25);
    reveal_strlit("Sample List          (F3)");
    assert("Sample List          (F3)"@.len() == 25);
    reveal_strlit("Quit          (Ctrl-Q)");
    assert("Quit          (Ctrl-Q)"@.len() == 22);
    reveal_strlit("Play Song         (Ctrl-F5)");
    assert("Play Song         (Ctrl-F5)"@.len() == 27);
    reveal_strlit("Play Pattern           (F6)");
    assert("Play Pattern           (F6)"@.len() == 27);
    reveal_strlit("Play from Order  (Shift-F6)");
    assert("Play from Order  (Shift-F6)"@.len() == 27);
    reveal_strlit("Stop                   (F8)");
    assert("Stop                   (F8)"@.len() == 27);
    match kind {
        MenuKind::Main => {
            if i == 0 {
            } else if i == 1 {
                assert("Playback Menu..."@[0] != "Settings Menu..."@[0]);
            } else if i == 2 {
                assert("View Patterns        (F2)"@[5] != "View Orders/Panning (F11)"@[5]);
                assert("View Patterns        (F2)"@[5] != "View Variables      (F12)"@[5]);
                assert("View Patterns        (F2)"@[0] != "Help!                (F1)"@[0]);
                assert("View Patterns        (F2)"@[0] != "Sample List          (F3)"@[0]);
            } else if i == 3 {
            } else if i == 4 {
            } else if i == 5 {
                assert("View Orders/Panning (F11)"@[5] != "View Patterns        (F2)"@[5]);
                assert("View Orders/Panning (F11)"@[5] != "View Variables      (F12)"@[5]);
                assert("View Orders/Panning (F11)"@[0] != "Help!                (F1)"@[0]);
                assert("View Orders/Panning (F11)"@[0] != "Sample List          (F3)"@[0]);
            } else if i == 6 {
                assert("View Variables      (F12)"@[5] != "View Patterns        (F2)"@[5]);
                assert("View Variables      (F12)"@[5] != "View Orders/Panning (F11)"@[5]);
                assert("View Variables      (F12)"@[0] != "Help!                (F1)"@[0]);
                assert("View Variables      (F12)"@[0] != "Sample List          (F3)"@[0]);
            } else if i == 7 {
                reveal_strlit("Message Editor (Shift-F9)");
                assert("Message Editor (Shift-F9)"@.len() == 25);
                assert("Message Editor (Shift-F9)"@[0] != "View Patterns        (F2)"@[0]);
                assert("Message Editor (Shift-F9)"@[0] != "View Orders/Panning (F11)"@[0]);
                assert("Message Editor (Shift-F9)"@[0] != "View Variables      (F12)"@[0]);
                assert("Message Editor (Shift-F9)"@[0] != "Help!                (F1)"@[0]);
                assert("Message Editor (Shift-F9)"@[0] != "Sample List          (F3)"@[0]);
            } else if i == 8 {
                assert("Settings Menu..."@[0] != "Playback Menu..."@[0]);
            } else {
                assert("Help!                (F1)"@[0] != "View Patterns        (F2)"@[0]);
                assert("Help!                (F1)"@[0] != "View Orders/Panning (F11)"@[0]);
                assert("Help!                (F1)"@[0] != "View Variables      (F12)"@[0]);
                assert("Help!                (F1)"@[0] != "Sample List          (F3)"@[0]);
            }
        },
        MenuKind::File => {
            if i == 0 {
                reveal_strlit("Load...           (F9)");
                assert("Load...           (F9)"@.len() == 22);
                assert("Load...           (F9)"@[0] != "Quit          (Ctrl-Q)"@[0]);
            } else if i == 1 {
                reveal_strlit("New...        (Ctrl-N)");
                assert("New...        (Ctrl-N)"@.len() == 22);
                assert("New...        (Ctrl-N)"@[0] != "Quit          (Ctrl-Q)"@[0]);
            } else if i == 2 {
                reveal_strlit("Save Current  (Ctrl-S)");
                assert("Save Current  (Ctrl-S)"@.len() == 22);
                assert("Save Current  (Ctrl-S)"@[0] != "Quit          (Ctrl-Q)"@[0]);
            } else if i == 3 {
                reveal_strlit("Save As...       (F10)");
                assert("Save As...       (F10)"@.len() == 22);
                assert("Save As...       (F10)"@[0] != "Quit          (Ctrl-Q)"@[0]);
            } else if i == 4 {
                reveal_strlit("Export...  (Shift-F10)");
                assert("Export...  (Shift-F10)"@.len() == 22);
                assert("Export...  (Shift-F10)"@[0] != "Quit          (Ctrl-Q)"@[0]);
            } else if i == 5 {
                reveal_strlit("Message Log (Ctrl-F11)");
                assert("Message Log (Ctrl-F11)"@.len() == 22);
                assert("Message Log (Ctrl-F11)"@[0] != "Quit          (Ctrl-Q)"@[0]);
            } else {
            }
        },
        MenuKind::Playback => {
            if i == 0 {
                reveal_strlit("Show Infopage          (F5)");
                assert("Show Infopage          (F5)"@.len() == 27);
                assert("Show Infopage          (F5)"@[0] != "Play Song         (Ctrl-F5)"@[0]);
                assert("Show Infopage          (F5)"@[0] != "Play Pattern           (F6)"@[0]);
                assert("Show Infopage          (F5)"@[0] != "Play from Order  (Shift-F6)"@[0]);
                assert("Show Infopage          (F5)"@[1] != "Stop                   (F8)"@[1]);
            } else if i == 1 {
                assert("Play Song         (Ctrl-F5)"@[5] != "Play Pattern           (F6)"@[5]);
                assert("Play Song         (Ctrl-F5)"@[5] != "Play from Order  (Shift-F6)"@[5]);
                assert("Play Song         (Ctrl-F5)"@[0] != "Stop                   (F8)"@[0]);
            } else if i == 2 {
                assert("Play Pattern           (F6)"@[5] != "Play Song         (Ctrl-F5)"@[5]);
                assert("Play Pattern           (F6)"@[5] != "Play from Order  (Shift-F6)"@[5]);
                assert("Play Pattern           (F6)"@[0] != "Stop                   (F8)"@[0]);
            } else if i == 3 {
                assert("Play from Order  (Shift-F6)"@[5] != "Play Song         (Ctrl-F5)"@[5]);
                assert("Play from Order  (Shift-F6)"@[5] != "Play Pattern           (F6)"@[5]);
                assert("Play from Order  (Shift-F6)"@[0] != "Stop                   (F8)"@[0]);
            } else if i == 4 {
                reveal_strlit("Play from Mark/Cursor  (F7)");
                assert("Play from Mark/Cursor  (F7)"@.len() == 27);
                assert("Play from Mark/Cursor  (F7)"@[5] != "Play Song         (Ctrl-F5)"@[5]);
                assert("Play from Mark/Cursor  (F7)"@[5] != "Play Pattern           (F6)"@[5]);
                assert("Play from Mark/Cursor  (F7)"@[10] != "Play from Order  (Shift-F6)"@[10]);
                assert("Play from Mark/Cursor  (F7)"@[0] != "Stop                   (F8)"@[0]);
            } else if i == 5 {
                assert("Stop                   (F8)"@[0] != "Play Song         (Ctrl-F5)"@[0]);
                assert("Stop                   (F8)"@[0] != "Play Pattern           (F6)"@[0]);
                assert("Stop                   (F8)"@[0] != "Play from Order  (Shift-F6)"@[0]);
            } else if i == 6 {
                reveal_strlit("Reinit Soundcard   (Ctrl-I)");
                assert("Reinit Soundcard   (Ctrl-I)"@.len() == 27);
                assert("Reinit Soundcard   (Ctrl-I)"@[0] != "Play Song         (Ctrl-F5)"@[0]);
                assert("Reinit Soundcard   (Ctrl-I)"@[0] != "Play Pattern           (F6)"@[0]);
                assert("Reinit Soundcard   (Ctrl-I)"@[0] != "Play from Order  (Shift-F6)"@[0]);
                assert("Reinit Soundcard   (Ctrl-I)"@[0] != "Stop                   (F8)"@[0]);
            } else if i == 7 {
                reveal_strlit("Driver Screen    (Shift-F5)");
                assert("Driver Screen    (Shift-F5)"@.len() == 27);
                assert("Driver Screen    (Shift-F5)"@[0] != "Play Song         (Ctrl-F5)"@[0]);
                assert("Driver Screen    (Shift-F5)"@[0] != "Play Pattern           (F6)"@[0]);
                assert("Driver Screen    (Shift-F5)"@[0] != "Play from Order  (Shift-F6)"@[0]);
                assert("Driver Screen    (Shift-F5)"@[0] != "Stop                   (F8)"@[0]);
            } else {
                reveal_strlit("Calculate Length   (Ctrl-P)");
                assert("Calculate Length   (Ctrl-P)"@.len() == 27);
                assert("Calculate Length   (Ctrl-P)"@[0] != "Play Song         (Ctrl-F5)"@[0]);
                assert("Calculate Length   (Ctrl-P)"@[0] != "Play Pattern           (F6)"@[0]);
                assert("Calculate Length   (Ctrl-P)"@[0] != "Play from Order  (Shift-F6)"@[0]);
                assert("Calculate Length   (Ctrl-P)"@[0] != "Stop                   (F8)"@[0]);
            }
        },
        MenuKind::Sample => {
            if i == 0 {
                assert("Sample List          (F3)"@[0] != "View Patterns        (F2)"@[0]);
                assert("Sample List          (F3)"@[0] != "View Orders/Panning (F11)"@[0]);
                assert("Sample List          (F3)"@[0] != "View Variables      (F12)"@[0]);
                assert("Sample List          (F3)"@[0] != "Help!                (F1)"@[0]);
            } else {
                reveal_strlit("Sample Library  (Ctrl-F3)");
                assert("Sample Library  (Ctrl-F3)"@.len() == 25);
                assert("Sample Library  (Ctrl-F3)"@[0] != "View Patterns        (F2)"@[0]);
                assert("Sample Library  (Ctrl-F3)"@[0] != "View Orders/Panning (F11)"@[0]);
                assert("Sample Library  (Ctrl-F3)"@[0] != "View Variables      (F12)"@[0]);
                assert("Sample Library  (Ctrl-F3)"@[0] != "Help!                (F1)"@[0]);
                assert("Sample Library  (Ctrl-F3)"@[9] != "Sample List          (F3)"@[9]);
            }
        },
        MenuKind::Instrument => {
            if i == 0 {
                reveal_strlit("Instrument List          (F4)");
                assert("Instrument List          (F4)"@.len() == 29);
            } else {
                reveal_strlit("Instrument Library  (Ctrl-F4)");
                assert("Instrument Library  (Ctrl-F4)"@.len() == 29);
            }
        },
        MenuKind::Settings => {
            if i == 0 {
                reveal_strlit("Preferences             (Shift-F5)");
                assert("Preferences             (Shift-F5)"@.len() == 34);
            } else if i == 1 {
                reveal_strlit("MIDI Configuration      (Shift-F1)");
                assert("MIDI Configuration      (Shift-F1)"@.len() == 34);
            } else if i == 2 {
                reveal_strlit("System Configuration     (Ctrl-F1)");
                assert("System Configuration     (Ctrl-F1)"@.len() == 34);
            } else if i == 3 {
                reveal_strlit("Palette Editor          (Ctrl-F12)");
                assert("Palette Editor          (Ctrl-F12)"@.len() == 34);
            } else if i == 4 {
                reveal_strlit("Font Editor            (Shift-F12)");
                assert("Font Editor            (Shift-F12)"@.len() == 34);
            } else {
                reveal_strlit("Toggle Fullscreen (Ctrl-Alt-Enter)");
                assert("Toggle Fullscreen (Ctrl-Alt-Enter)"@.len() == 34);
            }
        },
    }
}

/// The character cells of a menu: its rows grow with its buttons.
pub open spec fn menu_rect(kind: MenuKind) -> (int, int, int, int) {
    let (x, y, width) = menu_place(kind);
    (y, y + 5 + 3 * menu_len(kind), x, x + width + 3)
}

fn menu_name_exec(kind: MenuKind) -> (r: &'static str)
    ensures
        r == menu_name(kind),
        is_ascii(r),
        menu_place(kind).0 + 7 + r@.len() <= 80,
{
    match kind {
        MenuKind::Main => {
            proof {
                reveal_strlit("Main Menu");
            }
            "Main Menu"
        },
        MenuKind::File => {
            proof {
                reveal_strlit("File Menu");
            }
            "File Menu"
        },
        MenuKind::Playback => {
            proof {
                reveal_strlit("Playback Menu");
            }
            "Playback Menu"
        },
        MenuKind::Sample => {
            proof {
                reveal_strlit("Sample Menu");
            }
            "Sample Menu"
        },
        MenuKind::Instrument => {
            proof {
                reveal_strlit("Instrument Menu");
            }
            "Instrument Menu"
        },
        MenuKind::Settings => {
            proof {
                reveal_strlit("Settings Menu");
            }
            "Settings Menu"
        },
    }
}

fn menu_place_exec(kind: MenuKind) -> (r: (usize, usize, usize))
    ensures
        (r.0 as int, r.1 as int, r.2 as int) == menu_place(kind),
        r.1 + 5 + 3 * menu_len(kind) < 50,
        r.0 + r.2 + 3 < 80,
        r.2 >= 4,
{
    match kind {
        MenuKind::Main => (6, 11, 29),
        MenuKind::File => (25, 13, 26),
        MenuKind::Playback => (25, 13, 31),
        MenuKind::Sample => (25, 20, 29),
        MenuKind::Instrument => (20, 23, 33),
        MenuKind::Settings => (22, 25, 38),
    }
}

fn menu_len_exec(kind: MenuKind) -> (r: usize)
    ensures
        r == menu_len(kind),
        1 <= r <= 10,
{
    match kind {
        MenuKind::Main => 10,
        MenuKind::File => 7,
        MenuKind::Playback => 9,
        MenuKind::Sample => 2,
        MenuKind::Instrument => 2,
        MenuKind::Settings => 6,
    }
}

fn menu_button_exec(kind: MenuKind, i: usize) -> (r: (&'static str, Action))
    requires
        i < menu_len(kind),
    ensures
        r == menu_button(kind, i as int),
        is_ascii(r.0),
        menu_place(kind).0 + 4 + r.0@.len() <= 80,
{
    match kind {
        MenuKind::Main => {
            if i == 0 {
                proof {
                    reveal_strlit("File Menu...");
                }
                ("File Menu...", Action::Menu(MenuKind::File))
            } else if i == 1 {
                proof {
                    reveal_strlit("Playback Menu...");
                }
                ("Playback Menu...", Action::Menu(MenuKind::Playback))
            } else if i == 2 {
                proof {
                    reveal_strlit("View Patterns        (F2)");
                }
                ("View Patterns        (F2)", Action::Page(PagesEnum::Pattern))
            } else if i == 3 {
                proof {
                    reveal_strlit("Sample Menu...");
                }
                ("Sample Menu...", Action::Menu(MenuKind::Sample))
            } else if i == 4 {
                proof {
                    reveal_strlit("Instrument Menu...");
                }
                ("Instrument Menu...", Action::Menu(MenuKind::Instrument))
            } else if i == 5 {
                proof {
                    reveal_strlit("View Orders/Panning (F11)");
                }
                ("View Orders/Panning (F11)", Action::Page(PagesEnum::OrderList))
            } else if i == 6 {
                proof {
                    reveal_strlit("View Variables      (F12)");
                }
                ("View Variables      (F12)", Action::Page(PagesEnum::SongDirectoryConfig))
            } else if i == 7 {
                proof {
                    reveal_strlit("Message Editor (Shift-F9)");
                }
                ("Message Editor (Shift-F9)", Action::NotYetImplemented)
            } else if i == 8 {
                proof {
                    reveal_strlit("Settings Menu...");
                }
                ("Settings Menu...", Action::Menu(MenuKind::Settings))
            } else {
                proof {
                    reveal_strlit("Help!                (F1)");
                }
                ("Help!                (F1)", Action::Page(PagesEnum::Help))
            }
        },
        MenuKind::File => {
            if i == 0 {
                proof {
                    reveal_strlit("Load...           (F9)");
                }
                ("Load...           (F9)", Action::NotYetImplemented)
            } else if i == 1 {
                proof {
                    reveal_strlit("New...        (Ctrl-N)");
                }
                ("New...        (Ctrl-N)", Action::NotYetImplemented)
            } else if i == 2 {
                proof {
                    reveal_strlit("Save Current  (Ctrl-S)");
                }
                ("Save Current  (Ctrl-S)", Action::NotYetImplemented)
            } else if i == 3 {
                proof {
                    reveal_strlit("Save As...       (F10)");
                }
                ("Save As...       (F10)", Action::NotYetImplemented)
            } else if i == 4 {
                proof {
                    reveal_strlit("Export...  (Shift-F10)");
                }
                ("Export...  (Shift-F10)", Action::NotYetImplemented)
            } else if i == 5 {
                proof {
                    reveal_strlit("Message Log (Ctrl-F11)");
                }
                ("Message Log (Ctrl-F11)", Action::NotYetImplemented)
            } else {
                proof {
                    reveal_strlit("Quit          (Ctrl-Q)");
                }
                ("Quit          (Ctrl-Q)", Action::Event(SimpleEvent::CloseRequested))
            }
        },
        MenuKind::Playback => {
            if i == 0 {
                proof {
                    reveal_strlit("Show Infopage          (F5)");
                }
                ("Show Infopage          (F5)", Action::NotYetImplemented)
            } else if i == 1 {
                proof {
                    reveal_strlit("Play Song         (Ctrl-F5)");
                }
                ("Play Song         (Ctrl-F5)", Action::Event(SimpleEvent::Playback(PlaybackType::Song)))
            } else if i == 2 {
                proof {
                    reveal_strlit("Play Pattern           (F6)");
                }
                ("Play Pattern           (F6)", Action::Event(SimpleEvent::Playback(PlaybackType::Pattern)))
            } else if i == 3 {
                proof {
                    reveal_strlit("Play from Order  (Shift-F6)");
                }
                ("Play from Order  (Shift-F6)", Action::Event(SimpleEvent::Playback(PlaybackType::FromOrder)))
            } else if i == 4 {
                proof {
                    reveal_strlit("Play from Mark/Cursor  (F7)");
                }
                ("Play from Mark/Cursor  (F7)", Action::NotYetImplemented)
            } else if i == 5 {
                proof {
                    reveal_strlit("Stop                   (F8)");
                }
                ("Stop                   (F8)", Action::Event(SimpleEvent::Playback(PlaybackType::Stop)))
            } else if i == 6 {
                proof {
                    reveal_strlit("Reinit Soundcard   (Ctrl-I)");
                }
                ("Reinit Soundcard   (Ctrl-I)", Action::NotYetImplemented)
            } else if i == 7 {
                proof {
                    reveal_strlit("Driver Screen    (Shift-F5)");
                }
                ("Driver Screen    (Shift-F5)", Action::NotYetImplemented)
            } else {
                proof {
                    reveal_strlit("Calculate Length   (Ctrl-P)");
                }
                ("Calculate Length   (Ctrl-P)", Action::NotYetImplemented)
            }
        },
        MenuKind::Sample => {
            if i == 0 {
                proof {
                    reveal_strlit("Sample List          (F3)");
                }
                ("Sample List          (F3)", Action::Page(PagesEnum::SampleList))
            } else {
                proof {
                    reveal_strlit("Sample Library  (Ctrl-F3)");
                }
                ("Sample Library  (Ctrl-F3)", Action::NotYetImplemented)
            }
        },
        MenuKind::Instrument => {
            if i == 0 {
                proof {
                    reveal_strlit("Instrument List          (F4)");
                }
                ("Instrument List          (F4)", Action::NotYetImplemented)
            } else {
                proof {
                    reveal_strlit("Instrument Library  (Ctrl-F4)");
                }
                ("Instrument Library  (Ctrl-F4)", Action::NotYetImplemented)
            }
        },
        MenuKind::Settings => {
            if i == 0 {
                proof {
                    reveal_strlit("Preferences             (Shift-F5)");
                }
                ("Preferences             (Shift-F5)", Action::NotYetImplemented)
            } else if i == 1 {
                proof {
                    reveal_strlit("MIDI Configuration      (Shift-F1)");
                }
                ("MIDI Configuration      (Shift-F1)", Action::NotYetImplemented)
            } else if i == 2 {
                proof {
                    reveal_strlit("System Configuration     (Ctrl-F1)");
                }
                ("System Configuration     (Ctrl-F1)", Action::NotYetImplemented)
            } else if i == 3 {
                proof {
                    reveal_strlit("Palette Editor          (Ctrl-F12)");
                }
                ("Palette Editor          (Ctrl-F12)", Action::NotYetImplemented)
            } else if i == 4 {
                proof {
                    reveal_strlit("Font Editor            (Shift-F12)");
                }
                ("Font Editor            (Shift-F12)", Action::NotYetImplemented)
            } else {
                proof {
                    reveal_strlit("Toggle Fullscreen (Ctrl-Alt-Enter)");
                }
                ("Toggle Fullscreen (Ctrl-Alt-Enter)", Action::NotYetImplemented)
            }
        },
    }
}

/// A menu, and the sub-menu opened from it, if any.
pub struct PageMenu {
    kind: MenuKind,
    selected: usize,
    pressed: bool,
    sub_menu: Option<Box<PageMenu>>,
}

impl PageMenu {
    const BACKGROUND_COLOR: u8 = 2;
    const TOPLEFT_COLOR: u8 = 3;
    const BOTRIGHT_COLOR: u8 = 1;

    #[verifier::type_invariant]
    spec fn inv(self) -> bool {
        self.selected < menu_len(self.kind)
    }

    pub closed spec fn spec_kind(&self) -> MenuKind {
        self.kind
    }

    pub closed spec fn spec_selected(&self) -> int {
        self.selected as int
    }

    pub closed spec fn spec_pressed(&self) -> bool {
        self.pressed
    }

    pub closed spec fn spec_sub_menu(&self) -> Option<Box<PageMenu>> {
        self.sub_menu
    }

    /// The menu of `kind` with the given state.
    pub closed spec fn make(kind: MenuKind, selected: int, pressed: bool, sub_menu: Option<Box<PageMenu>>) -> PageMenu {
        PageMenu { kind, selected: selected as usize, pressed, sub_menu }
    }

    /// The menu of `kind` as it opens: first button selected, nothing pressed.
    pub open spec fn opened(kind: MenuKind) -> PageMenu {
        Self::make(kind, 0, false, None)
    }

    fn of(kind: MenuKind) -> (r: Self)
        ensures
            r == Self::opened(kind),
    {
        let _ = menu_len_exec(kind);
        PageMenu { kind, selected: 0, pressed: false, sub_menu: None }
    }

    pub fn main() -> (r: Self)
        ensures
            r == Self::opened(MenuKind::Main),
    {
        Self::of(MenuKind::Main)
    }

    pub fn file() -> (r: Self)
        ensures
            r == Self::opened(MenuKind::File),
    {
        Self::of(MenuKind::File)
    }

    pub fn playback() -> (r: Self)
        ensures
            r == Self::opened(MenuKind::Playback),
    {
        Self::of(MenuKind::Playback)
    }

    pub fn sample() -> (r: Self)
        ensures
            r == Self::opened(MenuKind::Sample),
    {
        Self::of(MenuKind::Sample)
    }

    pub fn instrument() -> (r: Self)
        ensures
            r == Self::opened(MenuKind::Instrument),
    {
        Self::of(MenuKind::Instrument)
    }

    pub fn settings() -> (r: Self)
        ensures
            r == Self::opened(MenuKind::Settings),
    {
        Self::of(MenuKind::Settings)
    }

    /// What one key event does to the menu: the menu afterwards, the events it sends and
    /// its response. Escape closes the open sub-menu, or else the menu; with a sub-menu
    /// open all other keys go to it. Enter pressed presses the selected button, released
    /// it clicks a pressed button: a menu button opens that menu, a page button goes to
    /// the page and an event button sends the event, both closing the menu. Up and down
    /// select the neighbouring button.
    pub open spec fn step(self, key_event: KeyEvent, modifiers: Modifiers) -> (PageMenu, Seq<GlobalEvent>, DialogResponse)
        decreases self,
    {
        let key = key_event.logical_key;
        let kind = self.spec_kind();
        let sel = self.spec_selected();
        if key_event.pressed && key.is_named(NamedKey::Escape) {
            if self.spec_sub_menu() is Some {
                (
                    Self::make(kind, sel, self.spec_pressed(), None),
                    seq![GlobalEvent::ConstRedraw],
                    DialogResponse::RequestRedraw,
                )
            } else {
                (self, Seq::empty(), DialogResponse::Close)
            }
        } else if self.spec_sub_menu() is Some {
            let (sub, events, response) = (*self.spec_sub_menu().unwrap()).step(key_event, modifiers);
            (Self::make(kind, sel, self.spec_pressed(), Some(Box::new(sub))), events, response)
        } else if key.is_named(NamedKey::Enter) && key_event.pressed {
            (Self::make(kind, sel, true, None), Seq::empty(), DialogResponse::RequestRedraw)
        } else if key.is_named(NamedKey::Enter) && self.spec_pressed() {
            let released = Self::make(kind, sel, false, None);
            match menu_button(kind, sel).1 {
                Action::Menu(m) => (
                    Self::make(kind, sel, false, Some(Box::new(Self::opened(m)))),
                    Seq::empty(),
                    DialogResponse::RequestRedraw,
                ),
                Action::Page(p) => (released, seq![GlobalEvent::GoToPage(p)], DialogResponse::Close),
                Action::NotYetImplemented => (released, Seq::empty(), DialogResponse::RequestRedraw),
                Action::Event(e) => (released, seq![e.spec_to_global()], DialogResponse::Close),
            }
        } else if key_event.pressed && key.is_named(NamedKey::ArrowUp) && sel > 0 {
            (Self::make(kind, sel - 1, false, None), Seq::empty(), DialogResponse::RequestRedraw)
        } else if key_event.pressed && key.is_named(NamedKey::ArrowDown) && sel < menu_len(kind) - 1 {
            (Self::make(kind, sel + 1, false, None), Seq::empty(), DialogResponse::RequestRedraw)
        } else {
            (self, Seq::empty(), DialogResponse::Nothing)
        }
    }

    /// Releasing enter on a pressed button does what its label names: a play button or
    /// quit sends exactly that event and closes the menu, a view button goes to its page and
    /// closes the menu.
    pub proof fn lemma_release_does_named_action(self, key_event: KeyEvent, modifiers: Modifiers)
        requires
            self.spec_sub_menu() is None,
            self.spec_pressed(),
            !key_event.pressed,
            key_event.logical_key.is_named(NamedKey::Enter),
            0 <= self.spec_selected() < menu_len(self.spec_kind()),
        ensures
            ({
                let (_, sent, response) = self.step(key_event, modifiers);
                let label = menu_button(self.spec_kind(), self.spec_selected()).0@;
                &&& named_action(label) matches Some(Action::Event(e)) ==> sent == seq![e.spec_to_global()] && response
                    == DialogResponse::Close
                &&& named_action(label) matches Some(Action::Page(p)) ==> sent == seq![GlobalEvent::GoToPage(p)]
                    && response == DialogResponse::Close
            }),
    {
        lemma_labels_name_actions(self.spec_kind(), self.spec_selected());
    }

    pub fn process_input(
        &mut self,
        key_event: &KeyEvent,
        modifiers: &Modifiers,
        events: &mut VecDeque<GlobalEvent>,
    ) -> (r: DialogResponse)
        ensures
            *final(self) == old(self).step(*key_event, *modifiers).0,
            final(events)@ == old(events)@ + old(self).step(*key_event, *modifiers).1,
            r == old(self).step(*key_event, *modifiers).2,
        decreases *old(self),
    {
        proof {
            use_type_invariant(&*self);
        }
        let key = &key_event.logical_key;
        if key_event.pressed && key.named(NamedKey::Escape) {
            if self.sub_menu.is_some() {
                self.sub_menu = None;
                events.push_back(GlobalEvent::ConstRedraw);
                return DialogResponse::RequestRedraw;
            } else {
                proof {
                    assert(old(events)@ + Seq::<GlobalEvent>::empty() =~= old(events)@);
                }
                return DialogResponse::Close;
            }
        }
        if self.sub_menu.is_some() {
            let mut taken = PageMenu { kind: self.kind, selected: self.selected, pressed: self.pressed, sub_menu: None };
            std::mem::swap(self, &mut taken);
            let PageMenu { kind, selected, pressed, sub_menu } = taken;
            let mut sub = sub_menu.unwrap();
            let response = sub.process_input(key_event, modifiers, events);
            *self = PageMenu { kind, selected, pressed, sub_menu: Some(sub) };
            return response;
        }
        proof {
            assert(old(events)@ + Seq::<GlobalEvent>::empty() =~= old(events)@);
        }
        if key.named(NamedKey::Enter) {
            if key_event.pressed {
                self.pressed = true;
                return DialogResponse::RequestRedraw;
            } else if self.pressed {
                self.pressed = false;
                let (_, action) = menu_button_exec(self.kind, self.selected);
                match action {
                    Action::Menu(menu) => {
                        self.sub_menu = Some(Box::new(Self::of(menu)));
                        return DialogResponse::RequestRedraw;
                    },
                    Action::Page(page) => {
                        events.push_back(GlobalEvent::GoToPage(page));
                        return DialogResponse::Close;
                    },
                    Action::NotYetImplemented => {
                        return DialogResponse::RequestRedraw;
                    },
                    Action::Event(global_event) => {
                        events.push_back(global_event.to_global());
                        return DialogResponse::Close;
                    },
                }
            }
        }
        if key_event.pressed {
            if key.named(NamedKey::ArrowUp) && self.selected > 0 {
                self.selected -= 1;
                self.pressed = false;
                return DialogResponse::RequestRedraw;
            } else if key.named(NamedKey::ArrowDown) && self.selected < menu_len_exec(self.kind) - 1 {
                self.selected += 1;
                self.pressed = false;
                return DialogResponse::RequestRedraw;
            }
        }
        DialogResponse::Nothing
    }

    /// The character cells of button `num` of a menu.
    pub open spec fn button_rect(kind: MenuKind, num: int) -> (int, int, int, int) {
        let (x, y, width) = menu_place(kind);
        (y + 3 * num + 4, y + 3 * num + 6, x + 2, x + width + 1)
    }

    /// What drawing button `num` of a menu does: its label, its border (sunken when it is
    /// selected and `down`), and the corner triangles.
    pub open spec fn button_cmds(kind: MenuKind, selected: int, down: bool, num: int) -> Seq<Paint> {
        let (x, y, width) = menu_place(kind);
        let (t, b, l, r) = Self::button_rect(kind, num);
        let sunken = down && selected == num;
        seq![
            Paint::Text {
                text: menu_button(kind, num).0@,
                x: x + 4,
                y: y + 3 * num + 5,
                fg: if selected == num { 11u8 } else { 0u8 },
                bg: 2,
            },
            Paint::Border {
                top: t,
                bot: b,
                left: l,
                right: r,
                thickness: 1,
                tl: if sunken { 1u8 } else { 3u8 },
                br: if sunken { 3u8 } else { 1u8 },
            },
            Paint::Corners { top: t, bot: b, left: l, right: r, value: 1 },
        ]
    }

    /// What drawing the first `n` buttons of a menu does.
    pub open spec fn buttons_cmds(kind: MenuKind, selected: int, down: bool, n: int) -> Seq<Paint>
        decreases n,
    {
        if n <= 0 {
            Seq::empty()
        } else {
            Self::buttons_cmds(kind, selected, down, n - 1) + Self::button_cmds(kind, selected, down, n - 1)
        }
    }

    /// What drawing the menu does: background, title, double border, the buttons, and then
    /// the open sub-menu.
    pub open spec fn paint_cmds(&self) -> Seq<Paint>
        decreases self,
    {
        let kind = self.spec_kind();
        let (t, b, l, r) = menu_rect(kind);
        let (x, y, width) = menu_place(kind);
        let down = self.spec_pressed() || self.spec_sub_menu() is Some;
        seq![
            Paint::Rect { color: 2, top: t, bot: b, left: l, right: r },
            Paint::Text { text: menu_name(kind)@, x: x + 7, y: y + 2, fg: 3, bg: 2 },
            Paint::Border { top: t, bot: b, left: l, right: r, thickness: 2, tl: 3, br: 3 },
            Paint::Border { top: t + 1, bot: b - 1, left: l + 1, right: r - 1, thickness: 1, tl: 1, br: 1 },
        ] + Self::buttons_cmds(kind, self.spec_selected(), down, menu_len(kind)) + match self.spec_sub_menu() {
            Some(sub) => (*sub).paint_cmds(),
            None => Seq::empty(),
        }
    }

    /// Writes the raw value 1 into the corner triangles of `rect`.
    fn draw_button_corners(rect: CharRect, buffer: &mut DrawBuffer)
        requires
            old(buffer).wf(),
            rect.spec_right() >= 1,
            rect.spec_bot() >= 1,
        ensures
            final(buffer).painted(
                old(buffer),
                seq![
                    Paint::Corners {
                        top: rect.spec_top(),
                        bot: rect.spec_bot(),
                        left: rect.spec_left(),
                        right: rect.spec_right(),
                        value: 1,
                    },
                ],
            ),
    {
        let ghost b0 = *buffer;
        let pixel_rect = PixelRect::from(rect);
        let top = pixel_rect.top();
        let bot = pixel_rect.bot();
        let left = pixel_rect.left();
        let right = pixel_rect.right();
        let value = Self::BOTRIGHT_COLOR as u32;
        // the top right corner
        let mut y: usize = 0;
        while y < FONT_SIZE
            invariant
                y <= 8,
                top + 7 <= bot < 400,
                left + 7 <= right < 640,
                right >= 15,
                value == 1,
                buffer.keeps(&b0),
                forall|i: int, j: int|
                    on_screen(i, j) ==> #[trigger] buffer.pixel(i, j) == if top <= j < top + y && right - 7 + (j
                        - top) <= i <= right {
                        1u32
                    } else {
                        b0.pixel(i, j)
                    },
            decreases 8 - y,
        {
            let mut x: usize = y;
            while x < FONT_SIZE
                invariant
                    y < 8,
                    y <= x <= 8,
                    top + 7 <= bot < 400,
                    left + 7 <= right < 640,
                    right >= 15,
                    value == 1,
                    buffer.keeps(&b0),
                    forall|i: int, j: int|
                        on_screen(i, j) ==> #[trigger] buffer.pixel(i, j) == if top <= j < top + y && right - 7
                            + (j - top) <= i <= right {
                            1u32
                        } else if j == top + y && right - 7 + y <= i < right - 7 + x {
                            1u32
                        } else {
                            b0.pixel(i, j)
                        },
                decreases 8 - x,
            {
                buffer.set_pixel(right - FONT_SIZE + x + 1, top + y, value);
                x += 1;
            }
            y += 1;
        }
        let ghost b1 = *buffer;
        // the bottom left corner
        let mut y: usize = 0;
        while y < FONT_SIZE
            invariant
                y <= 8,
                top + 7 <= bot < 400,
                left + 7 <= right < 640,
                value == 1,
                buffer.keeps(&b0),
                forall|i: int, j: int|
                    on_screen(i, j) ==> #[trigger] buffer.pixel(i, j) == if bot - y < j <= bot && left <= i < left
                        + 8 - (bot - j) {
                        1u32
                    } else {
                        b1.pixel(i, j)
                    },
            decreases 8 - y,
        {
            let mut x: usize = 0;
            while x < FONT_SIZE - y
                invariant
                    y < 8,
                    x <= 8 - y,
                    top + 7 <= bot < 400,
                    left + 7 <= right < 640,
                    value == 1,
                    buffer.keeps(&b0),
                    forall|i: int, j: int|
                        on_screen(i, j) ==> #[trigger] buffer.pixel(i, j) == if bot - y < j <= bot && left <= i
                            < left + 8 - (bot - j) {
                            1u32
                        } else if j == bot - y && left <= i < left + x {
                            1u32
                        } else {
                            b1.pixel(i, j)
                        },
                decreases 8 - y - x,
            {
                buffer.set_pixel(left + x, bot - y, value);
                x += 1;
            }
            y += 1;
        }
        proof {
            assert(top == rect.spec_top() * 8);
            assert(bot == rect.spec_bot() * 8 + 7);
            assert(left == rect.spec_left() * 8);
            assert(right == rect.spec_right() * 8 + 7);
            let cmd = Paint::Corners {
                top: rect.spec_top(),
                bot: rect.spec_bot(),
                left: rect.spec_left(),
                right: rect.spec_right(),
                value: 1,
            };
            assert forall|i: int, j: int| on_screen(i, j) implies #[trigger] buffer.pixel(i, j) == paint_pixel(
                cmd,
                b0.palette_view(),
                i,
                j,
                b0.pixel(i, j),
            ) by {
                assert(b1.pixel(i, j) == if top <= j < top + 8 && right - 7 + (j - top) <= i <= right {
                    1u32
                } else {
                    b0.pixel(i, j)
                });
            }
            DrawBuffer::lemma_painted_one(&b0, buffer, cmd);
        }
    }

    pub fn draw(&self, buffer: &mut DrawBuffer)
        requires
            old(buffer).wf(),
        ensures
            final(buffer).painted(old(buffer), self.paint_cmds()),
        decreases self,
    {
        proof {
            use_type_invariant(self);
        }
        let kind = self.kind;
        let (x, y, width) = menu_place_exec(kind);
        let len = menu_len_exec(kind);
        let name = menu_name_exec(kind);
        let top = y;
        let bot = y + 5 + 3 * len;
        let left = x;
        let right = x + width + 3;
        let rect = CharRect::new(top, bot, left, right);
        let ghost b0 = *buffer;
        let ghost cmds = self.paint_cmds();
        buffer.draw_rect(Self::BACKGROUND_COLOR, rect);
        let ghost b1 = *buffer;
        buffer.draw_string(name, CharPosition::new(x + 7, y + 2), 3, 2);
        let ghost b2 = *buffer;
        buffer.draw_out_border(rect, Self::TOPLEFT_COLOR, Self::TOPLEFT_COLOR, 2);
        let ghost b3 = *buffer;
        buffer.draw_out_border(
            CharRect::new(top + 1, bot - 1, left + 1, right - 1),
            Self::BOTRIGHT_COLOR,
            Self::BOTRIGHT_COLOR,
            1,
        );
        proof {
            DrawBuffer::lemma_painted_then(&b0, &b1, &b2, seq![cmds[0]], seq![cmds[1]]);
            DrawBuffer::lemma_painted_then(&b0, &b2, &b3, seq![cmds[0]] + seq![cmds[1]], seq![cmds[2]]);
            DrawBuffer::lemma_painted_then(&b0, &b3, buffer, seq![cmds[0]] + seq![cmds[1]] + seq![cmds[2]], seq![cmds[3]]);
            assert(seq![cmds[0]] + seq![cmds[1]] + seq![cmds[2]] + seq![cmds[3]] =~= cmds.take(4));
        }
        let down = self.pressed || self.sub_menu.is_some();
        let mut num: usize = 0;
        while num < len
            invariant
                num <= len == menu_len(kind),
                kind == self.spec_kind(),
                y + 5 + 3 * len < 50,
                x + width + 3 < 80,
                width >= 4,
                top == y,
                left == x,
                right == x + width + 3,
                (x as int, y as int, width as int) == menu_place(kind),
                down == (self.spec_pressed() || self.spec_sub_menu() is Some),
                cmds == self.paint_cmds(),
                buffer.painted(&b0, cmds.take(4) + Self::buttons_cmds(kind, self.spec_selected(), down, num as int)),
            decreases len - num,
        {
            let ghost before = *buffer;
            let (label, _) = menu_button_exec(kind, num);
            let text_color: u8 = if self.selected == num {
                11
            } else {
                0
            };
            buffer.draw_string(label, CharPosition::new(x + 4, (3 * num) + 5 + y), text_color, Self::BACKGROUND_COLOR);
            let ghost c1 = *buffer;
            let button_top = top + (3 * num) + 4;
            let (top_left, bot_right) = if down && self.selected == num {
                (Self::BOTRIGHT_COLOR, Self::TOPLEFT_COLOR)
            } else {
                (Self::TOPLEFT_COLOR, Self::BOTRIGHT_COLOR)
            };
            let button_rect = CharRect::new(button_top, button_top + 2, left + 2, left + (right - left) - 2);
            buffer.draw_out_border(button_rect, top_left, bot_right, 1);
            let ghost c2 = *buffer;
            Self::draw_button_corners(button_rect, buffer);
            proof {
                let bc = Self::button_cmds(kind, self.spec_selected(), down, num as int);
                DrawBuffer::lemma_painted_then(&before, &c1, &c2, seq![bc[0]], seq![bc[1]]);
                DrawBuffer::lemma_painted_then(&before, &c2, buffer, seq![bc[0]] + seq![bc[1]], seq![bc[2]]);
                assert(seq![bc[0]] + seq![bc[1]] + seq![bc[2]] =~= bc);
                let prev = cmds.take(4) + Self::buttons_cmds(kind, self.spec_selected(), down, num as int);
                DrawBuffer::lemma_painted_then(&b0, &before, buffer, prev, bc);
                assert(prev + bc =~= cmds.take(4) + Self::buttons_cmds(kind, self.spec_selected(), down, num + 1));
            }
            num += 1;
        }
        let ghost b4 = *buffer;
        let ghost drawn = cmds.take(4) + Self::buttons_cmds(kind, self.spec_selected(), down, len as int);
        if let Some(sub) = &self.sub_menu {
            sub.draw(buffer);
            proof {
                DrawBuffer::lemma_painted_then(&b0, &b4, buffer, drawn, (**sub).paint_cmds());
                assert(drawn + (**sub).paint_cmds() =~= cmds);
            }
        } else {
            proof {
                assert(drawn =~= cmds);
            }
        }
    }
}

impl PageMenu {
    /// A menu sends nothing to the header.
    pub proof fn lemma_step_not_for_header(self, key_event: KeyEvent, modifiers: Modifiers)
        ensures
            forall|i: int|
                0 <= i < self.step(key_event, modifiers).1.len() ==> !(#[trigger] self.step(key_event, modifiers).1[i] is Header),
        decreases self,
    {
        if self.spec_sub_menu() is Some && !(key_event.pressed && key_event.logical_key.is_named(NamedKey::Escape)) {
            (*self.spec_sub_menu().unwrap()).lemma_step_not_for_header(key_event, modifiers);
        }
    }
}

} // verus!
