//! The decisions of the application: what a window event or an application event does to
//! the pages, the dialogs, the header and the frame buffer, and what is left for the
//! surrounding event loop to do.
use std::collections::VecDeque;
use vstd::prelude::*;
use vstd::string::*;

use crate::draw_buffer::{on_screen, paint, DrawBuffer, Paint};
use crate::events::{keeps_header_drawable, GlobalEvent, PlaybackType, SimpleEvent, SongOperation};
use crate::input::{KeyEvent, Modifiers, NamedKey};
use crate::palettes::{camouflage_colors, rgb10a2_value};
use crate::playback::pattern::PatternOperation;
use crate::ui::dialog::confirm::ConfirmDialog;
use crate::ui::dialog::page_menu::{MenuKind, PageMenu};
use crate::ui::dialog::{Dialog, DialogManager, DialogResponse};
use crate::ui::header::{lemma_keeps_drawable, Header, HeaderEvent};
use crate::ui::pages::order_list::Mode;
use crate::ui::pages::{
    all_keep_header_drawable, lemma_key_keeps_header, lemma_page_event_keeps_header, page_event_response, AllPages,
    PageResponse, PagesEnum,
};

verus! {

/// What is left for the event loop after an application event.
pub enum UserAction {
    Nothing,
    /// the window has to be drawn again
    Redraw,
    /// the application closes
    Exit,
    /// playback starts or stops
    Playback(PlaybackType),
    /// pattern `idx` of the song is wanted by the pattern editor
    LoadPattern(usize),
    /// the song's pattern `idx` changes the same way as the editor's
    PatternEdit(usize, PatternOperation),
    /// a sample file is to be picked for sample slot `idx`
    PickSample(u8),
    /// the song's settings change
    SongOp(SongOperation),
}

/// Whether `dialog` is the dialog that asks whether to close the tracker: its ok button
/// closes the application, its cancel button does nothing.
pub open spec fn is_close_dialog(dialog: Dialog) -> bool {
    &&& dialog matches Dialog::Confirm(c)
    &&& c.spec_text()@ == "Close Tracker?"@
    &&& c.spec_ok().spec_value() == Some(SimpleEvent::CloseApp)
    &&& c.spec_cancel().spec_value() is None
}

/// The state of the application that the event loop drives.
pub struct App {
    draw_buffer: DrawBuffer,
    modifiers: Modifiers,
    ui_pages: AllPages,
    event_queue: VecDeque<GlobalEvent>,
    dialog_manager: DialogManager,
    header: Header,
}

impl App {
    pub closed spec fn spec_buffer(&self) -> DrawBuffer {
        self.draw_buffer
    }

    pub closed spec fn spec_modifiers(&self) -> Modifiers {
        self.modifiers
    }

    pub closed spec fn spec_pages(&self) -> AllPages {
        self.ui_pages
    }

    pub closed spec fn spec_queue(&self) -> Seq<GlobalEvent> {
        self.event_queue@
    }

    pub closed spec fn spec_dialogs(&self) -> Seq<Dialog> {
        self.dialog_manager.spec_stack()
    }

    pub closed spec fn spec_header(&self) -> Header {
        self.header
    }

    /// The header can be drawn, and so can it after every pending event.
    pub open spec fn header_safe(&self) -> bool {
        &&& self.spec_header().drawable()
        &&& all_keep_header_drawable(self.spec_queue(), 0)
    }

    /// A black frame buffer with the header's constant parts drawn, the first page state,
    /// no dialog, no modifiers and no pending events.
    pub fn new() -> (r: Self)
        ensures
            r.spec_buffer().wf(),
            forall|i: int| 0 <= i < 16 ==> #[trigger] r.spec_buffer().raw_color(i) == rgb10a2_value(camouflage_colors()[i]),
            forall|x: int, y: int|
                on_screen(x, y) ==> #[trigger] r.spec_buffer().pixel(x, y) == paint(
                    Header::constant_cmds(),
                    r.spec_buffer().palette_view(),
                    x,
                    y,
                    0,
                ),
            r.spec_modifiers().spec_is_empty(),
            r.spec_pages().spec_current() == PagesEnum::SongDirectoryConfig,
            r.spec_pages().spec_const_draw_needed(),
            r.spec_queue() == Seq::<GlobalEvent>::empty(),
            r.spec_dialogs() == Seq::<Dialog>::empty(),
            r.spec_header().spec_playback() is None,
            r.header_safe(),
    {
        let mut draw_buffer = DrawBuffer::new();
        let ghost fresh = draw_buffer;
        let header: Header = Header::default();
        header.draw_constant(&mut draw_buffer);
        proof {
            assert forall|x: int, y: int| on_screen(x, y) implies #[trigger] draw_buffer.pixel(x, y) == paint(
                Header::constant_cmds(),
                draw_buffer.palette_view(),
                x,
                y,
                0,
            ) by {
                assert(fresh.pixel(x, y) == 0);
            }
            assert forall|i: int| 0 <= i < 16 implies #[trigger] draw_buffer.raw_color(i) == rgb10a2_value(
                camouflage_colors()[i],
            ) by {
                assert(fresh.raw_color(i) == rgb10a2_value(camouflage_colors()[i]));
            }
        }
        App {
            draw_buffer,
            modifiers: Modifiers { shift: false, control: false, alt: false, super_key: false },
            ui_pages: AllPages::new(),
            event_queue: VecDeque::new(),
            dialog_manager: DialogManager::new(),
            header,
        }
    }

    /// The pixels to show.
    pub fn framebuffer(&self) -> (r: &Vec<u32>)
        ensures
            r@ == self.spec_buffer().frame(),
    {
        self.draw_buffer.pixels()
    }

    /// The modifier keys held down changed.
    pub fn set_modifiers(&mut self, modifiers: Modifiers)
        ensures
            final(self).spec_modifiers() == modifiers,
            final(self).spec_pages() == old(self).spec_pages(),
            final(self).spec_queue() == old(self).spec_queue(),
            final(self).spec_dialogs() == old(self).spec_dialogs(),
            final(self).spec_header() == old(self).spec_header(),
            final(self).spec_buffer() == old(self).spec_buffer(),
    {
        self.modifiers = modifiers;
    }

    fn close_confirm_dialog() -> (r: Dialog)
        ensures
            is_close_dialog(r),
    {
        proof {
            reveal_strlit("Close Tracker?");
        }
        Dialog::Confirm(ConfirmDialog::new("Close Tracker?", Some(SimpleEvent::CloseApp), None))
    }

    /// The window is asked to close: a dialog that asks whether to close the tracker is
    /// sent to be opened.
    pub fn close_requested(&mut self)
        ensures
            final(self).spec_queue().len() == old(self).spec_queue().len() + 1,
            final(self).spec_queue().drop_last() == old(self).spec_queue(),
            final(self).spec_queue().last() matches GlobalEvent::OpenDialog(d) && is_close_dialog(d),
            final(self).spec_pages() == old(self).spec_pages(),
            final(self).spec_dialogs() == old(self).spec_dialogs(),
            final(self).spec_header() == old(self).spec_header(),
            final(self).spec_buffer() == old(self).spec_buffer(),
            final(self).spec_modifiers() == old(self).spec_modifiers(),
            old(self).header_safe() ==> final(self).header_safe(),
    {
        let dialog = Self::close_confirm_dialog();
        self.event_queue.push_back(GlobalEvent::OpenDialog(dialog));
        proof {
            assert(self.event_queue@.drop_last() =~= old(self).spec_queue());
            if old(self).header_safe() {
                assert forall|i: int| 0 <= i < self.event_queue@.len() implies keeps_header_drawable(
                    #[trigger] self.event_queue@[i],
                ) by {
                    if i < old(self).spec_queue().len() {
                        assert(self.event_queue@[i] == old(self).spec_queue()[i]);
                    }
                }
            }
        }
    }

    /// Whether the header can be drawn.
    pub fn can_draw(&self) -> (r: bool)
        ensures
            r == self.spec_header().drawable(),
    {
        self.header.is_drawable()
    }

    /// Draws the frame: the header, the page (its constant parts first where they are due),
    /// then the open dialogs from the bottom up.
    pub fn redraw(&mut self)
        requires
            old(self).spec_buffer().wf(),
            old(self).spec_header().drawable(),
        ensures
            final(self).spec_buffer().painted(
                &old(self).spec_buffer(),
                old(self).spec_header().paint_cmds() + ((if old(self).spec_pages().spec_const_draw_needed() {
                    old(self).spec_pages().constant_cmds()
                } else {
                    Seq::empty()
                }) + old(self).spec_pages().page_cmds()) + old(self).dialogs_cmds(),
            ),
            !final(self).spec_pages().spec_const_draw_needed(),
            final(self).spec_buffer().wf(),
            final(self).spec_pages().spec_current() == old(self).spec_pages().spec_current(),
            final(self).spec_queue() == old(self).spec_queue(),
            final(self).spec_dialogs() == old(self).spec_dialogs(),
            final(self).spec_header() == old(self).spec_header(),
            final(self).spec_modifiers() == old(self).spec_modifiers(),
    {
        let ghost g0 = self.draw_buffer;
        self.header.draw(&mut self.draw_buffer);
        let ghost g1 = self.draw_buffer;
        self.ui_pages.draw(&mut self.draw_buffer);
        let ghost g2 = self.draw_buffer;
        self.dialog_manager.draw(&mut self.draw_buffer);
        proof {
            let pages_cmds = (if old(self).spec_pages().spec_const_draw_needed() {
                old(self).spec_pages().constant_cmds()
            } else {
                Seq::empty()
            }) + old(self).spec_pages().page_cmds();
            DrawBuffer::lemma_painted_then(&g0, &g1, &g2, old(self).spec_header().paint_cmds(), pages_cmds);
            DrawBuffer::lemma_painted_then(
                &g0,
                &g2,
                &self.draw_buffer,
                old(self).spec_header().paint_cmds() + pages_cmds,
                old(self).dialogs_cmds(),
            );
        }
    }

    /// What drawing the open dialogs, bottom to top, does.
    pub open spec fn dialogs_cmds(&self) -> Seq<Paint> {
        self.spec_dialogs().map_values(|d: Dialog| d.paint_cmds()).flatten()
    }

    /// Whether a key can be taken: the dialog on top, or with no dialog open the page, must
    /// take it.
    pub open spec fn key_ok(&self, key_event: KeyEvent) -> bool {
        if self.spec_dialogs().len() > 0 {
            self.spec_dialogs().last().key_ok(key_event)
        } else {
            self.spec_pages().spec_key_supported(key_event, self.spec_modifiers())
        }
    }

    pub fn accepts_key(&self, key_event: &KeyEvent) -> (r: bool)
        ensures
            r == self.key_ok(*key_event),
    {
        if self.dialog_manager.is_active() {
            self.dialog_manager.accepts_key(key_event)
        } else {
            self.ui_pages.key_supported(&self.modifiers, key_event)
        }
    }

    /// A key event. An open dialog takes it; when the dialog closes, the page's constant
    /// parts are due again. Without a dialog, a pressed escape sends the main menu to be
    /// opened and the key goes on to the pages. Returns whether the window has to be drawn
    /// again.
    pub fn key_input(&mut self, key_event: KeyEvent) -> (r: bool)
        requires
            old(self).key_ok(key_event),
        ensures
            old(self).header_safe() ==> final(self).header_safe(),
            final(self).spec_header() == old(self).spec_header(),
            final(self).spec_buffer() == old(self).spec_buffer(),
            final(self).spec_modifiers() == old(self).spec_modifiers(),
            old(self).spec_dialogs().len() > 0 ==> ({
                let (response, sent) = old(self).spec_dialogs().last().outcome(key_event, old(self).spec_modifiers());
                &&& r == (response != DialogResponse::Nothing)
                &&& final(self).spec_queue() == old(self).spec_queue() + sent
                &&& response == DialogResponse::Close ==> {
                    &&& final(self).spec_dialogs() == old(self).spec_dialogs().drop_last()
                    &&& final(self).spec_pages().spec_const_draw_needed()
                }
                &&& response != DialogResponse::Close ==> {
                    &&& final(self).spec_dialogs().len() == old(self).spec_dialogs().len()
                    &&& final(self).spec_dialogs().drop_last() == old(self).spec_dialogs().drop_last()
                    &&& old(self).spec_dialogs().last().after_key(
                        final(self).spec_dialogs().last(),
                        key_event,
                        old(self).spec_modifiers(),
                    )
                    &&& final(self).spec_pages().spec_const_draw_needed() == old(self).spec_pages().spec_const_draw_needed()
                }
                &&& final(self).spec_pages().spec_current() == old(self).spec_pages().spec_current()
                &&& final(self).spec_pages().spec_sdc() == old(self).spec_pages().spec_sdc()
                &&& final(self).spec_pages().spec_pattern() == old(self).spec_pages().spec_pattern()
                &&& final(self).spec_pages().spec_order_list() == old(self).spec_pages().spec_order_list()
                &&& final(self).spec_pages().spec_sample_list() == old(self).spec_pages().spec_sample_list()
            }),
            old(self).spec_dialogs().len() == 0 ==> ({
                let escape = key_event.pressed && key_event.logical_key.is_named(NamedKey::Escape);
                let menu = if escape {
                    seq![GlobalEvent::OpenDialog(Dialog::Menu(PageMenu::opened(MenuKind::Main)))]
                } else {
                    Seq::empty()
                };
                &&& r == (old(self).spec_pages().key_response(key_event, old(self).spec_modifiers())
                    == PageResponse::RequestRedraw)
                &&& old(self).spec_pages().key_handled(
                    final(self).spec_pages(),
                    key_event,
                    old(self).spec_modifiers(),
                    old(self).spec_queue() + menu,
                    final(self).spec_queue(),
                )
                &&& final(self).spec_queue().len() >= old(self).spec_queue().len() + menu.len()
                &&& final(self).spec_queue().take((old(self).spec_queue().len() + menu.len()) as int) == old(self).spec_queue() + menu
                &&& final(self).spec_dialogs() == old(self).spec_dialogs()
            }),
    {
        let ghost queue0 = self.event_queue@;
        self.ui_pages.get_wf();
        match self.dialog_manager.active_dialog_mut() {
            Some(dialog) => {
                let ghost top = *dialog;
                let response = dialog.process_input(&key_event, &self.modifiers, &mut self.event_queue);
                proof {
                    let sent = top.outcome(key_event, self.modifiers).1;
                    assert forall|i: int| 0 <= i < sent.len() implies keeps_header_drawable(#[trigger] sent[i]) by {
                        match top {
                            Dialog::Menu(menu) => {
                                menu.lemma_step_not_for_header(key_event, self.modifiers);
                            },
                            _ => {},
                        }
                    }
                    if old(self).header_safe() {
                        assert forall|i: int| 0 <= i < self.event_queue@.len() implies keeps_header_drawable(
                            #[trigger] self.event_queue@[i],
                        ) by {
                            if i < queue0.len() {
                                assert(self.event_queue@[i] == queue0[i]);
                            } else {
                                assert(self.event_queue@[i] == sent[i - queue0.len()]);
                            }
                        }
                    }
                }
                match response {
                    DialogResponse::Close => {
                        self.dialog_manager.close_dialog();
                        self.ui_pages.request_draw_const();
                        true
                    },
                    DialogResponse::RequestRedraw => true,
                    DialogResponse::Nothing => false,
                }
            },
            None => {
                let escape = key_event.pressed && key_event.logical_key.named(NamedKey::Escape);
                if escape {
                    self.event_queue.push_back(GlobalEvent::OpenDialog(Dialog::Menu(PageMenu::main())));
                }
                let ghost queue1 = self.event_queue@;
                let ghost pages0 = self.ui_pages;
                let response = self.ui_pages.process_key_event(&self.modifiers, &key_event, &mut self.event_queue);
                proof {
                    lemma_key_keeps_header(pages0, self.ui_pages, key_event, self.modifiers, queue1, self.event_queue@);
                    if old(self).header_safe() {
                        assert forall|i: int| 0 <= i < self.event_queue@.len() implies keeps_header_drawable(
                            #[trigger] self.event_queue@[i],
                        ) by {
                            if i < queue1.len() {
                                assert(self.event_queue@[i] == self.event_queue@.take(queue1.len() as int)[i]);
                                if i < queue0.len() {
                                    assert(queue1[i] == queue0[i]);
                                }
                            }
                        }
                    }
                }
                proof {
                    assert(queue1 =~= queue0 + (if escape {
                        seq![GlobalEvent::OpenDialog(Dialog::Menu(PageMenu::opened(MenuKind::Main)))]
                    } else {
                        Seq::empty()
                    }));
                }
                match response {
                    PageResponse::RequestRedraw => true,
                    PageResponse::Nothing => false,
                }
            },
        }
    }

    /// The next application event, the oldest first.
    pub fn next_event(&mut self) -> (r: Option<GlobalEvent>)
        ensures
            r is None <==> old(self).spec_queue().len() == 0,
            r matches Some(e) ==> e == old(self).spec_queue()[0] && final(self).spec_queue() == old(self).spec_queue().drop_first(),
            r is None ==> final(self).spec_queue() == old(self).spec_queue(),
            final(self).spec_pages() == old(self).spec_pages(),
            final(self).spec_dialogs() == old(self).spec_dialogs(),
            final(self).spec_header() == old(self).spec_header(),
            final(self).spec_buffer() == old(self).spec_buffer(),
            final(self).spec_modifiers() == old(self).spec_modifiers(),
            old(self).header_safe() ==> final(self).header_safe(),
            old(self).header_safe() ==> (r matches Some(e) ==> keeps_header_drawable(e)),
    {
        let r = self.event_queue.pop_front();
        proof {
            if r is Some {
                if old(self).header_safe() {
                    assert forall|i: int| 0 <= i < self.event_queue@.len() implies keeps_header_drawable(
                        #[trigger] self.event_queue@[i],
                    ) by {
                        assert(self.event_queue@[i] == old(self).spec_queue()[i + 1]);
                    }
                }
            }
        }
        r
    }

    /// What an application event asks of the state: a page event what its page asks, a
    /// header event one that the header shows.
    pub open spec fn event_ok(&self, event: GlobalEvent) -> bool {
        match event {
            GlobalEvent::PageEvent(e) => self.spec_pages().page_event_ok(e),
            GlobalEvent::Header(h) => !(h is SetSpeed) && !(h is SetTempo),
            _ => true,
        }
    }

    pub fn accepts_event(&self, event: &GlobalEvent) -> (r: bool)
        ensures
            r == self.event_ok(*event),
    {
        match event {
            GlobalEvent::PageEvent(e) => self.ui_pages.accepts_page_event(e),
            GlobalEvent::Header(HeaderEvent::SetSpeed(_)) => false,
            GlobalEvent::Header(HeaderEvent::SetTempo(_)) => false,
            _ => true,
        }
    }

    /// An application event. Dialogs open on top; page events go to their page; header
    /// events to the header; going to a page closes all dialogs; the rest is left to the
    /// event loop.
    pub fn user_event(&mut self, event: GlobalEvent) -> (r: UserAction)
        requires
            old(self).event_ok(event),
        ensures
            old(self).header_safe() && keeps_header_drawable(event) ==> final(self).header_safe(),
            final(self).spec_buffer() == old(self).spec_buffer(),
            final(self).spec_modifiers() == old(self).spec_modifiers(),
            !(event is PageEvent) && !(event is CloseRequested) ==> final(self).spec_queue() == old(self).spec_queue(),
            !(event is Header) ==> final(self).spec_header() == old(self).spec_header(),
            !(event is OpenDialog) && !(event is GoToPage) ==> final(self).spec_dialogs() == old(self).spec_dialogs(),
            !(event is PageEvent) && !(event is GoToPage) && !(event is ConstRedraw) ==> final(self).spec_pages()
                == old(self).spec_pages(),
            match event {
                GlobalEvent::OpenDialog(d) => r == UserAction::Redraw && final(self).spec_dialogs() == old(self).spec_dialogs().push(d),
                GlobalEvent::PageEvent(e) => {
                    &&& r == (if e.spec_get_page() == old(self).spec_pages().spec_current()
                        && page_event_response(e) == PageResponse::RequestRedraw {
                        UserAction::Redraw
                    } else {
                        UserAction::Nothing
                    })
                    &&& final(self).spec_pages().spec_current() == old(self).spec_pages().spec_current()
                    &&& final(self).spec_dialogs() == old(self).spec_dialogs()
                    &&& old(self).spec_pages().page_event_handled(final(self).spec_pages(), e, old(self).spec_queue(), final(self).spec_queue())
                },
                GlobalEvent::Header(h) => r == UserAction::Redraw && final(self).spec_header() == old(self).spec_header().after(h),
                GlobalEvent::GoToPage(p) => {
                    &&& r == UserAction::Redraw
                    &&& final(self).spec_dialogs() == Seq::<Dialog>::empty()
                    &&& final(self).spec_pages().spec_current() == p
                    &&& final(self).spec_pages().spec_const_draw_needed() == (old(self).spec_pages().spec_const_draw_needed() || p
                        != old(self).spec_pages().spec_current())
                    &&& final(self).spec_pages().spec_order_list().spec_mode() == if p != old(self).spec_pages().spec_current() && p
                        == PagesEnum::OrderList {
                        Mode::Panning
                    } else {
                        old(self).spec_pages().spec_order_list().spec_mode()
                    }
                    &&& final(self).spec_pages().spec_sdc() == old(self).spec_pages().spec_sdc()
                    &&& final(self).spec_pages().spec_pattern() == old(self).spec_pages().spec_pattern()
                    &&& final(self).spec_pages().spec_sample_list() == old(self).spec_pages().spec_sample_list()
                },
                GlobalEvent::CloseApp => r == UserAction::Exit,
                GlobalEvent::CloseRequested => {
                    &&& r == UserAction::Nothing
                    &&& final(self).spec_queue().drop_last() == old(self).spec_queue()
                    &&& final(self).spec_queue().last() matches GlobalEvent::OpenDialog(d) && is_close_dialog(d)
                },
                GlobalEvent::Playback(t) => r == UserAction::Playback(t),
                GlobalEvent::ConstRedraw => {
                    &&& r == UserAction::Redraw
                    &&& final(self).spec_pages().spec_const_draw_needed()
                    &&& final(self).spec_pages().spec_current() == old(self).spec_pages().spec_current()
                },
                GlobalEvent::LoadPattern(idx) => r == UserAction::LoadPattern(idx),
                GlobalEvent::PatternEdit(idx, op) => r == UserAction::PatternEdit(idx, op),
                GlobalEvent::PickSample(idx) => r == UserAction::PickSample(idx),
                GlobalEvent::SongOp(op) => r == UserAction::SongOp(op),
            },
    {
        match event {
            GlobalEvent::OpenDialog(dialog) => {
                self.dialog_manager.open_dialog(dialog);
                UserAction::Redraw
            },
            GlobalEvent::PageEvent(e) => {
                self.ui_pages.get_wf();
                let ghost pages0 = self.ui_pages;
                let ghost queue0 = self.event_queue@;
                let ghost page_event = e;
                let response = self.ui_pages.process_page_event(e, &mut self.event_queue);
                proof {
                    lemma_page_event_keeps_header(pages0, self.ui_pages, page_event, queue0, self.event_queue@);
                    if old(self).header_safe() {
                        assert forall|i: int| 0 <= i < self.event_queue@.len() implies keeps_header_drawable(
                            #[trigger] self.event_queue@[i],
                        ) by {
                            if i < queue0.len() {
                                assert(self.event_queue@[i] == self.event_queue@.take(queue0.len() as int)[i]);
                            }
                        }
                    }
                }
                match response {
                    PageResponse::RequestRedraw => UserAction::Redraw,
                    PageResponse::Nothing => UserAction::Nothing,
                }
            },
            GlobalEvent::Header(h) => {
                proof {
                    if old(self).header_safe() && keeps_header_drawable(event) {
                        lemma_keeps_drawable(self.header, h);
                    }
                }
                self.header.process_event(h);
                UserAction::Redraw
            },
            GlobalEvent::GoToPage(page) => {
                self.dialog_manager.close_all();
                self.ui_pages.switch_page(page);
                UserAction::Redraw
            },
            GlobalEvent::CloseApp => UserAction::Exit,
            GlobalEvent::CloseRequested => {
                self.close_requested();
                UserAction::Nothing
            },
            GlobalEvent::Playback(t) => UserAction::Playback(t),
            GlobalEvent::ConstRedraw => {
                self.ui_pages.request_draw_const();
                UserAction::Redraw
            },
            GlobalEvent::LoadPattern(idx) => UserAction::LoadPattern(idx),
            GlobalEvent::PatternEdit(idx, op) => UserAction::PatternEdit(idx, op),
            GlobalEvent::PickSample(idx) => UserAction::PickSample(idx),
            GlobalEvent::SongOp(op) => UserAction::SongOp(op),
        }
    }
}

} // verus!
