//! The song variables page: song name, initial tempo and speed, global volume.
use std::collections::VecDeque;
use vstd::prelude::*;
use vstd::string::*;
use vstd::utf8::is_ascii_chars;

use crate::coordinates::{CharPosition, CharRect};
use crate::draw_buffer::{all_within_rows, lemma_within_rows_concat, lemma_within_rows_wider, DrawBuffer, Paint};
use crate::events::{GlobalEvent, SliderTarget, SongOperation};
use crate::input::{KeyEvent, Modifiers};
use crate::ui::pages::{focus_after, page_response, PageResponse};
use crate::ui::widgets::slider::Slider;
use crate::ui::widgets::text_in::{is_single_char_key, single_char_key, TextIn};
use crate::ui::widgets::{NextWidget, StandardResponse};

verus! {

const BACKGROUND_COLOR: u8 = 2;
const TOPLEFT_COLOR: u8 = 1;
const BOTRIGHT_COLOR: u8 = 3;


pub enum SDCChange {
    SetSongName(String),
    InitialTempo(i16),
    InitialSpeed(i16),
    GlobalVolume(i16),
}

pub struct SongDirectoryConfigPage {
    song_name: TextIn,
    initial_tempo: Slider,
    initial_speed: Slider,
    global_volume: Slider,
    selected: usize,
}

impl SongDirectoryConfigPage {
    pub const SONG_NAME: usize = 1;
    pub const INITIAL_TEMPO: usize = 2;
    pub const INITIAL_SPEED: usize = 3;
    pub const GLOBAL_VOLUME: usize = 4;

    #[verifier::type_invariant]
    spec fn inv(self) -> bool {
        self.wf()
    }

    /// How a slider of the page is laid out: its row, column, width, bounds, focus links,
    /// and the setting that its dialog sets.
    pub open spec fn slider_laid_out(
        s: Slider,
        x: int,
        y: int,
        width: int,
        min: int,
        max: int,
        next: NextWidget,
        target: SliderTarget,
    ) -> bool {
        &&& s.spec_target() == target
        &&& s.spec_position().spec_x() == x
        &&& s.spec_position().spec_y() == y
        &&& s.spec_width() == width
        &&& s.spec_number().spec_min() == min
        &&& s.spec_number().spec_max() == max
        &&& s.spec_next_widget() == next
    }

    /// The page's layout: the song name at column 17 of row 16, 25 wide; the tempo slider
    /// in row 19 and the speed slider in row 20, both 32 wide; the global volume slider in
    /// row 23, 16 wide, all at column 17; the bounds of each slider and the setting its
    /// dialog sets; and the focus order song name, tempo, speed, volume, which up and
    /// shift-tab walk back and down and tab walk forward.
    pub open spec fn wf(&self) -> bool {
        &&& 1 <= self.spec_selected() <= 4
        &&& self.spec_song_name().spec_pos().spec_x() == 17
        &&& self.spec_song_name().spec_pos().spec_y() == 16
        &&& self.spec_song_name().spec_width() == 25
        &&& self.spec_song_name().spec_next_widget() == Self::song_name_next()
        &&& Self::slider_laid_out(self.spec_initial_tempo(), 17, 19, 32, 31, 255, Self::tempo_next(), SliderTarget::InitialTempo)
        &&& Self::slider_laid_out(self.spec_initial_speed(), 17, 20, 32, 1, 255, Self::speed_next(), SliderTarget::InitialSpeed)
        &&& Self::slider_laid_out(self.spec_global_volume(), 17, 23, 16, 0, 128, Self::volume_next(), SliderTarget::GlobalVolume)
    }

    /// Whether the page is well formed.
    pub fn get_wf(&self)
        ensures
            self.wf(),
    {
        proof {
            use_type_invariant(self);
        }
    }

    pub open spec fn song_name_next() -> NextWidget {
        NextWidget { left: None, right: None, up: None, down: Some(2), tab: Some(2), shift_tab: None }
    }

    pub open spec fn tempo_next() -> NextWidget {
        NextWidget { left: None, right: None, up: Some(1), down: Some(3), tab: Some(3), shift_tab: Some(1) }
    }

    pub open spec fn speed_next() -> NextWidget {
        NextWidget { left: None, right: None, up: Some(2), down: Some(4), tab: Some(4), shift_tab: Some(2) }
    }

    pub open spec fn volume_next() -> NextWidget {
        NextWidget { left: None, right: None, up: Some(3), down: None, tab: None, shift_tab: Some(3) }
    }

    pub closed spec fn spec_song_name(&self) -> TextIn {
        self.song_name
    }

    pub closed spec fn spec_initial_tempo(&self) -> Slider {
        self.initial_tempo
    }

    pub closed spec fn spec_initial_speed(&self) -> Slider {
        self.initial_speed
    }

    pub closed spec fn spec_global_volume(&self) -> Slider {
        self.global_volume
    }

    pub closed spec fn spec_selected(&self) -> usize {
        self.selected
    }

    /// The song name field 25 wide, tempo 125 in `31..=255`, speed 6 in `1..=255`, global
    /// volume 128 in `0..=128`; the song name selected.
    pub fn new() -> (r: Self)
        ensures
            r.wf(),
            r.spec_selected() == Self::SONG_NAME,
            r.spec_song_name().spec_text() == Seq::<char>::empty(),
            r.spec_initial_tempo().value() == 125,
            r.spec_initial_speed().value() == 6,
            r.spec_global_volume().value() == 128,
    {
        let song_name = TextIn::new(
            CharPosition::new(17, 16),
            25,
            NextWidget {
                left: None,
                right: None,
                up: None,
                down: Some(Self::INITIAL_TEMPO),
                tab: Some(Self::INITIAL_TEMPO),
                shift_tab: None,
            },
        );
        let initial_tempo = Slider::new(
            125,
            31,
            255,
            CharPosition::new(17, 19),
            32,
            NextWidget {
                left: None,
                right: None,
                up: Some(Self::SONG_NAME),
                down: Some(Self::INITIAL_SPEED),
                tab: Some(Self::INITIAL_SPEED),
                shift_tab: Some(Self::SONG_NAME),
            },
            SliderTarget::InitialTempo,
        );
        let initial_speed = Slider::new(
            6,
            1,
            255,
            CharPosition::new(17, 20),
            32,
            NextWidget {
                left: None,
                right: None,
                up: Some(Self::INITIAL_TEMPO),
                down: Some(Self::GLOBAL_VOLUME),
                tab: Some(Self::GLOBAL_VOLUME),
                shift_tab: Some(Self::INITIAL_TEMPO),
            },
            SliderTarget::InitialSpeed,
        );
        let global_volume = Slider::new(
            128,
            0,
            128,
            CharPosition::new(17, 23),
            16,
            NextWidget {
                left: None,
                right: None,
                up: Some(Self::INITIAL_SPEED),
                down: None,
                tab: None,
                shift_tab: Some(Self::INITIAL_SPEED),
            },
            SliderTarget::GlobalVolume,
        );
        Self { song_name, initial_tempo, initial_speed, global_volume, selected: Self::SONG_NAME }
    }

    /// Whether a change from outside is taken: a song name if it is ASCII, a number if it
    /// lies within the slider's bounds.
    pub open spec fn change_taken(change: SDCChange) -> bool {
        match change {
            SDCChange::SetSongName(s) => is_ascii_chars(s@),
            SDCChange::InitialTempo(n) => 31 <= n <= 255,
            SDCChange::InitialSpeed(n) => 1 <= n <= 255,
            SDCChange::GlobalVolume(n) => 0 <= n <= 128,
        }
    }

    /// A change from outside: the song name is set if it is ASCII, a number if it lies
    /// within the slider's bounds; a redraw is asked for when something changed.
    pub fn ui_change(&mut self, change: SDCChange) -> (r: PageResponse)
        ensures
            r == (if Self::change_taken(change) { PageResponse::RequestRedraw } else { PageResponse::Nothing }),
            final(self).spec_selected() == old(self).spec_selected(),
            final(self).wf(),
            match change {
                SDCChange::SetSongName(s) => {
                    &&& final(self).spec_song_name().spec_text() == if !is_ascii_chars(s@) {
                        old(self).spec_song_name().spec_text()
                    } else if s@.len() > old(self).spec_song_name().spec_width() {
                        s@.take(old(self).spec_song_name().spec_width() as int)
                    } else {
                        s@
                    }
                    &&& final(self).spec_initial_tempo() == old(self).spec_initial_tempo()
                    &&& final(self).spec_initial_speed() == old(self).spec_initial_speed()
                    &&& final(self).spec_global_volume() == old(self).spec_global_volume()
                },
                SDCChange::InitialTempo(n) => {
                    &&& final(self).spec_initial_tempo().value() == if 31 <= n <= 255 { n as int } else { old(self).spec_initial_tempo().value() }
                    &&& final(self).spec_song_name() == old(self).spec_song_name()
                },
                SDCChange::InitialSpeed(n) => {
                    &&& final(self).spec_initial_speed().value() == if 1 <= n <= 255 { n as int } else { old(self).spec_initial_speed().value() }
                    &&& final(self).spec_song_name() == old(self).spec_song_name()
                },
                SDCChange::GlobalVolume(n) => {
                    &&& final(self).spec_global_volume().value() == if 0 <= n <= 128 { n as int } else { old(self).spec_global_volume().value() }
                    &&& final(self).spec_song_name() == old(self).spec_song_name()
                },
            },
    {
        proof {
            use_type_invariant(&*self);
        }
        let mut taken = Self::new();
        std::mem::swap(self, &mut taken);
        let Self { mut song_name, mut initial_tempo, mut initial_speed, mut global_volume, selected } = taken;
        let response = match change {
            SDCChange::SetSongName(s) => {
                match song_name.set_string(s) {
                    Ok(_) => PageResponse::RequestRedraw,
                    Err(_) => PageResponse::Nothing,
                }
            },
            SDCChange::InitialTempo(n) => match initial_tempo.try_set(n) {
                Ok(_) => PageResponse::RequestRedraw,
                Err(_) => PageResponse::Nothing,
            },
            SDCChange::InitialSpeed(n) => match initial_speed.try_set(n) {
                Ok(_) => PageResponse::RequestRedraw,
                Err(_) => PageResponse::Nothing,
            },
            SDCChange::GlobalVolume(n) => match global_volume.try_set(n) {
                Ok(_) => PageResponse::RequestRedraw,
                Err(_) => PageResponse::Nothing,
            },
        };
        *self = Self { song_name, initial_tempo, initial_speed, global_volume, selected };
        response
    }

    /// The response of the selected widget to a key event.
    pub open spec fn widget_standard(&self, key_event: KeyEvent, modifiers: Modifiers) -> StandardResponse {
        if self.spec_selected() == Self::SONG_NAME {
            self.spec_song_name().input(key_event, modifiers).standard
        } else if self.spec_selected() == Self::INITIAL_TEMPO {
            self.spec_initial_tempo().input(key_event, modifiers).0
        } else if self.spec_selected() == Self::INITIAL_SPEED {
            self.spec_initial_speed().input(key_event, modifiers).0
        } else {
            self.spec_global_volume().input(key_event, modifiers).0
        }
    }

    /// The slider that is selected, if a slider is.
    pub open spec fn selected_slider(&self) -> Option<Slider> {
        if self.spec_selected() == Self::INITIAL_TEMPO {
            Some(self.spec_initial_tempo())
        } else if self.spec_selected() == Self::INITIAL_SPEED {
            Some(self.spec_initial_speed())
        } else if self.spec_selected() == Self::GLOBAL_VOLUME {
            Some(self.spec_global_volume())
        } else {
            None
        }
    }

    /// The change of the song that a new value `v` of the slider at focus number `n` makes.
    pub open spec fn song_op(n: usize, v: i16) -> SongOperation {
        if n == Self::INITIAL_TEMPO {
            SongOperation::SetInitialTempo(v as u8)
        } else if n == Self::INITIAL_SPEED {
            SongOperation::SetInitialSpeed(v as u8)
        } else {
            SongOperation::SetGlobalVol(v as u8)
        }
    }

    /// The events after `key_event` reached the selected `slider`, with `before` queued: a
    /// value set with the arrow keys goes to the song; otherwise the slider's own events,
    /// the dialog that asks for a value.
    pub open spec fn slider_events(
        &self,
        slider: Slider,
        key_event: KeyEvent,
        modifiers: Modifiers,
        before: Seq<GlobalEvent>,
        after: Seq<GlobalEvent>,
    ) -> bool {
        match slider.input(key_event, modifiers).1 {
            Some(v) => after == before.push(GlobalEvent::SongOp(Self::song_op(self.spec_selected(), v))),
            None => slider.events_after(key_event, before, after),
        }
    }

    /// Key events go to the selected widget; a change of focus selects another widget.
    pub fn process_key_event(
        &mut self,
        modifiers: &Modifiers,
        key_event: &KeyEvent,
        events: &mut VecDeque<GlobalEvent>,
    ) -> (r: PageResponse)
        requires
            old(self).key_ok(*key_event),
        ensures
            r == page_response(old(self).widget_standard(*key_event, *modifiers)),
            final(self).wf(),
            final(events)@.len() >= old(events)@.len(),
            final(events)@.take(old(events)@.len() as int) == old(events)@,
            final(self).spec_selected() == focus_after(
                old(self).widget_standard(*key_event, *modifiers),
                old(self).spec_selected(),
            ),
            old(self).spec_selected() == Self::SONG_NAME ==> {
                &&& final(self).spec_song_name().spec_text() == old(self).spec_song_name().input(*key_event, *modifiers).text
                &&& final(self).spec_song_name().spec_cursor() == old(self).spec_song_name().input(*key_event, *modifiers).cursor
                &&& final(events)@ == old(events)@
            },
            old(self).selected_slider() matches Some(slider) ==> {
                &&& final(self).selected_slider_of(old(self).spec_selected()).value() == slider.input(*key_event, *modifiers).2
                &&& old(self).slider_events(slider, *key_event, *modifiers, old(events)@, final(events)@)
            },
    {
        proof {
            use_type_invariant(&*self);
        }
        let mut taken = Self::new();
        std::mem::swap(self, &mut taken);
        let Self { mut song_name, mut initial_tempo, mut initial_speed, mut global_volume, selected } = taken;
        let (standard, op) = if selected == Self::SONG_NAME {
            (song_name.process_input(modifiers, key_event).standard, None)
        } else if selected == Self::INITIAL_TEMPO {
            let r = initial_tempo.process_input(modifiers, key_event, events);
            (r.standard, match r.extra {
                Some(v) => Some(SongOperation::SetInitialTempo(v as u8)),
                None => None,
            })
        } else if selected == Self::INITIAL_SPEED {
            let r = initial_speed.process_input(modifiers, key_event, events);
            (r.standard, match r.extra {
                Some(v) => Some(SongOperation::SetInitialSpeed(v as u8)),
                None => None,
            })
        } else {
            let r = global_volume.process_input(modifiers, key_event, events);
            (r.standard, match r.extra {
                Some(v) => Some(SongOperation::SetGlobalVol(v as u8)),
                None => None,
            })
        };
        if let Some(op) = op {
            // the song takes the new setting
            events.push_back(GlobalEvent::SongOp(op));
        }
        let mut selected = selected;
        let response = standard.to_page_resp(&mut selected);
        *self = Self { song_name, initial_tempo, initial_speed, global_volume, selected };
        response
    }

    /// Whether the page takes `key_event`: the song name field takes a pressed character
    /// key only when it produces exactly one character.
    pub open spec fn key_ok(&self, key_event: KeyEvent) -> bool {
        self.spec_selected() == Self::SONG_NAME ==> single_char_key(key_event)
    }

    pub fn accepts_key(&self, key_event: &KeyEvent) -> (r: bool)
        ensures
            r == self.key_ok(*key_event),
    {
        self.selected != Self::SONG_NAME || is_single_char_key(key_event)
    }

    /// The slider at focus number `n`.
    pub open spec fn selected_slider_of(&self, n: usize) -> Slider {
        if n == Self::INITIAL_TEMPO {
            self.spec_initial_tempo()
        } else if n == Self::INITIAL_SPEED {
            self.spec_initial_speed()
        } else {
            self.spec_global_volume()
        }
    }

    /// What drawing the page does: the four widgets, the selected one highlighted.
    pub open spec fn paint_cmds(&self) -> Seq<Paint> {
        self.spec_song_name().paint_cmds(self.spec_selected() == Self::SONG_NAME) + self.spec_initial_tempo().paint_cmds(
            self.spec_selected() == Self::INITIAL_TEMPO,
        ) + self.spec_initial_speed().paint_cmds(self.spec_selected() == Self::INITIAL_SPEED)
            + self.spec_global_volume().paint_cmds(self.spec_selected() == Self::GLOBAL_VOLUME)
    }

    pub fn draw(&self, buffer: &mut DrawBuffer)
        requires
            old(buffer).wf(),
        ensures
            final(buffer).painted(old(buffer), self.paint_cmds()),
    {
        let ghost g0 = *buffer;
        self.song_name.draw(buffer, self.selected == Self::SONG_NAME);
        let ghost g1 = *buffer;
        self.initial_tempo.draw(buffer, self.selected == Self::INITIAL_TEMPO);
        let ghost g2 = *buffer;
        self.initial_speed.draw(buffer, self.selected == Self::INITIAL_SPEED);
        let ghost g3 = *buffer;
        self.global_volume.draw(buffer, self.selected == Self::GLOBAL_VOLUME);
        proof {
            let a = self.spec_song_name().paint_cmds(self.spec_selected() == Self::SONG_NAME);
            let b = self.spec_initial_tempo().paint_cmds(self.spec_selected() == Self::INITIAL_TEMPO);
            let c = self.spec_initial_speed().paint_cmds(self.spec_selected() == Self::INITIAL_SPEED);
            let d = self.spec_global_volume().paint_cmds(self.spec_selected() == Self::GLOBAL_VOLUME);
            DrawBuffer::lemma_painted_then(&g0, &g1, &g2, a, b);
            DrawBuffer::lemma_painted_then(&g0, &g2, &g3, a + b, c);
            DrawBuffer::lemma_painted_then(&g0, &g3, buffer, a + b + c, d);
        }
    }

    /// What drawing the constant parts does: background, headings, labels and two boxes.
    pub open spec fn constant_cmds() -> Seq<Paint> {
        seq![
            Paint::Rect { color: 2, top: 12, bot: 49, left: 0, right: 79 },
            Paint::Text { text: "Song Variables"@, x: 33, y: 13, fg: 3, bg: 2 },
            Paint::Text { text: "Song Name"@, x: 7, y: 16, fg: 0, bg: 2 },
            Paint::Box { top: 15, bot: 17, left: 16, right: 43, space: 7, bg: 2, tl: 1, br: 3 },
            Paint::Text { text: "Initial Tempo"@, x: 3, y: 19, fg: 0, bg: 2 },
            Paint::Text { text: "Initial Speed"@, x: 3, y: 20, fg: 0, bg: 2 },
            Paint::Box { top: 18, bot: 21, left: 16, right: 50, space: 7, bg: 2, tl: 1, br: 3 },
            Paint::Text { text: "Global Volume"@, x: 3, y: 23, fg: 0, bg: 2 },
        ]
    }

    pub fn draw_constant(&self, buffer: &mut DrawBuffer)
        requires
            old(buffer).wf(),
        ensures
            final(buffer).painted(old(buffer), Self::constant_cmds()),
    {
        proof {
            reveal_strlit("Song Variables");
            reveal_strlit("Song Name");
            reveal_strlit("Initial Tempo");
            reveal_strlit("Initial Speed");
            reveal_strlit("Global Volume");
        }
        let ghost g0 = *buffer;
        buffer.draw_rect(BACKGROUND_COLOR, CharRect::page_area());
        let ghost g1 = *buffer;
        buffer.draw_string("Song Variables", CharPosition::new(33, 13), 3, 2);
        let ghost g2 = *buffer;
        buffer.draw_string("Song Name", CharPosition::new(7, 16), 0, 2);
        let ghost g3 = *buffer;
        buffer.draw_in_box(CharRect::new(15, 17, 16, 43), BACKGROUND_COLOR, TOPLEFT_COLOR, BOTRIGHT_COLOR, 1);
        let ghost g4 = *buffer;
        buffer.draw_string("Initial Tempo", CharPosition::new(3, 19), 0, 2);
        let ghost g5 = *buffer;
        buffer.draw_string("Initial Speed", CharPosition::new(3, 20), 0, 2);
        let ghost g6 = *buffer;
        buffer.draw_in_box(CharRect::new(18, 21, 16, 50), BACKGROUND_COLOR, TOPLEFT_COLOR, BOTRIGHT_COLOR, 1);
        let ghost g7 = *buffer;
        buffer.draw_string("Global Volume", CharPosition::new(3, 23), 0, 2);
        let ghost g8 = *buffer;
        proof {
            let c = Self::constant_cmds();
            DrawBuffer::lemma_painted_then(&g0, &g1, &g2, seq![c[0]], seq![c[1]]);
            DrawBuffer::lemma_painted_then(&g0, &g2, &g3, seq![c[0]] + seq![c[1]], seq![c[2]]);
            DrawBuffer::lemma_painted_then(&g0, &g3, &g4, seq![c[0]] + seq![c[1]] + seq![c[2]], seq![c[3]]);
            DrawBuffer::lemma_painted_then(&g0, &g4, &g5, seq![c[0]] + seq![c[1]] + seq![c[2]] + seq![c[3]], seq![c[4]]);
            DrawBuffer::lemma_painted_then(&g0, &g5, &g6, seq![c[0]] + seq![c[1]] + seq![c[2]] + seq![c[3]] + seq![c[4]], seq![c[5]]);
            DrawBuffer::lemma_painted_then(&g0, &g6, &g7, seq![c[0]] + seq![c[1]] + seq![c[2]] + seq![c[3]] + seq![c[4]] + seq![c[5]], seq![c[6]]);
            DrawBuffer::lemma_painted_then(&g0, &g7, &g8, seq![c[0]] + seq![c[1]] + seq![c[2]] + seq![c[3]] + seq![c[4]] + seq![c[5]] + seq![c[6]], seq![c[7]]);
            assert(seq![c[0]] + seq![c[1]] + seq![c[2]] + seq![c[3]] + seq![c[4]] + seq![c[5]] + seq![c[6]] + seq![c[7]] =~= c);
        }
    }
}


impl SongDirectoryConfigPage {
    /// The song variables page draws only into the page area, rows 12 to 49.
    pub proof fn lemma_in_page_area(&self)
        requires
            self.wf(),
        ensures
            all_within_rows(self.paint_cmds(), 12, 49),
            all_within_rows(Self::constant_cmds(), 12, 49),
    {
        let a = self.spec_song_name().paint_cmds(self.spec_selected() == Self::SONG_NAME);
        let b = self.spec_initial_tempo().paint_cmds(self.spec_selected() == Self::INITIAL_TEMPO);
        let c = self.spec_initial_speed().paint_cmds(self.spec_selected() == Self::INITIAL_SPEED);
        let d = self.spec_global_volume().paint_cmds(self.spec_selected() == Self::GLOBAL_VOLUME);
        crate::ui::widgets::text_in::lemma_paint_in_row(self.spec_song_name(), self.spec_selected() == Self::SONG_NAME);
        crate::ui::widgets::slider::lemma_paint_in_row(self.spec_initial_tempo(), self.spec_selected() == Self::INITIAL_TEMPO);
        crate::ui::widgets::slider::lemma_paint_in_row(self.spec_initial_speed(), self.spec_selected() == Self::INITIAL_SPEED);
        crate::ui::widgets::slider::lemma_paint_in_row(self.spec_global_volume(), self.spec_selected() == Self::GLOBAL_VOLUME);
        lemma_within_rows_wider(a, 16, 16, 12, 49);
        lemma_within_rows_wider(b, 19, 19, 12, 49);
        lemma_within_rows_wider(c, 20, 20, 12, 49);
        lemma_within_rows_wider(d, 23, 23, 12, 49);
        lemma_within_rows_concat(a, b, 12, 49);
        lemma_within_rows_concat(a + b, c, 12, 49);
        lemma_within_rows_concat(a + b + c, d, 12, 49);
    }
}
} // verus!
