//! The pattern editor.
use std::collections::VecDeque;
use vstd::prelude::*;
use vstd::string::*;

use crate::coordinates::{CharPosition, CharRect};
use crate::draw_buffer::{all_within_rows, lemma_within_rows_concat, DrawBuffer, Paint};
use crate::events::{keeps_header_drawable, GlobalEvent};
use crate::font::{basic_font_glyph, basic_glyph};
use crate::input::{Key, KeyEvent, Modifiers, NamedKey};
use crate::numbers::{decimal_digits, digit_char, padded3, padded_three, parse_i16, parsed_i16, zero_padded};
use crate::playback::pattern::{Event, Pattern, PatternOperation};
use crate::ui::header::HeaderEvent;
use crate::ui::pages::PageResponse;

verus! {

/// The rows a new pattern has.
pub const DEFAULT_ROWS: usize = 64;

/// The part of an event the cursor is on.
#[derive(Debug, Clone, Copy, PartialEq, Eq, Structural)]
pub enum InEventPosition {
    Note,
    Octave,
    Sample1,
    Sample2,
    VolPan1,
    VolPan2,
    Effect1,
    Effect2,
    Effect3,
}

impl InEventPosition {
    /// The order of the parts from left to right.
    pub open spec fn index(self) -> int {
        match self {
            InEventPosition::Note => 0,
            InEventPosition::Octave => 1,
            InEventPosition::Sample1 => 2,
            InEventPosition::Sample2 => 3,
            InEventPosition::VolPan1 => 4,
            InEventPosition::VolPan2 => 5,
            InEventPosition::Effect1 => 6,
            InEventPosition::Effect2 => 7,
            InEventPosition::Effect3 => 8,
        }
    }

    /// The part right of this one, if there is one.
    pub fn to_right(self) -> (r: Option<Self>)
        ensures
            self.index() == 8 <==> r is None,
            r matches Some(p) ==> p.index() == self.index() + 1,
    {
        match self {
            InEventPosition::Note => Some(Self::Octave),
            InEventPosition::Octave => Some(Self::Sample1),
            InEventPosition::Sample1 => Some(Self::Sample2),
            InEventPosition::Sample2 => Some(Self::VolPan1),
            InEventPosition::VolPan1 => Some(Self::VolPan2),
            InEventPosition::VolPan2 => Some(Self::Effect1),
            InEventPosition::Effect1 => Some(Self::Effect2),
            InEventPosition::Effect2 => Some(Self::Effect3),
            InEventPosition::Effect3 => None,
        }
    }

    /// The part left of this one, if there is one.
    pub fn to_left(self) -> (r: Option<Self>)
        ensures
            self.index() == 0 <==> r is None,
            r matches Some(p) ==> p.index() == self.index() - 1,
    {
        match self {
            InEventPosition::Note => None,
            InEventPosition::Octave => Some(Self::Note),
            InEventPosition::Sample1 => Some(Self::Octave),
            InEventPosition::Sample2 => Some(Self::Sample1),
            InEventPosition::VolPan1 => Some(Self::Sample2),
            InEventPosition::VolPan2 => Some(Self::VolPan1),
            InEventPosition::Effect1 => Some(Self::VolPan2),
            InEventPosition::Effect2 => Some(Self::Effect1),
            InEventPosition::Effect3 => Some(Self::Effect2),
        }
    }
}

/// A row and a channel of a pattern.
#[derive(Debug, Clone, Copy, PartialEq, Eq, Structural)]
pub struct InPatternPosition {
    pub row: u16,
    pub channel: u8,
}

pub enum PatternPageEvent {
    /// pattern `idx` of the song arrived
    Loaded(Pattern, usize),
    /// the sample list selected a sample
    SetSampleInstr(u8),
}

/// Whether the notes of all events of `pattern` have an octave below 10.
/// The octave a typed text names: the text read as an unsigned byte, an optional `+`
/// and then decimal digits whose value is at most 255.
pub open spec fn octave_typed(text: Seq<char>) -> Option<int> {
    if text.len() > 0 && text[0] == '-' {
        None
    } else {
        match parsed_i16(text) {
            Some(v) => if 0 <= v <= 255 {
                Some(v)
            } else {
                None
            },
            None => None,
        }
    }
}

/// Reads the octave that `text` names.
pub fn typed_octave(text: &str) -> (r: Option<u8>)
    ensures
        r matches Some(o) ==> octave_typed(text@) == Some(o as int),
        r is None ==> octave_typed(text@) is None,
{
    if text.unicode_len() > 0 && text.get_char(0) == '-' {
        return None;
    }
    match parse_i16(text) {
        Some(v) => if 0 <= v && v <= 255 {
            Some(v as u8)
        } else {
            None
        },
        None => None,
    }
}

pub open spec fn notes_valid(pattern: Pattern) -> bool {
    forall|r: int, c: u8|
        0 <= r < pattern.rows_len() ==> (#[trigger] pattern.event_at(r, c) matches Some(e) ==> (e.note matches Some(
            n,
        ) ==> n < 120))
}

/// Whether every note of the pattern lies below 120, the notes the editor can show.
pub fn notes_in_range(pattern: &Pattern) -> (r: bool)
    requires
    ensures
        r == notes_valid(*pattern),
{
    let rows = pattern.row_count();
    let mut row: usize = 0;
    while row < rows
        invariant
            rows == pattern.rows_len(),
            row <= rows,
            forall|r: int, c: u8|
                0 <= r < row ==> (#[trigger] pattern.event_at(r, c) matches Some(e) ==> (e.note matches Some(n) ==> n < 120)),
        decreases rows - row,
    {
        let mut c: u32 = 0;
        while c < 256
            invariant
                rows == pattern.rows_len(),
                row < rows,
                c <= 256,
                forall|r: int, ch: u8|
                    0 <= r < row ==> (#[trigger] pattern.event_at(r, ch) matches Some(e) ==> (e.note matches Some(n) ==> n < 120)),
                forall|ch: u8|
                    ch < c ==> (#[trigger] pattern.event_at(row as int, ch) matches Some(e) ==> (e.note matches Some(n) ==> n < 120)),
            decreases 256 - c,
        {
            if let Some(e) = pattern.get_event(row, c as u8) {
                if let Some(n) = e.note {
                    if n >= 120 {
                        return false;
                    }
                }
            }
            c += 1;
        }
        row += 1;
    }
    true
}

/// The two characters naming note `n` within its octave.
pub open spec fn note_name(n: int) -> (char, char) {
    if n == 0 {
        ('C', '-')
    } else if n == 1 {
        ('C', '#')
    } else if n == 2 {
        ('D', '-')
    } else if n == 3 {
        ('D', '#')
    } else if n == 4 {
        ('E', '-')
    } else if n == 5 {
        ('F', '-')
    } else if n == 6 {
        ('F', '#')
    } else if n == 7 {
        ('G', '-')
    } else if n == 8 {
        ('G', '#')
    } else if n == 9 {
        ('A', '-')
    } else if n == 10 {
        ('A', '#')
    } else {
        ('B', '-')
    }
}

fn note_name_exec(n: u8) -> (r: (char, char))
    requires
        n < 12,
    ensures
        r == note_name(n as int),
{
    match n {
        0 => ('C', '-'),
        1 => ('C', '#'),
        2 => ('D', '-'),
        3 => ('D', '#'),
        4 => ('E', '-'),
        5 => ('F', '-'),
        6 => ('F', '#'),
        7 => ('G', '-'),
        8 => ('G', '#'),
        9 => ('A', '-'),
        10 => ('A', '#'),
        _ => ('B', '-'),
    }
}

/// The glyph of an empty part of an event: a small block.
pub open spec fn block_code() -> Seq<u8> {
    seq![0u8, 0u8, 0u8, 0b11000u8, 0b11000u8, 0u8, 0u8, 0u8]
}

/// The ten glyphs that show `event` in a cell: two for the note name, the octave, two
/// each for sample and volume/panning, three for the effect. Parts not shown yet are
/// blocks, the effect `.00`.
pub open spec fn event_glyphs(event: Option<Event>) -> Seq<Seq<u8>> {
    let b = block_code();
    let (n1, n2, o) = match event {
        Some(e) => match e.note {
            Some(n) => {
                let (c1, c2) = note_name((n % 12) as int);
                (basic_font_glyph(c1), basic_font_glyph(c2), basic_font_glyph(digit_char((n / 12) as int)))
            },
            None => (b, b, b),
        },
        None => (b, b, b),
    };
    seq![n1, n2, o, b, b, b, b, basic_font_glyph('.'), basic_font_glyph('0'), basic_font_glyph('0')]
}

/// The glyphs of one event as they are drawn.
pub struct EventView {
    pub note1: [u8; 8],
    pub note2: [u8; 8],
    pub octave: [u8; 8],
    pub sample1: [u8; 8],
    pub sample2: [u8; 8],
    pub vol_pan1: [u8; 8],
    pub vol_pan2: [u8; 8],
    pub effect1: [u8; 8],
    pub effect2: [u8; 8],
    pub effect3: [u8; 8],
}

impl EventView {
    pub open spec fn glyphs(&self) -> Seq<Seq<u8>> {
        seq![
            self.note1@,
            self.note2@,
            self.octave@,
            self.sample1@,
            self.sample2@,
            self.vol_pan1@,
            self.vol_pan2@,
            self.effect1@,
            self.effect2@,
            self.effect3@,
        ]
    }
}

/// The glyph of the ASCII character `c`.
fn glyph_of(c: char) -> (r: [u8; 8])
    requires
        (c as u32) < 128,
    ensures
        r@ == basic_font_glyph(c),
{
    match basic_glyph(c) {
        Some(g) => g,
        None => {
            proof {
                assert(false);
            }
            [0u8; 8]
        },
    }
}

/// The view of `event`.
pub fn event_view(event: Option<Event>) -> (r: EventView)
    requires
        event matches Some(e) ==> (e.note matches Some(n) ==> n < 120),
    ensures
        r.glyphs() == event_glyphs(event),
{
    let block: [u8; 8] = [0, 0, 0, 0b11000, 0b11000, 0, 0, 0];
    proof {
        assert(block@ =~= block_code());
    }
    let mut view = EventView {
        note1: block,
        note2: block,
        octave: block,
        sample1: block,
        sample2: block,
        vol_pan1: block,
        vol_pan2: block,
        effect1: glyph_of('.'),
        effect2: glyph_of('0'),
        effect3: glyph_of('0'),
    };
    if let Some(e) = event {
        if let Some(n) = e.note {
            let (first, second) = note_name_exec(n % 12);
            view.note1 = glyph_of(first);
            view.note2 = glyph_of(second);
            let octave = n / 12;
            let octave_char = match octave {
                0 => '0',
                1 => '1',
                2 => '2',
                3 => '3',
                4 => '4',
                5 => '5',
                6 => '6',
                7 => '7',
                8 => '8',
                _ => '9',
            };
            view.octave = glyph_of(octave_char);
        }
    }
    proof {
        assert(view.glyphs() =~= event_glyphs(event));
    }
    view
}

/// What drawing a cell with `view` at cell (`x`, `y`) on background `bg` does.
pub open spec fn cell_cmds(view: Seq<Seq<u8>>, x: int, y: int, bg: u8) -> Seq<Paint> {
    seq![
        Paint::Glyph { glyph: view[0], x: x + 0, y, fg: 6, bg },
        Paint::Glyph { glyph: view[1], x: x + 1, y, fg: 6, bg },
        Paint::Glyph { glyph: view[2], x: x + 2, y, fg: 6, bg },
        Paint::Rect { color: bg, top: y, bot: y, left: x + 3, right: x + 3 },
        Paint::Glyph { glyph: view[3], x: x + 4, y, fg: 6, bg },
        Paint::Glyph { glyph: view[4], x: x + 5, y, fg: 6, bg },
        Paint::Rect { color: bg, top: y, bot: y, left: x + 6, right: x + 6 },
        Paint::Glyph { glyph: view[5], x: x + 7, y, fg: 6, bg },
        Paint::Glyph { glyph: view[6], x: x + 8, y, fg: 6, bg },
        Paint::Rect { color: bg, top: y, bot: y, left: x + 9, right: x + 9 },
        Paint::Glyph { glyph: view[7], x: x + 10, y, fg: 6, bg },
        Paint::Glyph { glyph: view[8], x: x + 11, y, fg: 6, bg },
        Paint::Glyph { glyph: view[9], x: x + 12, y, fg: 6, bg },
    ]
}

/// Draws the cell of one event.
fn draw_cell(buffer: &mut DrawBuffer, view: &EventView, pos: CharPosition, bg: u8)
    requires
        old(buffer).wf(),
        pos.spec_x() + 12 < 80,
        bg < 16,
    ensures
        final(buffer).painted(old(buffer), cell_cmds(view.glyphs(), pos.spec_x(), pos.spec_y(), bg)),
{
    let ghost b0 = *buffer;
    let _ = pos.x();
    let _ = pos.y();
        buffer.draw_char(view.note1, pos, 6, bg);
        let ghost s0 = *buffer;
        buffer.draw_char(view.note2, pos + (1, 0), 6, bg);
        let ghost s1 = *buffer;
        buffer.draw_char(view.octave, pos + (2, 0), 6, bg);
        let ghost s2 = *buffer;
        buffer.draw_rect(bg, CharRect::from(pos + (3, 0)));
        let ghost s3 = *buffer;
        buffer.draw_char(view.sample1, pos + (4, 0), 6, bg);
        let ghost s4 = *buffer;
        buffer.draw_char(view.sample2, pos + (5, 0), 6, bg);
        let ghost s5 = *buffer;
        buffer.draw_rect(bg, CharRect::from(pos + (6, 0)));
        let ghost s6 = *buffer;
        buffer.draw_char(view.vol_pan1, pos + (7, 0), 6, bg);
        let ghost s7 = *buffer;
        buffer.draw_char(view.vol_pan2, pos + (8, 0), 6, bg);
        let ghost s8 = *buffer;
        buffer.draw_rect(bg, CharRect::from(pos + (9, 0)));
        let ghost s9 = *buffer;
        buffer.draw_char(view.effect1, pos + (10, 0), 6, bg);
        let ghost s10 = *buffer;
        buffer.draw_char(view.effect2, pos + (11, 0), 6, bg);
        let ghost s11 = *buffer;
        buffer.draw_char(view.effect3, pos + (12, 0), 6, bg);
        let ghost s12 = *buffer;
        proof {
            let c = cell_cmds(view.glyphs(), pos.spec_x(), pos.spec_y(), bg);
            DrawBuffer::lemma_painted_then(&b0, &s0, &s1, seq![c[0]], seq![c[1]]);
            DrawBuffer::lemma_painted_then(&b0, &s1, &s2, seq![c[0]] + seq![c[1]], seq![c[2]]);
            DrawBuffer::lemma_painted_then(&b0, &s2, &s3, seq![c[0]] + seq![c[1]] + seq![c[2]], seq![c[3]]);
            DrawBuffer::lemma_painted_then(&b0, &s3, &s4, seq![c[0]] + seq![c[1]] + seq![c[2]] + seq![c[3]], seq![c[4]]);
            DrawBuffer::lemma_painted_then(&b0, &s4, &s5, seq![c[0]] + seq![c[1]] + seq![c[2]] + seq![c[3]] + seq![c[4]], seq![c[5]]);
            DrawBuffer::lemma_painted_then(&b0, &s5, &s6, seq![c[0]] + seq![c[1]] + seq![c[2]] + seq![c[3]] + seq![c[4]] + seq![c[5]], seq![c[6]]);
            DrawBuffer::lemma_painted_then(&b0, &s6, &s7, seq![c[0]] + seq![c[1]] + seq![c[2]] + seq![c[3]] + seq![c[4]] + seq![c[5]] + seq![c[6]], seq![c[7]]);
            DrawBuffer::lemma_painted_then(&b0, &s7, &s8, seq![c[0]] + seq![c[1]] + seq![c[2]] + seq![c[3]] + seq![c[4]] + seq![c[5]] + seq![c[6]] + seq![c[7]], seq![c[8]]);
            DrawBuffer::lemma_painted_then(&b0, &s8, &s9, seq![c[0]] + seq![c[1]] + seq![c[2]] + seq![c[3]] + seq![c[4]] + seq![c[5]] + seq![c[6]] + seq![c[7]] + seq![c[8]], seq![c[9]]);
            DrawBuffer::lemma_painted_then(&b0, &s9, &s10, seq![c[0]] + seq![c[1]] + seq![c[2]] + seq![c[3]] + seq![c[4]] + seq![c[5]] + seq![c[6]] + seq![c[7]] + seq![c[8]] + seq![c[9]], seq![c[10]]);
            DrawBuffer::lemma_painted_then(&b0, &s10, &s11, seq![c[0]] + seq![c[1]] + seq![c[2]] + seq![c[3]] + seq![c[4]] + seq![c[5]] + seq![c[6]] + seq![c[7]] + seq![c[8]] + seq![c[9]] + seq![c[10]], seq![c[11]]);
            DrawBuffer::lemma_painted_then(&b0, &s11, &s12, seq![c[0]] + seq![c[1]] + seq![c[2]] + seq![c[3]] + seq![c[4]] + seq![c[5]] + seq![c[6]] + seq![c[7]] + seq![c[8]] + seq![c[9]] + seq![c[10]] + seq![c[11]], seq![c[12]]);
            assert(seq![c[0]] + seq![c[1]] + seq![c[2]] + seq![c[3]] + seq![c[4]] + seq![c[5]] + seq![c[6]] + seq![c[7]] + seq![c[8]] + seq![c[9]] + seq![c[10]] + seq![c[11]] + seq![c[12]] =~= c);
        }
}

/// The state of the pattern editor that key events change.
pub struct CursorState {
    pub row: int,
    pub channel: int,
    pub field: InEventPosition,
    pub draw_row: int,
    pub draw_channel: int,
}

/// What a key event does in the pattern editor: the new cursor state, the response, the
/// events sent and the edit of the pattern, if any.
pub struct PatternStep {
    pub state: CursorState,
    pub response: PageResponse,
    pub events: Seq<GlobalEvent>,
    pub edit: Option<(int, int, Event)>,
}

/// The cursor, and the first shown row and channel.
#[derive(Debug, Clone, Copy)]
struct Cursor {
    position: InPatternPosition,
    field: InEventPosition,
    draw_position: InPatternPosition,
}

pub struct PatternPage {
    pattern_index: usize,
    pattern: Pattern,
    cursor: Cursor,
    sample_instr: u8,
}

impl PatternPage {
    pub const MAX_PATTERN: usize = 199;
    pub const DRAWN_ROWS: u16 = 32;
    pub const DRAWN_CHANNELS: u8 = 5;
    pub const MAX_CHANNELS: u8 = 64;
    /// how many rows the cursor moves on page up and down
    pub const PAGE_AS_ROWS: u16 = 16;
    pub const CHANNEL_WIDTH: usize = 14;
    pub const ROW_HIGHTLIGHT_MINOR: u16 = 4;
    pub const ROW_HIGHTLIGHT_MAJOR: u16 = 16;

    #[verifier::type_invariant]
    spec fn inv(self) -> bool {
        let rc = self.pattern.rows_len();
        let cur = self.cursor.position;
        let d = self.cursor.draw_position;
        &&& notes_valid(self.pattern)
        &&& 32 <= rc <= 200
        &&& self.pattern_index <= Self::MAX_PATTERN
        &&& d.row <= cur.row < d.row + 32
        &&& d.row + 32 <= rc
        &&& d.channel <= cur.channel < d.channel + 5
        &&& d.channel + 5 <= 64
    }

    pub closed spec fn spec_pattern(&self) -> Pattern {
        self.pattern
    }

    pub closed spec fn spec_index(&self) -> int {
        self.pattern_index as int
    }

    pub closed spec fn state(&self) -> CursorState {
        CursorState {
            row: self.cursor.position.row as int,
            channel: self.cursor.position.channel as int,
            field: self.cursor.field,
            draw_row: self.cursor.draw_position.row as int,
            draw_channel: self.cursor.draw_position.channel as int,
        }
    }

    pub closed spec fn spec_sample_instr(&self) -> u8 {
        self.sample_instr
    }

    /// What every pattern editor satisfies: the 32 shown rows and 5 shown channels lie in
    /// the pattern, and the cursor is among them.
    pub open spec fn wf(&self) -> bool {
        let s = self.state();
        let rc = self.spec_pattern().rows_len();
        &&& notes_valid(self.spec_pattern())
        &&& 32 <= rc <= 200
        &&& 0 <= self.spec_index() <= Self::MAX_PATTERN
        &&& 0 <= s.draw_row <= s.row < s.draw_row + 32
        &&& s.draw_row + 32 <= rc
        &&& 0 <= s.draw_channel <= s.channel < s.draw_channel + 5
        &&& s.draw_channel + 5 <= 64
    }

    pub fn get_wf(&self)
        ensures
            self.wf(),
    {
        proof {
            use_type_invariant(self);
        }
    }

    /// The editor on pattern 0, empty with the default number of rows, cursor at the start.
    pub fn new() -> (r: Self)
        ensures
            r.spec_index() == 0,
            r.spec_pattern().rows_len() == DEFAULT_ROWS,
            forall|row: int, c: u8| 0 <= row < DEFAULT_ROWS ==> r.spec_pattern().event_at(row, c) is None,
            r.state() == (CursorState { row: 0, channel: 0, field: InEventPosition::Note, draw_row: 0, draw_channel: 0 }),
    {
        let pattern = Pattern::new(DEFAULT_ROWS);
        Self {
            pattern_index: 0,
            pattern,
            cursor: Cursor {
                position: InPatternPosition { row: 0, channel: 0 },
                field: InEventPosition::Note,
                draw_position: InPatternPosition { row: 0, channel: 0 },
            },
            sample_instr: 0,
        }
    }

    /// The part of an event at position `i` from the left.
    pub open spec fn field_at(i: int) -> InEventPosition {
        if i <= 0 {
            InEventPosition::Note
        } else if i == 1 {
            InEventPosition::Octave
        } else if i == 2 {
            InEventPosition::Sample1
        } else if i == 3 {
            InEventPosition::Sample2
        } else if i == 4 {
            InEventPosition::VolPan1
        } else if i == 5 {
            InEventPosition::VolPan2
        } else if i == 6 {
            InEventPosition::Effect1
        } else if i == 7 {
            InEventPosition::Effect2
        } else {
            InEventPosition::Effect3
        }
    }

    /// A step that returns with a redraw.
    pub open spec fn redraw(state: CursorState, events: Seq<GlobalEvent>) -> PatternStep {
        PatternStep { state, response: PageResponse::RequestRedraw, events, edit: None }
    }

    /// What a key that reaches the handling of typed characters does: in the octave part,
    /// a text that names an octave sets the octave of the event under the cursor, and the
    /// edit is sent on.
    pub open spec fn char_step(&self, key_event: KeyEvent) -> PatternStep {
        let s = self.state();
        let none = PatternStep { state: s, response: PageResponse::Nothing, events: Seq::empty(), edit: None };
        let key = key_event.logical_key;
        if key is Character && s.field == InEventPosition::Octave {
            match self.spec_pattern().event_at(s.row, s.channel as u8) {
                Some(e) => match e.note {
                    Some(n) => if octave_typed(key->Character_0@) is Some {
                        let octave = octave_typed(key->Character_0@)->0;
                        let new_event = Event { note: Some((n % 12 + 12 * octave) as u8), ..e };
                        PatternStep {
                            state: s,
                            response: PageResponse::Nothing,
                            events: seq![
                                GlobalEvent::PatternEdit(
                                    self.spec_index() as usize,
                                    PatternOperation::SetEvent {
                                        row: s.row as usize,
                                        channel: s.channel as u8,
                                        event: new_event,
                                    },
                                ),
                            ],
                            edit: Some((s.row, s.channel, new_event)),
                        }
                    } else {
                        none
                    },
                    None => none,
                },
                None => none,
            }
        } else {
            none
        }
    }

    /// What a key event does in the pattern editor. `+` and `-` ask for the next or the
    /// previous pattern; arrows move the cursor (left and right through the parts of an
    /// event, then to the neighbouring channel), tab to the next channel (shift + tab to
    /// the start of the event, then the previous channel), page up and down by 16 rows.
    /// Other keys, and moves that change nothing, reach the handling of typed characters.
    pub open spec fn key_step(&self, key_event: KeyEvent, modifiers: Modifiers) -> PatternStep {
        let s = self.state();
        let key = key_event.logical_key;
        let idx = self.spec_index();
        let none = PatternStep { state: s, response: PageResponse::Nothing, events: Seq::empty(), edit: None };
        if !key_event.pressed {
            none
        } else if key.is_char('+') && idx != Self::MAX_PATTERN {
            Self::redraw(s, seq![GlobalEvent::LoadPattern((idx + 1) as usize)])
        } else if key.is_char('-') && idx != 0 {
            Self::redraw(s, seq![GlobalEvent::LoadPattern((idx - 1) as usize)])
        } else if key.is_char('+') || key.is_char('-') {
            self.char_step(key_event)
        } else {
            let (moved_state, moved, moved_events) = if key.is_named(NamedKey::ArrowDown) {
                self.cursor_to(s.row + 1, s.channel)
            } else if key.is_named(NamedKey::ArrowUp) {
                self.cursor_to(if s.row >= 1 { s.row - 1 } else { 0 }, s.channel)
            } else if key.is_named(NamedKey::PageDown) {
                self.cursor_to(s.row + 16, s.channel)
            } else if key.is_named(NamedKey::PageUp) {
                self.cursor_to(if s.row >= 16 { s.row - 16 } else { 0 }, s.channel)
            } else if key.is_named(NamedKey::ArrowRight) || (key.is_named(NamedKey::Tab) && !modifiers.shift) {
                self.cursor_to(s.row, s.channel + 1)
            } else {
                self.cursor_to(s.row, if s.channel >= 1 { s.channel - 1 } else { 0 })
            };
            if key.is_named(NamedKey::ArrowDown) || key.is_named(NamedKey::ArrowUp) || key.is_named(NamedKey::PageDown)
                || key.is_named(NamedKey::PageUp) {
                if moved {
                    Self::redraw(moved_state, moved_events)
                } else {
                    self.char_step(key_event)
                }
            } else if key.is_named(NamedKey::ArrowRight) {
                if s.field.index() < 8 {
                    Self::redraw(CursorState { field: Self::field_at(s.field.index() + 1), ..s }, Seq::empty())
                } else if moved {
                    Self::redraw(CursorState { field: InEventPosition::Note, ..moved_state }, moved_events)
                } else {
                    self.char_step(key_event)
                }
            } else if key.is_named(NamedKey::ArrowLeft) {
                if s.field.index() > 0 {
                    Self::redraw(CursorState { field: Self::field_at(s.field.index() - 1), ..s }, Seq::empty())
                } else if moved {
                    Self::redraw(CursorState { field: InEventPosition::Effect3, ..moved_state }, moved_events)
                } else {
                    self.char_step(key_event)
                }
            } else if key.is_named(NamedKey::Tab) {
                if modifiers.shift {
                    if s.field != InEventPosition::Note {
                        Self::redraw(CursorState { field: InEventPosition::Note, ..s }, Seq::empty())
                    } else if moved {
                        Self::redraw(moved_state, moved_events)
                    } else {
                        self.char_step(key_event)
                    }
                } else {
                    Self::redraw(CursorState { field: InEventPosition::Note, ..moved_state }, moved_events)
                }
            } else {
                self.char_step(key_event)
            }
        }
    }

    /// Whether a typed character would reach a part of the event that cannot be edited yet
    /// (everything but note and octave).
    pub open spec fn unsupported_char(&self, key_event: KeyEvent, modifiers: Modifiers) -> bool {
        let step = self.key_step(key_event, modifiers);
        &&& key_event.pressed
        &&& key_event.logical_key is Character
        &&& step.response == PageResponse::Nothing
        &&& self.state().field != InEventPosition::Note
        &&& self.state().field != InEventPosition::Octave
    }

    /// Whether a typed octave would lift the note of the event under the cursor to 120 or
    /// more, which no note can be.
    pub open spec fn octave_too_high(&self, key_event: KeyEvent) -> bool {
        let s = self.state();
        &&& key_event.pressed
        &&& key_event.logical_key is Character
        &&& s.field == InEventPosition::Octave
        &&& self.spec_pattern().event_at(s.row, s.channel as u8) matches Some(e)
        &&& e.note matches Some(n)
        &&& octave_typed(key_event.logical_key->Character_0@) matches Some(octave)
        &&& n % 12 + 12 * octave >= 120
    }

    /// Whether the editor takes the key: it must reach neither a part of the event that
    /// cannot be edited yet nor set an octave too high for the note.
    pub open spec fn key_ok(&self, key_event: KeyEvent, modifiers: Modifiers) -> bool {
        !self.unsupported_char(key_event, modifiers) && !self.octave_too_high(key_event)
    }

    /// Whether the page can take `event`: a loaded pattern must be well formed, hold only
    /// notes below 120, have 32 to 200 rows and keep the shown rows inside it.
    pub fn accepts_event(&self, event: &PatternPageEvent) -> (r: bool)
        ensures
            r == (*event matches PatternPageEvent::Loaded(p, idx) ==> {
                &&& notes_valid(p)
                &&& 32 <= p.rows_len() <= 200
                &&& self.state().draw_row + 32 <= p.rows_len()
                &&& idx < 256
            }),
    {
        match event {
            PatternPageEvent::Loaded(p, idx) => {
                let rows = p.row_count();
                notes_in_range(p) && 32 <= rows && rows <= 200 && (self.cursor.draw_position.row as usize)
                    + 32 <= rows && *idx < 256
            },
            PatternPageEvent::SetSampleInstr(_) => true,
        }
    }

    /// Whether the editor takes the key: a typed character that reaches a part of the event
    /// other than the note and the octave cannot be edited yet.
    pub fn key_supported(&self, modifiers: &Modifiers, key_event: &KeyEvent) -> (r: bool)
        ensures
            r == self.key_ok(*key_event, *modifiers),
    {
        proof {
            use_type_invariant(self);
        }
        if !key_event.pressed {
            return true;
        }
        let key = &key_event.logical_key;
        let typed = match key {
            Key::Character(_) => true,
            _ => false,
        };
        if self.cursor.field == InEventPosition::Octave {
            if let Key::Character(text) = key {
                let pos = self.cursor.position;
                if let Some(e) = self.pattern.get_event(pos.row as usize, pos.channel) {
                    if let Some(n) = e.note {
                        if let Some(octave) = typed_octave(text.as_str()) {
                            return ((n % 12) as u32) + 12 * (octave as u32) < 120;
                        }
                    }
                }
            }
            return true;
        }
        if !typed || self.cursor.field == InEventPosition::Note {
            return true;
        }
        (key.char_is('+') && self.pattern_index != Self::MAX_PATTERN) || (key.char_is('-') && self.pattern_index != 0)
    }

    /// Puts `event` into the pattern and sends the edit on.
    fn set_event(&mut self, position: InPatternPosition, event: Event, events: &mut VecDeque<GlobalEvent>)
        requires
            position.row < old(self).spec_pattern().rows_len(),
            event.note matches Some(n) ==> n < 120,
        ensures
            final(self).state() == old(self).state(),
            final(self).spec_index() == old(self).spec_index(),
            final(self).spec_sample_instr() == old(self).spec_sample_instr(),
            final(self).spec_pattern().rows_len() == old(self).spec_pattern().rows_len(),
            forall|r: int, c: u8|
                0 <= r < old(self).spec_pattern().rows_len() ==> #[trigger] final(self).spec_pattern().event_at(r, c) == if r
                    == position.row && c == position.channel {
                    Some(event)
                } else {
                    old(self).spec_pattern().event_at(r, c)
                },
            final(events)@ == old(events)@.push(
                GlobalEvent::PatternEdit(
                    old(self).spec_index() as usize,
                    PatternOperation::SetEvent { row: position.row as usize, channel: position.channel, event },
                ),
            ),
    {
        proof {
            use_type_invariant(&*self);
        }
        let mut taken = PatternPage::new();
        std::mem::swap(self, &mut taken);
        let PatternPage { pattern_index, mut pattern, cursor, sample_instr } = taken;
        pattern.set_event(position.row as usize, position.channel, event);
        proof {
            assert forall|r: int, c: u8| 0 <= r < pattern.rows_len() implies (#[trigger] pattern.event_at(r, c) matches Some(
                e,
            ) ==> (e.note matches Some(n) ==> n < 120)) by {
                if !(r == position.row && c == position.channel) {
                    assert(old(self).spec_pattern().event_at(r, c) == pattern.event_at(r, c));
                }
            }
        }
        *self = PatternPage { pattern_index, pattern, cursor, sample_instr };
        // the audio side applies the same edit
        events.push_back(
            GlobalEvent::PatternEdit(
                pattern_index,
                PatternOperation::SetEvent { row: position.row as usize, channel: position.channel, event },
            ),
        );
    }

    /// Asks for pattern `idx` of the song; it arrives as a `Loaded` event.
    fn load_pattern(&self, idx: usize, events: &mut VecDeque<GlobalEvent>)
        ensures
            final(events)@ == old(events)@.push(GlobalEvent::LoadPattern(idx)),
    {
        events.push_back(GlobalEvent::LoadPattern(idx));
    }

    pub fn process_key_event(
        &mut self,
        modifiers: &Modifiers,
        key_event: &KeyEvent,
        event: &mut VecDeque<GlobalEvent>,
    ) -> (r: PageResponse)
        requires
            old(self).key_ok(*key_event, *modifiers),
        ensures
            final(self).state() == old(self).key_step(*key_event, *modifiers).state,
            r == old(self).key_step(*key_event, *modifiers).response,
            final(event)@ == old(event)@ + old(self).key_step(*key_event, *modifiers).events,
            final(self).spec_index() == old(self).spec_index(),
            final(self).spec_sample_instr() == old(self).spec_sample_instr(),
            final(self).spec_pattern().rows_len() == old(self).spec_pattern().rows_len(),
            forall|r: int, c: u8|
                0 <= r < old(self).spec_pattern().rows_len() ==> #[trigger] final(self).spec_pattern().event_at(r, c)
                    == match old(self).key_step(*key_event, *modifiers).edit {
                    Some((row, ch, e)) => if r == row && c == ch {
                        Some(e)
                    } else {
                        old(self).spec_pattern().event_at(r, c)
                    },
                    None => old(self).spec_pattern().event_at(r, c),
                },
    {
        proof {
            use_type_invariant(&*self);
            assert(old(event)@ + Seq::<GlobalEvent>::empty() =~= old(event)@);
        }
        if !key_event.pressed {
            return PageResponse::Nothing;
        }
        let key = &key_event.logical_key;
        let pos = self.cursor.position;
        if key.char_is('+') {
            if self.pattern_index != Self::MAX_PATTERN {
                self.load_pattern(self.pattern_index + 1, event);
                return PageResponse::RequestRedraw;
            }
        } else if key.char_is('-') {
            if self.pattern_index != 0 {
                self.load_pattern(self.pattern_index - 1, event);
                return PageResponse::RequestRedraw;
            }
        } else if key.named(NamedKey::ArrowDown) {
            let next = InPatternPosition { row: pos.row.saturating_add(1), ..pos };
            if self.set_cursor(next, event) {
                proof {
                    assert(event@ =~= old(event)@ + event@.skip(old(event)@.len() as int));
                }
                return PageResponse::RequestRedraw;
            }
        } else if key.named(NamedKey::ArrowUp) {
            let next = InPatternPosition { row: pos.row.saturating_sub(1), ..pos };
            if self.set_cursor(next, event) {
                proof {
                    assert(event@ =~= old(event)@ + event@.skip(old(event)@.len() as int));
                }
                return PageResponse::RequestRedraw;
            }
        } else if key.named(NamedKey::ArrowRight) {
            match self.cursor.field.to_right() {
                Some(p) => {
                    self.cursor = Cursor { field: p, ..self.cursor };
                    return PageResponse::RequestRedraw;
                },
                None => {
                    let next = InPatternPosition { channel: pos.channel.saturating_add(1), ..pos };
                    if self.set_cursor(next, event) {
                        self.cursor = Cursor { field: InEventPosition::Note, ..self.cursor };
                        proof {
                            assert(event@ =~= old(event)@ + event@.skip(old(event)@.len() as int));
                        }
                        return PageResponse::RequestRedraw;
                    }
                },
            }
        } else if key.named(NamedKey::ArrowLeft) {
            match self.cursor.field.to_left() {
                Some(p) => {
                    self.cursor = Cursor { field: p, ..self.cursor };
                    return PageResponse::RequestRedraw;
                },
                None => {
                    let next = InPatternPosition { channel: pos.channel.saturating_sub(1), ..pos };
                    if self.set_cursor(next, event) {
                        self.cursor = Cursor { field: InEventPosition::Effect3, ..self.cursor };
                        proof {
                            assert(event@ =~= old(event)@ + event@.skip(old(event)@.len() as int));
                        }
                        return PageResponse::RequestRedraw;
                    }
                },
            }
        } else if key.named(NamedKey::Tab) {
            // shift moves left, else right
            if modifiers.shift {
                if self.cursor.field == InEventPosition::Note {
                    let next = InPatternPosition { channel: pos.channel.saturating_sub(1), ..pos };
                    if self.set_cursor(next, event) {
                        proof {
                            assert(event@ =~= old(event)@ + event@.skip(old(event)@.len() as int));
                        }
                        return PageResponse::RequestRedraw;
                    }
                } else {
                    self.cursor = Cursor { field: InEventPosition::Note, ..self.cursor };
                    return PageResponse::RequestRedraw;
                }
            } else {
                let next = InPatternPosition { channel: pos.channel.saturating_add(1), ..pos };
                self.set_cursor(next, event);
                self.cursor = Cursor { field: InEventPosition::Note, ..self.cursor };
                proof {
                    assert(event@ =~= old(event)@ + event@.skip(old(event)@.len() as int));
                }
                return PageResponse::RequestRedraw;
            }
        } else if key.named(NamedKey::PageDown) {
            let next = InPatternPosition { row: pos.row.saturating_add(Self::PAGE_AS_ROWS), ..pos };
            if self.set_cursor(next, event) {
                proof {
                    assert(event@ =~= old(event)@ + event@.skip(old(event)@.len() as int));
                }
                return PageResponse::RequestRedraw;
            }
        } else if key.named(NamedKey::PageUp) {
            let next = InPatternPosition { row: pos.row.saturating_sub(Self::PAGE_AS_ROWS), ..pos };
            if self.set_cursor(next, event) {
                proof {
                    assert(event@ =~= old(event)@ + event@.skip(old(event)@.len() as int));
                }
                return PageResponse::RequestRedraw;
            }
        }
        // typed characters, by the part of the event under the cursor
        if let Key::Character(text) = key {
            match self.cursor.field {
                // notes are not entered yet
                InEventPosition::Note => {},
                InEventPosition::Octave => {
                    if let Some(e) = self.pattern.get_event(pos.row as usize, pos.channel) {
                        if let Some(n) = e.note {
                            if let Some(octave) = typed_octave(text.as_str()) {
                                let new_event = Event { note: Some(n % 12 + 12 * octave), ..e };
                                self.set_event(pos, new_event, event);
                            }
                        }
                    }
                },
                _ => {
                    proof {
                        assert(false);
                    }
                },
            }
        }
        PageResponse::Nothing
    }

    /// A loaded pattern replaces the edited one and the header learns of it; it must cover
    /// the shown rows. A selected sample is remembered for entering notes.
    pub fn process_event(&mut self, event: PatternPageEvent, events: &mut VecDeque<GlobalEvent>) -> (r: PageResponse)
        requires
            event matches PatternPageEvent::Loaded(p, idx) ==> {
                &&& notes_valid(p)
                &&& 32 <= p.rows_len() <= 200
                &&& old(self).state().draw_row + 32 <= p.rows_len()
                &&& idx < 256
            },
        ensures
            final(self).state() == old(self).state(),
            final(self).spec_index() == old(self).spec_index(),
            match event {
                PatternPageEvent::Loaded(p, idx) => {
                    &&& r == PageResponse::RequestRedraw
                    &&& final(self).spec_pattern() == p
                    &&& final(self).spec_sample_instr() == old(self).spec_sample_instr()
                    &&& final(events)@ == old(events)@ + seq![
                        GlobalEvent::Header(HeaderEvent::SetPattern(idx as u8)),
                        GlobalEvent::Header(HeaderEvent::SetMaxCursorRow(p.rows_len() as u16)),
                    ]
                },
                PatternPageEvent::SetSampleInstr(s) => {
                    &&& r == PageResponse::Nothing
                    &&& final(self).spec_pattern() == old(self).spec_pattern()
                    &&& final(self).spec_sample_instr() == s
                    &&& final(events)@ == old(events)@
                },
            },
    {
        proof {
            use_type_invariant(&*self);
        }
        match event {
            PatternPageEvent::Loaded(pattern, idx) => {
                let rows = pattern.row_count() as u16;
                self.pattern = pattern;
                events.push_back(GlobalEvent::Header(HeaderEvent::SetPattern(idx as u8)));
                events.push_back(GlobalEvent::Header(HeaderEvent::SetMaxCursorRow(rows)));
                proof {
                    assert(events@ =~= old(events)@ + seq![
                        GlobalEvent::Header(HeaderEvent::SetPattern(idx as u8)),
                        GlobalEvent::Header(HeaderEvent::SetMaxCursorRow(rows)),
                    ]);
                }
                PageResponse::RequestRedraw
            },
            PatternPageEvent::SetSampleInstr(s) => {
                self.sample_instr = s;
                PageResponse::Nothing
            },
        }
    }

    /// The background of row `row`: the cursor's row, every 16th and every 4th row stand out.
    pub open spec fn row_background(&self, row: int) -> u8 {
        if row == self.state().row {
            1
        } else if row % 16 == 0 {
            14
        } else if row % 4 == 0 {
            15
        } else {
            0
        }
    }

    /// What drawing the cell of shown channel `c_idx` and shown row `r_idx` does.
    pub open spec fn cell_of(&self, c_idx: int, r_idx: int) -> Seq<Paint> {
        let s = self.state();
        let row = s.draw_row + r_idx;
        let channel = s.draw_channel + c_idx;
        cell_cmds(
            event_glyphs(self.spec_pattern().event_at(row, channel as u8)),
            5 + c_idx * 14,
            15 + r_idx,
            self.row_background(row),
        )
    }

    /// What drawing the first `n` cells of shown channel `c_idx` does.
    pub open spec fn column_cmds(&self, c_idx: int, n: int) -> Seq<Paint>
        decreases n,
    {
        if n <= 0 {
            Seq::empty()
        } else {
            self.column_cmds(c_idx, n - 1) + self.cell_of(c_idx, n - 1)
        }
    }

    /// What drawing the cells of the first `n` shown channels does.
    pub open spec fn cells_cmds(&self, n: int) -> Seq<Paint>
        decreases n,
    {
        if n <= 0 {
            Seq::empty()
        } else {
            self.cells_cmds(n - 1) + self.column_cmds(n - 1, 32)
        }
    }

    /// What drawing the first `n` row numbers does.
    pub open spec fn row_numbers_cmds(&self, n: int) -> Seq<Paint>
        decreases n,
    {
        if n <= 0 {
            Seq::empty()
        } else {
            self.row_numbers_cmds(n - 1) + seq![
                Paint::Text { text: padded3(self.state().draw_row + n - 1), x: 1, y: 15 + n - 1, fg: 0, bg: 2 },
            ]
        }
    }

    /// What drawing the first `n` channel numbers does.
    pub open spec fn headings_cmds(&self, n: int) -> Seq<Paint>
        decreases n,
    {
        if n <= 0 {
            Seq::empty()
        } else {
            self.headings_cmds(n - 1) + seq![
                Paint::Text {
                    text: decimal_digits((self.state().draw_channel + n - 1) as nat, 2),
                    x: 14 + (n - 1) * 14,
                    y: 14,
                    fg: 3,
                    bg: 1,
                },
            ]
        }
    }

    /// The column within a cell, and the glyph of the view, of a part of an event.
    pub open spec fn field_place(field: InEventPosition) -> (int, int) {
        match field {
            InEventPosition::Note => (0, 0),
            InEventPosition::Octave => (2, 2),
            InEventPosition::Sample1 => (4, 3),
            InEventPosition::Sample2 => (5, 4),
            InEventPosition::VolPan1 => (7, 5),
            InEventPosition::VolPan2 => (8, 6),
            InEventPosition::Effect1 => (10, 7),
            InEventPosition::Effect2 => (11, 8),
            InEventPosition::Effect3 => (12, 9),
        }
    }

    /// What drawing the cursor does: the part of the event under it inverted.
    pub open spec fn cursor_cmds(&self) -> Seq<Paint> {
        let s = self.state();
        let view = event_glyphs(self.spec_pattern().event_at(s.row, s.channel as u8));
        let (dx, g) = Self::field_place(s.field);
        seq![
            Paint::Glyph {
                glyph: view[g],
                x: 5 + (s.channel - s.draw_channel) * 14 + dx,
                y: 15 + s.row - s.draw_row,
                fg: 0,
                bg: 3,
            },
        ]
    }

    /// What drawing the page does: row numbers, channel numbers, the 5 x 32 shown events
    /// and the cursor.
    pub open spec fn paint_cmds(&self) -> Seq<Paint> {
        self.row_numbers_cmds(32) + self.headings_cmds(5) + self.cells_cmds(5) + self.cursor_cmds()
    }

    pub fn draw(&self, buffer: &mut DrawBuffer)
        requires
            old(buffer).wf(),
        ensures
            final(buffer).painted(old(buffer), self.paint_cmds()),
    {
        proof {
            use_type_invariant(self);
            DrawBuffer::lemma_painted_nothing(buffer);
        }
        let ghost b0 = *buffer;
        let draw = self.cursor.draw_position;
        // row numbers
        let mut index: usize = 0;
        while index < 32
            invariant
                index <= 32,
                draw == self.cursor.draw_position,
                draw.row + 32 <= 200,
                buffer.painted(&b0, self.row_numbers_cmds(index as int)),
            decreases 32 - index,
        {
            let ghost before = *buffer;
            let text = padded_three((draw.row as usize + index) as i16);
            buffer.draw_string(text.as_str(), CharPosition::new(1, 15 + index), 0, 2);
            proof {
                DrawBuffer::lemma_painted_then(&b0, &before, buffer, self.row_numbers_cmds(index as int), seq![
                    Paint::Text { text: padded3(self.state().draw_row + index), x: 1, y: 15 + index, fg: 0, bg: 2 },
                ]);
            }
            index += 1;
        }
        let ghost b1 = *buffer;
        proof {
            DrawBuffer::lemma_painted_nothing(buffer);
        }
        // channel numbers
        let mut index: usize = 0;
        while index < 5
            invariant
                index <= 5,
                draw == self.cursor.draw_position,
                draw.channel + 5 <= 64,
                buffer.painted(&b1, self.headings_cmds(index as int)),
            decreases 5 - index,
        {
            let ghost before = *buffer;
            let text = zero_padded((draw.channel as usize + index) as u32, 2);
            buffer.draw_string(text.as_str(), CharPosition::new(14 + index * Self::CHANNEL_WIDTH, 14), 3, 1);
            proof {
                DrawBuffer::lemma_painted_then(&b1, &before, buffer, self.headings_cmds(index as int), seq![
                    Paint::Text {
                        text: decimal_digits((self.state().draw_channel + index) as nat, 2),
                        x: 14 + index * 14,
                        y: 14,
                        fg: 3,
                        bg: 1,
                    },
                ]);
            }
            index += 1;
        }
        let ghost b2 = *buffer;
        proof {
            DrawBuffer::lemma_painted_nothing(buffer);
        }
        // events
        let mut c_idx: usize = 0;
        while c_idx < 5
            invariant
                c_idx <= 5,
                draw == self.cursor.draw_position,
                self.wf(),
                buffer.painted(&b2, self.cells_cmds(c_idx as int)),
            decreases 5 - c_idx,
        {
            let ghost column_start = *buffer;
            proof {
                DrawBuffer::lemma_painted_nothing(buffer);
            }
            let mut r_idx: usize = 0;
            while r_idx < 32
                invariant
                    c_idx < 5,
                    r_idx <= 32,
                    draw == self.cursor.draw_position,
                    self.wf(),
                    buffer.painted(&column_start, self.column_cmds(c_idx as int, r_idx as int)),
                decreases 32 - r_idx,
            {
                let ghost before = *buffer;
                let row = draw.row + r_idx as u16;
                let channel = draw.channel + c_idx as u8;
                let background_color: u8 = if row == self.cursor.position.row {
                    1
                } else if row % Self::ROW_HIGHTLIGHT_MAJOR == 0 {
                    14
                } else if row % Self::ROW_HIGHTLIGHT_MINOR == 0 {
                    15
                } else {
                    0
                };
                let event = self.pattern.get_event(row as usize, channel);
                let view = event_view(event);
                draw_cell(buffer, &view, CharPosition::new(5 + c_idx * Self::CHANNEL_WIDTH, 15 + r_idx), background_color);
                proof {
                    DrawBuffer::lemma_painted_then(
                        &column_start,
                        &before,
                        buffer,
                        self.column_cmds(c_idx as int, r_idx as int),
                        self.cell_of(c_idx as int, r_idx as int),
                    );
                }
                r_idx += 1;
            }
            proof {
                DrawBuffer::lemma_painted_then(&b2, &column_start, buffer, self.cells_cmds(c_idx as int), self.column_cmds(c_idx as int, 32));
            }
            c_idx += 1;
        }
        let ghost b3 = *buffer;
        // the cursor
        let pos = self.cursor.position;
        let view = event_view(self.pattern.get_event(pos.row as usize, pos.channel));
        let c_idx = (pos.channel - draw.channel) as usize;
        let r_idx = (pos.row - draw.row) as usize;
        let cell = CharPosition::new(5 + c_idx * Self::CHANNEL_WIDTH, 15 + r_idx);
        match self.cursor.field {
            InEventPosition::Note => buffer.draw_char(view.note1, cell, 0, 3),
            InEventPosition::Octave => buffer.draw_char(view.octave, cell + (2, 0), 0, 3),
            InEventPosition::Sample1 => buffer.draw_char(view.sample1, cell + (4, 0), 0, 3),
            InEventPosition::Sample2 => buffer.draw_char(view.sample2, cell + (5, 0), 0, 3),
            InEventPosition::VolPan1 => buffer.draw_char(view.vol_pan1, cell + (7, 0), 0, 3),
            InEventPosition::VolPan2 => buffer.draw_char(view.vol_pan2, cell + (8, 0), 0, 3),
            InEventPosition::Effect1 => buffer.draw_char(view.effect1, cell + (10, 0), 0, 3),
            InEventPosition::Effect2 => buffer.draw_char(view.effect2, cell + (11, 0), 0, 3),
            InEventPosition::Effect3 => buffer.draw_char(view.effect3, cell + (12, 0), 0, 3),
        }
        proof {
            DrawBuffer::lemma_painted_then(&b0, &b1, &b2, self.row_numbers_cmds(32), self.headings_cmds(5));
            DrawBuffer::lemma_painted_then(&b0, &b2, &b3, self.row_numbers_cmds(32) + self.headings_cmds(5), self.cells_cmds(5));
            DrawBuffer::lemma_painted_then(
                &b0,
                &b3,
                buffer,
                self.row_numbers_cmds(32) + self.headings_cmds(5) + self.cells_cmds(5),
                self.cursor_cmds(),
            );
        }
    }

    /// What drawing the constant parts does: the page background, and a heading with a
    /// blank cell behind it for each shown channel.
    pub open spec fn constant_cmds_n(n: int) -> Seq<Paint>
        decreases n,
    {
        if n <= 0 {
            seq![Paint::Rect { color: 2, top: 12, bot: 49, left: 0, right: 79 }]
        } else {
            Self::constant_cmds_n(n - 1) + seq![
                Paint::Rect { color: 1, top: 14, bot: 14, left: 5 + (n - 1) * 14 + 11, right: 5 + (n - 1) * 14 + 11 },
                Paint::Text { text: " Channel "@, x: 5 + (n - 1) * 14, y: 14, fg: 3, bg: 1 },
            ]
        }
    }

    pub fn draw_constant(&self, buffer: &mut DrawBuffer)
        requires
            old(buffer).wf(),
        ensures
            final(buffer).painted(old(buffer), Self::constant_cmds_n(5)),
    {
        let ghost b0 = *buffer;
        buffer.draw_rect(2, CharRect::page_area());
        proof {
            reveal_strlit(" Channel ");
        }
        let mut index: usize = 0;
        while index < 5
            invariant
                index <= 5,
                " Channel "@.len() == 9,
                is_ascii(" Channel "),
                buffer.painted(&b0, Self::constant_cmds_n(index as int)),
            decreases 5 - index,
        {
            let ghost before = *buffer;
            let pos = CharPosition::new(5 + index * Self::CHANNEL_WIDTH, 14);
            buffer.draw_rect(1, CharRect::from(pos + (11, 0)));
            let ghost mid = *buffer;
            buffer.draw_string(" Channel ", pos, 3, 1);
            proof {
                let c = seq![
                    Paint::Rect { color: 1, top: 14, bot: 14, left: 5 + index * 14 + 11, right: 5 + index * 14 + 11 },
                    Paint::Text { text: " Channel "@, x: 5 + index * 14, y: 14, fg: 3, bg: 1 },
                ];
                DrawBuffer::lemma_painted_then(&before, &mid, buffer, seq![c[0]], seq![c[1]]);
                assert(seq![c[0]] + seq![c[1]] =~= c);
                DrawBuffer::lemma_painted_then(&b0, &before, buffer, Self::constant_cmds_n(index as int), c);
            }
            index += 1;
        }
    }

    /// The cursor state and header events after moving the cursor to `row`, `channel`
    /// (moved into the pattern first), and whether it moved. The shown channels follow
    /// the cursor; the shown rows keep it in the middle where the pattern allows.
    pub open spec fn cursor_to(&self, row: int, channel: int) -> (CursorState, bool, Seq<GlobalEvent>) {
        let s = self.state();
        let rc = self.spec_pattern().rows_len();
        let row = if row >= rc { rc - 1 } else { row };
        let channel = if channel >= 64 { 63 } else { channel };
        if row == s.row && channel == s.channel {
            (s, false, Seq::empty())
        } else {
            let events = if row != s.row {
                seq![GlobalEvent::Header(HeaderEvent::SetCursorRow(row as u16))]
            } else {
                Seq::empty()
            };
            let draw_channel = if channel >= s.draw_channel + 5 {
                channel - 4
            } else if channel < s.draw_channel {
                channel
            } else {
                s.draw_channel
            };
            let draw_row = if row <= 16 {
                0
            } else if row >= rc - 16 {
                rc - 32
            } else {
                row - 16
            };
            (CursorState { row, channel, draw_row, draw_channel, ..s }, true, events)
        }
    }

    /// Moves the cursor to `pos` (moved into the pattern first); returns whether it moved.
    fn set_cursor(&mut self, pos: InPatternPosition, event: &mut VecDeque<GlobalEvent>) -> (r: bool)
        ensures
            (final(self).state(), r, final(event)@.skip(old(event)@.len() as int)) == old(self).cursor_to(
                pos.row as int,
                pos.channel as int,
            ),
            final(event)@.take(old(event)@.len() as int) == old(event)@,
            final(event)@.len() >= old(event)@.len(),
            final(self).spec_pattern() == old(self).spec_pattern(),
            final(self).spec_index() == old(self).spec_index(),
            final(self).spec_sample_instr() == old(self).spec_sample_instr(),
    {
        proof {
            use_type_invariant(&*self);
        }
        let mut pos = pos;
        let rc = self.pattern.row_count() as u16;
        if pos.row >= rc {
            pos.row = rc - 1;
        }
        if pos.channel >= Self::MAX_CHANNELS {
            pos.channel = Self::MAX_CHANNELS - 1;
        }
        if pos == self.cursor.position {
            proof {
                assert(event@.skip(event@.len() as int) =~= Seq::<GlobalEvent>::empty());
                assert(event@.take(event@.len() as int) =~= event@);
            }
            return false;
        }
        if pos.row != self.cursor.position.row {
            event.push_back(GlobalEvent::Header(HeaderEvent::SetCursorRow(pos.row)));
        }
        let mut draw = self.cursor.draw_position;
        // the shown channels follow the cursor
        if pos.channel >= draw.channel + Self::DRAWN_CHANNELS {
            draw.channel = pos.channel - Self::DRAWN_CHANNELS + 1;
        } else if pos.channel < draw.channel {
            draw.channel = pos.channel;
        }
        if pos.row <= (Self::DRAWN_ROWS / 2) {
            draw.row = 0;
        } else if pos.row >= rc - (Self::DRAWN_ROWS / 2) {
            draw.row = rc - Self::DRAWN_ROWS;
        } else {
            draw.row = pos.row - (Self::DRAWN_ROWS / 2);
        }
        let field = self.cursor.field;
        self.cursor = Cursor { position: pos, field, draw_position: draw };
        proof {
            assert(event@.take(old(event)@.len() as int) =~= old(event)@);
            if pos.row != old(self).state().row {
                assert(event@.skip(old(event)@.len() as int) =~= seq![
                    GlobalEvent::Header(HeaderEvent::SetCursorRow(pos.row)),
                ]);
            } else {
                assert(event@.skip(old(event)@.len() as int) =~= Seq::<GlobalEvent>::empty());
            }
        }
        true
    }
}


/// Moving the cursor one part right and then one part left within an event gives back the
/// part it was on, and the other way round.
pub proof fn lemma_field_right_left(field: InEventPosition)
    ensures
        PatternPage::field_at(field.index()) == field,
        field.index() < 8 ==> PatternPage::field_at(PatternPage::field_at(field.index() + 1).index() - 1) == field,
        field.index() > 0 ==> PatternPage::field_at(PatternPage::field_at(field.index() - 1).index() + 1) == field,
{
}

/// The edit that the pattern editor sends for a key is the edit it makes: applied to a
/// copy of the editor's pattern, the operation it sends gives the events the editor's
/// pattern has afterwards.
pub proof fn lemma_sent_edit_matches(page: PatternPage, copy: Pattern, key_event: KeyEvent, modifiers: Modifiers)
    requires
        page.wf(),
        copy == page.spec_pattern(),
        page.key_step(key_event, modifiers).edit is Some,
    ensures
        ({
            let step = page.key_step(key_event, modifiers);
            let (row, channel, event) = step.edit->0;
            let op = PatternOperation::SetEvent { row: row as usize, channel: channel as u8, event };
            &&& step.events == seq![GlobalEvent::PatternEdit(page.spec_index() as usize, op)]
            &&& copy.can_apply(op)
            &&& forall|r: int, c: u8|
                0 <= r < copy.rows_len() ==> #[trigger] copy.event_after(op, r, c) == if r == row && c == channel {
                    Some(event)
                } else {
                    page.spec_pattern().event_at(r, c)
                }
        }),
{
}


impl PatternPage {
    proof fn lemma_constant_in_page_area(n: int)
        ensures
            all_within_rows(Self::constant_cmds_n(n), 12, 49),
        decreases n,
    {
        if n > 0 {
            Self::lemma_constant_in_page_area(n - 1);
            let step = seq![
                Paint::Rect { color: 1, top: 14, bot: 14, left: 5 + (n - 1) * 14 + 11, right: 5 + (n - 1) * 14 + 11 },
                Paint::Text { text: " Channel "@, x: 5 + (n - 1) * 14, y: 14, fg: 3, bg: 1 },
            ];
            lemma_within_rows_concat(Self::constant_cmds_n(n - 1), step, 12, 49);
        }
    }

    proof fn lemma_column_in_page_area(&self, c_idx: int, n: int)
        requires
            n <= 32,
        ensures
            all_within_rows(self.column_cmds(c_idx, n), 12, 49),
        decreases n,
    {
        if n > 0 {
            self.lemma_column_in_page_area(c_idx, n - 1);
            lemma_within_rows_concat(self.column_cmds(c_idx, n - 1), self.cell_of(c_idx, n - 1), 12, 49);
        }
    }

    proof fn lemma_cells_in_page_area(&self, n: int)
        ensures
            all_within_rows(self.cells_cmds(n), 12, 49),
        decreases n,
    {
        if n > 0 {
            self.lemma_cells_in_page_area(n - 1);
            self.lemma_column_in_page_area(n - 1, 32);
            lemma_within_rows_concat(self.cells_cmds(n - 1), self.column_cmds(n - 1, 32), 12, 49);
        }
    }

    proof fn lemma_row_numbers_in_page_area(&self, n: int)
        requires
            n <= 32,
        ensures
            all_within_rows(self.row_numbers_cmds(n), 12, 49),
        decreases n,
    {
        if n > 0 {
            self.lemma_row_numbers_in_page_area(n - 1);
            lemma_within_rows_concat(
                self.row_numbers_cmds(n - 1),
                seq![Paint::Text { text: padded3(self.state().draw_row + n - 1), x: 1, y: 15 + n - 1, fg: 0, bg: 2 }],
                12,
                49,
            );
        }
    }

    proof fn lemma_headings_in_page_area(&self, n: int)
        ensures
            all_within_rows(self.headings_cmds(n), 12, 49),
        decreases n,
    {
        if n > 0 {
            self.lemma_headings_in_page_area(n - 1);
            lemma_within_rows_concat(
                self.headings_cmds(n - 1),
                seq![
                    Paint::Text {
                        text: decimal_digits((self.state().draw_channel + n - 1) as nat, 2),
                        x: 14 + (n - 1) * 14,
                        y: 14,
                        fg: 3,
                        bg: 1,
                    },
                ],
                12,
                49,
            );
        }
    }

    /// The pattern editor draws only into the page area, rows 12 to 49.
    pub proof fn lemma_in_page_area(&self)
        requires
            self.wf(),
        ensures
            all_within_rows(self.paint_cmds(), 12, 49),
            all_within_rows(Self::constant_cmds_n(5), 12, 49),
    {
        Self::lemma_constant_in_page_area(5);
        self.lemma_row_numbers_in_page_area(32);
        self.lemma_headings_in_page_area(5);
        self.lemma_cells_in_page_area(5);
        lemma_within_rows_concat(self.row_numbers_cmds(32), self.headings_cmds(5), 12, 49);
        lemma_within_rows_concat(self.row_numbers_cmds(32) + self.headings_cmds(5), self.cells_cmds(5), 12, 49);
        lemma_within_rows_concat(
            self.row_numbers_cmds(32) + self.headings_cmds(5) + self.cells_cmds(5),
            self.cursor_cmds(),
            12,
            49,
        );
    }
}

impl PatternPage {
    /// The events a key sends keep the header drawable: the cursor row lies in the pattern,
    /// which has at most 200 rows.
    pub proof fn lemma_key_step_keeps_header(&self, key_event: KeyEvent, modifiers: Modifiers)
        requires
            self.wf(),
        ensures
            forall|i: int|
                0 <= i < self.key_step(key_event, modifiers).events.len() ==> keeps_header_drawable(
                    #[trigger] self.key_step(key_event, modifiers).events[i],
                ),
    {
        let s = self.state();
        let rows = self.spec_pattern().rows_len();
        assert forall|row: int, channel: int|
            0 <= row implies forall|i: int|
                0 <= i < (#[trigger] self.cursor_to(row, channel)).2.len() ==> keeps_header_drawable(
                    self.cursor_to(row, channel).2[i],
                ) by {
            let clamped = if row >= rows { rows - 1 } else { row };
            assert(0 <= clamped < 200);
        }
    }
}

} // verus!
