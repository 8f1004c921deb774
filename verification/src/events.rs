//! The events that parts of the user interface send to the application.
use vstd::prelude::*;

use crate::playback::pattern::PatternOperation;
use crate::ui::dialog::Dialog;
use crate::ui::header::{keeps_drawable, HeaderEvent};
use crate::ui::pages::order_list::OrderListPageEvent;
use crate::ui::pages::song_directory_config_page::SDCChange;
use crate::ui::pages::{PageEvent, PagesEnum};

verus! {

/// A change of the song's settings, for the audio side to apply.
#[derive(Debug, Clone, Copy, PartialEq, Eq, Structural)]
pub enum SongOperation {
    SetInitialTempo(u8),
    SetInitialSpeed(u8),
    SetGlobalVol(u8),
}

/// What kind of playback to start or stop.
#[derive(Debug, Clone, Copy, PartialEq, Eq, Structural)]
pub enum PlaybackType {
    Song,
    Pattern,
    FromOrder,
    Stop,
}

pub enum GlobalEvent {
    OpenDialog(Dialog),
    PageEvent(PageEvent),
    Header(HeaderEvent),
    /// also closes all dialogs
    GoToPage(PagesEnum),
    CloseApp,
    /// asks the user whether to close the application
    CloseRequested,
    Playback(PlaybackType),
    /// the constant parts of the page need to be drawn again
    ConstRedraw,
    /// the pattern editor wants pattern `idx` of the song
    LoadPattern(usize),
    /// the pattern editor changed pattern `idx` of the song
    PatternEdit(usize, PatternOperation),
    /// the sample list wants a file picked and loaded into sample slot `idx`
    PickSample(u8),
    /// a setting of the song changed
    SongOp(SongOperation),
}

/// The events that menus and confirm dialogs send: the ones without data to own.
#[derive(Debug, Clone, Copy, PartialEq, Eq, Structural)]
pub enum SimpleEvent {
    GoToPage(PagesEnum),
    CloseApp,
    CloseRequested,
    Playback(PlaybackType),
    ConstRedraw,
}

impl SimpleEvent {
    pub open spec fn spec_to_global(self) -> GlobalEvent {
        match self {
            SimpleEvent::GoToPage(p) => GlobalEvent::GoToPage(p),
            SimpleEvent::CloseApp => GlobalEvent::CloseApp,
            SimpleEvent::CloseRequested => GlobalEvent::CloseRequested,
            SimpleEvent::Playback(p) => GlobalEvent::Playback(p),
            SimpleEvent::ConstRedraw => GlobalEvent::ConstRedraw,
        }
    }

    pub fn to_global(self) -> (r: GlobalEvent)
        ensures
            r == self.spec_to_global(),
    {
        match self {
            SimpleEvent::GoToPage(p) => GlobalEvent::GoToPage(p),
            SimpleEvent::CloseApp => GlobalEvent::CloseApp,
            SimpleEvent::CloseRequested => GlobalEvent::CloseRequested,
            SimpleEvent::Playback(p) => GlobalEvent::Playback(p),
            SimpleEvent::ConstRedraw => GlobalEvent::ConstRedraw,
        }
    }
}

/// The value that a slider dialog sets, once the user entered one.
#[derive(Debug, Clone, Copy, PartialEq, Eq, Structural)]
pub enum SliderTarget {
    InitialTempo,
    InitialSpeed,
    GlobalVolume,
    VolumeCurrent,
    PanCurrent,
}

impl SliderTarget {
    /// The event that sets the value to `value`.
    pub open spec fn spec_event(self, value: i16) -> GlobalEvent {
        match self {
            SliderTarget::InitialTempo => GlobalEvent::PageEvent(PageEvent::Sdc(SDCChange::InitialTempo(value))),
            SliderTarget::InitialSpeed => GlobalEvent::PageEvent(PageEvent::Sdc(SDCChange::InitialSpeed(value))),
            SliderTarget::GlobalVolume => GlobalEvent::PageEvent(PageEvent::Sdc(SDCChange::GlobalVolume(value))),
            SliderTarget::VolumeCurrent => GlobalEvent::PageEvent(
                PageEvent::OrderList(OrderListPageEvent::SetVolumeCurrent(value)),
            ),
            SliderTarget::PanCurrent => GlobalEvent::PageEvent(
                PageEvent::OrderList(OrderListPageEvent::SetPanCurrent(value)),
            ),
        }
    }

    pub fn event(self, value: i16) -> (r: GlobalEvent)
        ensures
            r == self.spec_event(value),
    {
        match self {
            SliderTarget::InitialTempo => GlobalEvent::PageEvent(PageEvent::Sdc(SDCChange::InitialTempo(value))),
            SliderTarget::InitialSpeed => GlobalEvent::PageEvent(PageEvent::Sdc(SDCChange::InitialSpeed(value))),
            SliderTarget::GlobalVolume => GlobalEvent::PageEvent(PageEvent::Sdc(SDCChange::GlobalVolume(value))),
            SliderTarget::VolumeCurrent => GlobalEvent::PageEvent(
                PageEvent::OrderList(OrderListPageEvent::SetVolumeCurrent(value)),
            ),
            SliderTarget::PanCurrent => GlobalEvent::PageEvent(
                PageEvent::OrderList(OrderListPageEvent::SetPanCurrent(value)),
            ),
        }
    }
}

/// Whether `event`, when it is one for the header, keeps a drawable header drawable.
pub open spec fn keeps_header_drawable(event: GlobalEvent) -> bool {
    event matches GlobalEvent::Header(h) ==> keeps_drawable(h)
}

} // verus!
