//! The help page: nothing on it yet.
use vstd::prelude::*;

use crate::coordinates::CharRect;
use crate::draw_buffer::{DrawBuffer, Paint};
use crate::ui::pages::PageResponse;

verus! {

pub struct HelpPage {}

impl HelpPage {
    pub fn new() -> (r: Self) {
        Self {  }
    }

    /// Draws nothing.
    pub fn draw(&self, buffer: &mut DrawBuffer)
        requires
            old(buffer).wf(),
        ensures
            final(buffer).painted(old(buffer), Seq::<Paint>::empty()),
    {
        proof {
            DrawBuffer::lemma_painted_nothing(buffer);
        }
    }

    /// Fills the page area with the background colour.
    pub fn draw_constant(&self, buffer: &mut DrawBuffer)
        requires
            old(buffer).wf(),
        ensures
            final(buffer).painted(old(buffer), seq![Paint::Rect { color: 2, top: 12, bot: 49, left: 0, right: 79 }]),
    {
        buffer.draw_rect(2, CharRect::page_area());
    }

    /// Ignores all keys.
    pub fn process_key_event(&self) -> (r: PageResponse)
        ensures
            r == PageResponse::Nothing,
    {
        PageResponse::Nothing
    }
}

} // verus!
