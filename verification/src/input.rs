//! The batched frame input: everything the adapter accumulated since the
//! last frame boundary, in the order it arrived.

use crate::events::{Event, EventModel};
use crate::modifiers::Modifiers;
use vstd::prelude::*;

verus! {

/// The screen rectangle spanning the corners `(0, 0)` and `(w, h)`.
///
/// Wide enough to hold both the unsigned size the adapter is constructed
/// with and the signed sizes that resize events carry.
#[derive(Clone, Copy, Debug, PartialEq, Eq, Structural)]
pub struct ScreenRect {
    pub w: i64,
    pub h: i64,
}

impl View for ScreenRect {
    type V = (int, int);

    open spec fn view(&self) -> (int, int) {
        (self.w as int, self.h as int)
    }
}

/// The model of a batched frame input.
#[verifier::ext_equal]
pub ghost struct FrameInputModel {
    /// The screen rectangle, present until the next frame boundary takes it.
    pub screen_rect: Option<(int, int)>,
    /// The frame timestamp, present until the next frame boundary takes it.
    pub time_micros: Option<int>,
    /// The modifier state as of the last key event; persists across frames.
    pub modifiers: Modifiers,
    /// The neutral input events accumulated since the last frame boundary.
    pub events: Seq<EventModel>,
}

/// Everything the adapter accumulated for the next GUI frame: the ordered
/// neutral events, the current modifier state, and the screen rectangle
/// and timestamp if they were set since the last frame boundary.
#[derive(Clone, Debug, PartialEq)]
pub struct FrameInput {
    /// The screen rectangle, if set since the last frame boundary.
    pub screen_rect: Option<ScreenRect>,
    /// The frame timestamp in microseconds since the host's arbitrary
    /// fixed epoch, if set since the last frame boundary.
    pub time_micros: Option<u64>,
    /// The modifier state as of the last key event.
    pub modifiers: Modifiers,
    /// The neutral input events, in arrival order.
    pub events: Vec<Event>,
}

impl View for FrameInput {
    type V = FrameInputModel;

    open spec fn view(&self) -> FrameInputModel {
        FrameInputModel {
            screen_rect: match self.screen_rect {
                Option::Some(r) => Option::Some(r@),
                Option::None => Option::None,
            },
            time_micros: match self.time_micros {
                Option::Some(t) => Option::Some(t as int),
                Option::None => Option::None,
            },
            modifiers: self.modifiers,
            events: self.events@.map_values(|e: Event| e@),
        }
    }
}

impl FrameInputModel {
    /// The model of the accumulator left behind after a frame boundary
    /// takes this one: rectangle and timestamp gone, events empty, the
    /// modifier state kept.
    pub open spec fn taken(self) -> FrameInputModel {
        FrameInputModel {
            screen_rect: Option::None,
            time_micros: Option::None,
            modifiers: self.modifiers,
            events: Seq::empty(),
        }
    }
}

impl FrameInput {
    /// Move the accumulated input out, leaving a fresh accumulator behind:
    /// the taken value is returned unchanged, and what remains has no
    /// screen rectangle, no timestamp and no events, but keeps the
    /// modifier state.
    pub fn take(&mut self) -> (taken: FrameInput)
        ensures
            taken@ == old(self)@,
            final(self)@ == old(self)@.taken(),
    {
        let mut events: Vec<Event> = Vec::new();
        core::mem::swap(&mut events, &mut self.events);
        let taken = FrameInput {
            screen_rect: self.screen_rect,
            time_micros: self.time_micros,
            modifiers: self.modifiers,
            events,
        };
        self.screen_rect = Option::None;
        self.time_micros = Option::None;
        proof {
            assert(self@.events =~= Seq::<EventModel>::empty());
            assert(self@ =~= old(self)@.taken());
        }
        taken
    }
}

} // verus!
