//! What happens in an editor, for those who subscribe to it.

use crate::edit::buffer::BufferID;
use crate::edit::window::WindowID;
use crate::edit::Mode;
use vstd::prelude::*;

verus! {

/// An event with what it carries. This is what a subscriber is handed.
#[derive(Debug, Clone, Copy, PartialEq, Eq, Structural, Hash)]
pub enum EventData {
    Init,
    Deinit,
    WinNew(WindowID),
    WinDel(WindowID),
    BufNew(BufferID),
    BufDel(BufferID),
    ModeChanged(Mode),
}

/// The kind of an event. This is what one subscribes to.
#[derive(Debug, Clone, Copy, PartialEq, Eq, Structural, Hash)]
pub enum Event {
    Init,
    Deinit,
    WinNew,
    WinDel,
    BufNew,
    BufDel,
    ModeChanged,
}

impl EventData {
    /// The kind of the event, in the model.
    pub open spec fn kind(self) -> Event {
        match self {
            EventData::Init => Event::Init,
            EventData::Deinit => Event::Deinit,
            EventData::WinNew(_) => Event::WinNew,
            EventData::WinDel(_) => Event::WinDel,
            EventData::BufNew(_) => Event::BufNew,
            EventData::BufDel(_) => Event::BufDel,
            EventData::ModeChanged(_) => Event::ModeChanged,
        }
    }

    /// The kind of the event: the variant of the same name, without what it
    /// carries.
    pub fn base(&self) -> (ev: Event)
        ensures
            ev == self.kind(),
    {
        match self {
            Self::Init => Event::Init,
            Self::Deinit => Event::Deinit,
            Self::WinNew(_) => Event::WinNew,
            Self::WinDel(_) => Event::WinDel,
            Self::BufNew(_) => Event::BufNew,
            Self::BufDel(_) => Event::BufDel,
            Self::ModeChanged(_) => Event::ModeChanged,
        }
    }
}

} // verus!
