//! Player-item video outputs: their settings and the events they report.

use vstd::prelude::*;

use crate::text::str_eq;

verus! {

/// Output settings of a player-item video output.
pub type PlayerItemVideoOutputSettings = crate::reader::VideoOutputSettings;

/// Events of a player-item video output.
#[derive(Debug, Clone, Copy, PartialEq, Eq, Structural)]
pub enum PlayerItemVideoOutputEvent {
    /// New media data is about to arrive.
    MediaDataWillChange,
    /// Pending frames were flushed.
    SequenceWasFlushed,
}

impl PlayerItemVideoOutputEvent {
    /// The event a bridge event name stands for; an unknown name stands for none.
    pub open spec fn spec_from_event_name(name: Seq<char>) -> Option<Self> {
        if name == "media_data_will_change"@ {
            Some(PlayerItemVideoOutputEvent::MediaDataWillChange)
        } else if name == "sequence_was_flushed"@ {
            Some(PlayerItemVideoOutputEvent::SequenceWasFlushed)
        } else {
            None
        }
    }

    /// Decodes a bridge event name; an unknown name is dropped.
    pub fn from_event_name(name: &str) -> (r: Option<Self>)
        ensures
            r == Self::spec_from_event_name(name@),
    {
        if str_eq(name, "media_data_will_change") {
            Some(PlayerItemVideoOutputEvent::MediaDataWillChange)
        } else if str_eq(name, "sequence_was_flushed") {
            Some(PlayerItemVideoOutputEvent::SequenceWasFlushed)
        } else {
            None
        }
    }
}

} // verus!
