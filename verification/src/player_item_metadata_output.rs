//! Metadata outputs: the decoding of the events the bridge reports.

use vstd::prelude::*;

use crate::text::str_eq;

verus! {

/// Metadata-output event as the bridge reports it; `G` is one timed metadata
/// group.
#[derive(Debug, Clone, PartialEq)]
pub struct MetadataOutputEventPayload<G> {
    /// Event name.
    pub event: String,
    /// The groups delivered.
    pub groups: Vec<G>,
    /// Whether the output's track is present.
    pub track_present: bool,
}

/// Events of a metadata output; `G` is one timed metadata group.
#[derive(Debug, Clone, PartialEq)]
pub enum MetadataOutputEvent<G> {
    /// Pending groups were flushed.
    SequenceWasFlushed,
    /// New timed metadata groups.
    TimedMetadataGroups { groups: Vec<G>, track_present: bool },
}

/// What a payload decodes to; an unknown name decodes to `None`.
pub open spec fn metadata_event_spec<G>(p: MetadataOutputEventPayload<G>) -> Option<MetadataOutputEvent<G>> {
    if p.event@ == "sequence_was_flushed"@ {
        Some(MetadataOutputEvent::SequenceWasFlushed)
    } else if p.event@ == "timed_metadata_groups"@ {
        Some(MetadataOutputEvent::TimedMetadataGroups { groups: p.groups, track_present: p.track_present })
    } else {
        None
    }
}

impl<G> MetadataOutputEvent<G> {
    /// Decodes a metadata-output payload.
    pub fn from_payload(payload: MetadataOutputEventPayload<G>) -> (r: Option<Self>)
        ensures
            r == metadata_event_spec(payload),
    {
        if str_eq(payload.event.as_str(), "sequence_was_flushed") {
            Some(MetadataOutputEvent::SequenceWasFlushed)
        } else if str_eq(payload.event.as_str(), "timed_metadata_groups") {
            Some(MetadataOutputEvent::TimedMetadataGroups { groups: payload.groups, track_present: payload.track_present })
        } else {
            None
        }
    }
}

} // verus!
