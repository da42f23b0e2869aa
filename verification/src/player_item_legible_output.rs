//! Legible outputs: text styling resolutions and the decoding of the caption
//! events the bridge reports.

use vstd::prelude::*;

use crate::text::str_eq;
use crate::time::Time;

verus! {

/// Text styling resolution of a legible output.
#[derive(Debug, Clone, PartialEq, Eq, Hash)]
#[non_exhaustive]
pub enum PlayerItemLegibleOutputTextStylingResolution {
    /// The default resolution.
    Default,
    /// Source and rules only.
    SourceAndRulesOnly,
    /// A raw value this binding does not name.
    Unknown(String),
}

impl PlayerItemLegibleOutputTextStylingResolution {
    /// The bridge's raw name of the value.
    pub open spec fn raw_name(self) -> Seq<char> {
        match self {
            PlayerItemLegibleOutputTextStylingResolution::Default => "default"@,
            PlayerItemLegibleOutputTextStylingResolution::SourceAndRulesOnly => "source_and_rules_only"@,
            PlayerItemLegibleOutputTextStylingResolution::Unknown(raw) => raw@,
        }
    }

    /// Whether `raw` is a name that a named variant stands for.
    pub open spec fn is_known_name(raw: Seq<char>) -> bool {
        raw == "default"@ || raw == "source_and_rules_only"@
    }

    /// Canonical: an `Unknown` never holds a name that a named variant stands for.
    pub open spec fn is_canonical(self) -> bool {
        match self {
            PlayerItemLegibleOutputTextStylingResolution::Unknown(raw) => !Self::is_known_name(raw@),
            _ => true,
        }
    }

    /// Decodes the bridge's raw name; a name it does not know is kept in `Unknown`.
    pub fn from_raw(raw: &str) -> (r: Self)
        ensures
            r.raw_name() == raw@,
            r.is_canonical(),
    {
        if str_eq(raw, "default") {
            PlayerItemLegibleOutputTextStylingResolution::Default
        } else if str_eq(raw, "source_and_rules_only") {
            PlayerItemLegibleOutputTextStylingResolution::SourceAndRulesOnly
        } else {
            PlayerItemLegibleOutputTextStylingResolution::Unknown(raw.to_owned())
        }
    }

    /// The bridge's raw name.
    pub fn as_raw(&self) -> (r: &str)
        ensures
            r@ == self.raw_name(),
    {
        match self {
            PlayerItemLegibleOutputTextStylingResolution::Default => "default",
            PlayerItemLegibleOutputTextStylingResolution::SourceAndRulesOnly => "source_and_rules_only",
            PlayerItemLegibleOutputTextStylingResolution::Unknown(raw) => raw.as_str(),
        }
    }
}

/// Two canonical values with the same raw name are the same value: decoding a
/// raw name gives it back unchanged, and decoding what `as_raw` returns gives
/// back the value it started from.
pub proof fn lemma_text_styling_resolution_raw_round_trip(a: PlayerItemLegibleOutputTextStylingResolution, b: PlayerItemLegibleOutputTextStylingResolution)
    requires
        a.is_canonical(),
        b.is_canonical(),
        a.raw_name() == b.raw_name(),
    ensures
        (a is Default) == (b is Default),
        (a is SourceAndRulesOnly) == (b is SourceAndRulesOnly),
        (a is Unknown) == (b is Unknown),
{
    reveal_strlit("default");
    reveal_strlit("source_and_rules_only");
    assert("default"@.len() != "source_and_rules_only"@.len());
}

/// Legible-output event as the bridge reports it.
#[derive(Debug, Clone, PartialEq, Eq)]
pub struct LegibleOutputEventPayload {
    /// Event name.
    pub event: String,
    /// Item time of the captions.
    pub item_time: Option<Time>,
    /// Caption strings.
    pub strings: Vec<String>,
    /// Number of native sample buffers delivered with them.
    pub native_sample_buffer_count: usize,
}

/// Events of a legible output.
#[derive(Debug, Clone, PartialEq, Eq)]
pub enum PlayerItemLegibleOutputEvent {
    /// Pending captions were flushed.
    SequenceWasFlushed,
    /// Captions for an item time.
    AttributedStrings { item_time: Time, strings: Vec<String>, native_sample_buffer_count: usize },
}

/// What a legible-output payload decodes to; captions without an item time,
/// or an unknown name, decode to `None`.
pub open spec fn legible_event_spec(p: LegibleOutputEventPayload) -> Option<PlayerItemLegibleOutputEvent> {
    if p.event@ == "sequence_was_flushed"@ {
        Some(PlayerItemLegibleOutputEvent::SequenceWasFlushed)
    } else if p.event@ == "attributed_strings"@ {
        match p.item_time {
            Some(t) => Some(
                PlayerItemLegibleOutputEvent::AttributedStrings {
                    item_time: t,
                    strings: p.strings,
                    native_sample_buffer_count: p.native_sample_buffer_count,
                },
            ),
            None => None,
        }
    } else {
        None
    }
}

impl PlayerItemLegibleOutputEvent {
    /// Decodes a legible-output payload.
    pub fn from_payload(payload: LegibleOutputEventPayload) -> (r: Option<Self>)
        ensures
            r == legible_event_spec(payload),
    {
        if str_eq(payload.event.as_str(), "sequence_was_flushed") {
            Some(PlayerItemLegibleOutputEvent::SequenceWasFlushed)
        } else if str_eq(payload.event.as_str(), "attributed_strings") {
            match payload.item_time {
                Some(t) => Some(
                    PlayerItemLegibleOutputEvent::AttributedStrings {
                        item_time: t,
                        strings: payload.strings,
                        native_sample_buffer_count: payload.native_sample_buffer_count,
                    },
                ),
                None => None,
            }
        } else {
            None
        }
    }
}

} // verus!
