//! Caption values an asset reader reports: caption groups and validation events.

use vstd::prelude::*;

use crate::time::TimeRange;

verus! {

/// A group of captions that share a time range.
#[derive(Debug, Clone, PartialEq, Eq)]
pub struct CaptionGroupInfo {
    /// Time range of the group.
    pub time_range: TimeRange,
    /// Caption texts of the group.
    pub captions: Vec<String>,
}

/// A caption the validator reported, with the syntax elements it flagged.
#[derive(Debug, Clone, PartialEq, Eq)]
pub struct CaptionValidationEvent {
    /// Text of the caption.
    pub caption_text: String,
    /// Flagged syntax elements.
    pub syntax_elements: Vec<String>,
}

} // verus!
