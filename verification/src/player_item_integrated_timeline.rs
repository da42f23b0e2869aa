//! Integrated timelines: segment types, the segment and snapshot descriptions
//! the bridge reports, and out-of-sync notifications.

use vstd::prelude::*;

use crate::error::AVPlayerError;
use crate::player_interstitial_event::{
    carried_info_spec, info_converts, info_matches, is_json_payload_error, PlayerInterstitialEventInfo,
    PlayerInterstitialEventInfoPayload,
};
use crate::text::str_eq;
use crate::time::{Time, TimeRange};

verus! {

/// Type of an integrated-timeline segment.
#[derive(Debug, Clone, Copy, PartialEq, Eq, Hash, Structural)]
#[non_exhaustive]
pub enum PlayerItemSegmentType {
    /// Primary content.
    Primary,
    /// An interstitial.
    Interstitial,
    /// A raw value this binding does not name.
    Unknown(i32),
}

impl PlayerItemSegmentType {
    /// The value a raw bridge number stands for.
    pub open spec fn spec_from_raw(raw: i32) -> Self {
        if raw == 0 {
            PlayerItemSegmentType::Primary
        } else if raw == 1 {
            PlayerItemSegmentType::Interstitial
        } else {
            PlayerItemSegmentType::Unknown(raw)
        }
    }

    /// Decodes a raw bridge number.
    pub fn from_raw(raw: i32) -> (r: Self)
        ensures
            r == Self::spec_from_raw(raw),
    {
        match raw {
            0 => PlayerItemSegmentType::Primary,
            1 => PlayerItemSegmentType::Interstitial,
            other => PlayerItemSegmentType::Unknown(other),
        }
    }

    /// Canonical: an `Unknown` never holds a number that a named variant stands for.
    pub open spec fn is_canonical(self) -> bool {
        match self {
            PlayerItemSegmentType::Unknown(raw) => !(raw == 0 || raw == 1),
            _ => true,
        }
    }
}

/// Decoding follows `AVPlayerItemSegment.SegmentType` numbering: 0 is primary,
/// 1 is interstitial; every other number is kept as
/// it came, so no two numbers decode to the same value.
pub proof fn lemma_segment_type_numbering(raw: i32, other: i32)
    ensures
        PlayerItemSegmentType::spec_from_raw(0) == PlayerItemSegmentType::Primary,
        PlayerItemSegmentType::spec_from_raw(1) == PlayerItemSegmentType::Interstitial,
        (raw < 0 || raw > 1) ==> PlayerItemSegmentType::spec_from_raw(raw) == PlayerItemSegmentType::Unknown(raw),
        PlayerItemSegmentType::spec_from_raw(raw) == PlayerItemSegmentType::spec_from_raw(other) ==> raw == other,
{
}

/// Every decoded value is canonical, and a decoded value keeps the number it
/// was decoded from when that number is not a named one.
pub proof fn lemma_segment_type_from_raw(raw: i32)
    ensures
        PlayerItemSegmentType::spec_from_raw(raw).is_canonical(),
        !(raw == 0 || raw == 1) ==> PlayerItemSegmentType::spec_from_raw(raw) == PlayerItemSegmentType::Unknown(raw),
{
}

/// Current position of an integrated timeline, as the bridge reports it.
#[derive(Debug, Clone, PartialEq, Eq)]
pub struct PlayerItemIntegratedTimelineInfoPayload {
    /// Current time on the timeline.
    pub current_time: Time,
    /// Current date, when the content has one.
    pub current_date: Option<String>,
}

/// Current position of an integrated timeline.
#[derive(Debug, Clone, PartialEq, Eq)]
pub struct PlayerItemIntegratedTimelineInfo {
    /// Current time on the timeline.
    pub current_time: Time,
    /// Current date, when the content has one.
    pub current_date: Option<String>,
}

impl PlayerItemIntegratedTimelineInfo {
    /// Carries the payload's fields over.
    pub fn from_payload(payload: PlayerItemIntegratedTimelineInfoPayload) -> (r: Self)
        ensures
            r.current_time == payload.current_time,
            r.current_date == payload.current_date,
    {
        PlayerItemIntegratedTimelineInfo {
            current_time: payload.current_time,
            current_date: payload.current_date,
        }
    }
}

/// A timeline segment as the bridge reports it.
#[derive(Debug, Clone, PartialEq, Eq)]
pub struct PlayerItemIntegratedTimelineSegmentPayload {
    /// Raw segment type.
    pub segment_type_raw: i32,
    /// Source range of the time mapping.
    pub time_mapping_source: TimeRange,
    /// Target range of the time mapping.
    pub time_mapping_target: TimeRange,
    /// Loaded ranges of the segment.
    pub loaded_time_ranges: Vec<TimeRange>,
    /// Start date, when the content has one.
    pub start_date: Option<String>,
    /// The interstitial event concerned, if any.
    pub interstitial_event: Option<PlayerInterstitialEventInfoPayload>,
}

/// A timeline segment.
#[derive(Debug, Clone, PartialEq)]
pub struct PlayerItemIntegratedTimelineSegmentInfo {
    /// Primary content or interstitial.
    pub segment_type: PlayerItemSegmentType,
    /// Source range of the time mapping.
    pub time_mapping_source: TimeRange,
    /// Target range of the time mapping.
    pub time_mapping_target: TimeRange,
    /// Loaded ranges of the segment.
    pub loaded_time_ranges: Vec<TimeRange>,
    /// Start date, when the content has one.
    pub start_date: Option<String>,
    /// The interstitial event an interstitial segment plays.
    pub interstitial_event: Option<PlayerInterstitialEventInfo>,
}

/// A segment payload converts when its interstitial description does.
pub open spec fn segment_converts(p: PlayerItemIntegratedTimelineSegmentPayload) -> bool {
    match p.interstitial_event {
        Some(ip) => info_converts(ip),
        None => true,
    }
}

/// The segment matches its payload.
pub open spec fn segment_matches(
    p: PlayerItemIntegratedTimelineSegmentPayload,
    s: PlayerItemIntegratedTimelineSegmentInfo,
) -> bool {
    &&& s.segment_type == PlayerItemSegmentType::spec_from_raw(p.segment_type_raw)
    &&& s.time_mapping_source == p.time_mapping_source
    &&& s.time_mapping_target == p.time_mapping_target
    &&& s.loaded_time_ranges == p.loaded_time_ranges
    &&& s.start_date == p.start_date
    &&& carried_info_spec(p.interstitial_event, s.interstitial_event)
}

/// A copy of a list of time ranges.
pub fn copy_time_ranges(ranges: &Vec<TimeRange>) -> (r: Vec<TimeRange>)
    ensures
        r@ == ranges@,
{
    let mut out: Vec<TimeRange> = Vec::new();
    let mut i: usize = 0;
    while i < ranges.len()
        invariant
            i <= ranges.len(),
            out@ == ranges@.subrange(0, i as int),
        decreases ranges.len() - i,
    {
        out.push(ranges[i]);
        i = i + 1;
        proof {
            assert(out@ == ranges@.subrange(0, i as int));
        }
    }
    proof {
        assert(ranges@.subrange(0, ranges@.len() as int) == ranges@);
    }
    out
}

impl PlayerItemIntegratedTimelineSegmentInfo {
    /// Decodes a segment; fails when its interstitial description fails to
    /// decode.
    pub fn from_payload(payload: PlayerItemIntegratedTimelineSegmentPayload) -> (r: Result<
        Self,
        AVPlayerError,
    >)
        ensures
            segment_converts(payload) <==> r is Ok,
            r is Err ==> is_json_payload_error(r->Err_0),
            r is Ok ==> segment_matches(payload, r.unwrap()),
    {
        let interstitial_event = match payload.interstitial_event {
            Some(ip) => Some(PlayerInterstitialEventInfo::from_payload(ip)?),
            None => None,
        };
        Ok(PlayerItemIntegratedTimelineSegmentInfo {
            segment_type: PlayerItemSegmentType::from_raw(payload.segment_type_raw),
            time_mapping_source: payload.time_mapping_source,
            time_mapping_target: payload.time_mapping_target,
            loaded_time_ranges: payload.loaded_time_ranges,
            start_date: payload.start_date,
            interstitial_event,
        })
    }

    /// A copy of the segment.
    pub fn duplicate(&self) -> (r: Self)
        ensures
            r.segment_type == self.segment_type,
            r.time_mapping_source == self.time_mapping_source,
            r.time_mapping_target == self.time_mapping_target,
            r.loaded_time_ranges@ == self.loaded_time_ranges@,
            r.start_date == self.start_date,
            r.interstitial_event == self.interstitial_event,
    {
        PlayerItemIntegratedTimelineSegmentInfo {
            segment_type: self.segment_type,
            time_mapping_source: self.time_mapping_source,
            time_mapping_target: self.time_mapping_target,
            loaded_time_ranges: copy_time_ranges(&self.loaded_time_ranges),
            start_date: match &self.start_date {
                Some(d) => Some(d.clone()),
                None => None,
            },
            interstitial_event: match &self.interstitial_event {
                Some(e) => Some(e.duplicate()),
                None => None,
            },
        }
    }
}

/// A timeline snapshot as the bridge reports it.
#[derive(Debug, Clone, PartialEq, Eq)]
pub struct PlayerItemIntegratedTimelineSnapshotPayload {
    /// Duration of the timeline.
    pub duration: Time,
    /// Current time on the timeline.
    pub current_time: Time,
    /// Current date, when the content has one.
    pub current_date: Option<String>,
    /// Index of the current segment.
    pub current_segment_index: Option<usize>,
    /// All segments, in timeline order.
    pub segments: Vec<PlayerItemIntegratedTimelineSegmentPayload>,
}

/// A snapshot of an integrated timeline.
#[derive(Debug, Clone, PartialEq)]
pub struct PlayerItemIntegratedTimelineSnapshotInfo {
    /// Duration of the timeline.
    pub duration: Time,
    /// Current time.
    pub current_time: Time,
    /// Current date, when the content has one.
    pub current_date: Option<String>,
    /// Index of the current segment.
    pub current_segment_index: Option<usize>,
    /// The current segment: the segment at the current index, when it exists.
    pub current_segment: Option<PlayerItemIntegratedTimelineSegmentInfo>,
    /// All segments, in timeline order.
    pub segments: Vec<PlayerItemIntegratedTimelineSegmentInfo>,
}

/// Two segment descriptions agree in every field (time-range lists by value).
pub open spec fn same_segment(a: PlayerItemIntegratedTimelineSegmentInfo, b: PlayerItemIntegratedTimelineSegmentInfo) -> bool {
    &&& a.segment_type == b.segment_type
    &&& a.time_mapping_source == b.time_mapping_source
    &&& a.time_mapping_target == b.time_mapping_target
    &&& a.loaded_time_ranges@ == b.loaded_time_ranges@
    &&& a.start_date == b.start_date
    &&& a.interstitial_event == b.interstitial_event
}

impl PlayerItemIntegratedTimelineSnapshotInfo {
    /// Decodes a snapshot; fails when any segment fails to decode. The current
    /// segment is a copy of the segment at the current index, or nothing when
    /// the index is absent or past the end.
    pub fn from_payload(payload: PlayerItemIntegratedTimelineSnapshotPayload) -> (r: Result<
        Self,
        AVPlayerError,
    >)
        ensures
            r is Ok <==> (forall|i: int| 0 <= i < payload.segments.len() ==> #[trigger] segment_converts(
                payload.segments[i],
            )),
            r is Err ==> is_json_payload_error(r->Err_0),
            r is Ok ==> ({
                let s = r.unwrap();
                &&& s.duration == payload.duration
                &&& s.current_time == payload.current_time
                &&& s.current_date == payload.current_date
                &&& s.current_segment_index == payload.current_segment_index
                &&& s.segments.len() == payload.segments.len()
                &&& forall|i: int| 0 <= i < s.segments.len() ==> segment_matches(payload.segments[i], #[trigger] s.segments[i])
                &&& match payload.current_segment_index {
                    Some(idx) => if idx < s.segments.len() {
                        s.current_segment is Some && same_segment(s.current_segment.unwrap(), s.segments[idx as int])
                    } else {
                        s.current_segment is None
                    },
                    None => s.current_segment is None,
                }
            }),
    {
        let ghost ps = payload.segments@;
        let mut segments: Vec<PlayerItemIntegratedTimelineSegmentInfo> = Vec::new();
        for p in it: payload.segments.into_iter()
            invariant
                it.seq() == ps,
                segments.len() == it.index(),
                forall|i: int| 0 <= i < segments.len() ==> segment_matches(ps[i], #[trigger] segments[i]),
                forall|i: int| 0 <= i < segments.len() ==> #[trigger] segment_converts(ps[i]),
        {
            match PlayerItemIntegratedTimelineSegmentInfo::from_payload(p) {
                Ok(s) => segments.push(s),
                Err(e) => {
                    return Err(e);
                },
            }
        }
        let current_segment = match payload.current_segment_index {
            Some(index) => if index < segments.len() {
                Some(segments[index].duplicate())
            } else {
                None
            },
            None => None,
        };
        Ok(PlayerItemIntegratedTimelineSnapshotInfo {
            duration: payload.duration,
            current_time: payload.current_time,
            current_date: payload.current_date,
            current_segment_index: payload.current_segment_index,
            current_segment,
            segments,
        })
    }
}

/// A segment with an offset into it, as the bridge reports it.
#[derive(Debug, Clone, PartialEq, Eq)]
pub struct PlayerItemIntegratedTimelineSegmentOffsetPayload {
    /// The segment.
    pub segment: PlayerItemIntegratedTimelineSegmentPayload,
    /// Offset into the segment.
    pub offset: Time,
}

/// Decodes a segment with its offset; fails when the segment fails to decode.
pub fn segment_and_offset_from_payload(payload: PlayerItemIntegratedTimelineSegmentOffsetPayload) -> (r: Result<
    (PlayerItemIntegratedTimelineSegmentInfo, Time),
    AVPlayerError,
>)
    ensures
        segment_converts(payload.segment) <==> r is Ok,
        r is Err ==> is_json_payload_error(r->Err_0),
        r is Ok ==> segment_matches(payload.segment, r.unwrap().0) && r.unwrap().1 == payload.offset,
{
    let segment = PlayerItemIntegratedTimelineSegmentInfo::from_payload(payload.segment)?;
    Ok((segment, payload.offset))
}

/// Why integrated-timeline snapshots went out of sync.
#[derive(Debug, Clone, PartialEq, Eq, Hash)]
#[non_exhaustive]
pub enum PlayerIntegratedTimelineSnapshotsOutOfSyncReason {
    /// The segments changed.
    SegmentsChanged,
    /// The current segment changed.
    CurrentSegmentChanged,
    /// The loaded time ranges changed.
    LoadedTimeRangesChanged,
    /// A raw value this binding does not name.
    Unknown(String),
}

impl PlayerIntegratedTimelineSnapshotsOutOfSyncReason {
    /// The bridge's raw name of the value.
    pub open spec fn raw_name(self) -> Seq<char> {
        match self {
            PlayerIntegratedTimelineSnapshotsOutOfSyncReason::SegmentsChanged => "AVPlayerIntegratedTimelineSnapshotsOutOfSyncReasonSegmentsChanged"@,
            PlayerIntegratedTimelineSnapshotsOutOfSyncReason::CurrentSegmentChanged => "AVPlayerIntegratedTimelineSnapshotsOutOfSyncReasonCurrentSegmentChanged"@,
            PlayerIntegratedTimelineSnapshotsOutOfSyncReason::LoadedTimeRangesChanged => "AVPlayerIntegratedTimelineSnapshotsOutOfSyncReasonLoadedTimeRangesChanged"@,
            PlayerIntegratedTimelineSnapshotsOutOfSyncReason::Unknown(raw) => raw@,
        }
    }

    /// Whether `raw` is a name that a named variant stands for.
    pub open spec fn is_known_name(raw: Seq<char>) -> bool {
        raw == "AVPlayerIntegratedTimelineSnapshotsOutOfSyncReasonSegmentsChanged"@ || raw == "AVPlayerIntegratedTimelineSnapshotsOutOfSyncReasonCurrentSegmentChanged"@ || raw == "AVPlayerIntegratedTimelineSnapshotsOutOfSyncReasonLoadedTimeRangesChanged"@
    }

    /// Canonical: an `Unknown` never holds a name that a named variant stands for.
    pub open spec fn is_canonical(self) -> bool {
        match self {
            PlayerIntegratedTimelineSnapshotsOutOfSyncReason::Unknown(raw) => !Self::is_known_name(raw@),
            _ => true,
        }
    }

    /// Decodes the bridge's raw name; a name it does not know is kept in `Unknown`.
    pub fn from_raw(raw: &str) -> (r: Self)
        ensures
            r.raw_name() == raw@,
            r.is_canonical(),
    {
        if str_eq(raw, "AVPlayerIntegratedTimelineSnapshotsOutOfSyncReasonSegmentsChanged") {
            PlayerIntegratedTimelineSnapshotsOutOfSyncReason::SegmentsChanged
        } else if str_eq(raw, "AVPlayerIntegratedTimelineSnapshotsOutOfSyncReasonCurrentSegmentChanged") {
            PlayerIntegratedTimelineSnapshotsOutOfSyncReason::CurrentSegmentChanged
        } else if str_eq(raw, "AVPlayerIntegratedTimelineSnapshotsOutOfSyncReasonLoadedTimeRangesChanged") {
            PlayerIntegratedTimelineSnapshotsOutOfSyncReason::LoadedTimeRangesChanged
        } else {
            PlayerIntegratedTimelineSnapshotsOutOfSyncReason::Unknown(raw.to_owned())
        }
    }
}

/// Two canonical values with the same raw name are the same value: a decoded
/// value is determined by the raw name it was decoded from.
pub proof fn lemma_out_of_sync_reason_determined_by_raw(a: PlayerIntegratedTimelineSnapshotsOutOfSyncReason, b: PlayerIntegratedTimelineSnapshotsOutOfSyncReason)
    requires
        a.is_canonical(),
        b.is_canonical(),
        a.raw_name() == b.raw_name(),
    ensures
        (a is SegmentsChanged) == (b is SegmentsChanged),
        (a is CurrentSegmentChanged) == (b is CurrentSegmentChanged),
        (a is LoadedTimeRangesChanged) == (b is LoadedTimeRangesChanged),
        (a is Unknown) == (b is Unknown),
{
    reveal_strlit("AVPlayerIntegratedTimelineSnapshotsOutOfSyncReasonSegmentsChanged");
    reveal_strlit("AVPlayerIntegratedTimelineSnapshotsOutOfSyncReasonCurrentSegmentChanged");
    reveal_strlit("AVPlayerIntegratedTimelineSnapshotsOutOfSyncReasonLoadedTimeRangesChanged");
    assert("AVPlayerIntegratedTimelineSnapshotsOutOfSyncReasonSegmentsChanged"@.len() != "AVPlayerIntegratedTimelineSnapshotsOutOfSyncReasonCurrentSegmentChanged"@.len());
    assert("AVPlayerIntegratedTimelineSnapshotsOutOfSyncReasonSegmentsChanged"@.len() != "AVPlayerIntegratedTimelineSnapshotsOutOfSyncReasonLoadedTimeRangesChanged"@.len());
    assert("AVPlayerIntegratedTimelineSnapshotsOutOfSyncReasonCurrentSegmentChanged"@.len() != "AVPlayerIntegratedTimelineSnapshotsOutOfSyncReasonLoadedTimeRangesChanged"@.len());
}

/// Notification that snapshots of a timeline went out of sync.
#[derive(Debug, Clone, PartialEq, Eq, Hash)]
pub struct PlayerIntegratedTimelineOutOfSyncEvent {
    /// Why they went out of sync.
    pub reason: PlayerIntegratedTimelineSnapshotsOutOfSyncReason,
}

impl PlayerIntegratedTimelineOutOfSyncEvent {
    /// The event for a raw reason name.
    pub fn from_reason(reason: &str) -> (r: Self)
        ensures
            r.reason.raw_name() == reason@,
            r.reason.is_canonical(),
    {
        PlayerIntegratedTimelineOutOfSyncEvent {
            reason: PlayerIntegratedTimelineSnapshotsOutOfSyncReason::from_raw(reason),
        }
    }
}

} // verus!
