//! Interstitial events: restriction flags, cues, timeline occupancy, skip and
//! asset-list states, the event descriptions the bridge reports, and the
//! decoding of interstitial monitor events.

use vstd::prelude::*;

use crate::error::AVPlayerError;
use crate::text::str_eq;
use crate::time::Time;

verus! {

#[verifier::external_type_specification]
#[verifier::external_body]
pub struct ExJsonValue(serde_json::Value);

#[verifier::external_type_specification]
#[verifier::external_body]
pub struct ExJsonError(serde_json::Error);

/// Whether `serde_json::from_str::<serde_json::Value>` accepts `text`: a
/// well-formed JSON document within serde_json's nesting limit.
pub uninterp spec fn json_value_parses(text: Seq<char>) -> bool;

/// The value `serde_json::from_str::<serde_json::Value>` parses `text` into,
/// where it accepts the text; it depends on the text alone.
pub uninterp spec fn json_value_of(text: Seq<char>) -> serde_json::Value;

/// Parses JSON text into a `serde_json::Value` (`serde_json::from_str`).
///
/// Trusted: the call succeeds exactly on the texts that serde_json accepts,
/// and then returns the value named [`json_value_of`] for the text; the
/// structure of that value is not described.
#[verifier::external_body]
fn parse_json_text(text: &str) -> (r: Result<serde_json::Value, serde_json::Error>)
    ensures
        r is Ok <==> json_value_parses(text@),
        r is Ok ==> r->Ok_0 == json_value_of(text@),
{
    serde_json::from_str::<serde_json::Value>(text)
}

/// Renders a serde_json error as text (its `Display` impl).
///
/// Trusted: nothing is stated of the text.
#[verifier::external_body]
pub(crate) fn json_error_text(error: &serde_json::Error) -> (r: String) {
    error.to_string()
}

/// A copy of a JSON value (`<serde_json::Value as Clone>::clone`).
///
/// Trusted: `Value` derives `Clone`, which copies the tree, so the copy is the
/// same value.
#[verifier::external_body]
fn clone_json_value(value: &serde_json::Value) -> (r: serde_json::Value)
    ensures
        r == *value,
{
    value.clone()
}

/// Restrictions on user interaction during an interstitial event (a bit set).
#[derive(Debug, Clone, Copy, PartialEq, Eq, Hash, Default, Structural)]
pub struct PlayerInterstitialEventRestrictions(pub u64);

impl PlayerInterstitialEventRestrictions {
    /// No restriction (`NONE`).
    pub fn none() -> (r: Self)
        ensures
            r.0 == 0,
    {
        PlayerInterstitialEventRestrictions(0)
    }

    /// Seeking forward in the primary content is constrained (bit 0).
    pub fn constrains_seeking_forward_in_primary_content() -> (r: Self)
        ensures
            r.0 == 1,
    {
        PlayerInterstitialEventRestrictions(1)
    }

    /// Advancing needs playback at the preferred rate (bit 2).
    pub fn requires_playback_at_preferred_rate_for_advancement() -> (r: Self)
        ensures
            r.0 == 4,
    {
        PlayerInterstitialEventRestrictions(4)
    }

    /// The default policy: no restriction.
    pub fn default_policy() -> (r: Self)
        ensures
            r.0 == 0,
    {
        PlayerInterstitialEventRestrictions(0)
    }

    /// The raw bits.
    pub fn bits(self) -> (r: u64)
        ensures
            r == self.0,
    {
        self.0
    }

    /// The set with the bits of both `self` and `other`.
    pub open spec fn spec_union(self, other: Self) -> Self {
        PlayerInterstitialEventRestrictions(self.0 | other.0)
    }

    /// Whether every bit of `other` is set in `self`.
    pub open spec fn spec_contains(self, other: Self) -> bool {
        (self.0 & other.0) == other.0
    }

    /// Whether every bit of `other` is set in `self`.
    pub fn contains(self, other: Self) -> (r: bool)
        ensures
            r == self.spec_contains(other),
    {
        (self.0 & other.0) == other.0
    }

    /// The restrictions with the given raw bits.
    pub fn from_bits(bits: u64) -> (r: Self)
        ensures
            r.0 == bits,
    {
        PlayerInterstitialEventRestrictions(bits)
    }

    /// The union of two restriction sets.
    pub fn union(self, other: Self) -> (r: Self)
        ensures
            r.0 == (self.0 | other.0),
    {
        PlayerInterstitialEventRestrictions(self.0 | other.0)
    }
}

impl core::ops::BitOr for PlayerInterstitialEventRestrictions {
    type Output = Self;

    fn bitor(self, rhs: Self) -> (r: Self) {
        PlayerInterstitialEventRestrictions(self.0 | rhs.0)
    }
}

impl vstd::std_specs::ops::BitOrSpecImpl for PlayerInterstitialEventRestrictions {
    open spec fn obeys_bitor_spec() -> bool {
        true
    }

    open spec fn bitor_req(self, rhs: Self) -> bool {
        true
    }

    open spec fn bitor_spec(self, rhs: Self) -> Self {
        self.spec_union(rhs)
    }
}

impl core::ops::BitOrAssign for PlayerInterstitialEventRestrictions {
    fn bitor_assign(&mut self, rhs: Self)
        ensures
            final(self).0 == (old(self).0 | rhs.0),
    {
        self.0 = self.0 | rhs.0;
    }
}

/// A union contains both of its parts; every set contains the empty set and
/// itself; and a set contains another exactly when adding the other to it
/// changes nothing.
pub proof fn lemma_restrictions_union_contains(a: PlayerInterstitialEventRestrictions, b: PlayerInterstitialEventRestrictions)
    ensures
        a.spec_union(b).spec_contains(a),
        a.spec_union(b).spec_contains(b),
        a.spec_contains(PlayerInterstitialEventRestrictions(0)),
        a.spec_contains(a),
        a.spec_contains(b) <==> a.spec_union(b) == a,
{
    let (x, y) = (a.0, b.0);
    assert(((x | y) & x) == x) by (bit_vector);
    assert(((x | y) & y) == y) by (bit_vector);
    assert((x & 0u64) == 0u64) by (bit_vector);
    assert((x & x) == x) by (bit_vector);
    assert(((x & y) == y) <==> ((x | y) == x)) by (bit_vector);
}



/// When an interstitial event plays relative to joining or leaving.
#[derive(Debug, Clone, PartialEq, Eq, Hash)]
#[non_exhaustive]
pub enum PlayerInterstitialEventCue {
    /// No cue.
    NoCue,
    /// Plays when playback joins.
    JoinCue,
    /// Plays when playback leaves.
    LeaveCue,
    /// A raw value this binding does not name.
    Unknown(String),
}

impl PlayerInterstitialEventCue {
    /// The bridge's raw name of the value.
    pub open spec fn raw_name(self) -> Seq<char> {
        match self {
            PlayerInterstitialEventCue::NoCue => "no_cue"@,
            PlayerInterstitialEventCue::JoinCue => "join_cue"@,
            PlayerInterstitialEventCue::LeaveCue => "leave_cue"@,
            PlayerInterstitialEventCue::Unknown(raw) => raw@,
        }
    }

    /// Whether `raw` is a name that a named variant stands for.
    pub open spec fn is_known_name(raw: Seq<char>) -> bool {
        raw == "no_cue"@ || raw == "join_cue"@ || raw == "leave_cue"@
    }

    /// Canonical: an `Unknown` never holds a name that a named variant stands for.
    pub open spec fn is_canonical(self) -> bool {
        match self {
            PlayerInterstitialEventCue::Unknown(raw) => !Self::is_known_name(raw@),
            _ => true,
        }
    }

    /// Decodes the bridge's raw name; a name it does not know is kept in `Unknown`.
    pub fn from_raw(raw: &str) -> (r: Self)
        ensures
            r.raw_name() == raw@,
            r.is_canonical(),
    {
        if str_eq(raw, "no_cue") {
            PlayerInterstitialEventCue::NoCue
        } else if str_eq(raw, "join_cue") {
            PlayerInterstitialEventCue::JoinCue
        } else if str_eq(raw, "leave_cue") {
            PlayerInterstitialEventCue::LeaveCue
        } else {
            PlayerInterstitialEventCue::Unknown(raw.to_owned())
        }
    }

    /// The bridge's raw name.
    pub fn as_raw(&self) -> (r: &str)
        ensures
            r@ == self.raw_name(),
    {
        match self {
            PlayerInterstitialEventCue::NoCue => "no_cue",
            PlayerInterstitialEventCue::JoinCue => "join_cue",
            PlayerInterstitialEventCue::LeaveCue => "leave_cue",
            PlayerInterstitialEventCue::Unknown(raw) => raw.as_str(),
        }
    }
}

/// Two canonical values with the same raw name are the same value: decoding a
/// raw name gives it back unchanged, and decoding what `as_raw` returns gives
/// back the value it started from.
pub proof fn lemma_interstitial_cue_raw_round_trip(a: PlayerInterstitialEventCue, b: PlayerInterstitialEventCue)
    requires
        a.is_canonical(),
        b.is_canonical(),
        a.raw_name() == b.raw_name(),
    ensures
        (a is NoCue) == (b is NoCue),
        (a is JoinCue) == (b is JoinCue),
        (a is LeaveCue) == (b is LeaveCue),
        (a is Unknown) == (b is Unknown),
{
    reveal_strlit("no_cue");
    reveal_strlit("join_cue");
    reveal_strlit("leave_cue");
    assert("no_cue"@.len() != "join_cue"@.len());
    assert("no_cue"@.len() != "leave_cue"@.len());
    assert("join_cue"@.len() != "leave_cue"@.len());
}

/// How an interstitial event occupies the timeline.
#[derive(Debug, Clone, Copy, PartialEq, Eq, Hash, Structural)]
#[non_exhaustive]
pub enum PlayerInterstitialEventTimelineOccupancy {
    /// A single point.
    SinglePoint,
    /// Fills its duration.
    Fill,
    /// A raw value this binding does not name.
    Unknown(i32),
}

impl PlayerInterstitialEventTimelineOccupancy {
    /// The value a raw bridge number stands for.
    pub open spec fn spec_from_raw(raw: i32) -> Self {
        if raw == 0 {
            PlayerInterstitialEventTimelineOccupancy::SinglePoint
        } else if raw == 1 {
            PlayerInterstitialEventTimelineOccupancy::Fill
        } else {
            PlayerInterstitialEventTimelineOccupancy::Unknown(raw)
        }
    }

    /// Decodes a raw bridge number.
    pub fn from_raw(raw: i32) -> (r: Self)
        ensures
            r == Self::spec_from_raw(raw),
    {
        match raw {
            0 => PlayerInterstitialEventTimelineOccupancy::SinglePoint,
            1 => PlayerInterstitialEventTimelineOccupancy::Fill,
            other => PlayerInterstitialEventTimelineOccupancy::Unknown(other),
        }
    }

    /// The raw bridge number of the value.
    pub open spec fn raw_value(self) -> i32 {
        match self {
            PlayerInterstitialEventTimelineOccupancy::SinglePoint => 0,
            PlayerInterstitialEventTimelineOccupancy::Fill => 1,
            PlayerInterstitialEventTimelineOccupancy::Unknown(raw) => raw,
        }
    }

    /// The raw bridge number of the value.
    pub fn raw(self) -> (r: i32)
        ensures
            r == self.raw_value(),
    {
        match self {
            PlayerInterstitialEventTimelineOccupancy::SinglePoint => 0,
            PlayerInterstitialEventTimelineOccupancy::Fill => 1,
            PlayerInterstitialEventTimelineOccupancy::Unknown(raw) => raw,
        }
    }

    /// Canonical: an `Unknown` never holds a number that a named variant stands for.
    pub open spec fn is_canonical(self) -> bool {
        match self {
            PlayerInterstitialEventTimelineOccupancy::Unknown(raw) => !(raw == 0 || raw == 1),
            _ => true,
        }
    }
}

/// Decoding follows `AVPlayerInterstitialEvent.TimelineOccupancy` numbering: 0
/// is single point, 1 is fill; every other number is kept as
/// it came, so no two numbers decode to the same value.
pub proof fn lemma_timeline_occupancy_numbering(raw: i32, other: i32)
    ensures
        PlayerInterstitialEventTimelineOccupancy::spec_from_raw(0) == PlayerInterstitialEventTimelineOccupancy::SinglePoint,
        PlayerInterstitialEventTimelineOccupancy::spec_from_raw(1) == PlayerInterstitialEventTimelineOccupancy::Fill,
        (raw < 0 || raw > 1) ==> PlayerInterstitialEventTimelineOccupancy::spec_from_raw(raw) == PlayerInterstitialEventTimelineOccupancy::Unknown(raw),
        PlayerInterstitialEventTimelineOccupancy::spec_from_raw(raw) == PlayerInterstitialEventTimelineOccupancy::spec_from_raw(other) ==> raw == other,
{
}

/// Decoding a raw number and encoding the result gives the number back;
/// encoding a canonical value and decoding the number gives the value back.
pub proof fn lemma_timeline_occupancy_raw_round_trip(raw: i32, x: PlayerInterstitialEventTimelineOccupancy)
    requires
        x.is_canonical(),
    ensures
        PlayerInterstitialEventTimelineOccupancy::spec_from_raw(raw).raw_value() == raw,
        PlayerInterstitialEventTimelineOccupancy::spec_from_raw(x.raw_value()) == x,
{
}

/// Status of an interstitial asset-list response.
#[derive(Debug, Clone, Copy, PartialEq, Eq, Hash, Structural)]
#[non_exhaustive]
pub enum PlayerInterstitialEventAssetListResponseStatus {
    /// Available.
    Available,
    /// Cleared.
    Cleared,
    /// Unavailable.
    Unavailable,
    /// A raw value this binding does not name.
    Unknown(i32),
}

impl PlayerInterstitialEventAssetListResponseStatus {
    /// The value a raw bridge number stands for.
    pub open spec fn spec_from_raw(raw: i32) -> Self {
        if raw == 0 {
            PlayerInterstitialEventAssetListResponseStatus::Available
        } else if raw == 1 {
            PlayerInterstitialEventAssetListResponseStatus::Cleared
        } else if raw == 2 {
            PlayerInterstitialEventAssetListResponseStatus::Unavailable
        } else {
            PlayerInterstitialEventAssetListResponseStatus::Unknown(raw)
        }
    }

    /// Decodes a raw bridge number.
    pub fn from_raw(raw: i32) -> (r: Self)
        ensures
            r == Self::spec_from_raw(raw),
    {
        match raw {
            0 => PlayerInterstitialEventAssetListResponseStatus::Available,
            1 => PlayerInterstitialEventAssetListResponseStatus::Cleared,
            2 => PlayerInterstitialEventAssetListResponseStatus::Unavailable,
            other => PlayerInterstitialEventAssetListResponseStatus::Unknown(other),
        }
    }

    /// Canonical: an `Unknown` never holds a number that a named variant stands for.
    pub open spec fn is_canonical(self) -> bool {
        match self {
            PlayerInterstitialEventAssetListResponseStatus::Unknown(raw) => !(raw == 0 || raw == 1 || raw == 2),
            _ => true,
        }
    }
}

/// Decoding follows `AVPlayerInterstitialEvent.AssetListResponseStatus`
/// numbering: 0 is available, 1 is cleared, 2 is unavailable; every other
/// number is kept as
/// it came, so no two numbers decode to the same value.
pub proof fn lemma_asset_list_response_status_numbering(raw: i32, other: i32)
    ensures
        PlayerInterstitialEventAssetListResponseStatus::spec_from_raw(0) == PlayerInterstitialEventAssetListResponseStatus::Available,
        PlayerInterstitialEventAssetListResponseStatus::spec_from_raw(1) == PlayerInterstitialEventAssetListResponseStatus::Cleared,
        PlayerInterstitialEventAssetListResponseStatus::spec_from_raw(2) == PlayerInterstitialEventAssetListResponseStatus::Unavailable,
        (raw < 0 || raw > 2) ==> PlayerInterstitialEventAssetListResponseStatus::spec_from_raw(raw) == PlayerInterstitialEventAssetListResponseStatus::Unknown(raw),
        PlayerInterstitialEventAssetListResponseStatus::spec_from_raw(raw) == PlayerInterstitialEventAssetListResponseStatus::spec_from_raw(other) ==> raw == other,
{
}

/// Every decoded value is canonical, and a decoded value keeps the number it
/// was decoded from when that number is not a named one.
pub proof fn lemma_asset_list_status_from_raw(raw: i32)
    ensures
        PlayerInterstitialEventAssetListResponseStatus::spec_from_raw(raw).is_canonical(),
        !(raw == 0 || raw == 1 || raw == 2) ==> PlayerInterstitialEventAssetListResponseStatus::spec_from_raw(raw) == PlayerInterstitialEventAssetListResponseStatus::Unknown(raw),
{
}

/// Whether the current interstitial event can be skipped.
#[derive(Debug, Clone, Copy, PartialEq, Eq, Hash, Structural)]
#[non_exhaustive]
pub enum PlayerInterstitialEventSkippableEventState {
    /// Not skippable.
    NotSkippable,
    /// Not yet eligible.
    NotYetEligible,
    /// Eligible.
    Eligible,
    /// No longer eligible.
    NoLongerEligible,
    /// A raw value this binding does not name.
    Unknown(i32),
}

impl PlayerInterstitialEventSkippableEventState {
    /// The value a raw bridge number stands for.
    pub open spec fn spec_from_raw(raw: i32) -> Self {
        if raw == 0 {
            PlayerInterstitialEventSkippableEventState::NotSkippable
        } else if raw == 1 {
            PlayerInterstitialEventSkippableEventState::NotYetEligible
        } else if raw == 2 {
            PlayerInterstitialEventSkippableEventState::Eligible
        } else if raw == 3 {
            PlayerInterstitialEventSkippableEventState::NoLongerEligible
        } else {
            PlayerInterstitialEventSkippableEventState::Unknown(raw)
        }
    }

    /// Decodes a raw bridge number.
    pub fn from_raw(raw: i32) -> (r: Self)
        ensures
            r == Self::spec_from_raw(raw),
    {
        match raw {
            0 => PlayerInterstitialEventSkippableEventState::NotSkippable,
            1 => PlayerInterstitialEventSkippableEventState::NotYetEligible,
            2 => PlayerInterstitialEventSkippableEventState::Eligible,
            3 => PlayerInterstitialEventSkippableEventState::NoLongerEligible,
            other => PlayerInterstitialEventSkippableEventState::Unknown(other),
        }
    }

    /// Canonical: an `Unknown` never holds a number that a named variant stands for.
    pub open spec fn is_canonical(self) -> bool {
        match self {
            PlayerInterstitialEventSkippableEventState::Unknown(raw) => !(raw == 0 || raw == 1 || raw == 2 || raw == 3),
            _ => true,
        }
    }
}

/// The skippable state follows `AVPlayerInterstitialEvent.SkippableEventState`
/// numbering: 0 is not skippable, 1 not yet eligible, 2 eligible and 3 no
/// longer eligible; every other number is kept as an unknown value, so
/// decoding loses no number.
pub proof fn lemma_skippable_state_numbering(raw: i32, other: i32)
    ensures
        PlayerInterstitialEventSkippableEventState::spec_from_raw(0) == PlayerInterstitialEventSkippableEventState::NotSkippable,
        PlayerInterstitialEventSkippableEventState::spec_from_raw(1) == PlayerInterstitialEventSkippableEventState::NotYetEligible,
        PlayerInterstitialEventSkippableEventState::spec_from_raw(2) == PlayerInterstitialEventSkippableEventState::Eligible,
        PlayerInterstitialEventSkippableEventState::spec_from_raw(3) == PlayerInterstitialEventSkippableEventState::NoLongerEligible,
        PlayerInterstitialEventSkippableEventState::spec_from_raw(raw) == PlayerInterstitialEventSkippableEventState::spec_from_raw(other) ==> raw == other,
{
}

/// Every decoded value is canonical, and a decoded value keeps the number it
/// was decoded from when that number is not a named one.
pub proof fn lemma_skippable_state_from_raw(raw: i32)
    ensures
        PlayerInterstitialEventSkippableEventState::spec_from_raw(raw).is_canonical(),
        !(raw == 0 || raw == 1 || raw == 2 || raw == 3) ==> PlayerInterstitialEventSkippableEventState::spec_from_raw(raw) == PlayerInterstitialEventSkippableEventState::Unknown(raw),
{
}

/// Description of an interstitial event as the bridge reports it.
#[derive(Debug, Clone, PartialEq, Eq)]
pub struct PlayerInterstitialEventInfoPayload {
    /// Identifier of the event.
    pub identifier: String,
    /// Time at which the event is scheduled.
    pub time: Time,
    /// Date at which the event is scheduled, when it has one.
    pub date: Option<String>,
    /// Number of template items.
    pub template_item_count: usize,
    /// Raw restriction bits.
    pub restrictions: u64,
    /// Offset at which primary playback resumes.
    pub resumption_offset: Time,
    /// Limit on how long the event plays.
    pub playout_limit: Time,
    /// Whether the start aligns with a primary segment boundary.
    pub aligns_start_with_primary_segment_boundary: bool,
    /// Whether resumption aligns with a primary segment boundary.
    pub aligns_resumption_with_primary_segment_boundary: bool,
    /// Raw cue name.
    pub cue: Option<String>,
    /// Whether the event plays only once.
    pub will_play_once: bool,
    /// User-defined attributes, as JSON text.
    pub user_defined_attributes_json: Option<String>,
    /// Asset-list response, as JSON text.
    pub asset_list_response_json: Option<String>,
    /// Raw timeline occupancy.
    pub timeline_occupancy_raw: Option<i32>,
    /// Whether the event supplements the primary content.
    pub supplements_primary_content: Option<bool>,
    /// Whether the content may vary between plays.
    pub content_may_vary: Option<bool>,
    /// Whether the event has a primary item.
    pub has_primary_item: bool,
}

/// Description of an interstitial event.
#[derive(Debug, Clone, PartialEq)]
pub struct PlayerInterstitialEventInfo {
    /// Identifier of the event.
    pub identifier: String,
    /// Time at which the event is scheduled.
    pub time: Time,
    /// Date at which the event is scheduled, when it has one.
    pub date: Option<String>,
    /// Number of template items.
    pub template_item_count: usize,
    /// Restrictions on user interaction.
    pub restrictions: PlayerInterstitialEventRestrictions,
    /// Offset at which primary playback resumes.
    pub resumption_offset: Time,
    /// Limit on how long the event plays.
    pub playout_limit: Time,
    /// Whether the start aligns with a primary segment boundary.
    pub aligns_start_with_primary_segment_boundary: bool,
    /// Whether resumption aligns with a primary segment boundary.
    pub aligns_resumption_with_primary_segment_boundary: bool,
    /// When the event plays relative to joining or leaving.
    pub cue: Option<PlayerInterstitialEventCue>,
    /// Whether the event plays only once.
    pub will_play_once: bool,
    /// User-defined attributes, as JSON.
    pub user_defined_attributes: Option<serde_json::Value>,
    /// Asset-list response, as JSON.
    pub asset_list_response: Option<serde_json::Value>,
    /// How the event occupies the timeline.
    pub timeline_occupancy: Option<PlayerInterstitialEventTimelineOccupancy>,
    /// Whether the event supplements the primary content.
    pub supplements_primary_content: Option<bool>,
    /// Whether the content may vary between plays.
    pub content_may_vary: Option<bool>,
    /// Whether the event has a primary item.
    pub has_primary_item: bool,
}

/// An optional JSON text is acceptable: absent, or parseable.
pub open spec fn optional_json_parses(text: Option<String>) -> bool {
    match text {
        Some(t) => json_value_parses(t@),
        None => true,
    }
}

/// The prefix of the error reported for JSON text that does not parse.
pub open spec fn json_payload_error_prefix() -> Seq<char> {
    "failed to decode interstitial event JSON payload: "@
}

/// The error reported for JSON text that does not parse: `OperationFailed`,
/// with a message that starts with [`json_payload_error_prefix`].
pub open spec fn is_json_payload_error(e: AVPlayerError) -> bool {
    &&& e is OperationFailed
    &&& e.message_of().len() >= json_payload_error_prefix().len()
    &&& e.message_of().subrange(0, json_payload_error_prefix().len() as int) == json_payload_error_prefix()
}

/// Parses an optional JSON text: absent stays absent; text that does not parse
/// is an `OperationFailed` error whose message starts with
/// [`json_payload_error_prefix`].
pub fn parse_json_value(value: Option<String>) -> (r: Result<Option<serde_json::Value>, AVPlayerError>)
    ensures
        match value {
            None => r == Ok::<Option<serde_json::Value>, AVPlayerError>(None),
            Some(t) => if json_value_parses(t@) {
                r == Ok::<Option<serde_json::Value>, AVPlayerError>(Some(json_value_of(t@)))
            } else {
                match r {
                    Err(e) => is_json_payload_error(e),
                    Ok(_) => false,
                }
            },
        },
{
    match value {
        None => Ok(None),
        Some(text) => match parse_json_text(text.as_str()) {
            Ok(v) => Ok(Some(v)),
            Err(error) => {
                let detail = json_error_text(&error);
                let message = "failed to decode interstitial event JSON payload: ".to_owned().concat(
                    detail.as_str(),
                );
                proof {
                    let p = json_payload_error_prefix();
                    assert(message@.subrange(0, p.len() as int) =~= p);
                }
                Err(AVPlayerError::OperationFailed(message))
            },
        },
    }
}

/// The value an optional JSON text parses into: absent stays absent.
pub open spec fn json_values_of(text: Option<String>) -> Option<serde_json::Value> {
    match text {
        Some(t) => Some(json_value_of(t@)),
        None => None,
    }
}

/// A payload converts when both of its JSON texts are acceptable.
pub open spec fn info_converts(p: PlayerInterstitialEventInfoPayload) -> bool {
    optional_json_parses(p.user_defined_attributes_json) && optional_json_parses(p.asset_list_response_json)
}

/// The description matches the payload: every plain field carried over, the
/// raw values decoded, and each JSON text parsed into its value.
pub open spec fn info_matches(p: PlayerInterstitialEventInfoPayload, i: PlayerInterstitialEventInfo) -> bool {
    &&& i.identifier == p.identifier
    &&& i.time == p.time
    &&& i.date == p.date
    &&& i.template_item_count == p.template_item_count
    &&& i.restrictions.0 == p.restrictions
    &&& i.resumption_offset == p.resumption_offset
    &&& i.playout_limit == p.playout_limit
    &&& i.aligns_start_with_primary_segment_boundary == p.aligns_start_with_primary_segment_boundary
    &&& i.aligns_resumption_with_primary_segment_boundary == p.aligns_resumption_with_primary_segment_boundary
    &&& (match p.cue {
        Some(raw) => i.cue is Some && i.cue.unwrap().raw_name() == raw@ && i.cue.unwrap().is_canonical(),
        None => i.cue is None,
    })
    &&& i.will_play_once == p.will_play_once
    &&& i.user_defined_attributes == json_values_of(p.user_defined_attributes_json)
    &&& i.asset_list_response == json_values_of(p.asset_list_response_json)
    &&& i.timeline_occupancy == (match p.timeline_occupancy_raw {
        Some(raw) => Some(PlayerInterstitialEventTimelineOccupancy::spec_from_raw(raw)),
        None => None,
    })
    &&& i.supplements_primary_content == p.supplements_primary_content
    &&& i.content_may_vary == p.content_may_vary
    &&& i.has_primary_item == p.has_primary_item
}

impl PlayerInterstitialEventInfo {
    /// Decodes an event description; fails when one of its JSON texts does
    /// not parse.
    pub fn from_payload(payload: PlayerInterstitialEventInfoPayload) -> (r: Result<Self, AVPlayerError>)
        ensures
            info_converts(payload) <==> r is Ok,
            r is Ok ==> info_matches(payload, r.unwrap()),
            r is Err ==> is_json_payload_error(r->Err_0),
    {
        let user_defined_attributes = parse_json_value(payload.user_defined_attributes_json)?;
        let asset_list_response = parse_json_value(payload.asset_list_response_json)?;
        let cue = match &payload.cue {
            Some(raw) => Some(PlayerInterstitialEventCue::from_raw(raw.as_str())),
            None => None,
        };
        let timeline_occupancy = match payload.timeline_occupancy_raw {
            Some(raw) => Some(PlayerInterstitialEventTimelineOccupancy::from_raw(raw)),
            None => None,
        };
        Ok(PlayerInterstitialEventInfo {
            identifier: payload.identifier,
            time: payload.time,
            date: payload.date,
            template_item_count: payload.template_item_count,
            restrictions: PlayerInterstitialEventRestrictions::from_bits(payload.restrictions),
            resumption_offset: payload.resumption_offset,
            playout_limit: payload.playout_limit,
            aligns_start_with_primary_segment_boundary: payload.aligns_start_with_primary_segment_boundary,
            aligns_resumption_with_primary_segment_boundary: payload.aligns_resumption_with_primary_segment_boundary,
            cue,
            will_play_once: payload.will_play_once,
            user_defined_attributes,
            asset_list_response,
            timeline_occupancy,
            supplements_primary_content: payload.supplements_primary_content,
            content_may_vary: payload.content_may_vary,
            has_primary_item: payload.has_primary_item,
        })
    }

    /// A copy of the description.
    pub fn duplicate(&self) -> (r: Self)
        ensures
            r == *self,
    {
        PlayerInterstitialEventInfo {
            identifier: self.identifier.clone(),
            time: self.time,
            date: copy_optional_string(&self.date),
            template_item_count: self.template_item_count,
            restrictions: self.restrictions,
            resumption_offset: self.resumption_offset,
            playout_limit: self.playout_limit,
            aligns_start_with_primary_segment_boundary: self.aligns_start_with_primary_segment_boundary,
            aligns_resumption_with_primary_segment_boundary: self.aligns_resumption_with_primary_segment_boundary,
            cue: match &self.cue {
                Some(c) => Some(c.duplicate()),
                None => None,
            },
            will_play_once: self.will_play_once,
            user_defined_attributes: match &self.user_defined_attributes {
                Some(v) => Some(clone_json_value(v)),
                None => None,
            },
            asset_list_response: match &self.asset_list_response {
                Some(v) => Some(clone_json_value(v)),
                None => None,
            },
            timeline_occupancy: self.timeline_occupancy,
            supplements_primary_content: self.supplements_primary_content,
            content_may_vary: self.content_may_vary,
            has_primary_item: self.has_primary_item,
        }
    }
}

impl PlayerInterstitialEventCue {
    /// A copy of the cue.
    pub fn duplicate(&self) -> (r: Self)
        ensures
            r == *self,
    {
        match self {
            PlayerInterstitialEventCue::NoCue => PlayerInterstitialEventCue::NoCue,
            PlayerInterstitialEventCue::JoinCue => PlayerInterstitialEventCue::JoinCue,
            PlayerInterstitialEventCue::LeaveCue => PlayerInterstitialEventCue::LeaveCue,
            PlayerInterstitialEventCue::Unknown(raw) => PlayerInterstitialEventCue::Unknown(raw.clone()),
        }
    }
}

/// A copy of an optional string.
pub fn copy_optional_string(s: &Option<String>) -> (r: Option<String>)
    ensures
        r == *s,
{
    match s {
        Some(v) => Some(v.clone()),
        None => None,
    }
}

/// State of an interstitial monitor as the bridge reports it.
#[derive(Debug, Clone, PartialEq, Eq)]
pub struct PlayerInterstitialMonitorStatePayload {
    /// The scheduled events.
    pub events: Vec<PlayerInterstitialEventInfoPayload>,
    /// The event playing now, if any.
    pub current_event: Option<PlayerInterstitialEventInfoPayload>,
    /// Raw skippable state of the current event.
    pub current_event_skippable_state_raw: Option<i32>,
    /// Label of the skip control for the current event.
    pub current_event_skip_control_label: Option<String>,
}

/// State of an interstitial monitor or controller.
#[derive(Debug, Clone, PartialEq)]
pub struct PlayerInterstitialEventMonitorState {
    /// The scheduled events.
    pub events: Vec<PlayerInterstitialEventInfo>,
    /// The event playing now, if any.
    pub current_event: Option<PlayerInterstitialEventInfo>,
    /// Skippable state of the current event.
    pub current_event_skippable_state: Option<PlayerInterstitialEventSkippableEventState>,
    /// Label of the skip control for the current event.
    pub current_event_skip_control_label: Option<String>,
}

impl PlayerInterstitialEventMonitorState {
    /// Decodes a monitor state; fails when any event description fails to
    /// decode.
    pub fn from_payload(payload: PlayerInterstitialMonitorStatePayload) -> (r: Result<Self, AVPlayerError>)
        ensures
            r is Ok <==> ((forall|i: int| 0 <= i < payload.events.len() ==> #[trigger] info_converts(
                payload.events[i],
            )) && match payload.current_event {
                Some(c) => info_converts(c),
                None => true,
            }),
            r is Err ==> is_json_payload_error(r->Err_0),
            r is Ok ==> ({
                let s = r.unwrap();
                &&& s.events.len() == payload.events.len()
                &&& forall|i: int| 0 <= i < s.events.len() ==> info_matches(payload.events[i], #[trigger] s.events[i])
                &&& match payload.current_event {
                    Some(c) => s.current_event is Some && info_matches(c, s.current_event.unwrap()),
                    None => s.current_event is None,
                }
                &&& s.current_event_skippable_state == match payload.current_event_skippable_state_raw {
                    Some(raw) => Some(PlayerInterstitialEventSkippableEventState::spec_from_raw(raw)),
                    None => None,
                }
                &&& s.current_event_skip_control_label == payload.current_event_skip_control_label
            }),
    {
        let ghost ps = payload.events@;
        let mut events: Vec<PlayerInterstitialEventInfo> = Vec::new();
        for p in it: payload.events.into_iter()
            invariant
                it.seq() == ps,
                events.len() == it.index(),
                forall|i: int| 0 <= i < events.len() ==> info_matches(ps[i], #[trigger] events[i]),
                forall|i: int| 0 <= i < events.len() ==> #[trigger] info_converts(ps[i]),
        {
            let info = PlayerInterstitialEventInfo::from_payload(p);
            match info {
                Ok(i) => events.push(i),
                Err(e) => {
                    return Err(e);
                },
            }
        }
        let current_event = match payload.current_event {
            Some(c) => Some(PlayerInterstitialEventInfo::from_payload(c)?),
            None => None,
        };
        let current_event_skippable_state = match payload.current_event_skippable_state_raw {
            Some(raw) => Some(PlayerInterstitialEventSkippableEventState::from_raw(raw)),
            None => None,
        };
        Ok(PlayerInterstitialEventMonitorState {
            events,
            current_event,
            current_event_skippable_state,
            current_event_skip_control_label: payload.current_event_skip_control_label,
        })
    }
}

/// Monitor event as the bridge reports it.
#[derive(Debug, Clone, PartialEq, Eq)]
pub struct PlayerInterstitialMonitorEventPayload {
    /// Event name.
    pub event: String,
    /// The interstitial event concerned, if any.
    pub interstitial_event: Option<PlayerInterstitialEventInfoPayload>,
    /// Raw asset-list response status.
    pub asset_list_response_status_raw: Option<i32>,
    /// Raw skippable state.
    pub skippable_state_raw: Option<i32>,
    /// Label of the skip control.
    pub skip_control_label: Option<String>,
    /// Error message, when there is one.
    pub error_message: Option<String>,
    /// How long the event played.
    pub playout_time: Option<Time>,
    /// Whether the whole event played.
    pub did_play_entire_event: Option<bool>,
}

/// Events of an interstitial monitor.
#[derive(Debug, Clone, PartialEq)]
#[non_exhaustive]
pub enum PlayerInterstitialEventMonitorEvent {
    /// The scheduled events changed.
    EventsDidChange,
    /// The current event changed.
    CurrentEventDidChange,
    /// An asset-list response arrived or changed.
    AssetListResponseStatusDidChange {
        interstitial_event: Option<PlayerInterstitialEventInfo>,
        status: PlayerInterstitialEventAssetListResponseStatus,
        error_message: Option<String>,
    },
    /// The skippable state of the current event changed.
    CurrentEventSkippableStateDidChange {
        interstitial_event: Option<PlayerInterstitialEventInfo>,
        state: PlayerInterstitialEventSkippableEventState,
        skip_control_label: Option<String>,
    },
    /// The current event was skipped.
    CurrentEventSkipped { interstitial_event: Option<PlayerInterstitialEventInfo> },
    /// An event was unscheduled.
    InterstitialEventWasUnscheduled {
        interstitial_event: Option<PlayerInterstitialEventInfo>,
        error_message: Option<String>,
    },
    /// An event finished.
    InterstitialEventDidFinish {
        interstitial_event: Option<PlayerInterstitialEventInfo>,
        playout_time: Option<Time>,
        did_play_entire_event: Option<bool>,
    },
}

/// The event description an event carries: the decoded description of the
/// payload's, or nothing when the payload has none or it does not decode.
pub open spec fn carried_info_spec(p: Option<PlayerInterstitialEventInfoPayload>, i: Option<PlayerInterstitialEventInfo>) -> bool {
    match p {
        Some(ip) => if info_converts(ip) {
            i is Some && info_matches(ip, i.unwrap())
        } else {
            i is None
        },
        None => i is None,
    }
}

/// What a monitor-event payload decodes to, by name; raw states read as 0 when
/// absent; an unknown name decodes to `None`.
pub open spec fn monitor_event_spec(p: PlayerInterstitialMonitorEventPayload, r: Option<PlayerInterstitialEventMonitorEvent>) -> bool {
    let name = p.event@;
    if name == "events_did_change"@ {
        r == Some(PlayerInterstitialEventMonitorEvent::EventsDidChange)
    } else if name == "current_event_did_change"@ {
        r == Some(PlayerInterstitialEventMonitorEvent::CurrentEventDidChange)
    } else if name == "asset_list_response_status_did_change"@ {
        match r {
            Some(PlayerInterstitialEventMonitorEvent::AssetListResponseStatusDidChange {
                interstitial_event,
                status,
                error_message,
            }) => carried_info_spec(p.interstitial_event, interstitial_event) && status
                == PlayerInterstitialEventAssetListResponseStatus::spec_from_raw(
                match p.asset_list_response_status_raw {
                    Some(v) => v,
                    None => 0,
                },
            ) && error_message == p.error_message,
            _ => false,
        }
    } else if name == "current_event_skippable_state_did_change"@ {
        match r {
            Some(PlayerInterstitialEventMonitorEvent::CurrentEventSkippableStateDidChange {
                interstitial_event,
                state,
                skip_control_label,
            }) => carried_info_spec(p.interstitial_event, interstitial_event) && state
                == PlayerInterstitialEventSkippableEventState::spec_from_raw(
                match p.skippable_state_raw {
                    Some(v) => v,
                    None => 0,
                },
            ) && skip_control_label == p.skip_control_label,
            _ => false,
        }
    } else if name == "current_event_skipped"@ {
        match r {
            Some(PlayerInterstitialEventMonitorEvent::CurrentEventSkipped { interstitial_event }) => carried_info_spec(
                p.interstitial_event,
                interstitial_event,
            ),
            _ => false,
        }
    } else if name == "interstitial_event_was_unscheduled"@ {
        match r {
            Some(PlayerInterstitialEventMonitorEvent::InterstitialEventWasUnscheduled {
                interstitial_event,
                error_message,
            }) => carried_info_spec(p.interstitial_event, interstitial_event) && error_message == p.error_message,
            _ => false,
        }
    } else if name == "interstitial_event_did_finish"@ {
        match r {
            Some(PlayerInterstitialEventMonitorEvent::InterstitialEventDidFinish {
                interstitial_event,
                playout_time,
                did_play_entire_event,
            }) => carried_info_spec(p.interstitial_event, interstitial_event) && playout_time == p.playout_time
                && did_play_entire_event == p.did_play_entire_event,
            _ => false,
        }
    } else {
        r is None
    }
}

/// A monitor event carries what its payload reports: a skippable-state change
/// carries the state of the raw number (0 or none not skippable, 1 not yet
/// eligible, 2 eligible, 3 no longer eligible, any other number kept as
/// unknown) with the skip-control label; an asset-list change carries the
/// status of the raw number (0 or none available, 1 cleared, 2 unavailable,
/// any other kept as unknown) with the error message; a finished event keeps
/// its playout time and whether all of it played.
pub proof fn lemma_monitor_event_carries_payload(p: PlayerInterstitialMonitorEventPayload, r: Option<PlayerInterstitialEventMonitorEvent>)
    requires
        monitor_event_spec(p, r),
    ensures
        p.event@ == "current_event_skippable_state_did_change"@ ==> (r matches Some(
            PlayerInterstitialEventMonitorEvent::CurrentEventSkippableStateDidChange { state, skip_control_label, .. },
        ) && skip_control_label == p.skip_control_label && (p.skippable_state_raw is None || p.skippable_state_raw
            == Some(0i32) ==> state == PlayerInterstitialEventSkippableEventState::NotSkippable) && (p.skippable_state_raw
            == Some(1i32) ==> state == PlayerInterstitialEventSkippableEventState::NotYetEligible) && (
        p.skippable_state_raw == Some(2i32) ==> state == PlayerInterstitialEventSkippableEventState::Eligible) && (
        p.skippable_state_raw == Some(3i32) ==> state == PlayerInterstitialEventSkippableEventState::NoLongerEligible)
            && (p.skippable_state_raw matches Some(v) ==> (v < 0 || v > 3) ==> state
            == PlayerInterstitialEventSkippableEventState::Unknown(v))),
        p.event@ == "asset_list_response_status_did_change"@ ==> (r matches Some(
            PlayerInterstitialEventMonitorEvent::AssetListResponseStatusDidChange { status, error_message, .. },
        ) && error_message == p.error_message && (p.asset_list_response_status_raw is None
            || p.asset_list_response_status_raw == Some(0i32) ==> status
            == PlayerInterstitialEventAssetListResponseStatus::Available) && (p.asset_list_response_status_raw == Some(
            1i32,
        ) ==> status == PlayerInterstitialEventAssetListResponseStatus::Cleared) && (p.asset_list_response_status_raw
            == Some(2i32) ==> status == PlayerInterstitialEventAssetListResponseStatus::Unavailable) && (
        p.asset_list_response_status_raw matches Some(v) ==> (v < 0 || v > 2) ==> status
            == PlayerInterstitialEventAssetListResponseStatus::Unknown(v))),
        p.event@ == "interstitial_event_did_finish"@ ==> (r matches Some(
            PlayerInterstitialEventMonitorEvent::InterstitialEventDidFinish { playout_time, did_play_entire_event, .. },
        ) && playout_time == p.playout_time && did_play_entire_event == p.did_play_entire_event),
        p.event@ == "interstitial_event_was_unscheduled"@ ==> (r matches Some(
            PlayerInterstitialEventMonitorEvent::InterstitialEventWasUnscheduled { error_message, .. },
        ) && error_message == p.error_message),
{
    reveal_strlit("events_did_change");
    reveal_strlit("current_event_did_change");
    reveal_strlit("asset_list_response_status_did_change");
    reveal_strlit("current_event_skippable_state_did_change");
    reveal_strlit("current_event_skipped");
    reveal_strlit("interstitial_event_was_unscheduled");
    reveal_strlit("interstitial_event_did_finish");
    assert("events_did_change"@.len() != "current_event_did_change"@.len());
    assert("events_did_change"@.len() != "asset_list_response_status_did_change"@.len());
    assert("events_did_change"@.len() != "current_event_skippable_state_did_change"@.len());
    assert("events_did_change"@.len() != "current_event_skipped"@.len());
    assert("events_did_change"@.len() != "interstitial_event_was_unscheduled"@.len());
    assert("events_did_change"@.len() != "interstitial_event_did_finish"@.len());
    assert("current_event_did_change"@.len() != "asset_list_response_status_did_change"@.len());
    assert("current_event_did_change"@.len() != "current_event_skippable_state_did_change"@.len());
    assert("current_event_did_change"@.len() != "current_event_skipped"@.len());
    assert("current_event_did_change"@.len() != "interstitial_event_was_unscheduled"@.len());
    assert("current_event_did_change"@.len() != "interstitial_event_did_finish"@.len());
    assert("asset_list_response_status_did_change"@.len() != "current_event_skippable_state_did_change"@.len());
    assert("asset_list_response_status_did_change"@.len() != "current_event_skipped"@.len());
    assert("asset_list_response_status_did_change"@.len() != "interstitial_event_was_unscheduled"@.len());
    assert("asset_list_response_status_did_change"@.len() != "interstitial_event_did_finish"@.len());
    assert("current_event_skippable_state_did_change"@.len() != "current_event_skipped"@.len());
    assert("current_event_skippable_state_did_change"@.len() != "interstitial_event_was_unscheduled"@.len());
    assert("current_event_skippable_state_did_change"@.len() != "interstitial_event_did_finish"@.len());
    assert("current_event_skipped"@.len() != "interstitial_event_was_unscheduled"@.len());
    assert("current_event_skipped"@.len() != "interstitial_event_did_finish"@.len());
    assert("interstitial_event_was_unscheduled"@.len() != "interstitial_event_did_finish"@.len());
}

impl PlayerInterstitialEventMonitorEvent {
    /// Decodes a monitor-event payload.
    pub fn from_payload(payload: PlayerInterstitialMonitorEventPayload) -> (r: Option<Self>)
        ensures
            monitor_event_spec(payload, r),
    {
        let interstitial_event = match payload.interstitial_event {
            Some(ip) => match PlayerInterstitialEventInfo::from_payload(ip) {
                Ok(info) => Some(info),
                Err(_) => None,
            },
            None => None,
        };
        let name = payload.event.as_str();
        if str_eq(name, "events_did_change") {
            Some(PlayerInterstitialEventMonitorEvent::EventsDidChange)
        } else if str_eq(name, "current_event_did_change") {
            Some(PlayerInterstitialEventMonitorEvent::CurrentEventDidChange)
        } else if str_eq(name, "asset_list_response_status_did_change") {
            Some(
                PlayerInterstitialEventMonitorEvent::AssetListResponseStatusDidChange {
                    interstitial_event,
                    status: PlayerInterstitialEventAssetListResponseStatus::from_raw(
                        match payload.asset_list_response_status_raw {
                            Some(v) => v,
                            None => 0,
                        },
                    ),
                    error_message: payload.error_message,
                },
            )
        } else if str_eq(name, "current_event_skippable_state_did_change") {
            Some(
                PlayerInterstitialEventMonitorEvent::CurrentEventSkippableStateDidChange {
                    interstitial_event,
                    state: PlayerInterstitialEventSkippableEventState::from_raw(
                        match payload.skippable_state_raw {
                            Some(v) => v,
                            None => 0,
                        },
                    ),
                    skip_control_label: payload.skip_control_label,
                },
            )
        } else if str_eq(name, "current_event_skipped") {
            Some(PlayerInterstitialEventMonitorEvent::CurrentEventSkipped { interstitial_event })
        } else if str_eq(name, "interstitial_event_was_unscheduled") {
            Some(
                PlayerInterstitialEventMonitorEvent::InterstitialEventWasUnscheduled {
                    interstitial_event,
                    error_message: payload.error_message,
                },
            )
        } else if str_eq(name, "interstitial_event_did_finish") {
            Some(
                PlayerInterstitialEventMonitorEvent::InterstitialEventDidFinish {
                    interstitial_event,
                    playout_time: payload.playout_time,
                    did_play_entire_event: payload.did_play_entire_event,
                },
            )
        } else {
            None
        }
    }
}

} // verus!
