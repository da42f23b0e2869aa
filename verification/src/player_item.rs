//! Player-item settings and state: time-pitch algorithms, variant preference
//! flags, content-authorization outcomes and the custom video compositor.

use vstd::prelude::*;

use crate::error::{availability_error, AVPlayerError};
use crate::text::str_eq;

verus! {

/// Time-pitch algorithm of a player item.
#[derive(Debug, Clone, PartialEq, Eq, Hash)]
#[non_exhaustive]
pub enum AudioTimePitchAlgorithm {
    /// Spectral.
    Spectral,
    /// Time domain.
    TimeDomain,
    /// Varispeed.
    Varispeed,
    /// Low quality, zero latency.
    LowQualityZeroLatency,
    /// A raw value this binding does not name.
    Unknown(String),
}

impl AudioTimePitchAlgorithm {
    /// The bridge's raw name of the value.
    pub open spec fn raw_name(self) -> Seq<char> {
        match self {
            AudioTimePitchAlgorithm::Spectral => "spectral"@,
            AudioTimePitchAlgorithm::TimeDomain => "time_domain"@,
            AudioTimePitchAlgorithm::Varispeed => "varispeed"@,
            AudioTimePitchAlgorithm::LowQualityZeroLatency => "low_quality_zero_latency"@,
            AudioTimePitchAlgorithm::Unknown(raw) => raw@,
        }
    }

    /// Whether `raw` is a name that a named variant stands for.
    pub open spec fn is_known_name(raw: Seq<char>) -> bool {
        raw == "spectral"@ || raw == "time_domain"@ || raw == "varispeed"@ || raw == "low_quality_zero_latency"@
    }

    /// Canonical: an `Unknown` never holds a name that a named variant stands for.
    pub open spec fn is_canonical(self) -> bool {
        match self {
            AudioTimePitchAlgorithm::Unknown(raw) => !Self::is_known_name(raw@),
            _ => true,
        }
    }

    /// Decodes the bridge's raw name; a name it does not know is kept in `Unknown`.
    pub fn from_raw(raw: &str) -> (r: Self)
        ensures
            r.raw_name() == raw@,
            r.is_canonical(),
    {
        if str_eq(raw, "spectral") {
            AudioTimePitchAlgorithm::Spectral
        } else if str_eq(raw, "time_domain") {
            AudioTimePitchAlgorithm::TimeDomain
        } else if str_eq(raw, "varispeed") {
            AudioTimePitchAlgorithm::Varispeed
        } else if str_eq(raw, "low_quality_zero_latency") {
            AudioTimePitchAlgorithm::LowQualityZeroLatency
        } else {
            AudioTimePitchAlgorithm::Unknown(raw.to_owned())
        }
    }

    /// The bridge's raw name.
    pub fn as_raw(&self) -> (r: &str)
        ensures
            r@ == self.raw_name(),
    {
        match self {
            AudioTimePitchAlgorithm::Spectral => "spectral",
            AudioTimePitchAlgorithm::TimeDomain => "time_domain",
            AudioTimePitchAlgorithm::Varispeed => "varispeed",
            AudioTimePitchAlgorithm::LowQualityZeroLatency => "low_quality_zero_latency",
            AudioTimePitchAlgorithm::Unknown(raw) => raw.as_str(),
        }
    }
}

/// Two canonical values with the same raw name are the same value: decoding a
/// raw name gives it back unchanged, and decoding what `as_raw` returns gives
/// back the value it started from.
pub proof fn lemma_time_pitch_algorithm_raw_round_trip(a: AudioTimePitchAlgorithm, b: AudioTimePitchAlgorithm)
    requires
        a.is_canonical(),
        b.is_canonical(),
        a.raw_name() == b.raw_name(),
    ensures
        (a is Spectral) == (b is Spectral),
        (a is TimeDomain) == (b is TimeDomain),
        (a is Varispeed) == (b is Varispeed),
        (a is LowQualityZeroLatency) == (b is LowQualityZeroLatency),
        (a is Unknown) == (b is Unknown),
{
    reveal_strlit("spectral");
    reveal_strlit("time_domain");
    reveal_strlit("varispeed");
    reveal_strlit("low_quality_zero_latency");
    assert("spectral"@.len() != "time_domain"@.len());
    assert("spectral"@.len() != "varispeed"@.len());
    assert("spectral"@.len() != "low_quality_zero_latency"@.len());
    assert("time_domain"@.len() != "varispeed"@.len());
    assert("time_domain"@.len() != "low_quality_zero_latency"@.len());
    assert("varispeed"@.len() != "low_quality_zero_latency"@.len());
}

/// Variant preferences of a player item (a bit set).
#[derive(Debug, Clone, Copy, PartialEq, Eq, Hash, Default, Structural)]
pub struct VariantPreferences(pub u64);

impl VariantPreferences {
    /// No preference (`NONE`).
    pub fn none() -> (r: Self)
        ensures
            r.0 == 0,
    {
        VariantPreferences(0)
    }

    /// Prefer variants that scale to lossless audio (bit 0).
    pub fn scalability_to_lossless_audio() -> (r: Self)
        ensures
            r.0 == 1,
    {
        VariantPreferences(1)
    }

    /// The raw bits.
    pub fn bits(self) -> (r: u64)
        ensures
            r == self.0,
    {
        self.0
    }

    /// The set with the bits of both `self` and `other`.
    pub open spec fn spec_union(self, other: Self) -> Self {
        VariantPreferences(self.0 | other.0)
    }

    /// Whether every bit of `other` is set in `self`.
    pub open spec fn spec_contains(self, other: Self) -> bool {
        (self.0 & other.0) == other.0
    }

    /// Whether every bit of `other` is set in `self`.
    pub fn contains(self, other: Self) -> (r: bool)
        ensures
            r == self.spec_contains(other),
    {
        (self.0 & other.0) == other.0
    }

    /// The preferences with the given raw bits.
    pub fn from_bits(bits: u64) -> (r: Self)
        ensures
            r.0 == bits,
    {
        VariantPreferences(bits)
    }
}

impl core::ops::BitOr for VariantPreferences {
    type Output = Self;

    fn bitor(self, rhs: Self) -> (r: Self) {
        VariantPreferences(self.0 | rhs.0)
    }
}

impl vstd::std_specs::ops::BitOrSpecImpl for VariantPreferences {
    open spec fn obeys_bitor_spec() -> bool {
        true
    }

    open spec fn bitor_req(self, rhs: Self) -> bool {
        true
    }

    open spec fn bitor_spec(self, rhs: Self) -> Self {
        self.spec_union(rhs)
    }
}

impl core::ops::BitOrAssign for VariantPreferences {
    fn bitor_assign(&mut self, rhs: Self)
        ensures
            final(self).0 == (old(self).0 | rhs.0),
    {
        self.0 = self.0 | rhs.0;
    }
}

/// A union contains both of its parts; every set contains the empty set and
/// itself; and a set contains another exactly when adding the other to it
/// changes nothing.
pub proof fn lemma_variant_preferences_union_contains(a: VariantPreferences, b: VariantPreferences)
    ensures
        a.spec_union(b).spec_contains(a),
        a.spec_union(b).spec_contains(b),
        a.spec_contains(VariantPreferences(0)),
        a.spec_contains(a),
        a.spec_contains(b) <==> a.spec_union(b) == a,
{
    let (x, y) = (a.0, b.0);
    assert(((x | y) & x) == x) by (bit_vector);
    assert(((x | y) & y) == y) by (bit_vector);
    assert((x & 0u64) == 0u64) by (bit_vector);
    assert((x & x) == x) by (bit_vector);
    assert(((x & y) == y) <==> ((x | y) == x)) by (bit_vector);
}


/// The variant preferences a player item reports; absent means the OS release
/// lacks the property.
pub fn variant_preferences_from_info(bits: Option<u64>) -> (r: Result<VariantPreferences, AVPlayerError>)
    ensures
        match bits {
            Some(b) => r is Ok && r.unwrap().0 == b,
            None => match r {
                Err(e) => e is OperationFailed && e.message_of()
                    == "AVPlayerItem.variantPreferences requires macOS 11.3+"@,
                Ok(_) => false,
            },
        },
{
    match bits {
        Some(b) => Ok(VariantPreferences::from_bits(b)),
        None => {
            let e = availability_error("AVPlayerItem.variantPreferences", "11.3");
            proof {
                reveal_strlit("AVPlayerItem.variantPreferences");
                reveal_strlit("11.3");
                reveal_strlit(" requires macOS ");
                reveal_strlit("+");
                reveal_strlit("AVPlayerItem.variantPreferences requires macOS 11.3+");
                assert(e.message_of() =~= "AVPlayerItem.variantPreferences requires macOS 11.3+"@);
            }
            Err(e)
        },
    }
}

/// Outcome of a content-authorization request.
#[derive(Debug, Clone, Copy, PartialEq, Eq, Hash, Structural)]
#[non_exhaustive]
pub enum ContentAuthorizationStatus {
    /// Unknown.
    Unknown,
    /// Completed.
    Completed,
    /// Cancelled.
    Cancelled,
    /// Timed out.
    TimedOut,
    /// Busy.
    Busy,
    /// Not available.
    NotAvailable,
    /// Not possible.
    NotPossible,
    /// A raw value this binding does not name.
    Other(i32),
}

impl ContentAuthorizationStatus {
    /// The value a raw bridge number stands for.
    pub open spec fn spec_from_raw(raw: i32) -> Self {
        if raw == 0 {
            ContentAuthorizationStatus::Unknown
        } else if raw == 1 {
            ContentAuthorizationStatus::Completed
        } else if raw == 2 {
            ContentAuthorizationStatus::Cancelled
        } else if raw == 3 {
            ContentAuthorizationStatus::TimedOut
        } else if raw == 4 {
            ContentAuthorizationStatus::Busy
        } else if raw == 5 {
            ContentAuthorizationStatus::NotAvailable
        } else if raw == 6 {
            ContentAuthorizationStatus::NotPossible
        } else {
            ContentAuthorizationStatus::Other(raw)
        }
    }

    /// Decodes a raw bridge number.
    pub fn from_raw(raw: i32) -> (r: Self)
        ensures
            r == Self::spec_from_raw(raw),
    {
        match raw {
            0 => ContentAuthorizationStatus::Unknown,
            1 => ContentAuthorizationStatus::Completed,
            2 => ContentAuthorizationStatus::Cancelled,
            3 => ContentAuthorizationStatus::TimedOut,
            4 => ContentAuthorizationStatus::Busy,
            5 => ContentAuthorizationStatus::NotAvailable,
            6 => ContentAuthorizationStatus::NotPossible,
            other => ContentAuthorizationStatus::Other(other),
        }
    }

    /// Canonical: an `Other` never holds a number that a named variant stands for.
    pub open spec fn is_canonical(self) -> bool {
        match self {
            ContentAuthorizationStatus::Other(raw) => !(raw == 0 || raw == 1 || raw == 2 || raw == 3 || raw == 4 || raw == 5 || raw == 6),
            _ => true,
        }
    }
}

/// Decoding follows `AVContentAuthorizationStatus` numbering: 0 is unknown, 1
/// is completed, 2 is cancelled, 3 is timed out, 4 is busy, 5 is not available,
/// 6 is not possible; every other number is kept as
/// it came, so no two numbers decode to the same value.
pub proof fn lemma_content_authorization_status_numbering(raw: i32, other: i32)
    ensures
        ContentAuthorizationStatus::spec_from_raw(0) == ContentAuthorizationStatus::Unknown,
        ContentAuthorizationStatus::spec_from_raw(1) == ContentAuthorizationStatus::Completed,
        ContentAuthorizationStatus::spec_from_raw(2) == ContentAuthorizationStatus::Cancelled,
        ContentAuthorizationStatus::spec_from_raw(3) == ContentAuthorizationStatus::TimedOut,
        ContentAuthorizationStatus::spec_from_raw(4) == ContentAuthorizationStatus::Busy,
        ContentAuthorizationStatus::spec_from_raw(5) == ContentAuthorizationStatus::NotAvailable,
        ContentAuthorizationStatus::spec_from_raw(6) == ContentAuthorizationStatus::NotPossible,
        (raw < 0 || raw > 6) ==> ContentAuthorizationStatus::spec_from_raw(raw) == ContentAuthorizationStatus::Other(raw),
        ContentAuthorizationStatus::spec_from_raw(raw) == ContentAuthorizationStatus::spec_from_raw(other) ==> raw == other,
{
}

/// Every decoded value is canonical, and a decoded value keeps the number it
/// was decoded from when that number is not a named one.
pub proof fn lemma_authorization_status_from_raw(raw: i32)
    ensures
        ContentAuthorizationStatus::spec_from_raw(raw).is_canonical(),
        !(raw == 0 || raw == 1 || raw == 2 || raw == 3 || raw == 4 || raw == 5 || raw == 6) ==> ContentAuthorizationStatus::spec_from_raw(raw) == ContentAuthorizationStatus::Other(raw),
{
}

/// Custom video compositor of a player item, as the bridge reports it.
#[derive(Debug, Clone, PartialEq, Eq)]
pub struct PlayerItemVideoCompositorPayload {
    /// Class name of the compositor.
    pub class_name: String,
    /// Whether it accepts wide-color source frames.
    pub supports_wide_color_source_frames: Option<bool>,
    /// Whether it accepts HDR source frames.
    pub supports_hdr_source_frames: Option<bool>,
    /// Whether it accepts tagged source buffers.
    pub supports_source_tagged_buffers: Option<bool>,
    /// Whether it can conform the color of source frames.
    pub can_conform_color_of_source_frames: Option<bool>,
}

/// Custom video compositor of a player item.
#[derive(Debug, Clone, PartialEq, Eq)]
pub struct PlayerItemVideoCompositorInfo {
    /// Class name of the compositor.
    pub class_name: String,
    /// Whether it accepts wide-color source frames.
    pub supports_wide_color_source_frames: Option<bool>,
    /// Whether it accepts HDR source frames.
    pub supports_hdr_source_frames: Option<bool>,
    /// Whether it accepts tagged source buffers.
    pub supports_source_tagged_buffers: Option<bool>,
    /// Whether it can conform the color of source frames.
    pub can_conform_color_of_source_frames: Option<bool>,
}

impl PlayerItemVideoCompositorInfo {
    /// Carries the payload's fields over.
    pub fn from_payload(payload: PlayerItemVideoCompositorPayload) -> (r: Self)
        ensures
            r == (PlayerItemVideoCompositorInfo {
                class_name: payload.class_name,
                supports_wide_color_source_frames: payload.supports_wide_color_source_frames,
                supports_hdr_source_frames: payload.supports_hdr_source_frames,
                supports_source_tagged_buffers: payload.supports_source_tagged_buffers,
                can_conform_color_of_source_frames: payload.can_conform_color_of_source_frames,
            }),
    {
        PlayerItemVideoCompositorInfo {
            class_name: payload.class_name,
            supports_wide_color_source_frames: payload.supports_wide_color_source_frames,
            supports_hdr_source_frames: payload.supports_hdr_source_frames,
            supports_source_tagged_buffers: payload.supports_source_tagged_buffers,
            can_conform_color_of_source_frames: payload.can_conform_color_of_source_frames,
        }
    }
}

} // verus!
