//! Image-generator settings: aperture modes and dynamic-range policies.

use vstd::prelude::*;

use crate::text::str_eq;

verus! {

/// Aperture mode of an image generator.
#[derive(Debug, Clone, PartialEq, Eq)]
#[non_exhaustive]
pub enum AssetImageGeneratorApertureMode {
    /// Clean aperture.
    CleanAperture,
    /// Production aperture.
    ProductionAperture,
    /// All encoded pixels.
    EncodedPixels,
    /// A raw value this binding does not name.
    Unknown(String),
}

impl AssetImageGeneratorApertureMode {
    /// The bridge's raw name of the value.
    pub open spec fn raw_name(self) -> Seq<char> {
        match self {
            AssetImageGeneratorApertureMode::CleanAperture => "clean_aperture"@,
            AssetImageGeneratorApertureMode::ProductionAperture => "production_aperture"@,
            AssetImageGeneratorApertureMode::EncodedPixels => "encoded_pixels"@,
            AssetImageGeneratorApertureMode::Unknown(raw) => raw@,
        }
    }

    /// Whether `raw` is a name that a named variant stands for.
    pub open spec fn is_known_name(raw: Seq<char>) -> bool {
        raw == "clean_aperture"@ || raw == "production_aperture"@ || raw == "encoded_pixels"@
    }

    /// Canonical: an `Unknown` never holds a name that a named variant stands for.
    pub open spec fn is_canonical(self) -> bool {
        match self {
            AssetImageGeneratorApertureMode::Unknown(raw) => !Self::is_known_name(raw@),
            _ => true,
        }
    }

    /// Decodes the bridge's raw name; a name it does not know is kept in `Unknown`.
    pub fn from_raw(raw: &str) -> (r: Self)
        ensures
            r.raw_name() == raw@,
            r.is_canonical(),
    {
        if str_eq(raw, "clean_aperture") {
            AssetImageGeneratorApertureMode::CleanAperture
        } else if str_eq(raw, "production_aperture") {
            AssetImageGeneratorApertureMode::ProductionAperture
        } else if str_eq(raw, "encoded_pixels") {
            AssetImageGeneratorApertureMode::EncodedPixels
        } else {
            AssetImageGeneratorApertureMode::Unknown(raw.to_owned())
        }
    }

    /// The bridge's raw name.
    pub fn as_raw(&self) -> (r: &str)
        ensures
            r@ == self.raw_name(),
    {
        match self {
            AssetImageGeneratorApertureMode::CleanAperture => "clean_aperture",
            AssetImageGeneratorApertureMode::ProductionAperture => "production_aperture",
            AssetImageGeneratorApertureMode::EncodedPixels => "encoded_pixels",
            AssetImageGeneratorApertureMode::Unknown(raw) => raw.as_str(),
        }
    }
}

/// Two canonical values with the same raw name are the same value: decoding a
/// raw name gives it back unchanged, and decoding what `as_raw` returns gives
/// back the value it started from.
pub proof fn lemma_aperture_mode_raw_round_trip(a: AssetImageGeneratorApertureMode, b: AssetImageGeneratorApertureMode)
    requires
        a.is_canonical(),
        b.is_canonical(),
        a.raw_name() == b.raw_name(),
    ensures
        (a is CleanAperture) == (b is CleanAperture),
        (a is ProductionAperture) == (b is ProductionAperture),
        (a is EncodedPixels) == (b is EncodedPixels),
        (a is Unknown) == (b is Unknown),
{
    reveal_strlit("clean_aperture");
    reveal_strlit("production_aperture");
    reveal_strlit("encoded_pixels");
    assert("clean_aperture"@.len() != "production_aperture"@.len());
    assert("clean_aperture"@[0] != "encoded_pixels"@[0]);
    assert("production_aperture"@.len() != "encoded_pixels"@.len());
}

/// Dynamic-range policy of an image generator.
#[derive(Debug, Clone, PartialEq, Eq)]
#[non_exhaustive]
pub enum AssetImageGeneratorDynamicRangePolicy {
    /// Always produce SDR images.
    ForceSdr,
    /// Match the source dynamic range.
    MatchSource,
    /// A raw value this binding does not name.
    Unknown(String),
}

impl AssetImageGeneratorDynamicRangePolicy {
    /// The bridge's raw name of the value.
    pub open spec fn raw_name(self) -> Seq<char> {
        match self {
            AssetImageGeneratorDynamicRangePolicy::ForceSdr => "force_sdr"@,
            AssetImageGeneratorDynamicRangePolicy::MatchSource => "match_source"@,
            AssetImageGeneratorDynamicRangePolicy::Unknown(raw) => raw@,
        }
    }

    /// Whether `raw` is a name that a named variant stands for.
    pub open spec fn is_known_name(raw: Seq<char>) -> bool {
        raw == "force_sdr"@ || raw == "match_source"@
    }

    /// Canonical: an `Unknown` never holds a name that a named variant stands for.
    pub open spec fn is_canonical(self) -> bool {
        match self {
            AssetImageGeneratorDynamicRangePolicy::Unknown(raw) => !Self::is_known_name(raw@),
            _ => true,
        }
    }

    /// Decodes the bridge's raw name; a name it does not know is kept in `Unknown`.
    pub fn from_raw(raw: &str) -> (r: Self)
        ensures
            r.raw_name() == raw@,
            r.is_canonical(),
    {
        if str_eq(raw, "force_sdr") {
            AssetImageGeneratorDynamicRangePolicy::ForceSdr
        } else if str_eq(raw, "match_source") {
            AssetImageGeneratorDynamicRangePolicy::MatchSource
        } else {
            AssetImageGeneratorDynamicRangePolicy::Unknown(raw.to_owned())
        }
    }

    /// The bridge's raw name.
    pub fn as_raw(&self) -> (r: &str)
        ensures
            r@ == self.raw_name(),
    {
        match self {
            AssetImageGeneratorDynamicRangePolicy::ForceSdr => "force_sdr",
            AssetImageGeneratorDynamicRangePolicy::MatchSource => "match_source",
            AssetImageGeneratorDynamicRangePolicy::Unknown(raw) => raw.as_str(),
        }
    }
}

/// Two canonical values with the same raw name are the same value: decoding a
/// raw name gives it back unchanged, and decoding what `as_raw` returns gives
/// back the value it started from.
pub proof fn lemma_dynamic_range_policy_raw_round_trip(a: AssetImageGeneratorDynamicRangePolicy, b: AssetImageGeneratorDynamicRangePolicy)
    requires
        a.is_canonical(),
        b.is_canonical(),
        a.raw_name() == b.raw_name(),
    ensures
        (a is ForceSdr) == (b is ForceSdr),
        (a is MatchSource) == (b is MatchSource),
        (a is Unknown) == (b is Unknown),
{
    reveal_strlit("force_sdr");
    reveal_strlit("match_source");
    assert("force_sdr"@.len() != "match_source"@.len());
}

} // verus!
