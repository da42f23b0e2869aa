//! Playback configuration options an asset may need.

use vstd::prelude::*;

use crate::text::str_eq;

verus! {

/// Playback configuration an asset may need.
#[derive(Debug, Clone, PartialEq, Eq)]
#[non_exhaustive]
pub enum AssetPlaybackConfigurationOption {
    /// Stereo video.
    StereoVideo,
    /// Stereo multiview video.
    StereoMultiviewVideo,
    /// Spatial video.
    SpatialVideo,
    /// Non-rectilinear projection.
    NonRectilinearProjection,
    /// Apple Immersive Video.
    AppleImmersiveVideo,
    /// A raw value this binding does not name.
    Unknown(String),
}

impl AssetPlaybackConfigurationOption {
    /// The bridge's raw name of the value.
    pub open spec fn raw_name(self) -> Seq<char> {
        match self {
            AssetPlaybackConfigurationOption::StereoVideo => "stereo_video"@,
            AssetPlaybackConfigurationOption::StereoMultiviewVideo => "stereo_multiview_video"@,
            AssetPlaybackConfigurationOption::SpatialVideo => "spatial_video"@,
            AssetPlaybackConfigurationOption::NonRectilinearProjection => "non_rectilinear_projection"@,
            AssetPlaybackConfigurationOption::AppleImmersiveVideo => "apple_immersive_video"@,
            AssetPlaybackConfigurationOption::Unknown(raw) => raw@,
        }
    }

    /// Whether `raw` is a name that a named variant stands for.
    pub open spec fn is_known_name(raw: Seq<char>) -> bool {
        raw == "stereo_video"@ || raw == "stereo_multiview_video"@ || raw == "spatial_video"@ || raw == "non_rectilinear_projection"@ || raw == "apple_immersive_video"@
    }

    /// Canonical: an `Unknown` never holds a name that a named variant stands for.
    pub open spec fn is_canonical(self) -> bool {
        match self {
            AssetPlaybackConfigurationOption::Unknown(raw) => !Self::is_known_name(raw@),
            _ => true,
        }
    }

    /// Decodes the bridge's raw name; a name it does not know is kept in `Unknown`.
    pub fn from_raw(raw: &str) -> (r: Self)
        ensures
            r.raw_name() == raw@,
            r.is_canonical(),
    {
        if str_eq(raw, "stereo_video") {
            AssetPlaybackConfigurationOption::StereoVideo
        } else if str_eq(raw, "stereo_multiview_video") {
            AssetPlaybackConfigurationOption::StereoMultiviewVideo
        } else if str_eq(raw, "spatial_video") {
            AssetPlaybackConfigurationOption::SpatialVideo
        } else if str_eq(raw, "non_rectilinear_projection") {
            AssetPlaybackConfigurationOption::NonRectilinearProjection
        } else if str_eq(raw, "apple_immersive_video") {
            AssetPlaybackConfigurationOption::AppleImmersiveVideo
        } else {
            AssetPlaybackConfigurationOption::Unknown(raw.to_owned())
        }
    }
}

/// Two canonical values with the same raw name are the same value: a decoded
/// value is determined by the raw name it was decoded from.
pub proof fn lemma_playback_option_determined_by_raw(a: AssetPlaybackConfigurationOption, b: AssetPlaybackConfigurationOption)
    requires
        a.is_canonical(),
        b.is_canonical(),
        a.raw_name() == b.raw_name(),
    ensures
        (a is StereoVideo) == (b is StereoVideo),
        (a is StereoMultiviewVideo) == (b is StereoMultiviewVideo),
        (a is SpatialVideo) == (b is SpatialVideo),
        (a is NonRectilinearProjection) == (b is NonRectilinearProjection),
        (a is AppleImmersiveVideo) == (b is AppleImmersiveVideo),
        (a is Unknown) == (b is Unknown),
{
    reveal_strlit("stereo_video");
    reveal_strlit("stereo_multiview_video");
    reveal_strlit("spatial_video");
    reveal_strlit("non_rectilinear_projection");
    reveal_strlit("apple_immersive_video");
    assert("stereo_video"@.len() != "stereo_multiview_video"@.len());
    assert("stereo_video"@.len() != "spatial_video"@.len());
    assert("stereo_video"@.len() != "non_rectilinear_projection"@.len());
    assert("stereo_video"@.len() != "apple_immersive_video"@.len());
    assert("stereo_multiview_video"@.len() != "spatial_video"@.len());
    assert("stereo_multiview_video"@.len() != "non_rectilinear_projection"@.len());
    assert("stereo_multiview_video"@.len() != "apple_immersive_video"@.len());
    assert("spatial_video"@.len() != "non_rectilinear_projection"@.len());
    assert("spatial_video"@.len() != "apple_immersive_video"@.len());
    assert("non_rectilinear_projection"@.len() != "apple_immersive_video"@.len());
}

/// Decodes the raw option names a playback assistant lists, in order.
pub fn playback_configuration_options_from_raw(raws: &Vec<String>) -> (r: Vec<AssetPlaybackConfigurationOption>)
    ensures
        r.len() == raws.len(),
        forall|i: int| 0 <= i < r.len() ==> (#[trigger] r[i]).raw_name() == raws[i]@ && r[i].is_canonical(),
{
    let mut out: Vec<AssetPlaybackConfigurationOption> = Vec::new();
    let mut i: usize = 0;
    while i < raws.len()
        invariant
            i <= raws.len(),
            out.len() == i,
            forall|j: int| 0 <= j < i ==> (#[trigger] out[j]).raw_name() == raws[j]@ && out[j].is_canonical(),
        decreases raws.len() - i,
    {
        out.push(AssetPlaybackConfigurationOption::from_raw(raws[i].as_str()));
        i = i + 1;
    }
    out
}

} // verus!
