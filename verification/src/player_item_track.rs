//! Player-item track values: video field modes.

use vstd::prelude::*;

use crate::text::str_eq;

verus! {

/// Video field mode of a player-item track.
#[derive(Debug, Clone, PartialEq, Eq, Hash)]
#[non_exhaustive]
pub enum PlayerItemTrackVideoFieldMode {
    /// Deinterlace fields.
    DeinterlaceFields,
    /// A raw value this binding does not name.
    Unknown(String),
}

impl PlayerItemTrackVideoFieldMode {
    /// The bridge's raw name of the value.
    pub open spec fn raw_name(self) -> Seq<char> {
        match self {
            PlayerItemTrackVideoFieldMode::DeinterlaceFields => "AVPlayerItemTrackVideoFieldModeDeinterlaceFields"@,
            PlayerItemTrackVideoFieldMode::Unknown(raw) => raw@,
        }
    }

    /// Whether `raw` is a name that a named variant stands for.
    pub open spec fn is_known_name(raw: Seq<char>) -> bool {
        raw == "AVPlayerItemTrackVideoFieldModeDeinterlaceFields"@
    }

    /// Canonical: an `Unknown` never holds a name that a named variant stands for.
    pub open spec fn is_canonical(self) -> bool {
        match self {
            PlayerItemTrackVideoFieldMode::Unknown(raw) => !Self::is_known_name(raw@),
            _ => true,
        }
    }

    /// Decodes the bridge's raw name; a name it does not know is kept in `Unknown`.
    pub fn from_raw(raw: &str) -> (r: Self)
        ensures
            r.raw_name() == raw@,
            r.is_canonical(),
    {
        if str_eq(raw, "AVPlayerItemTrackVideoFieldModeDeinterlaceFields") {
            PlayerItemTrackVideoFieldMode::DeinterlaceFields
        } else {
            PlayerItemTrackVideoFieldMode::Unknown(raw.to_owned())
        }
    }

    /// The bridge's raw name.
    pub fn as_raw(&self) -> (r: &str)
        ensures
            r@ == self.raw_name(),
    {
        match self {
            PlayerItemTrackVideoFieldMode::DeinterlaceFields => "AVPlayerItemTrackVideoFieldModeDeinterlaceFields",
            PlayerItemTrackVideoFieldMode::Unknown(raw) => raw.as_str(),
        }
    }
}

/// Two canonical values with the same raw name are the same value: decoding a
/// raw name gives it back unchanged, and decoding what `as_raw` returns gives
/// back the value it started from.
pub proof fn lemma_video_field_mode_raw_round_trip(a: PlayerItemTrackVideoFieldMode, b: PlayerItemTrackVideoFieldMode)
    requires
        a.is_canonical(),
        b.is_canonical(),
        a.raw_name() == b.raw_name(),
    ensures
        (a is DeinterlaceFields) == (b is DeinterlaceFields),
        (a is Unknown) == (b is Unknown),
{
    reveal_strlit("AVPlayerItemTrackVideoFieldModeDeinterlaceFields");
}

/// The raw field-mode name to hand the bridge for an optional typed mode.
pub fn video_field_mode_raw(mode: Option<&PlayerItemTrackVideoFieldMode>) -> (r: Option<&str>)
    ensures
        match mode {
            Some(m) => r is Some && r.unwrap()@ == m.raw_name(),
            None => r is None,
        },
{
    match mode {
        Some(m) => Some(m.as_raw()),
        None => None,
    }
}

/// The typed field mode for an optional raw name.
pub fn typed_video_field_mode(raw: Option<&str>) -> (r: Option<PlayerItemTrackVideoFieldMode>)
    ensures
        match raw {
            Some(s) => r is Some && r.unwrap().raw_name() == s@ && r.unwrap().is_canonical(),
            None => r is None,
        },
{
    match raw {
        Some(s) => Some(PlayerItemTrackVideoFieldMode::from_raw(s)),
        None => None,
    }
}

} // verus!
