//! Player state values used for media selection and playback control: media
//! characteristics, time-control and waiting states, end-of-item actions,
//! background and network policies, and the player state the bridge reports.

use vstd::prelude::*;

use crate::error::{availability_error, AVPlayerError};
use crate::text::str_eq;

verus! {

/// Media characteristic used for media selection.
#[derive(Debug, Clone, PartialEq, Eq, Hash)]
#[non_exhaustive]
pub enum MediaCharacteristic {
    /// Audible.
    Audible,
    /// Legible.
    Legible,
    /// Visual.
    Visual,
    /// Only forced subtitles.
    ContainsOnlyForcedSubtitles,
    /// Transcribes spoken dialog.
    TranscribesSpokenDialogForAccessibility,
    /// Describes music and sound.
    DescribesMusicAndSoundForAccessibility,
    /// Describes video.
    DescribesVideoForAccessibility,
    /// Easy to read.
    EasyToRead,
    /// Language translation.
    LanguageTranslation,
    /// Dubbed translation.
    DubbedTranslation,
    /// Voice-over translation.
    VoiceOverTranslation,
    /// Original content.
    IsOriginalContent,
    /// A raw value this binding does not name.
    Unknown(String),
}

impl MediaCharacteristic {
    /// The bridge's raw name of the value.
    pub open spec fn raw_name(self) -> Seq<char> {
        match self {
            MediaCharacteristic::Audible => "audible"@,
            MediaCharacteristic::Legible => "legible"@,
            MediaCharacteristic::Visual => "visual"@,
            MediaCharacteristic::ContainsOnlyForcedSubtitles => "contains_only_forced_subtitles"@,
            MediaCharacteristic::TranscribesSpokenDialogForAccessibility => "transcribes_spoken_dialog_for_accessibility"@,
            MediaCharacteristic::DescribesMusicAndSoundForAccessibility => "describes_music_and_sound_for_accessibility"@,
            MediaCharacteristic::DescribesVideoForAccessibility => "describes_video_for_accessibility"@,
            MediaCharacteristic::EasyToRead => "easy_to_read"@,
            MediaCharacteristic::LanguageTranslation => "language_translation"@,
            MediaCharacteristic::DubbedTranslation => "dubbed_translation"@,
            MediaCharacteristic::VoiceOverTranslation => "voice_over_translation"@,
            MediaCharacteristic::IsOriginalContent => "is_original_content"@,
            MediaCharacteristic::Unknown(raw) => raw@,
        }
    }

    /// Whether `raw` is a name that a named variant stands for.
    pub open spec fn is_known_name(raw: Seq<char>) -> bool {
        raw == "audible"@ || raw == "legible"@ || raw == "visual"@ || raw == "contains_only_forced_subtitles"@ || raw == "transcribes_spoken_dialog_for_accessibility"@ || raw == "describes_music_and_sound_for_accessibility"@ || raw == "describes_video_for_accessibility"@ || raw == "easy_to_read"@ || raw == "language_translation"@ || raw == "dubbed_translation"@ || raw == "voice_over_translation"@ || raw == "is_original_content"@
    }

    /// Canonical: an `Unknown` never holds a name that a named variant stands for.
    pub open spec fn is_canonical(self) -> bool {
        match self {
            MediaCharacteristic::Unknown(raw) => !Self::is_known_name(raw@),
            _ => true,
        }
    }

    /// Decodes the bridge's raw name; a name it does not know is kept in `Unknown`.
    pub fn from_raw(raw: &str) -> (r: Self)
        ensures
            r.raw_name() == raw@,
            r.is_canonical(),
    {
        if str_eq(raw, "audible") {
            MediaCharacteristic::Audible
        } else if str_eq(raw, "legible") {
            MediaCharacteristic::Legible
        } else if str_eq(raw, "visual") {
            MediaCharacteristic::Visual
        } else if str_eq(raw, "contains_only_forced_subtitles") {
            MediaCharacteristic::ContainsOnlyForcedSubtitles
        } else if str_eq(raw, "transcribes_spoken_dialog_for_accessibility") {
            MediaCharacteristic::TranscribesSpokenDialogForAccessibility
        } else if str_eq(raw, "describes_music_and_sound_for_accessibility") {
            MediaCharacteristic::DescribesMusicAndSoundForAccessibility
        } else if str_eq(raw, "describes_video_for_accessibility") {
            MediaCharacteristic::DescribesVideoForAccessibility
        } else if str_eq(raw, "easy_to_read") {
            MediaCharacteristic::EasyToRead
        } else if str_eq(raw, "language_translation") {
            MediaCharacteristic::LanguageTranslation
        } else if str_eq(raw, "dubbed_translation") {
            MediaCharacteristic::DubbedTranslation
        } else if str_eq(raw, "voice_over_translation") {
            MediaCharacteristic::VoiceOverTranslation
        } else if str_eq(raw, "is_original_content") {
            MediaCharacteristic::IsOriginalContent
        } else {
            MediaCharacteristic::Unknown(raw.to_owned())
        }
    }

    /// The bridge's raw name.
    pub fn as_raw(&self) -> (r: &str)
        ensures
            r@ == self.raw_name(),
    {
        match self {
            MediaCharacteristic::Audible => "audible",
            MediaCharacteristic::Legible => "legible",
            MediaCharacteristic::Visual => "visual",
            MediaCharacteristic::ContainsOnlyForcedSubtitles => "contains_only_forced_subtitles",
            MediaCharacteristic::TranscribesSpokenDialogForAccessibility => "transcribes_spoken_dialog_for_accessibility",
            MediaCharacteristic::DescribesMusicAndSoundForAccessibility => "describes_music_and_sound_for_accessibility",
            MediaCharacteristic::DescribesVideoForAccessibility => "describes_video_for_accessibility",
            MediaCharacteristic::EasyToRead => "easy_to_read",
            MediaCharacteristic::LanguageTranslation => "language_translation",
            MediaCharacteristic::DubbedTranslation => "dubbed_translation",
            MediaCharacteristic::VoiceOverTranslation => "voice_over_translation",
            MediaCharacteristic::IsOriginalContent => "is_original_content",
            MediaCharacteristic::Unknown(raw) => raw.as_str(),
        }
    }
}

/// Two canonical values with the same raw name are the same value: decoding a
/// raw name gives it back unchanged, and decoding what `as_raw` returns gives
/// back the value it started from.
pub proof fn lemma_media_characteristic_raw_round_trip(a: MediaCharacteristic, b: MediaCharacteristic)
    requires
        a.is_canonical(),
        b.is_canonical(),
        a.raw_name() == b.raw_name(),
    ensures
        (a is Audible) == (b is Audible),
        (a is Legible) == (b is Legible),
        (a is Visual) == (b is Visual),
        (a is ContainsOnlyForcedSubtitles) == (b is ContainsOnlyForcedSubtitles),
        (a is TranscribesSpokenDialogForAccessibility) == (b is TranscribesSpokenDialogForAccessibility),
        (a is DescribesMusicAndSoundForAccessibility) == (b is DescribesMusicAndSoundForAccessibility),
        (a is DescribesVideoForAccessibility) == (b is DescribesVideoForAccessibility),
        (a is EasyToRead) == (b is EasyToRead),
        (a is LanguageTranslation) == (b is LanguageTranslation),
        (a is DubbedTranslation) == (b is DubbedTranslation),
        (a is VoiceOverTranslation) == (b is VoiceOverTranslation),
        (a is IsOriginalContent) == (b is IsOriginalContent),
        (a is Unknown) == (b is Unknown),
{
    reveal_strlit("audible");
    reveal_strlit("legible");
    reveal_strlit("visual");
    reveal_strlit("contains_only_forced_subtitles");
    reveal_strlit("transcribes_spoken_dialog_for_accessibility");
    reveal_strlit("describes_music_and_sound_for_accessibility");
    reveal_strlit("describes_video_for_accessibility");
    reveal_strlit("easy_to_read");
    reveal_strlit("language_translation");
    reveal_strlit("dubbed_translation");
    reveal_strlit("voice_over_translation");
    reveal_strlit("is_original_content");
    assert("audible"@[0] != "legible"@[0]);
    assert("audible"@.len() != "visual"@.len());
    assert("audible"@.len() != "contains_only_forced_subtitles"@.len());
    assert("audible"@.len() != "transcribes_spoken_dialog_for_accessibility"@.len());
    assert("audible"@.len() != "describes_music_and_sound_for_accessibility"@.len());
    assert("audible"@.len() != "describes_video_for_accessibility"@.len());
    assert("audible"@.len() != "easy_to_read"@.len());
    assert("audible"@.len() != "language_translation"@.len());
    assert("audible"@.len() != "dubbed_translation"@.len());
    assert("audible"@.len() != "voice_over_translation"@.len());
    assert("audible"@.len() != "is_original_content"@.len());
    assert("legible"@.len() != "visual"@.len());
    assert("legible"@.len() != "contains_only_forced_subtitles"@.len());
    assert("legible"@.len() != "transcribes_spoken_dialog_for_accessibility"@.len());
    assert("legible"@.len() != "describes_music_and_sound_for_accessibility"@.len());
    assert("legible"@.len() != "describes_video_for_accessibility"@.len());
    assert("legible"@.len() != "easy_to_read"@.len());
    assert("legible"@.len() != "language_translation"@.len());
    assert("legible"@.len() != "dubbed_translation"@.len());
    assert("legible"@.len() != "voice_over_translation"@.len());
    assert("legible"@.len() != "is_original_content"@.len());
    assert("visual"@.len() != "contains_only_forced_subtitles"@.len());
    assert("visual"@.len() != "transcribes_spoken_dialog_for_accessibility"@.len());
    assert("visual"@.len() != "describes_music_and_sound_for_accessibility"@.len());
    assert("visual"@.len() != "describes_video_for_accessibility"@.len());
    assert("visual"@.len() != "easy_to_read"@.len());
    assert("visual"@.len() != "language_translation"@.len());
    assert("visual"@.len() != "dubbed_translation"@.len());
    assert("visual"@.len() != "voice_over_translation"@.len());
    assert("visual"@.len() != "is_original_content"@.len());
    assert("contains_only_forced_subtitles"@.len() != "transcribes_spoken_dialog_for_accessibility"@.len());
    assert("contains_only_forced_subtitles"@.len() != "describes_music_and_sound_for_accessibility"@.len());
    assert("contains_only_forced_subtitles"@.len() != "describes_video_for_accessibility"@.len());
    assert("contains_only_forced_subtitles"@.len() != "easy_to_read"@.len());
    assert("contains_only_forced_subtitles"@.len() != "language_translation"@.len());
    assert("contains_only_forced_subtitles"@.len() != "dubbed_translation"@.len());
    assert("contains_only_forced_subtitles"@.len() != "voice_over_translation"@.len());
    assert("contains_only_forced_subtitles"@.len() != "is_original_content"@.len());
    assert("transcribes_spoken_dialog_for_accessibility"@[0] != "describes_music_and_sound_for_accessibility"@[0]);
    assert("transcribes_spoken_dialog_for_accessibility"@.len() != "describes_video_for_accessibility"@.len());
    assert("transcribes_spoken_dialog_for_accessibility"@.len() != "easy_to_read"@.len());
    assert("transcribes_spoken_dialog_for_accessibility"@.len() != "language_translation"@.len());
    assert("transcribes_spoken_dialog_for_accessibility"@.len() != "dubbed_translation"@.len());
    assert("transcribes_spoken_dialog_for_accessibility"@.len() != "voice_over_translation"@.len());
    assert("transcribes_spoken_dialog_for_accessibility"@.len() != "is_original_content"@.len());
    assert("describes_music_and_sound_for_accessibility"@.len() != "describes_video_for_accessibility"@.len());
    assert("describes_music_and_sound_for_accessibility"@.len() != "easy_to_read"@.len());
    assert("describes_music_and_sound_for_accessibility"@.len() != "language_translation"@.len());
    assert("describes_music_and_sound_for_accessibility"@.len() != "dubbed_translation"@.len());
    assert("describes_music_and_sound_for_accessibility"@.len() != "voice_over_translation"@.len());
    assert("describes_music_and_sound_for_accessibility"@.len() != "is_original_content"@.len());
    assert("describes_video_for_accessibility"@.len() != "easy_to_read"@.len());
    assert("describes_video_for_accessibility"@.len() != "language_translation"@.len());
    assert("describes_video_for_accessibility"@.len() != "dubbed_translation"@.len());
    assert("describes_video_for_accessibility"@.len() != "voice_over_translation"@.len());
    assert("describes_video_for_accessibility"@.len() != "is_original_content"@.len());
    assert("easy_to_read"@.len() != "language_translation"@.len());
    assert("easy_to_read"@.len() != "dubbed_translation"@.len());
    assert("easy_to_read"@.len() != "voice_over_translation"@.len());
    assert("easy_to_read"@.len() != "is_original_content"@.len());
    assert("language_translation"@.len() != "dubbed_translation"@.len());
    assert("language_translation"@.len() != "voice_over_translation"@.len());
    assert("language_translation"@.len() != "is_original_content"@.len());
    assert("dubbed_translation"@.len() != "voice_over_translation"@.len());
    assert("dubbed_translation"@.len() != "is_original_content"@.len());
    assert("voice_over_translation"@.len() != "is_original_content"@.len());
}

/// The raw names of a list of characteristics, in order.
pub open spec fn characteristic_names_spec(cs: Seq<MediaCharacteristic>) -> Seq<Seq<char>> {
    cs.map_values(|c: MediaCharacteristic| c.raw_name())
}

/// Decodes a list of raw characteristic names, in order; an absent list reads
/// as empty.
pub fn media_characteristics_from_raw_list(raws: Option<Vec<String>>) -> (r: Vec<MediaCharacteristic>)
    ensures
        match raws {
            Some(l) => r.len() == l.len() && forall|i: int| 0 <= i < r.len() ==> (#[trigger] r[i]).raw_name()
                == l[i]@ && r[i].is_canonical(),
            None => r.len() == 0,
        },
{
    let mut out: Vec<MediaCharacteristic> = Vec::new();
    match raws {
        Some(l) => {
            let mut i: usize = 0;
            while i < l.len()
                invariant
                    i <= l.len(),
                    out.len() == i,
                    forall|j: int| 0 <= j < i ==> (#[trigger] out[j]).raw_name() == l[j]@ && out[j].is_canonical(),
                decreases l.len() - i,
            {
                out.push(MediaCharacteristic::from_raw(l[i].as_str()));
                i = i + 1;
            }
        },
        None => {},
    }
    out
}

/// The raw names of a list of characteristics, in order.
pub fn media_characteristic_names(characteristics: &[MediaCharacteristic]) -> (r: Vec<String>)
    ensures
        r.len() == characteristics.len(),
        forall|i: int| 0 <= i < r.len() ==> (#[trigger] r[i])@ == characteristics[i].raw_name(),
{
    let mut out: Vec<String> = Vec::new();
    let mut i: usize = 0;
    while i < characteristics.len()
        invariant
            i <= characteristics.len(),
            out.len() == i,
            forall|j: int| 0 <= j < i ==> (#[trigger] out[j])@ == characteristics[j].raw_name(),
        decreases characteristics.len() - i,
    {
        out.push(characteristics[i].as_raw().to_owned());
        i = i + 1;
    }
    out
}

/// Decoding a list of names and taking the names of the result gives the list
/// back, element by element.
pub proof fn lemma_characteristic_list_round_trip(
    raws: Seq<Seq<char>>,
    decoded: Seq<MediaCharacteristic>,
    names: Seq<Seq<char>>,
)
    requires
        decoded.len() == raws.len(),
        forall|i: int| 0 <= i < decoded.len() ==> (#[trigger] decoded[i]).raw_name() == raws[i],
        names.len() == decoded.len(),
        forall|i: int| 0 <= i < names.len() ==> #[trigger] names[i] == decoded[i].raw_name(),
    ensures
        names == raws,
{
    assert(names =~= raws);
}

/// What a player does when an item ends.
#[derive(Debug, Clone, Copy, PartialEq, Eq, Hash, Structural)]
#[non_exhaustive]
pub enum PlayerActionAtItemEnd {
    /// Advance to the next item.
    Advance,
    /// Pause.
    Pause,
    /// Do nothing (`None` in the framework).
    NoAction,
}

impl PlayerActionAtItemEnd {
    /// The value a raw bridge number stands for.
    pub open spec fn spec_from_raw(raw: i32) -> Self {
        if raw == 0 {
            PlayerActionAtItemEnd::Advance
        } else if raw == 2 {
            PlayerActionAtItemEnd::NoAction
        } else {
            PlayerActionAtItemEnd::Pause
        }
    }

    /// Decodes a raw bridge number.
    pub fn from_raw(raw: i32) -> (r: Self)
        ensures
            r == Self::spec_from_raw(raw),
    {
        match raw {
            0 => PlayerActionAtItemEnd::Advance,
            2 => PlayerActionAtItemEnd::NoAction,
            _ => PlayerActionAtItemEnd::Pause,
        }
    }

    /// The raw bridge number of the value.
    pub open spec fn raw_value(self) -> i32 {
        match self {
            PlayerActionAtItemEnd::Advance => 0,
            PlayerActionAtItemEnd::Pause => 1,
            PlayerActionAtItemEnd::NoAction => 2,
        }
    }

    /// The raw bridge number of the value.
    pub fn as_raw(self) -> (r: i32)
        ensures
            r == self.raw_value(),
    {
        match self {
            PlayerActionAtItemEnd::Advance => 0,
            PlayerActionAtItemEnd::Pause => 1,
            PlayerActionAtItemEnd::NoAction => 2,
        }
    }
}

/// Decoding follows `AVPlayer.ActionAtItemEnd` numbering: 0 is advance and 2
/// no action; every other number, 1 among them, is pause.
pub proof fn lemma_action_at_item_end_numbering(raw: i32)
    ensures
        PlayerActionAtItemEnd::spec_from_raw(0) == PlayerActionAtItemEnd::Advance,
        PlayerActionAtItemEnd::spec_from_raw(1) == PlayerActionAtItemEnd::Pause,
        PlayerActionAtItemEnd::spec_from_raw(2) == PlayerActionAtItemEnd::NoAction,
        (raw != 0 && raw != 2) <==> PlayerActionAtItemEnd::spec_from_raw(raw) == PlayerActionAtItemEnd::Pause,
{
}

/// Encoding a value and decoding the number gives the value back.
pub proof fn lemma_action_at_item_end_raw_round_trip(x: PlayerActionAtItemEnd)
    ensures
        PlayerActionAtItemEnd::spec_from_raw(x.raw_value()) == x,
{
}

/// Time-control status of a player.
#[derive(Debug, Clone, Copy, PartialEq, Eq, Hash, Structural)]
#[non_exhaustive]
pub enum PlayerTimeControlStatus {
    /// Paused.
    Paused,
    /// Waiting to play at the specified rate.
    WaitingToPlayAtSpecifiedRate,
    /// Playing.
    Playing,
    /// A raw value this binding does not name.
    Unknown(i32),
}

impl PlayerTimeControlStatus {
    /// The value a raw bridge number stands for.
    pub open spec fn spec_from_raw(raw: i32) -> Self {
        if raw == 0 {
            PlayerTimeControlStatus::Paused
        } else if raw == 1 {
            PlayerTimeControlStatus::WaitingToPlayAtSpecifiedRate
        } else if raw == 2 {
            PlayerTimeControlStatus::Playing
        } else {
            PlayerTimeControlStatus::Unknown(raw)
        }
    }

    /// Decodes a raw bridge number.
    pub fn from_raw(raw: i32) -> (r: Self)
        ensures
            r == Self::spec_from_raw(raw),
    {
        match raw {
            0 => PlayerTimeControlStatus::Paused,
            1 => PlayerTimeControlStatus::WaitingToPlayAtSpecifiedRate,
            2 => PlayerTimeControlStatus::Playing,
            other => PlayerTimeControlStatus::Unknown(other),
        }
    }

    /// Canonical: an `Unknown` never holds a number that a named variant stands for.
    pub open spec fn is_canonical(self) -> bool {
        match self {
            PlayerTimeControlStatus::Unknown(raw) => !(raw == 0 || raw == 1 || raw == 2),
            _ => true,
        }
    }
}

/// The time-control status follows `AVPlayerTimeControlStatus` numbering:
/// 0 is paused, 1 waiting to play at the specified rate and 2 playing; every
/// other number is kept as an unknown value, so decoding loses no number.
pub proof fn lemma_time_control_status_numbering(raw: i32, other: i32)
    ensures
        PlayerTimeControlStatus::spec_from_raw(0) == PlayerTimeControlStatus::Paused,
        PlayerTimeControlStatus::spec_from_raw(1) == PlayerTimeControlStatus::WaitingToPlayAtSpecifiedRate,
        PlayerTimeControlStatus::spec_from_raw(2) == PlayerTimeControlStatus::Playing,
        (raw < 0 || raw > 2) ==> PlayerTimeControlStatus::spec_from_raw(raw) == PlayerTimeControlStatus::Unknown(raw),
        PlayerTimeControlStatus::spec_from_raw(raw) == PlayerTimeControlStatus::spec_from_raw(other) ==> raw == other,
{
}

/// Every decoded value is canonical, and a decoded value keeps the number it
/// was decoded from when that number is not a named one.
pub proof fn lemma_time_control_status_from_raw(raw: i32)
    ensures
        PlayerTimeControlStatus::spec_from_raw(raw).is_canonical(),
        !(raw == 0 || raw == 1 || raw == 2) ==> PlayerTimeControlStatus::spec_from_raw(raw) == PlayerTimeControlStatus::Unknown(raw),
{
}

/// Why a player waits to play.
#[derive(Debug, Clone, PartialEq, Eq, Hash)]
#[non_exhaustive]
pub enum PlayerWaitingReason {
    /// To minimize stalls.
    ToMinimizeStalls,
    /// While evaluating the buffering rate.
    WhileEvaluatingBufferingRate,
    /// With no item to play.
    WithNoItemToPlay,
    /// For coordinated playback.
    ForCoordinatedPlayback,
    /// A raw value this binding does not name.
    Unknown(String),
}

impl PlayerWaitingReason {
    /// The bridge's raw name of the value.
    pub open spec fn raw_name(self) -> Seq<char> {
        match self {
            PlayerWaitingReason::ToMinimizeStalls => "AVPlayerWaitingToMinimizeStallsReason"@,
            PlayerWaitingReason::WhileEvaluatingBufferingRate => "AVPlayerWaitingWhileEvaluatingBufferingRateReason"@,
            PlayerWaitingReason::WithNoItemToPlay => "AVPlayerWaitingWithNoItemToPlayReason"@,
            PlayerWaitingReason::ForCoordinatedPlayback => "AVPlayerWaitingForCoordinatedPlaybackReason"@,
            PlayerWaitingReason::Unknown(raw) => raw@,
        }
    }

    /// Whether `raw` is a name that a named variant stands for.
    pub open spec fn is_known_name(raw: Seq<char>) -> bool {
        raw == "AVPlayerWaitingToMinimizeStallsReason"@ || raw == "AVPlayerWaitingWhileEvaluatingBufferingRateReason"@ || raw == "AVPlayerWaitingWithNoItemToPlayReason"@ || raw == "AVPlayerWaitingForCoordinatedPlaybackReason"@
    }

    /// Canonical: an `Unknown` never holds a name that a named variant stands for.
    pub open spec fn is_canonical(self) -> bool {
        match self {
            PlayerWaitingReason::Unknown(raw) => !Self::is_known_name(raw@),
            _ => true,
        }
    }

    /// Decodes the bridge's raw name; a name it does not know is kept in `Unknown`.
    pub fn from_raw(raw: &str) -> (r: Self)
        ensures
            r.raw_name() == raw@,
            r.is_canonical(),
    {
        if str_eq(raw, "AVPlayerWaitingToMinimizeStallsReason") {
            PlayerWaitingReason::ToMinimizeStalls
        } else if str_eq(raw, "AVPlayerWaitingWhileEvaluatingBufferingRateReason") {
            PlayerWaitingReason::WhileEvaluatingBufferingRate
        } else if str_eq(raw, "AVPlayerWaitingWithNoItemToPlayReason") {
            PlayerWaitingReason::WithNoItemToPlay
        } else if str_eq(raw, "AVPlayerWaitingForCoordinatedPlaybackReason") {
            PlayerWaitingReason::ForCoordinatedPlayback
        } else {
            PlayerWaitingReason::Unknown(raw.to_owned())
        }
    }
}

/// Two canonical values with the same raw name are the same value: a decoded
/// value is determined by the raw name it was decoded from.
pub proof fn lemma_waiting_reason_determined_by_raw(a: PlayerWaitingReason, b: PlayerWaitingReason)
    requires
        a.is_canonical(),
        b.is_canonical(),
        a.raw_name() == b.raw_name(),
    ensures
        (a is ToMinimizeStalls) == (b is ToMinimizeStalls),
        (a is WhileEvaluatingBufferingRate) == (b is WhileEvaluatingBufferingRate),
        (a is WithNoItemToPlay) == (b is WithNoItemToPlay),
        (a is ForCoordinatedPlayback) == (b is ForCoordinatedPlayback),
        (a is Unknown) == (b is Unknown),
{
    reveal_strlit("AVPlayerWaitingToMinimizeStallsReason");
    reveal_strlit("AVPlayerWaitingWhileEvaluatingBufferingRateReason");
    reveal_strlit("AVPlayerWaitingWithNoItemToPlayReason");
    reveal_strlit("AVPlayerWaitingForCoordinatedPlaybackReason");
    assert("AVPlayerWaitingToMinimizeStallsReason"@.len() != "AVPlayerWaitingWhileEvaluatingBufferingRateReason"@.len());
    assert("AVPlayerWaitingToMinimizeStallsReason"@[15] != "AVPlayerWaitingWithNoItemToPlayReason"@[15]);
    assert("AVPlayerWaitingToMinimizeStallsReason"@.len() != "AVPlayerWaitingForCoordinatedPlaybackReason"@.len());
    assert("AVPlayerWaitingWhileEvaluatingBufferingRateReason"@.len() != "AVPlayerWaitingWithNoItemToPlayReason"@.len());
    assert("AVPlayerWaitingWhileEvaluatingBufferingRateReason"@.len() != "AVPlayerWaitingForCoordinatedPlaybackReason"@.len());
    assert("AVPlayerWaitingWithNoItemToPlayReason"@.len() != "AVPlayerWaitingForCoordinatedPlaybackReason"@.len());
}

/// Background playback policy of a player.
#[derive(Debug, Clone, Copy, PartialEq, Eq, Hash, Structural)]
#[non_exhaustive]
pub enum PlayerAudiovisualBackgroundPlaybackPolicy {
    /// Automatic.
    Automatic,
    /// Pauses.
    Pauses,
    /// Continues if possible.
    ContinuesIfPossible,
    /// A raw value this binding does not name.
    Unknown(i32),
}

impl PlayerAudiovisualBackgroundPlaybackPolicy {
    /// The value a raw bridge number stands for.
    pub open spec fn spec_from_raw(raw: i32) -> Self {
        if raw == 1 {
            PlayerAudiovisualBackgroundPlaybackPolicy::Automatic
        } else if raw == 2 {
            PlayerAudiovisualBackgroundPlaybackPolicy::Pauses
        } else if raw == 3 {
            PlayerAudiovisualBackgroundPlaybackPolicy::ContinuesIfPossible
        } else {
            PlayerAudiovisualBackgroundPlaybackPolicy::Unknown(raw)
        }
    }

    /// Decodes a raw bridge number.
    pub fn from_raw(raw: i32) -> (r: Self)
        ensures
            r == Self::spec_from_raw(raw),
    {
        match raw {
            1 => PlayerAudiovisualBackgroundPlaybackPolicy::Automatic,
            2 => PlayerAudiovisualBackgroundPlaybackPolicy::Pauses,
            3 => PlayerAudiovisualBackgroundPlaybackPolicy::ContinuesIfPossible,
            other => PlayerAudiovisualBackgroundPlaybackPolicy::Unknown(other),
        }
    }

    /// The raw bridge number of the value.
    pub open spec fn raw_value(self) -> i32 {
        match self {
            PlayerAudiovisualBackgroundPlaybackPolicy::Automatic => 1,
            PlayerAudiovisualBackgroundPlaybackPolicy::Pauses => 2,
            PlayerAudiovisualBackgroundPlaybackPolicy::ContinuesIfPossible => 3,
            PlayerAudiovisualBackgroundPlaybackPolicy::Unknown(raw) => raw,
        }
    }

    /// The raw bridge number of the value.
    pub fn as_raw(self) -> (r: i32)
        ensures
            r == self.raw_value(),
    {
        match self {
            PlayerAudiovisualBackgroundPlaybackPolicy::Automatic => 1,
            PlayerAudiovisualBackgroundPlaybackPolicy::Pauses => 2,
            PlayerAudiovisualBackgroundPlaybackPolicy::ContinuesIfPossible => 3,
            PlayerAudiovisualBackgroundPlaybackPolicy::Unknown(raw) => raw,
        }
    }

    /// Canonical: an `Unknown` never holds a number that a named variant stands for.
    pub open spec fn is_canonical(self) -> bool {
        match self {
            PlayerAudiovisualBackgroundPlaybackPolicy::Unknown(raw) => !(raw == 1 || raw == 2 || raw == 3),
            _ => true,
        }
    }
}

/// Decoding follows `AVPlayerAudiovisualBackgroundPlaybackPolicy` numbering: 1
/// is automatic, 2 is pauses, 3 is continues if possible; every other number is
/// kept as
/// it came, so no two numbers decode to the same value.
pub proof fn lemma_background_playback_policy_numbering(raw: i32, other: i32)
    ensures
        PlayerAudiovisualBackgroundPlaybackPolicy::spec_from_raw(1) == PlayerAudiovisualBackgroundPlaybackPolicy::Automatic,
        PlayerAudiovisualBackgroundPlaybackPolicy::spec_from_raw(2) == PlayerAudiovisualBackgroundPlaybackPolicy::Pauses,
        PlayerAudiovisualBackgroundPlaybackPolicy::spec_from_raw(3) == PlayerAudiovisualBackgroundPlaybackPolicy::ContinuesIfPossible,
        (raw < 1 || raw > 3) ==> PlayerAudiovisualBackgroundPlaybackPolicy::spec_from_raw(raw) == PlayerAudiovisualBackgroundPlaybackPolicy::Unknown(raw),
        PlayerAudiovisualBackgroundPlaybackPolicy::spec_from_raw(raw) == PlayerAudiovisualBackgroundPlaybackPolicy::spec_from_raw(other) ==> raw == other,
{
}

/// Decoding a raw number and encoding the result gives the number back;
/// encoding a canonical value and decoding the number gives the value back.
pub proof fn lemma_background_policy_raw_round_trip(raw: i32, x: PlayerAudiovisualBackgroundPlaybackPolicy)
    requires
        x.is_canonical(),
    ensures
        PlayerAudiovisualBackgroundPlaybackPolicy::spec_from_raw(raw).raw_value() == raw,
        PlayerAudiovisualBackgroundPlaybackPolicy::spec_from_raw(x.raw_value()) == x,
{
}

/// Network resource priority of a player.
#[derive(Debug, Clone, Copy, PartialEq, Eq, Hash, Structural)]
#[non_exhaustive]
pub enum PlayerNetworkResourcePriority {
    /// Default.
    Default,
    /// Low.
    Low,
    /// High.
    High,
    /// A raw value this binding does not name.
    Unknown(i32),
}

impl PlayerNetworkResourcePriority {
    /// The value a raw bridge number stands for.
    pub open spec fn spec_from_raw(raw: i32) -> Self {
        if raw == 0 {
            PlayerNetworkResourcePriority::Default
        } else if raw == 1 {
            PlayerNetworkResourcePriority::Low
        } else if raw == 2 {
            PlayerNetworkResourcePriority::High
        } else {
            PlayerNetworkResourcePriority::Unknown(raw)
        }
    }

    /// Decodes a raw bridge number.
    pub fn from_raw(raw: i32) -> (r: Self)
        ensures
            r == Self::spec_from_raw(raw),
    {
        match raw {
            0 => PlayerNetworkResourcePriority::Default,
            1 => PlayerNetworkResourcePriority::Low,
            2 => PlayerNetworkResourcePriority::High,
            other => PlayerNetworkResourcePriority::Unknown(other),
        }
    }

    /// The raw bridge number of the value.
    pub open spec fn raw_value(self) -> i32 {
        match self {
            PlayerNetworkResourcePriority::Default => 0,
            PlayerNetworkResourcePriority::Low => 1,
            PlayerNetworkResourcePriority::High => 2,
            PlayerNetworkResourcePriority::Unknown(raw) => raw,
        }
    }

    /// The raw bridge number of the value.
    pub fn as_raw(self) -> (r: i32)
        ensures
            r == self.raw_value(),
    {
        match self {
            PlayerNetworkResourcePriority::Default => 0,
            PlayerNetworkResourcePriority::Low => 1,
            PlayerNetworkResourcePriority::High => 2,
            PlayerNetworkResourcePriority::Unknown(raw) => raw,
        }
    }

    /// Canonical: an `Unknown` never holds a number that a named variant stands for.
    pub open spec fn is_canonical(self) -> bool {
        match self {
            PlayerNetworkResourcePriority::Unknown(raw) => !(raw == 0 || raw == 1 || raw == 2),
            _ => true,
        }
    }
}

/// Decoding follows `AVPlayer.NetworkResourcePriority` numbering: 0 is default,
/// 1 is low, 2 is high; every other number is kept as
/// it came, so no two numbers decode to the same value.
pub proof fn lemma_network_resource_priority_numbering(raw: i32, other: i32)
    ensures
        PlayerNetworkResourcePriority::spec_from_raw(0) == PlayerNetworkResourcePriority::Default,
        PlayerNetworkResourcePriority::spec_from_raw(1) == PlayerNetworkResourcePriority::Low,
        PlayerNetworkResourcePriority::spec_from_raw(2) == PlayerNetworkResourcePriority::High,
        (raw < 0 || raw > 2) ==> PlayerNetworkResourcePriority::spec_from_raw(raw) == PlayerNetworkResourcePriority::Unknown(raw),
        PlayerNetworkResourcePriority::spec_from_raw(raw) == PlayerNetworkResourcePriority::spec_from_raw(other) ==> raw == other,
{
}

/// Decoding a raw number and encoding the result gives the number back;
/// encoding a canonical value and decoding the number gives the value back.
pub proof fn lemma_network_priority_raw_round_trip(raw: i32, x: PlayerNetworkResourcePriority)
    requires
        x.is_canonical(),
    ensures
        PlayerNetworkResourcePriority::spec_from_raw(raw).raw_value() == raw,
        PlayerNetworkResourcePriority::spec_from_raw(x.raw_value()) == x,
{
}

/// Why a player rate changed.
#[derive(Debug, Clone, PartialEq, Eq, Hash)]
#[non_exhaustive]
pub enum PlayerRateDidChangeReason {
    /// The rate was set.
    SetRateCalled,
    /// Setting the rate failed.
    SetRateFailed,
    /// The audio session was interrupted.
    AudioSessionInterrupted,
    /// The app went to the background.
    AppBackgrounded,
    /// A raw value this binding does not name.
    Unknown(String),
}

impl PlayerRateDidChangeReason {
    /// The bridge's raw name of the value.
    pub open spec fn raw_name(self) -> Seq<char> {
        match self {
            PlayerRateDidChangeReason::SetRateCalled => "AVPlayerRateDidChangeReasonSetRateCalled"@,
            PlayerRateDidChangeReason::SetRateFailed => "AVPlayerRateDidChangeReasonSetRateFailed"@,
            PlayerRateDidChangeReason::AudioSessionInterrupted => "AVPlayerRateDidChangeReasonAudioSessionInterrupted"@,
            PlayerRateDidChangeReason::AppBackgrounded => "AVPlayerRateDidChangeReasonAppBackgrounded"@,
            PlayerRateDidChangeReason::Unknown(raw) => raw@,
        }
    }

    /// Whether `raw` is a name that a named variant stands for.
    pub open spec fn is_known_name(raw: Seq<char>) -> bool {
        raw == "AVPlayerRateDidChangeReasonSetRateCalled"@ || raw == "AVPlayerRateDidChangeReasonSetRateFailed"@ || raw == "AVPlayerRateDidChangeReasonAudioSessionInterrupted"@ || raw == "AVPlayerRateDidChangeReasonAppBackgrounded"@
    }

    /// Canonical: an `Unknown` never holds a name that a named variant stands for.
    pub open spec fn is_canonical(self) -> bool {
        match self {
            PlayerRateDidChangeReason::Unknown(raw) => !Self::is_known_name(raw@),
            _ => true,
        }
    }

    /// Decodes the bridge's raw name; a name it does not know is kept in `Unknown`.
    pub fn from_raw(raw: &str) -> (r: Self)
        ensures
            r.raw_name() == raw@,
            r.is_canonical(),
    {
        if str_eq(raw, "AVPlayerRateDidChangeReasonSetRateCalled") {
            PlayerRateDidChangeReason::SetRateCalled
        } else if str_eq(raw, "AVPlayerRateDidChangeReasonSetRateFailed") {
            PlayerRateDidChangeReason::SetRateFailed
        } else if str_eq(raw, "AVPlayerRateDidChangeReasonAudioSessionInterrupted") {
            PlayerRateDidChangeReason::AudioSessionInterrupted
        } else if str_eq(raw, "AVPlayerRateDidChangeReasonAppBackgrounded") {
            PlayerRateDidChangeReason::AppBackgrounded
        } else {
            PlayerRateDidChangeReason::Unknown(raw.to_owned())
        }
    }
}

/// Two canonical values with the same raw name are the same value: a decoded
/// value is determined by the raw name it was decoded from.
pub proof fn lemma_rate_change_reason_determined_by_raw(a: PlayerRateDidChangeReason, b: PlayerRateDidChangeReason)
    requires
        a.is_canonical(),
        b.is_canonical(),
        a.raw_name() == b.raw_name(),
    ensures
        (a is SetRateCalled) == (b is SetRateCalled),
        (a is SetRateFailed) == (b is SetRateFailed),
        (a is AudioSessionInterrupted) == (b is AudioSessionInterrupted),
        (a is AppBackgrounded) == (b is AppBackgrounded),
        (a is Unknown) == (b is Unknown),
{
    reveal_strlit("AVPlayerRateDidChangeReasonSetRateCalled");
    reveal_strlit("AVPlayerRateDidChangeReasonSetRateFailed");
    reveal_strlit("AVPlayerRateDidChangeReasonAudioSessionInterrupted");
    reveal_strlit("AVPlayerRateDidChangeReasonAppBackgrounded");
    assert("AVPlayerRateDidChangeReasonSetRateCalled"@[34] != "AVPlayerRateDidChangeReasonSetRateFailed"@[34]);
    assert("AVPlayerRateDidChangeReasonSetRateCalled"@.len() != "AVPlayerRateDidChangeReasonAudioSessionInterrupted"@.len());
    assert("AVPlayerRateDidChangeReasonSetRateCalled"@.len() != "AVPlayerRateDidChangeReasonAppBackgrounded"@.len());
    assert("AVPlayerRateDidChangeReasonSetRateFailed"@.len() != "AVPlayerRateDidChangeReasonAudioSessionInterrupted"@.len());
    assert("AVPlayerRateDidChangeReasonSetRateFailed"@.len() != "AVPlayerRateDidChangeReasonAppBackgrounded"@.len());
    assert("AVPlayerRateDidChangeReasonAudioSessionInterrupted"@.len() != "AVPlayerRateDidChangeReasonAppBackgrounded"@.len());
}

/// Playback state of a player as the bridge reports it (all but the volume).
#[derive(Debug, Clone, PartialEq, Eq)]
pub struct PlayerPlaybackInfoPayload {
    /// Raw time-control status.
    pub time_control_status: Option<i32>,
    /// Raw reason for waiting to play.
    pub reason_for_waiting_to_play: Option<String>,
    /// Raw end-of-item action.
    pub action_at_item_end: Option<i32>,
    /// Whether the player is muted.
    pub muted: Option<bool>,
    /// Whether the player waits to minimize stalling.
    pub automatically_waits_to_minimize_stalling: Option<bool>,
    /// Whether media-selection criteria apply automatically.
    pub applies_media_selection_criteria_automatically: Option<bool>,
    /// HDR eligibility, absent before macOS 10.15.
    pub eligible_for_hdr_playback: Option<bool>,
    /// Raw background playback policy, absent before macOS 12.0.
    pub audiovisual_background_playback_policy: Option<i32>,
    /// Raw network resource priority, absent before macOS 26.0.
    pub network_resource_priority: Option<i32>,
}

/// An optional flag, `false` when absent.
pub open spec fn flag_or_false(b: Option<bool>) -> bool {
    match b {
        Some(v) => v,
        None => false,
    }
}

impl PlayerPlaybackInfoPayload {
    /// Time-control status; an absent value reads as raw 0 (paused).
    pub fn time_control_status(&self) -> (r: PlayerTimeControlStatus)
        ensures
            r == PlayerTimeControlStatus::spec_from_raw(
                match self.time_control_status {
                    Some(v) => v,
                    None => 0,
                },
            ),
    {
        PlayerTimeControlStatus::from_raw(
            match self.time_control_status {
                Some(v) => v,
                None => 0,
            },
        )
    }

    /// Decoded reason for waiting to play, when there is one.
    pub fn waiting_reason(&self) -> (r: Option<PlayerWaitingReason>)
        ensures
            match self.reason_for_waiting_to_play {
                Some(raw) => r is Some && r.unwrap().raw_name() == raw@ && r.unwrap().is_canonical(),
                None => r is None,
            },
    {
        match &self.reason_for_waiting_to_play {
            Some(raw) => Some(PlayerWaitingReason::from_raw(raw.as_str())),
            None => None,
        }
    }

    /// End-of-item action; an absent value reads as raw 1 (pause).
    pub fn action_at_item_end(&self) -> (r: PlayerActionAtItemEnd)
        ensures
            r == PlayerActionAtItemEnd::spec_from_raw(
                match self.action_at_item_end {
                    Some(v) => v,
                    None => 1,
                },
            ),
    {
        PlayerActionAtItemEnd::from_raw(
            match self.action_at_item_end {
                Some(v) => v,
                None => 1,
            },
        )
    }

    /// Whether the player is muted; absent reads as `false`.
    pub fn is_muted(&self) -> (r: bool)
        ensures
            r == flag_or_false(self.muted),
    {
        match self.muted {
            Some(v) => v,
            None => false,
        }
    }

    /// Whether the player waits to minimize stalling; absent reads as `false`.
    pub fn automatically_waits_to_minimize_stalling(&self) -> (r: bool)
        ensures
            r == flag_or_false(self.automatically_waits_to_minimize_stalling),
    {
        match self.automatically_waits_to_minimize_stalling {
            Some(v) => v,
            None => false,
        }
    }

    /// Whether media-selection criteria apply automatically; absent reads as `false`.
    pub fn applies_media_selection_criteria_automatically(&self) -> (r: bool)
        ensures
            r == flag_or_false(self.applies_media_selection_criteria_automatically),
    {
        match self.applies_media_selection_criteria_automatically {
            Some(v) => v,
            None => false,
        }
    }

    /// HDR eligibility; absent means the OS release lacks the property.
    pub fn eligible_for_hdr_playback(&self) -> (r: Result<bool, AVPlayerError>)
        ensures
            match self.eligible_for_hdr_playback {
                Some(v) => r == Ok::<bool, AVPlayerError>(v),
                None => match r {
                    Err(e) => e is OperationFailed && e.message_of()
                        == "AVPlayer.eligibleForHDRPlayback requires macOS 10.15+"@,
                    Ok(_) => false,
                },
            },
    {
        match self.eligible_for_hdr_playback {
            Some(v) => Ok(v),
            None => {
                let e = availability_error("AVPlayer.eligibleForHDRPlayback", "10.15");
                proof {
                    reveal_strlit("AVPlayer.eligibleForHDRPlayback");
                    reveal_strlit("10.15");
                    reveal_strlit(" requires macOS ");
                    reveal_strlit("+");
                    reveal_strlit("AVPlayer.eligibleForHDRPlayback requires macOS 10.15+");
                    assert(e.message_of() =~= "AVPlayer.eligibleForHDRPlayback requires macOS 10.15+"@);
                }
                Err(e)
            },
        }
    }

    /// Background playback policy; absent means the OS release lacks it.
    pub fn audiovisual_background_playback_policy(&self) -> (r: Result<
        PlayerAudiovisualBackgroundPlaybackPolicy,
        AVPlayerError,
    >)
        ensures
            match self.audiovisual_background_playback_policy {
                Some(v) => r == Ok::<PlayerAudiovisualBackgroundPlaybackPolicy, AVPlayerError>(
                    PlayerAudiovisualBackgroundPlaybackPolicy::spec_from_raw(v),
                ),
                None => match r {
                    Err(e) => e is OperationFailed && e.message_of()
                        == "AVPlayer.audiovisualBackgroundPlaybackPolicy requires macOS 12.0+"@,
                    Ok(_) => false,
                },
            },
    {
        match self.audiovisual_background_playback_policy {
            Some(v) => Ok(PlayerAudiovisualBackgroundPlaybackPolicy::from_raw(v)),
            None => {
                let e = availability_error("AVPlayer.audiovisualBackgroundPlaybackPolicy", "12.0");
                proof {
                    reveal_strlit("AVPlayer.audiovisualBackgroundPlaybackPolicy");
                    reveal_strlit("12.0");
                    reveal_strlit(" requires macOS ");
                    reveal_strlit("+");
                    reveal_strlit("AVPlayer.audiovisualBackgroundPlaybackPolicy requires macOS 12.0+");
                    assert(e.message_of()
                        =~= "AVPlayer.audiovisualBackgroundPlaybackPolicy requires macOS 12.0+"@);
                }
                Err(e)
            },
        }
    }

    /// Network resource priority; absent means the OS release lacks it.
    pub fn network_resource_priority(&self) -> (r: Result<PlayerNetworkResourcePriority, AVPlayerError>)
        ensures
            match self.network_resource_priority {
                Some(v) => r == Ok::<PlayerNetworkResourcePriority, AVPlayerError>(
                    PlayerNetworkResourcePriority::spec_from_raw(v),
                ),
                None => match r {
                    Err(e) => e is OperationFailed && e.message_of()
                        == "AVPlayer.networkResourcePriority requires macOS 26.0+"@,
                    Ok(_) => false,
                },
            },
    {
        match self.network_resource_priority {
            Some(v) => Ok(PlayerNetworkResourcePriority::from_raw(v)),
            None => {
                let e = availability_error("AVPlayer.networkResourcePriority", "26.0");
                proof {
                    reveal_strlit("AVPlayer.networkResourcePriority");
                    reveal_strlit("26.0");
                    reveal_strlit(" requires macOS ");
                    reveal_strlit("+");
                    reveal_strlit("AVPlayer.networkResourcePriority requires macOS 26.0+");
                    assert(e.message_of() =~= "AVPlayer.networkResourcePriority requires macOS 26.0+"@);
                }
                Err(e)
            },
        }
    }
}

} // verus!
