//! Asset-level values: media types, key-loading states and the checks that
//! the asset wrappers apply to what the bridge reports.

use vstd::prelude::*;

use crate::error::{from_status, status_error_spec, AVPlayerError};
use crate::text::{decimal, decimal_spec, str_eq};

verus! {

/// Simplified media-type classification for asset tracks and reader outputs.
#[derive(Debug, Clone, PartialEq, Eq, Hash)]
#[non_exhaustive]
pub enum MediaType {
    /// Audio media.
    Audio,
    /// Video media.
    Video,
    /// Text media.
    Text,
    /// Subtitles.
    Subtitle,
    /// Closed captions.
    ClosedCaption,
    /// Timed metadata.
    Metadata,
    /// Timecode.
    Timecode,
    /// Multiplexed media.
    Muxed,
    /// Depth data.
    DepthData,
    /// A raw value this binding does not name.
    Unknown(String),
}

impl MediaType {
    /// The bridge's raw name of the value.
    pub open spec fn raw_name(self) -> Seq<char> {
        match self {
            MediaType::Audio => "audio"@,
            MediaType::Video => "video"@,
            MediaType::Text => "text"@,
            MediaType::Subtitle => "subtitle"@,
            MediaType::ClosedCaption => "closed_caption"@,
            MediaType::Metadata => "metadata"@,
            MediaType::Timecode => "timecode"@,
            MediaType::Muxed => "muxed"@,
            MediaType::DepthData => "depth_data"@,
            MediaType::Unknown(raw) => raw@,
        }
    }

    /// Whether `raw` is a name that a named variant stands for.
    pub open spec fn is_known_name(raw: Seq<char>) -> bool {
        raw == "audio"@ || raw == "video"@ || raw == "text"@ || raw == "subtitle"@ || raw == "closed_caption"@ || raw == "metadata"@ || raw == "timecode"@ || raw == "muxed"@ || raw == "depth_data"@
    }

    /// Canonical: an `Unknown` never holds a name that a named variant stands for.
    pub open spec fn is_canonical(self) -> bool {
        match self {
            MediaType::Unknown(raw) => !Self::is_known_name(raw@),
            _ => true,
        }
    }

    /// Decodes the bridge's raw name; a name it does not know is kept in `Unknown`.
    pub fn from_raw(raw: &str) -> (r: Self)
        ensures
            r.raw_name() == raw@,
            r.is_canonical(),
    {
        if str_eq(raw, "audio") {
            MediaType::Audio
        } else if str_eq(raw, "video") {
            MediaType::Video
        } else if str_eq(raw, "text") {
            MediaType::Text
        } else if str_eq(raw, "subtitle") {
            MediaType::Subtitle
        } else if str_eq(raw, "closed_caption") {
            MediaType::ClosedCaption
        } else if str_eq(raw, "metadata") {
            MediaType::Metadata
        } else if str_eq(raw, "timecode") {
            MediaType::Timecode
        } else if str_eq(raw, "muxed") {
            MediaType::Muxed
        } else if str_eq(raw, "depth_data") {
            MediaType::DepthData
        } else {
            MediaType::Unknown(raw.to_owned())
        }
    }
}

/// Two canonical values with the same raw name are the same value: a decoded
/// value is determined by the raw name it was decoded from.
pub proof fn lemma_media_type_determined_by_raw(a: MediaType, b: MediaType)
    requires
        a.is_canonical(),
        b.is_canonical(),
        a.raw_name() == b.raw_name(),
    ensures
        (a is Audio) == (b is Audio),
        (a is Video) == (b is Video),
        (a is Text) == (b is Text),
        (a is Subtitle) == (b is Subtitle),
        (a is ClosedCaption) == (b is ClosedCaption),
        (a is Metadata) == (b is Metadata),
        (a is Timecode) == (b is Timecode),
        (a is Muxed) == (b is Muxed),
        (a is DepthData) == (b is DepthData),
        (a is Unknown) == (b is Unknown),
{
    reveal_strlit("audio");
    reveal_strlit("video");
    reveal_strlit("text");
    reveal_strlit("subtitle");
    reveal_strlit("closed_caption");
    reveal_strlit("metadata");
    reveal_strlit("timecode");
    reveal_strlit("muxed");
    reveal_strlit("depth_data");
    assert("audio"@[0] != "video"@[0]);
    assert("audio"@.len() != "text"@.len());
    assert("audio"@.len() != "subtitle"@.len());
    assert("audio"@.len() != "closed_caption"@.len());
    assert("audio"@.len() != "metadata"@.len());
    assert("audio"@.len() != "timecode"@.len());
    assert("audio"@[0] != "muxed"@[0]);
    assert("audio"@.len() != "depth_data"@.len());
    assert("video"@.len() != "text"@.len());
    assert("video"@.len() != "subtitle"@.len());
    assert("video"@.len() != "closed_caption"@.len());
    assert("video"@.len() != "metadata"@.len());
    assert("video"@.len() != "timecode"@.len());
    assert("video"@[0] != "muxed"@[0]);
    assert("video"@.len() != "depth_data"@.len());
    assert("text"@.len() != "subtitle"@.len());
    assert("text"@.len() != "closed_caption"@.len());
    assert("text"@.len() != "metadata"@.len());
    assert("text"@.len() != "timecode"@.len());
    assert("text"@.len() != "muxed"@.len());
    assert("text"@.len() != "depth_data"@.len());
    assert("subtitle"@.len() != "closed_caption"@.len());
    assert("subtitle"@[0] != "metadata"@[0]);
    assert("subtitle"@[0] != "timecode"@[0]);
    assert("subtitle"@.len() != "muxed"@.len());
    assert("subtitle"@.len() != "depth_data"@.len());
    assert("closed_caption"@.len() != "metadata"@.len());
    assert("closed_caption"@.len() != "timecode"@.len());
    assert("closed_caption"@.len() != "muxed"@.len());
    assert("closed_caption"@.len() != "depth_data"@.len());
    assert("metadata"@[0] != "timecode"@[0]);
    assert("metadata"@.len() != "muxed"@.len());
    assert("metadata"@.len() != "depth_data"@.len());
    assert("timecode"@.len() != "muxed"@.len());
    assert("timecode"@.len() != "depth_data"@.len());
    assert("muxed"@.len() != "depth_data"@.len());
}

/// Per-key loading state returned by `AVAsynchronousKeyValueLoading`.
#[derive(Debug, Clone, Copy, PartialEq, Eq, Hash, Structural)]
#[non_exhaustive]
pub enum KeyValueStatus {
    /// Not loaded, or a raw value this binding does not name.
    Unknown,
    /// Loading.
    Loading,
    /// Loaded.
    Loaded,
    /// Failed.
    Failed,
    /// Cancelled.
    Cancelled,
}

impl KeyValueStatus {
    /// The value a raw bridge number stands for.
    pub open spec fn spec_from_raw(raw: i32) -> Self {
        if raw == 1 {
            KeyValueStatus::Loading
        } else if raw == 2 {
            KeyValueStatus::Loaded
        } else if raw == 3 {
            KeyValueStatus::Failed
        } else if raw == 4 {
            KeyValueStatus::Cancelled
        } else {
            KeyValueStatus::Unknown
        }
    }

    /// Decodes a raw bridge number.
    pub fn from_raw(raw: i32) -> (r: Self)
        ensures
            r == Self::spec_from_raw(raw),
    {
        match raw {
            1 => KeyValueStatus::Loading,
            2 => KeyValueStatus::Loaded,
            3 => KeyValueStatus::Failed,
            4 => KeyValueStatus::Cancelled,
            _ => KeyValueStatus::Unknown,
        }
    }
}

/// The key-value status follows `AVKeyValueStatus` numbering: 1 is loading,
/// 2 loaded, 3 failed and 4 cancelled; every other number is unknown, so two
/// numbers that decode to the same known status are the same number.
pub proof fn lemma_key_value_status_numbering(raw: i32, other: i32)
    ensures
        KeyValueStatus::spec_from_raw(1) == KeyValueStatus::Loading,
        KeyValueStatus::spec_from_raw(2) == KeyValueStatus::Loaded,
        KeyValueStatus::spec_from_raw(3) == KeyValueStatus::Failed,
        KeyValueStatus::spec_from_raw(4) == KeyValueStatus::Cancelled,
        (raw < 1 || raw > 4) <==> KeyValueStatus::spec_from_raw(raw) == KeyValueStatus::Unknown,
        KeyValueStatus::spec_from_raw(raw) == KeyValueStatus::spec_from_raw(other)
            && KeyValueStatus::spec_from_raw(raw) != KeyValueStatus::Unknown ==> raw == other,
{
}

/// Load state of one key, as the bridge reports it.
#[derive(Debug, Clone, PartialEq, Eq)]
pub struct KeyLoadStatusPayload {
    /// The key.
    pub key: String,
    /// Raw `AVKeyValueStatus`.
    pub status: i32,
    /// Error message when loading failed.
    pub error_message: Option<String>,
}

/// Result for a single key passed to `load_values_asynchronously`.
#[derive(Debug, Clone, PartialEq, Eq)]
pub struct KeyLoadStatus {
    /// The key.
    pub key: String,
    /// Its load state.
    pub status: KeyValueStatus,
    /// Error message when loading failed.
    pub error_message: Option<String>,
}

/// The load status that a payload reports.
pub open spec fn key_load_status_spec(p: KeyLoadStatusPayload) -> KeyLoadStatus {
    KeyLoadStatus {
        key: p.key,
        status: KeyValueStatus::spec_from_raw(p.status),
        error_message: p.error_message,
    }
}

impl KeyLoadStatus {
    /// Decodes one key's load status.
    pub fn from_payload(payload: KeyLoadStatusPayload) -> (r: KeyLoadStatus)
        ensures
            r == key_load_status_spec(payload),
    {
        KeyLoadStatus {
            key: payload.key,
            status: KeyValueStatus::from_raw(payload.status),
            error_message: payload.error_message,
        }
    }
}

/// Decodes the load statuses of all keys, in the order the bridge listed them.
pub fn key_load_statuses(payloads: Vec<KeyLoadStatusPayload>) -> (r: Vec<KeyLoadStatus>)
    ensures
        r.len() == payloads.len(),
        forall|i: int| 0 <= i < r.len() ==> #[trigger] r[i] == key_load_status_spec(payloads[i]),
{
    let ghost ps = payloads@;
    let mut out: Vec<KeyLoadStatus> = Vec::new();
    for p in it: payloads.into_iter()
        invariant
            it.seq() == ps,
            out.len() == it.index(),
            forall|i: int| 0 <= i < out.len() ==> #[trigger] out[i] == key_load_status_spec(ps[i]),
    {
        out.push(KeyLoadStatus::from_payload(p));
    }
    out
}

/// Checks the track count the bridge reported for an asset: a negative count
/// is the error `"track count unexpectedly negative: <count>"`.
pub fn checked_track_count(count: i32) -> (r: Result<usize, AVPlayerError>)
    ensures
        count >= 0 ==> r == Ok::<usize, AVPlayerError>(count as usize),
        count < 0 ==> (match r {
            Err(e) => e is OperationFailed && e.message_of() == "track count unexpectedly negative: "@
                + decimal_spec(count as int),
            Ok(_) => false,
        }),
{
    if count < 0 {
        Err(
            AVPlayerError::OperationFailed(
                "track count unexpectedly negative: ".to_owned().concat(
                    decimal(count as i64).as_str(),
                ),
            ),
        )
    } else {
        Ok(count as usize)
    }
}

/// The URL of a URL asset: the asset's URL when it has one, else the error
/// `"asset is not backed by AVURLAsset"`.
pub fn require_url_asset_url(url: Option<String>) -> (r: Result<String, AVPlayerError>)
    ensures
        match url {
            Some(u) => r == Ok::<String, AVPlayerError>(u),
            None => match r {
                Err(e) => e is OperationFailed && e.message_of() == "asset is not backed by AVURLAsset"@,
                Ok(_) => false,
            },
        },
{
    match url {
        Some(u) => Ok(u),
        None => Err(AVPlayerError::OperationFailed("asset is not backed by AVURLAsset".to_owned())),
    }
}

/// The load state of one key as the bridge reports it: a negative number is a
/// status code, the error [`from_status`] builds from it and the bridge's
/// message; any other number is a raw load state.
pub fn key_value_status_from_bridge(raw: i32, message: String) -> (r: Result<KeyValueStatus, AVPlayerError>)
    ensures
        raw >= 0 ==> r == Ok::<KeyValueStatus, AVPlayerError>(KeyValueStatus::spec_from_raw(raw)),
        raw < 0 ==> (match r {
            Err(e) => status_error_spec(raw as int, message@, e),
            Ok(_) => false,
        }),
{
    if raw < 0 {
        Err(from_status(raw, message))
    } else {
        Ok(KeyValueStatus::from_raw(raw))
    }
}

} // verus!
