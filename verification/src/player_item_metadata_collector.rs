//! Media-data collectors attached to a player item.

use vstd::prelude::*;

use crate::text::str_eq;

verus! {

/// Kind of a media-data collector attached to a player item.
#[derive(Debug, Clone, PartialEq, Eq)]
#[non_exhaustive]
pub enum PlayerItemMediaDataCollectorKind {
    /// A metadata collector.
    MetadataCollector,
    /// A raw value this binding does not name.
    Unknown(String),
}

impl PlayerItemMediaDataCollectorKind {
    /// The bridge's raw name of the value.
    pub open spec fn raw_name(self) -> Seq<char> {
        match self {
            PlayerItemMediaDataCollectorKind::MetadataCollector => "metadata_collector"@,
            PlayerItemMediaDataCollectorKind::Unknown(raw) => raw@,
        }
    }

    /// Whether `raw` is a name that a named variant stands for.
    pub open spec fn is_known_name(raw: Seq<char>) -> bool {
        raw == "metadata_collector"@
    }

    /// Canonical: an `Unknown` never holds a name that a named variant stands for.
    pub open spec fn is_canonical(self) -> bool {
        match self {
            PlayerItemMediaDataCollectorKind::Unknown(raw) => !Self::is_known_name(raw@),
            _ => true,
        }
    }

    /// Decodes the bridge's raw name; a name it does not know is kept in `Unknown`.
    pub fn from_raw(raw: &str) -> (r: Self)
        ensures
            r.raw_name() == raw@,
            r.is_canonical(),
    {
        if str_eq(raw, "metadata_collector") {
            PlayerItemMediaDataCollectorKind::MetadataCollector
        } else {
            PlayerItemMediaDataCollectorKind::Unknown(raw.to_owned())
        }
    }
}

/// Two canonical values with the same raw name are the same value: a decoded
/// value is determined by the raw name it was decoded from.
pub proof fn lemma_collector_kind_determined_by_raw(a: PlayerItemMediaDataCollectorKind, b: PlayerItemMediaDataCollectorKind)
    requires
        a.is_canonical(),
        b.is_canonical(),
        a.raw_name() == b.raw_name(),
    ensures
        (a is MetadataCollector) == (b is MetadataCollector),
        (a is Unknown) == (b is Unknown),
{
    reveal_strlit("metadata_collector");
}

/// Description of a media-data collector, as the bridge reports it.
#[derive(Debug, Clone, PartialEq, Eq)]
pub struct PlayerItemMediaDataCollectorInfoPayload {
    /// Raw kind name.
    pub kind: String,
}

/// Description of a media-data collector.
#[derive(Debug, Clone, PartialEq, Eq)]
pub struct PlayerItemMediaDataCollectorInfo {
    /// Kind of collector.
    pub kind: PlayerItemMediaDataCollectorKind,
}

impl PlayerItemMediaDataCollectorInfo {
    /// Decodes a collector description.
    pub fn from_payload(payload: PlayerItemMediaDataCollectorInfoPayload) -> (r: Self)
        ensures
            r.kind.raw_name() == payload.kind@,
            r.kind.is_canonical(),
    {
        PlayerItemMediaDataCollectorInfo {
            kind: PlayerItemMediaDataCollectorKind::from_raw(payload.kind.as_str()),
        }
    }
}

/// Decodes the descriptions of all collectors, in order.
pub fn media_data_collector_infos(payloads: Vec<PlayerItemMediaDataCollectorInfoPayload>) -> (r: Vec<
    PlayerItemMediaDataCollectorInfo,
>)
    ensures
        r.len() == payloads.len(),
        forall|i: int| 0 <= i < r.len() ==> (#[trigger] r[i]).kind.raw_name() == payloads[i].kind@
            && r[i].kind.is_canonical(),
{
    let ghost ps = payloads@;
    let mut out: Vec<PlayerItemMediaDataCollectorInfo> = Vec::new();
    for p in it: payloads.into_iter()
        invariant
            it.seq() == ps,
            out.len() == it.index(),
            forall|i: int| 0 <= i < out.len() ==> (#[trigger] out[i]).kind.raw_name() == ps[i].kind@
                && out[i].kind.is_canonical(),
    {
        out.push(PlayerItemMediaDataCollectorInfo::from_payload(p));
    }
    out
}

} // verus!
