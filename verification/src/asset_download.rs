//! Download-session values: eviction priorities, task states, and the decoding
//! of the delegate events that the bridge reports as payloads.

use vstd::prelude::*;

use crate::error::{from_status, AVPlayerError};
use crate::text::str_eq;
use crate::time::TimeRange;

verus! {

/// Eviction priority of a downloaded asset.
#[derive(Debug, Clone, PartialEq, Eq)]
#[non_exhaustive]
pub enum AssetDownloadedAssetEvictionPriority {
    /// Evicted last.
    Important,
    /// The system default.
    Default,
    /// A raw value this binding does not name.
    Unknown(String),
}

impl AssetDownloadedAssetEvictionPriority {
    /// The bridge's raw name of the value.
    pub open spec fn raw_name(self) -> Seq<char> {
        match self {
            AssetDownloadedAssetEvictionPriority::Important => "important"@,
            AssetDownloadedAssetEvictionPriority::Default => "default"@,
            AssetDownloadedAssetEvictionPriority::Unknown(raw) => raw@,
        }
    }

    /// Whether `raw` is a name that a named variant stands for.
    pub open spec fn is_known_name(raw: Seq<char>) -> bool {
        raw == "important"@ || raw == "default"@
    }

    /// Canonical: an `Unknown` never holds a name that a named variant stands for.
    pub open spec fn is_canonical(self) -> bool {
        match self {
            AssetDownloadedAssetEvictionPriority::Unknown(raw) => !Self::is_known_name(raw@),
            _ => true,
        }
    }

    /// Decodes the bridge's raw name; a name it does not know is kept in `Unknown`.
    pub fn from_raw(raw: &str) -> (r: Self)
        ensures
            r.raw_name() == raw@,
            r.is_canonical(),
    {
        if str_eq(raw, "important") {
            AssetDownloadedAssetEvictionPriority::Important
        } else if str_eq(raw, "default") {
            AssetDownloadedAssetEvictionPriority::Default
        } else {
            AssetDownloadedAssetEvictionPriority::Unknown(raw.to_owned())
        }
    }

    /// The bridge's raw name.
    pub fn as_raw(&self) -> (r: &str)
        ensures
            r@ == self.raw_name(),
    {
        match self {
            AssetDownloadedAssetEvictionPriority::Important => "important",
            AssetDownloadedAssetEvictionPriority::Default => "default",
            AssetDownloadedAssetEvictionPriority::Unknown(raw) => raw.as_str(),
        }
    }
}

/// Two canonical values with the same raw name are the same value: decoding a
/// raw name gives it back unchanged, and decoding what `as_raw` returns gives
/// back the value it started from.
pub proof fn lemma_eviction_priority_raw_round_trip(a: AssetDownloadedAssetEvictionPriority, b: AssetDownloadedAssetEvictionPriority)
    requires
        a.is_canonical(),
        b.is_canonical(),
        a.raw_name() == b.raw_name(),
    ensures
        (a is Important) == (b is Important),
        (a is Default) == (b is Default),
        (a is Unknown) == (b is Unknown),
{
    reveal_strlit("important");
    reveal_strlit("default");
    assert("important"@.len() != "default"@.len());
}

/// State of a download task.
#[derive(Debug, Clone, Copy, PartialEq, Eq, Hash, Structural)]
#[non_exhaustive]
pub enum AssetDownloadTaskState {
    /// Downloading.
    Running,
    /// Paused.
    Suspended,
    /// Being cancelled.
    Canceling,
    /// Finished.
    Completed,
    /// A raw value this binding does not name.
    Unknown(i32),
}

impl AssetDownloadTaskState {
    /// The value a raw bridge number stands for.
    pub open spec fn spec_from_raw(raw: i32) -> Self {
        if raw == 0 {
            AssetDownloadTaskState::Running
        } else if raw == 1 {
            AssetDownloadTaskState::Suspended
        } else if raw == 2 {
            AssetDownloadTaskState::Canceling
        } else if raw == 3 {
            AssetDownloadTaskState::Completed
        } else {
            AssetDownloadTaskState::Unknown(raw)
        }
    }

    /// Decodes a raw bridge number.
    pub fn from_raw(raw: i32) -> (r: Self)
        ensures
            r == Self::spec_from_raw(raw),
    {
        match raw {
            0 => AssetDownloadTaskState::Running,
            1 => AssetDownloadTaskState::Suspended,
            2 => AssetDownloadTaskState::Canceling,
            3 => AssetDownloadTaskState::Completed,
            other => AssetDownloadTaskState::Unknown(other),
        }
    }

    /// Canonical: an `Unknown` never holds a number that a named variant stands for.
    pub open spec fn is_canonical(self) -> bool {
        match self {
            AssetDownloadTaskState::Unknown(raw) => !(raw == 0 || raw == 1 || raw == 2 || raw == 3),
            _ => true,
        }
    }
}

/// Decoding follows `URLSessionTask.State` numbering: 0 is running, 1 is
/// suspended, 2 is canceling, 3 is completed; every other number is kept as
/// it came, so no two numbers decode to the same value.
pub proof fn lemma_download_task_state_numbering(raw: i32, other: i32)
    ensures
        AssetDownloadTaskState::spec_from_raw(0) == AssetDownloadTaskState::Running,
        AssetDownloadTaskState::spec_from_raw(1) == AssetDownloadTaskState::Suspended,
        AssetDownloadTaskState::spec_from_raw(2) == AssetDownloadTaskState::Canceling,
        AssetDownloadTaskState::spec_from_raw(3) == AssetDownloadTaskState::Completed,
        (raw < 0 || raw > 3) ==> AssetDownloadTaskState::spec_from_raw(raw) == AssetDownloadTaskState::Unknown(raw),
        AssetDownloadTaskState::spec_from_raw(raw) == AssetDownloadTaskState::spec_from_raw(other) ==> raw == other,
{
}

/// Every decoded value is canonical, and a decoded value keeps the number it
/// was decoded from when that number is not a named one.
pub proof fn lemma_download_task_state_from_raw(raw: i32)
    ensures
        AssetDownloadTaskState::spec_from_raw(raw).is_canonical(),
        !(raw == 0 || raw == 1 || raw == 2 || raw == 3) ==> AssetDownloadTaskState::spec_from_raw(raw) == AssetDownloadTaskState::Unknown(raw),
{
}

/// Delegate event of a download session, as the bridge reports it.
#[derive(Debug, Clone, PartialEq, Eq)]
pub struct AssetDownloadDelegateEventPayload {
    /// Event name.
    pub event: String,
    /// Identifier of the task the event is about.
    pub task_identifier: usize,
    /// Destination of the download, for the `*_will_download_to_url` events.
    pub location: Option<String>,
    /// Newly loaded range, for the `*did_load_time_range` events.
    pub loaded_time_range: Option<TimeRange>,
    /// All ranges loaded so far, for the `*did_load_time_range` events.
    pub total_time_ranges_loaded: Option<Vec<TimeRange>>,
    /// Range the task will load, for the `*did_load_time_range` events.
    pub time_range_expected_to_load: Option<TimeRange>,
    /// Number of variants, for `will_download_variants`.
    pub variant_count: Option<usize>,
    /// Class name of the metric event, for `did_receive_metric_event`.
    pub metric_event_class_name: Option<String>,
}

impl AssetDownloadDelegateEventPayload {
    /// The task identifier with the location, when the payload has one.
    pub fn require_location(self) -> (r: Option<(usize, String)>)
        ensures
            r == (match self.location {
                Some(location) => Some((self.task_identifier, location)),
                None => None,
            }),
    {
        match self.location {
            Some(location) => Some((self.task_identifier, location)),
            None => None,
        }
    }

    /// The task identifier with the three time-range fields, when all three
    /// are present.
    pub fn require_time_ranges(self) -> (r: Option<(usize, TimeRange, Vec<TimeRange>, TimeRange)>)
        ensures
            r == (match (
                self.loaded_time_range,
                self.total_time_ranges_loaded,
                self.time_range_expected_to_load,
            ) {
                (Some(loaded), Some(total), Some(expected)) => Some(
                    (self.task_identifier, loaded, total, expected),
                ),
                _ => None,
            }),
    {
        match (self.loaded_time_range, self.total_time_ranges_loaded, self.time_range_expected_to_load) {
            (Some(loaded), Some(total), Some(expected)) => Some(
                (self.task_identifier, loaded, total, expected),
            ),
            _ => None,
        }
    }
}

/// Delegate callbacks of `AVAssetDownloadURLSession`.
#[derive(Debug, Clone, PartialEq, Eq)]
#[non_exhaustive]
pub enum AssetDownloadDelegateEvent {
    /// A task picked its download location.
    WillDownloadToUrl { task_identifier: usize, location: String },
    /// A task loaded another time range.
    DidLoadTimeRange {
        task_identifier: usize,
        loaded_time_range: TimeRange,
        total_time_ranges_loaded: Vec<TimeRange>,
        time_range_expected_to_load: TimeRange,
    },
    /// A task resolved its media selection.
    DidResolveMediaSelection { task_identifier: usize },
    /// An aggregate task picked its download location.
    AggregateWillDownloadToUrl { task_identifier: usize, location: String },
    /// An aggregate task completed a media selection.
    AggregateDidCompleteForMediaSelection { task_identifier: usize },
    /// An aggregate task loaded another time range.
    AggregateDidLoadTimeRange {
        task_identifier: usize,
        loaded_time_range: TimeRange,
        total_time_ranges_loaded: Vec<TimeRange>,
        time_range_expected_to_load: TimeRange,
    },
    /// A task is about to download variants.
    WillDownloadVariants { task_identifier: usize, variant_count: usize },
    /// A task received a metric event.
    DidReceiveMetricEvent { task_identifier: usize, metric_event_class_name: String },
}

/// What a delegate payload decodes to: the event named by `p.event`, built
/// from the payload's fields; `None` for an unknown name or when a field that
/// the event needs is missing.
pub open spec fn delegate_event_spec(
    p: AssetDownloadDelegateEventPayload,
    r: Option<AssetDownloadDelegateEvent>,
) -> bool {
    let name = p.event@;
    let ranges_present = p.loaded_time_range is Some && p.total_time_ranges_loaded is Some
        && p.time_range_expected_to_load is Some;
    if name == "will_download_to_url"@ {
        match p.location {
            Some(location) => r == Some(
                AssetDownloadDelegateEvent::WillDownloadToUrl {
                    task_identifier: p.task_identifier,
                    location,
                },
            ),
            None => r is None,
        }
    } else if name == "did_load_time_range"@ {
        if ranges_present {
            r == Some(
                AssetDownloadDelegateEvent::DidLoadTimeRange {
                    task_identifier: p.task_identifier,
                    loaded_time_range: p.loaded_time_range.unwrap(),
                    total_time_ranges_loaded: p.total_time_ranges_loaded.unwrap(),
                    time_range_expected_to_load: p.time_range_expected_to_load.unwrap(),
                },
            )
        } else {
            r is None
        }
    } else if name == "did_resolve_media_selection"@ {
        r == Some(
            AssetDownloadDelegateEvent::DidResolveMediaSelection {
                task_identifier: p.task_identifier,
            },
        )
    } else if name == "aggregate_will_download_to_url"@ {
        match p.location {
            Some(location) => r == Some(
                AssetDownloadDelegateEvent::AggregateWillDownloadToUrl {
                    task_identifier: p.task_identifier,
                    location,
                },
            ),
            None => r is None,
        }
    } else if name == "aggregate_did_complete_for_media_selection"@ {
        r == Some(
            AssetDownloadDelegateEvent::AggregateDidCompleteForMediaSelection {
                task_identifier: p.task_identifier,
            },
        )
    } else if name == "aggregate_did_load_time_range"@ {
        if ranges_present {
            r == Some(
                AssetDownloadDelegateEvent::AggregateDidLoadTimeRange {
                    task_identifier: p.task_identifier,
                    loaded_time_range: p.loaded_time_range.unwrap(),
                    total_time_ranges_loaded: p.total_time_ranges_loaded.unwrap(),
                    time_range_expected_to_load: p.time_range_expected_to_load.unwrap(),
                },
            )
        } else {
            r is None
        }
    } else if name == "will_download_variants"@ {
        r == Some(
            AssetDownloadDelegateEvent::WillDownloadVariants {
                task_identifier: p.task_identifier,
                variant_count: match p.variant_count {
                    Some(n) => n,
                    None => 0,
                },
            },
        )
    } else if name == "did_receive_metric_event"@ {
        match r {
            Some(AssetDownloadDelegateEvent::DidReceiveMetricEvent {
                task_identifier,
                metric_event_class_name,
            }) => task_identifier == p.task_identifier && metric_event_class_name@ == (
            match p.metric_event_class_name {
                Some(name) => name@,
                None => Seq::<char>::empty(),
            }),
            _ => false,
        }
    } else {
        r is None
    }
}

/// The task a delegate event is about.
pub open spec fn delegate_event_task(e: AssetDownloadDelegateEvent) -> usize {
    match e {
        AssetDownloadDelegateEvent::WillDownloadToUrl { task_identifier, .. } => task_identifier,
        AssetDownloadDelegateEvent::DidLoadTimeRange { task_identifier, .. } => task_identifier,
        AssetDownloadDelegateEvent::DidResolveMediaSelection { task_identifier } => task_identifier,
        AssetDownloadDelegateEvent::AggregateWillDownloadToUrl { task_identifier, .. } => task_identifier,
        AssetDownloadDelegateEvent::AggregateDidCompleteForMediaSelection { task_identifier } => task_identifier,
        AssetDownloadDelegateEvent::AggregateDidLoadTimeRange { task_identifier, .. } => task_identifier,
        AssetDownloadDelegateEvent::WillDownloadVariants { task_identifier, .. } => task_identifier,
        AssetDownloadDelegateEvent::DidReceiveMetricEvent { task_identifier, .. } => task_identifier,
    }
}

/// A delegate event is about the task its payload names, and carries what
/// the payload reports: a time-range event, aggregate or not, holds each of
/// the three ranges in the field of the same name (and needs all three); a
/// location event holds the location; the two kinds of each event are told
/// apart by the aggregate prefix of the name.
pub proof fn lemma_delegate_event_carries_payload(p: AssetDownloadDelegateEventPayload, r: Option<AssetDownloadDelegateEvent>)
    requires
        delegate_event_spec(p, r),
    ensures
        r matches Some(e) ==> delegate_event_task(e) == p.task_identifier,
        p.event@ == "did_load_time_range"@ || p.event@ == "aggregate_did_load_time_range"@ ==> (r is Some
            <==> p.loaded_time_range is Some && p.total_time_ranges_loaded is Some && p.time_range_expected_to_load is Some),
        p.event@ == "aggregate_did_load_time_range"@ ==> (r is Some ==> (r matches Some(
            AssetDownloadDelegateEvent::AggregateDidLoadTimeRange {
                loaded_time_range,
                total_time_ranges_loaded,
                time_range_expected_to_load,
                ..
            },
        ) && p.loaded_time_range == Some(loaded_time_range) && p.total_time_ranges_loaded == Some(
            total_time_ranges_loaded,
        ) && p.time_range_expected_to_load == Some(time_range_expected_to_load))),
        p.event@ == "did_load_time_range"@ ==> (r is Some ==> (r matches Some(
            AssetDownloadDelegateEvent::DidLoadTimeRange {
                loaded_time_range,
                total_time_ranges_loaded,
                time_range_expected_to_load,
                ..
            },
        ) && p.loaded_time_range == Some(loaded_time_range) && p.total_time_ranges_loaded == Some(
            total_time_ranges_loaded,
        ) && p.time_range_expected_to_load == Some(time_range_expected_to_load))),
        p.event@ == "will_download_to_url"@ ==> (r is Some <==> p.location is Some) && (r is Some ==> (r matches Some(
            AssetDownloadDelegateEvent::WillDownloadToUrl { location, .. },
        ) && p.location == Some(location))),
        p.event@ == "aggregate_will_download_to_url"@ ==> (r is Some <==> p.location is Some) && (r is Some ==> (r matches Some(
            AssetDownloadDelegateEvent::AggregateWillDownloadToUrl { location, .. },
        ) && p.location == Some(location))),
{
    reveal_strlit("will_download_to_url");
    reveal_strlit("did_load_time_range");
    reveal_strlit("did_resolve_media_selection");
    reveal_strlit("aggregate_will_download_to_url");
    reveal_strlit("aggregate_did_complete_for_media_selection");
    reveal_strlit("aggregate_did_load_time_range");
    reveal_strlit("will_download_variants");
    reveal_strlit("did_receive_metric_event");
    assert("will_download_to_url"@.len() != "did_load_time_range"@.len());
    assert("will_download_to_url"@.len() != "did_resolve_media_selection"@.len());
    assert("will_download_to_url"@.len() != "aggregate_will_download_to_url"@.len());
    assert("will_download_to_url"@.len() != "aggregate_did_complete_for_media_selection"@.len());
    assert("will_download_to_url"@.len() != "aggregate_did_load_time_range"@.len());
    assert("will_download_to_url"@.len() != "will_download_variants"@.len());
    assert("will_download_to_url"@.len() != "did_receive_metric_event"@.len());
    assert("did_load_time_range"@.len() != "did_resolve_media_selection"@.len());
    assert("did_load_time_range"@.len() != "aggregate_will_download_to_url"@.len());
    assert("did_load_time_range"@.len() != "aggregate_did_complete_for_media_selection"@.len());
    assert("did_load_time_range"@.len() != "aggregate_did_load_time_range"@.len());
    assert("did_load_time_range"@.len() != "will_download_variants"@.len());
    assert("did_load_time_range"@.len() != "did_receive_metric_event"@.len());
    assert("did_resolve_media_selection"@.len() != "aggregate_will_download_to_url"@.len());
    assert("did_resolve_media_selection"@.len() != "aggregate_did_complete_for_media_selection"@.len());
    assert("did_resolve_media_selection"@.len() != "aggregate_did_load_time_range"@.len());
    assert("did_resolve_media_selection"@.len() != "will_download_variants"@.len());
    assert("did_resolve_media_selection"@.len() != "did_receive_metric_event"@.len());
    assert("aggregate_will_download_to_url"@.len() != "aggregate_did_complete_for_media_selection"@.len());
    assert("aggregate_will_download_to_url"@.len() != "aggregate_did_load_time_range"@.len());
    assert("aggregate_will_download_to_url"@.len() != "will_download_variants"@.len());
    assert("aggregate_will_download_to_url"@.len() != "did_receive_metric_event"@.len());
    assert("aggregate_did_complete_for_media_selection"@.len() != "aggregate_did_load_time_range"@.len());
    assert("aggregate_did_complete_for_media_selection"@.len() != "will_download_variants"@.len());
    assert("aggregate_did_complete_for_media_selection"@.len() != "did_receive_metric_event"@.len());
    assert("aggregate_did_load_time_range"@.len() != "will_download_variants"@.len());
    assert("aggregate_did_load_time_range"@.len() != "did_receive_metric_event"@.len());
    assert("will_download_variants"@.len() != "did_receive_metric_event"@.len());
}

impl AssetDownloadDelegateEvent {
    /// Decodes a delegate payload into the event it reports.
    pub fn from_payload(payload: AssetDownloadDelegateEventPayload) -> (r: Option<Self>)
        ensures
            delegate_event_spec(payload, r),
    {
        let ghost p = payload;
        if str_eq(payload.event.as_str(), "will_download_to_url") {
            match payload.require_location() {
                Some((task_identifier, location)) => Some(
                    AssetDownloadDelegateEvent::WillDownloadToUrl { task_identifier, location },
                ),
                None => None,
            }
        } else if str_eq(payload.event.as_str(), "did_load_time_range") {
            match payload.require_time_ranges() {
                Some((
                    task_identifier,
                    loaded_time_range,
                    total_time_ranges_loaded,
                    time_range_expected_to_load,
                )) => Some(
                    AssetDownloadDelegateEvent::DidLoadTimeRange {
                        task_identifier,
                        loaded_time_range,
                        total_time_ranges_loaded,
                        time_range_expected_to_load,
                    },
                ),
                None => None,
            }
        } else if str_eq(payload.event.as_str(), "did_resolve_media_selection") {
            Some(
                AssetDownloadDelegateEvent::DidResolveMediaSelection {
                    task_identifier: payload.task_identifier,
                },
            )
        } else if str_eq(payload.event.as_str(), "aggregate_will_download_to_url") {
            match payload.require_location() {
                Some((task_identifier, location)) => Some(
                    AssetDownloadDelegateEvent::AggregateWillDownloadToUrl {
                        task_identifier,
                        location,
                    },
                ),
                None => None,
            }
        } else if str_eq(payload.event.as_str(), "aggregate_did_complete_for_media_selection") {
            Some(
                AssetDownloadDelegateEvent::AggregateDidCompleteForMediaSelection {
                    task_identifier: payload.task_identifier,
                },
            )
        } else if str_eq(payload.event.as_str(), "aggregate_did_load_time_range") {
            match payload.require_time_ranges() {
                Some((
                    task_identifier,
                    loaded_time_range,
                    total_time_ranges_loaded,
                    time_range_expected_to_load,
                )) => Some(
                    AssetDownloadDelegateEvent::AggregateDidLoadTimeRange {
                        task_identifier,
                        loaded_time_range,
                        total_time_ranges_loaded,
                        time_range_expected_to_load,
                    },
                ),
                None => None,
            }
        } else if str_eq(payload.event.as_str(), "will_download_variants") {
            let variant_count = match payload.variant_count {
                Some(n) => n,
                None => 0,
            };
            Some(
                AssetDownloadDelegateEvent::WillDownloadVariants {
                    task_identifier: payload.task_identifier,
                    variant_count,
                },
            )
        } else if str_eq(payload.event.as_str(), "did_receive_metric_event") {
            let metric_event_class_name = match payload.metric_event_class_name {
                Some(name) => name,
                None => String::new(),
            };
            Some(
                AssetDownloadDelegateEvent::DidReceiveMetricEvent {
                    task_identifier: payload.task_identifier,
                    metric_event_class_name,
                },
            )
        } else {
            None
        }
    }
}

/// The outcome of looking up the storage-management policy of a file: the
/// bridge's policy object when it returned one; no policy when it returned
/// none and reported no error; otherwise the `OperationFailed` error with the
/// bridge's message.
pub fn storage_policy_lookup(policy: u64, error_message: Option<String>) -> (r: Result<Option<u64>, AVPlayerError>)
    ensures
        policy != 0 ==> r == Ok::<Option<u64>, AVPlayerError>(Some(policy)),
        policy == 0 && error_message is None ==> r == Ok::<Option<u64>, AVPlayerError>(None),
        policy == 0 && error_message is Some ==> (match r {
            Err(e) => e is OperationFailed && e.message_of() == error_message->0@,
            Ok(_) => false,
        }),
{
    if policy != 0 {
        return Ok(Some(policy));
    }
    match error_message {
        None => Ok(None),
        Some(message) => Err(from_status(crate::status::OPERATION_FAILED, message)),
    }
}

} // verus!
