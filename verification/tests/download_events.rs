use avplayer::asset::{key_load_statuses, KeyLoadStatus, KeyLoadStatusPayload, KeyValueStatus};
use avplayer::asset::{checked_track_count, require_url_asset_url};
use avplayer::asset_download::{AssetDownloadDelegateEvent, AssetDownloadDelegateEventPayload};
use avplayer::collection::checked_count;
use avplayer::error::AVPlayerError;
use avplayer::time::{Time, TimeRange};

fn payload(event: &str) -> AssetDownloadDelegateEventPayload {
    AssetDownloadDelegateEventPayload {
        event: event.to_owned(),
        task_identifier: 7,
        location: None,
        loaded_time_range: None,
        total_time_ranges_loaded: None,
        time_range_expected_to_load: None,
        variant_count: None,
        metric_event_class_name: None,
    }
}

fn range(start: i64, duration: i64) -> TimeRange {
    TimeRange::new(Time::new(start, 600), Time::new(duration, 600))
}

#[test]
fn location_events_need_a_location() {
    let mut p = payload("will_download_to_url");
    assert_eq!(AssetDownloadDelegateEvent::from_payload(p.clone()), None);
    p.location = Some("file:///tmp/a.movpkg".to_owned());
    assert_eq!(
        AssetDownloadDelegateEvent::from_payload(p.clone()),
        Some(AssetDownloadDelegateEvent::WillDownloadToUrl {
            task_identifier: 7,
            location: "file:///tmp/a.movpkg".to_owned(),
        })
    );
    p.event = "aggregate_will_download_to_url".to_owned();
    assert_eq!(
        AssetDownloadDelegateEvent::from_payload(p),
        Some(AssetDownloadDelegateEvent::AggregateWillDownloadToUrl {
            task_identifier: 7,
            location: "file:///tmp/a.movpkg".to_owned(),
        })
    );
}

#[test]
fn time_range_events_need_all_three_ranges() {
    let mut p = payload("did_load_time_range");
    p.loaded_time_range = Some(range(0, 60));
    p.total_time_ranges_loaded = Some(vec![range(0, 60)]);
    assert_eq!(AssetDownloadDelegateEvent::from_payload(p.clone()), None);
    p.time_range_expected_to_load = Some(range(0, 6000));
    assert_eq!(
        AssetDownloadDelegateEvent::from_payload(p.clone()),
        Some(AssetDownloadDelegateEvent::DidLoadTimeRange {
            task_identifier: 7,
            loaded_time_range: range(0, 60),
            total_time_ranges_loaded: vec![range(0, 60)],
            time_range_expected_to_load: range(0, 6000),
        })
    );
    p.event = "aggregate_did_load_time_range".to_owned();
    assert!(matches!(
        AssetDownloadDelegateEvent::from_payload(p),
        Some(AssetDownloadDelegateEvent::AggregateDidLoadTimeRange { task_identifier: 7, .. })
    ));
}

#[test]
fn plain_events_and_defaults() {
    assert_eq!(
        AssetDownloadDelegateEvent::from_payload(payload("did_resolve_media_selection")),
        Some(AssetDownloadDelegateEvent::DidResolveMediaSelection { task_identifier: 7 })
    );
    assert_eq!(
        AssetDownloadDelegateEvent::from_payload(payload(
            "aggregate_did_complete_for_media_selection"
        )),
        Some(AssetDownloadDelegateEvent::AggregateDidCompleteForMediaSelection {
            task_identifier: 7
        })
    );
    assert_eq!(
        AssetDownloadDelegateEvent::from_payload(payload("will_download_variants")),
        Some(AssetDownloadDelegateEvent::WillDownloadVariants {
            task_identifier: 7,
            variant_count: 0
        })
    );
    let mut v = payload("will_download_variants");
    v.variant_count = Some(3);
    assert_eq!(
        AssetDownloadDelegateEvent::from_payload(v),
        Some(AssetDownloadDelegateEvent::WillDownloadVariants {
            task_identifier: 7,
            variant_count: 3
        })
    );
    assert_eq!(
        AssetDownloadDelegateEvent::from_payload(payload("did_receive_metric_event")),
        Some(AssetDownloadDelegateEvent::DidReceiveMetricEvent {
            task_identifier: 7,
            metric_event_class_name: String::new(),
        })
    );
    assert_eq!(AssetDownloadDelegateEvent::from_payload(payload("bogus")), None);
}

#[test]
fn payload_field_requirements() {
    let mut p = payload("x");
    assert_eq!(p.clone().require_location(), None);
    p.location = Some("here".to_owned());
    assert_eq!(p.clone().require_location(), Some((7, "here".to_owned())));
    assert_eq!(p.clone().require_time_ranges(), None);
    p.loaded_time_range = Some(range(1, 2));
    p.total_time_ranges_loaded = Some(Vec::new());
    p.time_range_expected_to_load = Some(range(3, 4));
    assert_eq!(
        p.require_time_ranges(),
        Some((7, range(1, 2), Vec::new(), range(3, 4)))
    );
}

#[test]
fn counts_reject_negatives() {
    assert_eq!(checked_count(3, "download media selection"), Ok(3));
    assert_eq!(checked_count(0, "download media selection"), Ok(0));
    assert_eq!(
        checked_count(-2, "download media selection"),
        Err(AVPlayerError::OperationFailed(
            "invalid download media selection count: -2".to_owned()
        ))
    );
    assert_eq!(checked_track_count(4), Ok(4));
    assert_eq!(
        checked_track_count(-1),
        Err(AVPlayerError::OperationFailed(
            "track count unexpectedly negative: -1".to_owned()
        ))
    );
}

#[test]
fn url_assets_need_a_url() {
    assert_eq!(require_url_asset_url(Some("https://x/y.m3u8".to_owned())), Ok("https://x/y.m3u8".to_owned()));
    assert_eq!(
        require_url_asset_url(None),
        Err(AVPlayerError::OperationFailed(
            "asset is not backed by AVURLAsset".to_owned()
        ))
    );
}

#[test]
fn key_load_statuses_keep_order() {
    let out = key_load_statuses(vec![
        KeyLoadStatusPayload { key: "duration".to_owned(), status: 2, error_message: None },
        KeyLoadStatusPayload {
            key: "tracks".to_owned(),
            status: 3,
            error_message: Some("nope".to_owned()),
        },
    ]);
    assert_eq!(
        out,
        vec![
            KeyLoadStatus {
                key: "duration".to_owned(),
                status: KeyValueStatus::Loaded,
                error_message: None
            },
            KeyLoadStatus {
                key: "tracks".to_owned(),
                status: KeyValueStatus::Failed,
                error_message: Some("nope".to_owned())
            },
        ]
    );
}
