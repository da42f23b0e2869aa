use avplayer::player_interstitial_event::PlayerInterstitialEventInfoPayload;
use avplayer::player_item_integrated_timeline::{
    segment_and_offset_from_payload, PlayerIntegratedTimelineOutOfSyncEvent,
    PlayerIntegratedTimelineSnapshotsOutOfSyncReason, PlayerItemIntegratedTimelineInfo,
    PlayerItemIntegratedTimelineInfoPayload, PlayerItemIntegratedTimelineSegmentOffsetPayload,
    PlayerItemIntegratedTimelineSegmentPayload, PlayerItemIntegratedTimelineSnapshotInfo,
    PlayerItemIntegratedTimelineSnapshotPayload, PlayerItemSegmentType,
};
use avplayer::player_looper::{checked_looping_item_count, loop_range_to_raw};
use avplayer::error::AVPlayerError;
use avplayer::time::{Time, TimeRange};

fn range(start: i64, duration: i64) -> TimeRange {
    TimeRange::new(Time::new(start, 1), Time::new(duration, 1))
}

fn segment(kind: i32, start: i64) -> PlayerItemIntegratedTimelineSegmentPayload {
    PlayerItemIntegratedTimelineSegmentPayload {
        segment_type_raw: kind,
        time_mapping_source: range(start, 10),
        time_mapping_target: range(start, 10),
        loaded_time_ranges: vec![range(start, 5)],
        start_date: None,
        interstitial_event: None,
    }
}

fn snapshot(index: Option<usize>) -> PlayerItemIntegratedTimelineSnapshotPayload {
    PlayerItemIntegratedTimelineSnapshotPayload {
        duration: Time::new(30, 1),
        current_time: Time::new(12, 1),
        current_date: None,
        current_segment_index: index,
        segments: vec![segment(0, 0), segment(1, 10), segment(0, 20)],
    }
}

fn bad_interstitial() -> PlayerInterstitialEventInfoPayload {
    PlayerInterstitialEventInfoPayload {
        identifier: "ad".to_owned(),
        time: Time::new(10, 1),
        date: None,
        template_item_count: 0,
        restrictions: 0,
        resumption_offset: Time::new(0, 1),
        playout_limit: Time::new(0, 1),
        aligns_start_with_primary_segment_boundary: false,
        aligns_resumption_with_primary_segment_boundary: false,
        cue: None,
        will_play_once: false,
        user_defined_attributes_json: Some("{".to_owned()),
        asset_list_response_json: None,
        timeline_occupancy_raw: None,
        supplements_primary_content: None,
        content_may_vary: None,
        has_primary_item: false,
    }
}

#[test]
fn snapshots_pick_the_current_segment() {
    let s = PlayerItemIntegratedTimelineSnapshotInfo::from_payload(snapshot(Some(1))).unwrap();
    assert_eq!(s.segments.len(), 3);
    assert_eq!(s.segments[1].segment_type, PlayerItemSegmentType::Interstitial);
    let current = s.current_segment.unwrap();
    assert_eq!(current.segment_type, PlayerItemSegmentType::Interstitial);
    assert_eq!(current.time_mapping_source, range(10, 10));
    assert_eq!(current.loaded_time_ranges, vec![range(10, 5)]);
    let s = PlayerItemIntegratedTimelineSnapshotInfo::from_payload(snapshot(Some(3))).unwrap();
    assert!(s.current_segment.is_none());
    assert_eq!(s.current_segment_index, Some(3));
    let s = PlayerItemIntegratedTimelineSnapshotInfo::from_payload(snapshot(None)).unwrap();
    assert!(s.current_segment.is_none());
}

#[test]
fn snapshots_fail_when_a_segment_fails() {
    let mut p = snapshot(Some(0));
    p.segments[2].interstitial_event = Some(bad_interstitial());
    assert!(PlayerItemIntegratedTimelineSnapshotInfo::from_payload(p).is_err());
}

#[test]
fn segments_with_offsets() {
    let (seg, offset) = segment_and_offset_from_payload(PlayerItemIntegratedTimelineSegmentOffsetPayload {
        segment: segment(0, 20),
        offset: Time::new(3, 1),
    })
    .unwrap();
    assert_eq!(seg.segment_type, PlayerItemSegmentType::Primary);
    assert_eq!(offset, Time::new(3, 1));
    let mut bad = segment(1, 0);
    bad.interstitial_event = Some(bad_interstitial());
    assert!(segment_and_offset_from_payload(PlayerItemIntegratedTimelineSegmentOffsetPayload {
        segment: bad,
        offset: Time::new(0, 1),
    })
    .is_err());
}

#[test]
fn timeline_info_and_out_of_sync_reasons() {
    let info = PlayerItemIntegratedTimelineInfo::from_payload(PlayerItemIntegratedTimelineInfoPayload {
        current_time: Time::new(4, 2),
        current_date: Some("2024".to_owned()),
    });
    assert_eq!(info.current_time, Time::new(4, 2));
    assert_eq!(info.current_date, Some("2024".to_owned()));
    assert_eq!(
        PlayerIntegratedTimelineOutOfSyncEvent::from_reason(
            "AVPlayerIntegratedTimelineSnapshotsOutOfSyncReasonSegmentsChanged"
        )
        .reason,
        PlayerIntegratedTimelineSnapshotsOutOfSyncReason::SegmentsChanged
    );
    assert_eq!(
        PlayerIntegratedTimelineOutOfSyncEvent::from_reason("later").reason,
        PlayerIntegratedTimelineSnapshotsOutOfSyncReason::Unknown("later".to_owned())
    );
}

#[test]
fn loop_ranges_in_raw_form() {
    assert_eq!(loop_range_to_raw(None), (false, 0, 0, 1, 0, 0, 1));
    let r = TimeRange::new(Time::from_raw(5, 600, 0), Time::from_raw(60, 600, 0));
    assert_eq!(loop_range_to_raw(Some(r)), (true, 5, 600, 0, 60, 600, 0));
}

#[test]
fn looping_item_counts() {
    assert_eq!(checked_looping_item_count(3), Ok(3));
    assert_eq!(
        checked_looping_item_count(-4),
        Err(AVPlayerError::OperationFailed(
            "looping item count unexpectedly negative: -4".to_owned()
        ))
    );
}

#[test]
fn times_round_trip_through_raw_fields() {
    let t = Time::new(1001, 30000);
    assert_eq!(t.to_raw(), (1001, 30000, 0));
    assert_eq!(Time::from_raw(1001, 30000, 0), t);
    let odd = Time::from_raw(0, 0, 3);
    let (v, ts, k) = odd.to_raw();
    assert_eq!(Time::from_raw(v, ts, k), odd);
}
