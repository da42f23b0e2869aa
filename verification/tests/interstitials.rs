use avplayer::error::AVPlayerError;
use avplayer::player_interstitial_event::{
    parse_json_value, PlayerInterstitialEventAssetListResponseStatus, PlayerInterstitialEventCue,
    PlayerInterstitialEventInfo, PlayerInterstitialEventInfoPayload,
    PlayerInterstitialEventMonitorEvent, PlayerInterstitialEventMonitorState,
    PlayerInterstitialEventRestrictions, PlayerInterstitialEventSkippableEventState,
    PlayerInterstitialEventTimelineOccupancy, PlayerInterstitialMonitorEventPayload,
    PlayerInterstitialMonitorStatePayload,
};
use avplayer::time::Time;

fn info_payload(id: &str) -> PlayerInterstitialEventInfoPayload {
    PlayerInterstitialEventInfoPayload {
        identifier: id.to_owned(),
        time: Time::new(30, 1),
        date: None,
        template_item_count: 1,
        restrictions: 5,
        resumption_offset: Time::new(0, 1),
        playout_limit: Time::new(15, 1),
        aligns_start_with_primary_segment_boundary: true,
        aligns_resumption_with_primary_segment_boundary: false,
        cue: Some("join_cue".to_owned()),
        will_play_once: true,
        user_defined_attributes_json: Some("{\"X-AD\":\"1\"}".to_owned()),
        asset_list_response_json: None,
        timeline_occupancy_raw: Some(1),
        supplements_primary_content: None,
        content_may_vary: Some(false),
        has_primary_item: true,
    }
}

fn monitor_payload(event: &str) -> PlayerInterstitialMonitorEventPayload {
    PlayerInterstitialMonitorEventPayload {
        event: event.to_owned(),
        interstitial_event: None,
        asset_list_response_status_raw: None,
        skippable_state_raw: None,
        skip_control_label: None,
        error_message: None,
        playout_time: None,
        did_play_entire_event: None,
    }
}

fn json(text: &str) -> serde_json::Value {
    serde_json::from_str::<serde_json::Value>(text).unwrap()
}

#[test]
fn restriction_sets_combine_with_bitor() {
    let both = PlayerInterstitialEventRestrictions::constrains_seeking_forward_in_primary_content()
        | PlayerInterstitialEventRestrictions::requires_playback_at_preferred_rate_for_advancement();
    assert_eq!(both.bits(), 5);
    assert!(both.contains(
        PlayerInterstitialEventRestrictions::constrains_seeking_forward_in_primary_content()
    ));
    assert!(both.contains(PlayerInterstitialEventRestrictions::none()));
    assert!(!PlayerInterstitialEventRestrictions::default_policy().contains(both));
    assert_eq!(
        PlayerInterstitialEventRestrictions::default(),
        PlayerInterstitialEventRestrictions::none()
    );
    let mut r = PlayerInterstitialEventRestrictions::from_bits(1);
    r |= PlayerInterstitialEventRestrictions::from_bits(4);
    assert_eq!(r, both);
    assert_eq!(
        PlayerInterstitialEventRestrictions::from_bits(2)
            .union(PlayerInterstitialEventRestrictions::from_bits(1))
            .bits(),
        3
    );
}

#[test]
fn json_texts_parse_or_fail_with_a_prefixed_message() {
    assert_eq!(parse_json_value(None), Ok(None));
    assert_eq!(
        parse_json_value(Some("{\"a\":[1,2]}".to_owned())),
        Ok(Some(json("{\"a\":[1,2]}")))
    );
    match parse_json_value(Some("{not json".to_owned())) {
        Err(AVPlayerError::OperationFailed(message)) => {
            assert!(message.starts_with("failed to decode interstitial event JSON payload: "));
            assert!(message.len() > "failed to decode interstitial event JSON payload: ".len());
        }
        other => panic!("unexpected: {other:?}"),
    }
}

#[test]
fn event_descriptions_decode_their_fields() {
    let info = PlayerInterstitialEventInfo::from_payload(info_payload("ad-1")).unwrap();
    assert_eq!(info.identifier, "ad-1");
    assert_eq!(info.time, Time::new(30, 1));
    assert_eq!(info.restrictions.bits(), 5);
    assert_eq!(info.cue, Some(PlayerInterstitialEventCue::JoinCue));
    assert_eq!(info.user_defined_attributes, Some(json("{\"X-AD\":\"1\"}")));
    assert_eq!(info.asset_list_response, None);
    assert_eq!(info.timeline_occupancy, Some(PlayerInterstitialEventTimelineOccupancy::Fill));
    assert_eq!(info.content_may_vary, Some(false));
    assert_eq!(info.duplicate(), info);
}

#[test]
fn event_descriptions_reject_bad_json() {
    let mut p = info_payload("ad-2");
    p.asset_list_response_json = Some("[1,".to_owned());
    assert!(matches!(
        PlayerInterstitialEventInfo::from_payload(p),
        Err(AVPlayerError::OperationFailed(_))
    ));
}

#[test]
fn monitor_states_decode_all_events_or_fail() {
    let state = PlayerInterstitialEventMonitorState::from_payload(
        PlayerInterstitialMonitorStatePayload {
            events: vec![info_payload("a"), info_payload("b")],
            current_event: Some(info_payload("b")),
            current_event_skippable_state_raw: Some(1),
            current_event_skip_control_label: Some("Skip".to_owned()),
        },
    )
    .unwrap();
    assert_eq!(state.events.len(), 2);
    assert_eq!(state.events[0].identifier, "a");
    assert_eq!(state.current_event.as_ref().map(|e| e.identifier.clone()), Some("b".to_owned()));
    assert_eq!(
        state.current_event_skippable_state,
        Some(PlayerInterstitialEventSkippableEventState::NotYetEligible)
    );
    let mut bad = info_payload("c");
    bad.user_defined_attributes_json = Some("nope".to_owned());
    assert!(PlayerInterstitialEventMonitorState::from_payload(
        PlayerInterstitialMonitorStatePayload {
            events: vec![info_payload("a"), bad],
            current_event: None,
            current_event_skippable_state_raw: None,
            current_event_skip_control_label: None,
        }
    )
    .is_err());
}

#[test]
fn monitor_events_decode_by_name() {
    assert_eq!(
        PlayerInterstitialEventMonitorEvent::from_payload(monitor_payload("events_did_change")),
        Some(PlayerInterstitialEventMonitorEvent::EventsDidChange)
    );
    assert_eq!(
        PlayerInterstitialEventMonitorEvent::from_payload(monitor_payload("current_event_did_change")),
        Some(PlayerInterstitialEventMonitorEvent::CurrentEventDidChange)
    );
    let mut p = monitor_payload("asset_list_response_status_did_change");
    p.asset_list_response_status_raw = Some(2);
    p.error_message = Some("404".to_owned());
    assert_eq!(
        PlayerInterstitialEventMonitorEvent::from_payload(p),
        Some(PlayerInterstitialEventMonitorEvent::AssetListResponseStatusDidChange {
            interstitial_event: None,
            status: PlayerInterstitialEventAssetListResponseStatus::Unavailable,
            error_message: Some("404".to_owned()),
        })
    );
    let mut p = monitor_payload("current_event_skippable_state_did_change");
    p.skip_control_label = Some("Skip Ad".to_owned());
    assert_eq!(
        PlayerInterstitialEventMonitorEvent::from_payload(p),
        Some(PlayerInterstitialEventMonitorEvent::CurrentEventSkippableStateDidChange {
            interstitial_event: None,
            state: PlayerInterstitialEventSkippableEventState::NotSkippable,
            skip_control_label: Some("Skip Ad".to_owned()),
        })
    );
    let mut p = monitor_payload("interstitial_event_did_finish");
    p.interstitial_event = Some(info_payload("z"));
    p.playout_time = Some(Time::new(14, 1));
    p.did_play_entire_event = Some(true);
    match PlayerInterstitialEventMonitorEvent::from_payload(p) {
        Some(PlayerInterstitialEventMonitorEvent::InterstitialEventDidFinish {
            interstitial_event: Some(info),
            playout_time,
            did_play_entire_event,
        }) => {
            assert_eq!(info.identifier, "z");
            assert_eq!(playout_time, Some(Time::new(14, 1)));
            assert_eq!(did_play_entire_event, Some(true));
        }
        other => panic!("unexpected: {other:?}"),
    }
    let mut p = monitor_payload("current_event_skipped");
    let mut bad = info_payload("y");
    bad.user_defined_attributes_json = Some("{".to_owned());
    p.interstitial_event = Some(bad);
    assert_eq!(
        PlayerInterstitialEventMonitorEvent::from_payload(p),
        Some(PlayerInterstitialEventMonitorEvent::CurrentEventSkipped { interstitial_event: None })
    );
    assert_eq!(
        PlayerInterstitialEventMonitorEvent::from_payload(monitor_payload(
            "interstitial_event_was_unscheduled"
        )),
        Some(PlayerInterstitialEventMonitorEvent::InterstitialEventWasUnscheduled {
            interstitial_event: None,
            error_message: None,
        })
    );
    assert_eq!(
        PlayerInterstitialEventMonitorEvent::from_payload(monitor_payload("unknown")),
        None
    );
}

#[test]
fn each_json_value_comes_from_its_own_text() {
    let mut p = info_payload("ad-3");
    p.user_defined_attributes_json = Some("{\"a\":1}".to_owned());
    p.asset_list_response_json = Some("[true, null]".to_owned());
    let info = PlayerInterstitialEventInfo::from_payload(p).unwrap();
    assert_eq!(info.user_defined_attributes, Some(json("{\"a\":1}")));
    assert_eq!(info.asset_list_response, Some(json("[true, null]")));
}
