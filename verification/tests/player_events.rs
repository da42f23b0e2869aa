use avplayer::error::AVPlayerError;
use avplayer::player::{
    PlayerItemEvent, PlayerItemEventPayload, PlayerItemStatus, PlayerStatus, PlayerStatusEvent,
    PlayerStatusEventPayload,
};
use avplayer::player_item::{
    variant_preferences_from_info, PlayerItemVideoCompositorInfo,
    PlayerItemVideoCompositorPayload, VariantPreferences,
};
use avplayer::player_item_error_log::{
    error_log_events, ErrorLogEventPayload, PlayerItemErrorLogEvent,
};
use avplayer::player_item_legible_output::{
    LegibleOutputEventPayload, PlayerItemLegibleOutputEvent,
};
use avplayer::player_item_metadata_collector::{
    media_data_collector_infos, PlayerItemMediaDataCollectorInfoPayload,
    PlayerItemMediaDataCollectorKind,
};
use avplayer::player_item_video_output::PlayerItemVideoOutputEvent;
use avplayer::player_media_selection_criteria::{
    PlayerActionAtItemEnd, PlayerNetworkResourcePriority, PlayerPlaybackInfoPayload,
    PlayerTimeControlStatus, PlayerWaitingReason,
};
use avplayer::time::Time;
use std::collections::BTreeMap;

fn status_payload(event: &str) -> PlayerStatusEventPayload {
    PlayerStatusEventPayload {
        event: event.to_owned(),
        status: None,
        error_message: None,
        time_control_status: None,
        reason_for_waiting_to_play: None,
    }
}

fn item_payload(event: &str) -> PlayerItemEventPayload<(u32, u32)> {
    PlayerItemEventPayload {
        event: event.to_owned(),
        status: None,
        error_message: None,
        presentation_size: None,
        has_originating_participant: None,
        recommended_time_offset_from_live: None,
    }
}

#[test]
fn player_status_events_need_their_status() {
    assert_eq!(PlayerStatusEvent::from_payload(status_payload("status_changed")), None);
    let mut p = status_payload("status_changed");
    p.status = Some(2);
    p.error_message = Some("decoder".to_owned());
    assert_eq!(
        PlayerStatusEvent::from_payload(p),
        Some(PlayerStatusEvent::StatusChanged {
            status: PlayerStatus::Failed,
            error_message: Some("decoder".to_owned()),
        })
    );
    let mut p = status_payload("time_control_status_changed");
    p.time_control_status = Some(1);
    p.reason_for_waiting_to_play = Some("AVPlayerWaitingToMinimizeStallsReason".to_owned());
    assert_eq!(
        PlayerStatusEvent::from_payload(p),
        Some(PlayerStatusEvent::TimeControlStatusChanged {
            time_control_status: PlayerTimeControlStatus::WaitingToPlayAtSpecifiedRate,
            reason_for_waiting_to_play: Some("AVPlayerWaitingToMinimizeStallsReason".to_owned()),
        })
    );
    assert_eq!(PlayerStatusEvent::from_payload(status_payload("other")), None);
}

#[test]
fn player_item_events_decode_by_name() {
    assert_eq!(
        PlayerItemEvent::from_payload(item_payload("status_changed")),
        Some(PlayerItemEvent::StatusChanged { status: PlayerItemStatus::Unknown, error_message: None })
    );
    assert_eq!(PlayerItemEvent::from_payload(item_payload("presentation_size_changed")), None);
    let mut p = item_payload("presentation_size_changed");
    p.presentation_size = Some((1920, 1080));
    assert_eq!(
        PlayerItemEvent::from_payload(p),
        Some(PlayerItemEvent::PresentationSizeChanged((1920, 1080)))
    );
    assert_eq!(
        PlayerItemEvent::from_payload(item_payload("time_jumped")),
        Some(PlayerItemEvent::TimeJumped { has_originating_participant: false })
    );
    assert_eq!(
        PlayerItemEvent::from_payload(item_payload("did_play_to_end")),
        Some(PlayerItemEvent::DidPlayToEnd)
    );
    assert_eq!(
        PlayerItemEvent::from_payload(item_payload("playback_stalled")),
        Some(PlayerItemEvent::PlaybackStalled)
    );
    assert_eq!(
        PlayerItemEvent::from_payload(item_payload("new_access_log_entry")),
        Some(PlayerItemEvent::NewAccessLogEntry)
    );
    assert_eq!(
        PlayerItemEvent::from_payload(item_payload("new_error_log_entry")),
        Some(PlayerItemEvent::NewErrorLogEntry)
    );
    assert_eq!(
        PlayerItemEvent::from_payload(item_payload("media_selection_changed")),
        Some(PlayerItemEvent::MediaSelectionChanged)
    );
    let mut p = item_payload("recommended_time_offset_from_live_did_change");
    assert_eq!(PlayerItemEvent::from_payload(p.clone()), None);
    p.recommended_time_offset_from_live = Some(Time::new(3, 1));
    assert_eq!(
        PlayerItemEvent::from_payload(p),
        Some(PlayerItemEvent::RecommendedTimeOffsetFromLiveDidChange(Time::new(3, 1)))
    );
    let mut p = item_payload("failed_to_play_to_end");
    p.error_message = Some("network".to_owned());
    assert_eq!(
        PlayerItemEvent::from_payload(p),
        Some(PlayerItemEvent::FailedToPlayToEnd { error_message: Some("network".to_owned()) })
    );
    assert_eq!(PlayerItemEvent::from_payload(item_payload("nope")), None);
}

#[test]
fn playback_info_defaults_and_availability() {
    let info = PlayerPlaybackInfoPayload {
        time_control_status: None,
        reason_for_waiting_to_play: None,
        action_at_item_end: None,
        muted: None,
        automatically_waits_to_minimize_stalling: Some(true),
        applies_media_selection_criteria_automatically: None,
        eligible_for_hdr_playback: None,
        audiovisual_background_playback_policy: None,
        network_resource_priority: Some(1),
    };
    assert_eq!(info.time_control_status(), PlayerTimeControlStatus::Paused);
    assert_eq!(info.waiting_reason(), None);
    assert_eq!(info.action_at_item_end(), PlayerActionAtItemEnd::Pause);
    assert!(!info.is_muted());
    assert!(info.automatically_waits_to_minimize_stalling());
    assert!(!info.applies_media_selection_criteria_automatically());
    assert_eq!(
        info.eligible_for_hdr_playback(),
        Err(AVPlayerError::OperationFailed(
            "AVPlayer.eligibleForHDRPlayback requires macOS 10.15+".to_owned()
        ))
    );
    assert_eq!(
        info.audiovisual_background_playback_policy(),
        Err(AVPlayerError::OperationFailed(
            "AVPlayer.audiovisualBackgroundPlaybackPolicy requires macOS 12.0+".to_owned()
        ))
    );
    assert_eq!(info.network_resource_priority(), Ok(PlayerNetworkResourcePriority::Low));
    let info = PlayerPlaybackInfoPayload {
        reason_for_waiting_to_play: Some("AVPlayerWaitingForCoordinatedPlaybackReason".to_owned()),
        eligible_for_hdr_playback: Some(true),
        network_resource_priority: None,
        ..info
    };
    assert_eq!(info.waiting_reason(), Some(PlayerWaitingReason::ForCoordinatedPlayback));
    assert_eq!(info.eligible_for_hdr_playback(), Ok(true));
    assert_eq!(
        info.network_resource_priority(),
        Err(AVPlayerError::OperationFailed(
            "AVPlayer.networkResourcePriority requires macOS 26.0+".to_owned()
        ))
    );
}

#[test]
fn variant_preferences_are_bit_sets() {
    let both = VariantPreferences::none() | VariantPreferences::scalability_to_lossless_audio();
    assert_eq!(both.bits(), 1);
    assert!(both.contains(VariantPreferences::scalability_to_lossless_audio()));
    assert!(!VariantPreferences::none().contains(VariantPreferences::scalability_to_lossless_audio()));
    let mut p = VariantPreferences::from_bits(4);
    p |= VariantPreferences::from_bits(1);
    assert_eq!(p.bits(), 5);
    assert_eq!(variant_preferences_from_info(Some(1)), Ok(VariantPreferences(1)));
    assert_eq!(
        variant_preferences_from_info(None),
        Err(AVPlayerError::OperationFailed(
            "AVPlayerItem.variantPreferences requires macOS 11.3+".to_owned()
        ))
    );
}

#[test]
fn compositor_info_carries_fields() {
    let info = PlayerItemVideoCompositorInfo::from_payload(PlayerItemVideoCompositorPayload {
        class_name: "MyCompositor".to_owned(),
        supports_wide_color_source_frames: Some(true),
        supports_hdr_source_frames: None,
        supports_source_tagged_buffers: Some(false),
        can_conform_color_of_source_frames: None,
    });
    assert_eq!(info.class_name, "MyCompositor");
    assert_eq!(info.supports_wide_color_source_frames, Some(true));
    assert_eq!(info.supports_source_tagged_buffers, Some(false));
}

#[test]
fn legible_output_events() {
    let flushed = LegibleOutputEventPayload {
        event: "sequence_was_flushed".to_owned(),
        item_time: None,
        strings: Vec::new(),
        native_sample_buffer_count: 0,
    };
    assert_eq!(
        PlayerItemLegibleOutputEvent::from_payload(flushed),
        Some(PlayerItemLegibleOutputEvent::SequenceWasFlushed)
    );
    let mut strings = LegibleOutputEventPayload {
        event: "attributed_strings".to_owned(),
        item_time: None,
        strings: vec!["Hello".to_owned()],
        native_sample_buffer_count: 2,
    };
    assert_eq!(PlayerItemLegibleOutputEvent::from_payload(strings.clone()), None);
    strings.item_time = Some(Time::new(5, 1));
    assert_eq!(
        PlayerItemLegibleOutputEvent::from_payload(strings),
        Some(PlayerItemLegibleOutputEvent::AttributedStrings {
            item_time: Time::new(5, 1),
            strings: vec!["Hello".to_owned()],
            native_sample_buffer_count: 2,
        })
    );
}

#[test]
fn video_output_event_names() {
    assert_eq!(
        PlayerItemVideoOutputEvent::from_event_name("media_data_will_change"),
        Some(PlayerItemVideoOutputEvent::MediaDataWillChange)
    );
    assert_eq!(
        PlayerItemVideoOutputEvent::from_event_name("sequence_was_flushed"),
        Some(PlayerItemVideoOutputEvent::SequenceWasFlushed)
    );
    assert_eq!(PlayerItemVideoOutputEvent::from_event_name("other"), None);
}

#[test]
fn metadata_collectors_decode_in_order() {
    let infos = media_data_collector_infos(vec![
        PlayerItemMediaDataCollectorInfoPayload { kind: "metadata_collector".to_owned() },
        PlayerItemMediaDataCollectorInfoPayload { kind: "custom".to_owned() },
    ]);
    assert_eq!(infos.len(), 2);
    assert_eq!(infos[0].kind, PlayerItemMediaDataCollectorKind::MetadataCollector);
    assert_eq!(infos[1].kind, PlayerItemMediaDataCollectorKind::Unknown("custom".to_owned()));
}

#[test]
fn error_log_events_carry_every_field() {
    let mut headers = BTreeMap::new();
    headers.insert("Server".to_owned(), "edge".to_owned());
    let payload = ErrorLogEventPayload {
        date: Some("2024-01-01T00:00:00Z".to_owned()),
        uri: Some("https://x/seg1.ts".to_owned()),
        server_address: None,
        playback_session_id: Some("abc".to_owned()),
        error_status_code: -12938,
        error_domain: "CoreMediaErrorDomain".to_owned(),
        error_comment: None,
        all_http_response_header_fields: Some(headers.clone()),
    };
    let events = error_log_events(vec![payload.clone()]);
    assert_eq!(
        events,
        vec![PlayerItemErrorLogEvent {
            date: payload.date.clone(),
            uri: payload.uri.clone(),
            server_address: None,
            playback_session_id: Some("abc".to_owned()),
            error_status_code: -12938,
            error_domain: "CoreMediaErrorDomain".to_owned(),
            error_comment: None,
            all_http_response_header_fields: Some(headers),
        }]
    );
    assert_eq!(PlayerItemErrorLogEvent::from(payload), events[0]);
}
