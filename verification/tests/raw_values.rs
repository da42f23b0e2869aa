use avplayer::asset::{KeyValueStatus, MediaType};
use avplayer::asset_download::{AssetDownloadTaskState, AssetDownloadedAssetEvictionPriority};
use avplayer::asset_image_generator::{
    AssetImageGeneratorApertureMode, AssetImageGeneratorDynamicRangePolicy,
};
use avplayer::asset_playback_assistant::{
    playback_configuration_options_from_raw, AssetPlaybackConfigurationOption,
};
use avplayer::content_key_session::{
    ContentKeyRequestRetryReason, ContentKeyRequestStatus, ContentKeySystem,
    ExternalContentProtectionStatus,
};
use avplayer::player::{PlayerItemStatus, PlayerStatus};
use avplayer::player_interstitial_event::{
    PlayerInterstitialEventAssetListResponseStatus, PlayerInterstitialEventCue,
    PlayerInterstitialEventSkippableEventState, PlayerInterstitialEventTimelineOccupancy,
};
use avplayer::player_item::{AudioTimePitchAlgorithm, ContentAuthorizationStatus};
use avplayer::player_item_integrated_timeline::PlayerItemSegmentType;
use avplayer::player_item_legible_output::PlayerItemLegibleOutputTextStylingResolution;
use avplayer::player_item_track::{
    typed_video_field_mode, video_field_mode_raw, PlayerItemTrackVideoFieldMode,
};
use avplayer::player_layer::VideoGravity;
use avplayer::player_looper::{PlayerLooperItemOrdering, PlayerLooperStatus};
use avplayer::player_media_selection_criteria::{
    media_characteristic_names, media_characteristics_from_raw_list, MediaCharacteristic,
    PlayerActionAtItemEnd, PlayerAudiovisualBackgroundPlaybackPolicy,
    PlayerNetworkResourcePriority, PlayerRateDidChangeReason, PlayerTimeControlStatus,
    PlayerWaitingReason,
};
use avplayer::player_video_output::{
    PlayerVideoOutputTagCollectionPreset, PlayerVideoTaggedBufferKind,
};
use avplayer::reader::AssetReaderStatus;

#[test]
fn media_types_decode_and_keep_unknown_names() {
    assert_eq!(MediaType::from_raw("audio"), MediaType::Audio);
    assert_eq!(MediaType::from_raw("video"), MediaType::Video);
    assert_eq!(MediaType::from_raw("closed_caption"), MediaType::ClosedCaption);
    assert_eq!(MediaType::from_raw("depth_data"), MediaType::DepthData);
    assert_eq!(
        MediaType::from_raw("haptic"),
        MediaType::Unknown("haptic".to_owned())
    );
}

#[test]
fn key_value_statuses_decode() {
    assert_eq!(KeyValueStatus::from_raw(0), KeyValueStatus::Unknown);
    assert_eq!(KeyValueStatus::from_raw(1), KeyValueStatus::Loading);
    assert_eq!(KeyValueStatus::from_raw(2), KeyValueStatus::Loaded);
    assert_eq!(KeyValueStatus::from_raw(3), KeyValueStatus::Failed);
    assert_eq!(KeyValueStatus::from_raw(4), KeyValueStatus::Cancelled);
    assert_eq!(KeyValueStatus::from_raw(17), KeyValueStatus::Unknown);
}

#[test]
fn eviction_priorities_round_trip() {
    for p in [
        AssetDownloadedAssetEvictionPriority::Important,
        AssetDownloadedAssetEvictionPriority::Default,
        AssetDownloadedAssetEvictionPriority::Unknown("later".to_owned()),
    ] {
        assert_eq!(AssetDownloadedAssetEvictionPriority::from_raw(p.as_raw()), p);
    }
    assert_eq!(AssetDownloadedAssetEvictionPriority::Important.as_raw(), "important");
}

#[test]
fn download_task_states_keep_unknown_numbers() {
    assert_eq!(AssetDownloadTaskState::from_raw(0), AssetDownloadTaskState::Running);
    assert_eq!(AssetDownloadTaskState::from_raw(3), AssetDownloadTaskState::Completed);
    assert_eq!(AssetDownloadTaskState::from_raw(9), AssetDownloadTaskState::Unknown(9));
}

#[test]
fn image_generator_settings_round_trip() {
    assert_eq!(AssetImageGeneratorApertureMode::CleanAperture.as_raw(), "clean_aperture");
    assert_eq!(
        AssetImageGeneratorApertureMode::from_raw("encoded_pixels"),
        AssetImageGeneratorApertureMode::EncodedPixels
    );
    assert_eq!(
        AssetImageGeneratorDynamicRangePolicy::from_raw("force_sdr"),
        AssetImageGeneratorDynamicRangePolicy::ForceSdr
    );
    assert_eq!(AssetImageGeneratorDynamicRangePolicy::MatchSource.as_raw(), "match_source");
    assert_eq!(
        AssetImageGeneratorApertureMode::from_raw("wide"),
        AssetImageGeneratorApertureMode::Unknown("wide".to_owned())
    );
}

#[test]
fn playback_configuration_options_decode_in_order() {
    let raws = vec![
        "spatial_video".to_owned(),
        "stereo_video".to_owned(),
        "holographic".to_owned(),
    ];
    assert_eq!(
        playback_configuration_options_from_raw(&raws),
        vec![
            AssetPlaybackConfigurationOption::SpatialVideo,
            AssetPlaybackConfigurationOption::StereoVideo,
            AssetPlaybackConfigurationOption::Unknown("holographic".to_owned()),
        ]
    );
    assert!(playback_configuration_options_from_raw(&Vec::new()).is_empty());
}

#[test]
fn content_key_values_decode() {
    assert_eq!(ContentKeySystem::from_raw("clear_key"), ContentKeySystem::ClearKey);
    assert_eq!(ContentKeySystem::FairPlayStreaming.as_raw(), "fair_play_streaming");
    assert_eq!(
        ContentKeyRequestRetryReason::from_raw("timed_out"),
        ContentKeyRequestRetryReason::TimedOut
    );
    assert_eq!(ContentKeyRequestStatus::from_raw(5), ContentKeyRequestStatus::Failed);
    assert_eq!(ContentKeyRequestStatus::from_raw(-1), ContentKeyRequestStatus::Unknown(-1));
    assert_eq!(
        ExternalContentProtectionStatus::from_raw(2),
        ExternalContentProtectionStatus::Insufficient
    );
}

#[test]
fn player_statuses_fall_back_to_unknown() {
    assert_eq!(PlayerStatus::from_raw(1), PlayerStatus::ReadyToPlay);
    assert_eq!(PlayerStatus::from_raw(2), PlayerStatus::Failed);
    assert_eq!(PlayerStatus::from_raw(0), PlayerStatus::Unknown);
    assert_eq!(PlayerItemStatus::from_raw(2), PlayerItemStatus::Failed);
    assert_eq!(PlayerItemStatus::from_raw(5), PlayerItemStatus::Unknown);
    assert_eq!(PlayerLooperStatus::from_raw(3), PlayerLooperStatus::Cancelled);
    assert_eq!(PlayerLooperStatus::from_raw(8), PlayerLooperStatus::Unknown);
    assert_eq!(AssetReaderStatus::from_raw(2), AssetReaderStatus::Completed);
    assert_eq!(AssetReaderStatus::from_raw(-3), AssetReaderStatus::Unknown);
}

#[test]
fn interstitial_values_decode() {
    assert_eq!(PlayerInterstitialEventCue::JoinCue.as_raw(), "join_cue");
    assert_eq!(
        PlayerInterstitialEventCue::from_raw("leave_cue"),
        PlayerInterstitialEventCue::LeaveCue
    );
    assert_eq!(PlayerInterstitialEventTimelineOccupancy::Fill.raw(), 1);
    assert_eq!(
        PlayerInterstitialEventTimelineOccupancy::from_raw(0),
        PlayerInterstitialEventTimelineOccupancy::SinglePoint
    );
    assert_eq!(
        PlayerInterstitialEventTimelineOccupancy::from_raw(7).raw(),
        7
    );
    assert_eq!(
        PlayerInterstitialEventAssetListResponseStatus::from_raw(1),
        PlayerInterstitialEventAssetListResponseStatus::Cleared
    );
    assert_eq!(
        PlayerInterstitialEventSkippableEventState::from_raw(2),
        PlayerInterstitialEventSkippableEventState::Eligible
    );
}

#[test]
fn player_item_values_decode() {
    assert_eq!(AudioTimePitchAlgorithm::from_raw("varispeed"), AudioTimePitchAlgorithm::Varispeed);
    assert_eq!(AudioTimePitchAlgorithm::TimeDomain.as_raw(), "time_domain");
    assert_eq!(ContentAuthorizationStatus::from_raw(3), ContentAuthorizationStatus::TimedOut);
    assert_eq!(ContentAuthorizationStatus::from_raw(0), ContentAuthorizationStatus::Unknown);
    assert_eq!(ContentAuthorizationStatus::from_raw(12), ContentAuthorizationStatus::Other(12));
    assert_eq!(PlayerItemSegmentType::from_raw(1), PlayerItemSegmentType::Interstitial);
    assert_eq!(
        PlayerItemLegibleOutputTextStylingResolution::SourceAndRulesOnly.as_raw(),
        "source_and_rules_only"
    );
}

#[test]
fn video_field_modes_pass_through_options() {
    let mode = PlayerItemTrackVideoFieldMode::DeinterlaceFields;
    assert_eq!(
        video_field_mode_raw(Some(&mode)),
        Some("AVPlayerItemTrackVideoFieldModeDeinterlaceFields")
    );
    assert_eq!(video_field_mode_raw(None), None);
    assert_eq!(
        typed_video_field_mode(Some("AVPlayerItemTrackVideoFieldModeDeinterlaceFields")),
        Some(PlayerItemTrackVideoFieldMode::DeinterlaceFields)
    );
    assert_eq!(
        typed_video_field_mode(Some("weave")),
        Some(PlayerItemTrackVideoFieldMode::Unknown("weave".to_owned()))
    );
    assert_eq!(typed_video_field_mode(None), None);
}

#[test]
fn video_gravity_round_trips_and_defaults_to_aspect() {
    for g in [VideoGravity::ResizeAspect, VideoGravity::ResizeAspectFill, VideoGravity::Resize] {
        assert_eq!(VideoGravity::from_raw(g.as_raw()), g);
    }
    assert_eq!(VideoGravity::from_raw("stretch"), VideoGravity::ResizeAspect);
}

#[test]
fn looper_ordering_numbers() {
    assert_eq!(PlayerLooperItemOrdering::LoopingItemsPrecedeExistingItems.as_raw(), 0);
    assert_eq!(PlayerLooperItemOrdering::LoopingItemsFollowExistingItems.as_raw(), 1);
}

#[test]
fn media_characteristics_round_trip_as_lists() {
    let raws = vec!["audible".to_owned(), "easy_to_read".to_owned(), "odd".to_owned()];
    let decoded = media_characteristics_from_raw_list(Some(raws.clone()));
    assert_eq!(
        decoded,
        vec![
            MediaCharacteristic::Audible,
            MediaCharacteristic::EasyToRead,
            MediaCharacteristic::Unknown("odd".to_owned()),
        ]
    );
    assert_eq!(media_characteristic_names(&decoded), raws);
    assert!(media_characteristics_from_raw_list(None).is_empty());
}

#[test]
fn player_policy_values_round_trip() {
    assert_eq!(PlayerActionAtItemEnd::from_raw(0), PlayerActionAtItemEnd::Advance);
    assert_eq!(PlayerActionAtItemEnd::from_raw(2), PlayerActionAtItemEnd::NoAction);
    assert_eq!(PlayerActionAtItemEnd::from_raw(1), PlayerActionAtItemEnd::Pause);
    assert_eq!(PlayerActionAtItemEnd::from_raw(44), PlayerActionAtItemEnd::Pause);
    for a in [
        PlayerActionAtItemEnd::Advance,
        PlayerActionAtItemEnd::Pause,
        PlayerActionAtItemEnd::NoAction,
    ] {
        assert_eq!(PlayerActionAtItemEnd::from_raw(a.as_raw()), a);
    }
    assert_eq!(PlayerTimeControlStatus::from_raw(2), PlayerTimeControlStatus::Playing);
    assert_eq!(
        PlayerAudiovisualBackgroundPlaybackPolicy::from_raw(3),
        PlayerAudiovisualBackgroundPlaybackPolicy::ContinuesIfPossible
    );
    assert_eq!(PlayerAudiovisualBackgroundPlaybackPolicy::Pauses.as_raw(), 2);
    assert_eq!(PlayerNetworkResourcePriority::High.as_raw(), 2);
    assert_eq!(
        PlayerNetworkResourcePriority::from_raw(9),
        PlayerNetworkResourcePriority::Unknown(9)
    );
    assert_eq!(
        PlayerWaitingReason::from_raw("AVPlayerWaitingWithNoItemToPlayReason"),
        PlayerWaitingReason::WithNoItemToPlay
    );
    assert_eq!(
        PlayerRateDidChangeReason::from_raw("AVPlayerRateDidChangeReasonSetRateFailed"),
        PlayerRateDidChangeReason::SetRateFailed
    );
}

#[test]
fn video_output_values() {
    assert_eq!(PlayerVideoOutputTagCollectionPreset::Monoscopic.raw(), 0);
    assert_eq!(PlayerVideoOutputTagCollectionPreset::Stereoscopic.raw(), 1);
    assert_eq!(
        PlayerVideoTaggedBufferKind::from_raw("sample_buffer"),
        PlayerVideoTaggedBufferKind::SampleBuffer
    );
    assert_eq!(
        PlayerVideoTaggedBufferKind::from_raw("other"),
        PlayerVideoTaggedBufferKind::Unknown("other".to_owned())
    );
}
