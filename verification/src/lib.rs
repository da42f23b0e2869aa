//! Verified core of an `AVPlayer` / `AVAssetReader` binding: the raw-value
//! conversions, bridge payload interpretation, event decoding and argument
//! validation that sit between the Swift bridge and the public API.

pub mod asset;
pub mod asset_download;
pub mod asset_image_generator;
pub mod asset_playback_assistant;
pub mod async_api;
pub mod collection;
pub mod content_key_session;
pub mod error;
pub mod json;
pub mod fragmented_asset;
pub mod player;
pub mod player_interstitial_event;
pub mod player_item;
pub mod player_item_error_log;
pub mod player_item_integrated_timeline;
pub mod player_item_legible_output;
pub mod player_item_metadata_collector;
pub mod player_item_metadata_output;
pub mod player_item_rendered_legible_output;
pub mod player_item_track;
pub mod player_item_video_output;
pub mod player_layer;
pub mod player_looper;
pub mod player_media_selection_criteria;
pub mod player_video_output;
pub mod reader;
pub mod reader_extras;
pub mod resource_loader;
pub mod status;
pub mod text;
pub mod time;

pub use asset::{KeyLoadStatus, KeyLoadStatusPayload, KeyValueStatus, MediaType};
pub use asset_download::{
    AssetDownloadDelegateEvent, AssetDownloadDelegateEventPayload, AssetDownloadTaskState,
    AssetDownloadedAssetEvictionPriority,
};
pub use asset_image_generator::{AssetImageGeneratorApertureMode, AssetImageGeneratorDynamicRangePolicy};
pub use asset_playback_assistant::AssetPlaybackConfigurationOption;
pub use content_key_session::{
    content_key_session_event_from_payload, ContentKeyIdentifier, ContentKeyIdentifierPayload,
    ContentKeyRequestOptions, ContentKeyRequestRetryReason, ContentKeyRequestStatus,
    ContentKeySessionEvent, ContentKeySessionEventPayload, ContentKeySystem,
    ExternalContentProtectionStatus,
};
pub use error::{availability_error, bridge_err, check_status, from_status, AVPlayerError};
pub use fragmented_asset::{MediaExtensionPropertiesInfo, MediaExtensionPropertiesPayload};
pub use player::{
    PlayerItemEvent, PlayerItemEventPayload, PlayerItemStatus, PlayerStatus, PlayerStatusEvent,
    PlayerStatusEventPayload,
};
pub use player_interstitial_event::{
    PlayerInterstitialEventAssetListResponseStatus, PlayerInterstitialEventCue,
    PlayerInterstitialEventInfo, PlayerInterstitialEventInfoPayload,
    PlayerInterstitialEventMonitorEvent, PlayerInterstitialEventMonitorState,
    PlayerInterstitialEventRestrictions, PlayerInterstitialEventSkippableEventState,
    PlayerInterstitialEventTimelineOccupancy, PlayerInterstitialMonitorEventPayload,
    PlayerInterstitialMonitorStatePayload,
};
pub use player_item::{
    AudioTimePitchAlgorithm, ContentAuthorizationStatus, PlayerItemVideoCompositorInfo,
    PlayerItemVideoCompositorPayload, VariantPreferences,
};
pub use player_item_error_log::{ErrorLogEventPayload, PlayerItemErrorLogEvent};
pub use player_item_integrated_timeline::{
    PlayerIntegratedTimelineOutOfSyncEvent, PlayerIntegratedTimelineSnapshotsOutOfSyncReason,
    PlayerItemIntegratedTimelineInfo, PlayerItemIntegratedTimelineInfoPayload,
    PlayerItemIntegratedTimelineSegmentInfo, PlayerItemIntegratedTimelineSegmentPayload,
    PlayerItemIntegratedTimelineSnapshotInfo, PlayerItemIntegratedTimelineSnapshotPayload,
    PlayerItemSegmentType,
};
pub use player_item_legible_output::{
    LegibleOutputEventPayload, PlayerItemLegibleOutputEvent, PlayerItemLegibleOutputTextStylingResolution,
};
pub use player_item_metadata_collector::{
    PlayerItemMediaDataCollectorInfo, PlayerItemMediaDataCollectorInfoPayload, PlayerItemMediaDataCollectorKind,
};
pub use player_item_metadata_output::{MetadataOutputEvent, MetadataOutputEventPayload};
pub use player_item_rendered_legible_output::{
    RenderedLegibleOutputEvent, RenderedLegibleOutputEventPayload,
};
pub use player_item_track::PlayerItemTrackVideoFieldMode;
pub use player_item_video_output::PlayerItemVideoOutputEvent;
pub use player_layer::VideoGravity;
pub use player_looper::{PlayerLooperItemOrdering, PlayerLooperStatus};
pub use player_media_selection_criteria::{
    MediaCharacteristic, PlayerActionAtItemEnd, PlayerAudiovisualBackgroundPlaybackPolicy,
    PlayerNetworkResourcePriority, PlayerPlaybackInfoPayload, PlayerRateDidChangeReason,
    PlayerTimeControlStatus, PlayerWaitingReason,
};
pub use player_video_output::{
    PlayerVideoOutputSamplePlan, PlayerVideoOutputTagCollectionPreset, PlayerVideoTaggedBufferKind,
    PlayerVideoTaggedBufferPayload, PlayerVideoTaggedBufferPlan, PlayerVideoTaggedBufferSlot,
};
pub use reader::{AssetReaderStatus, VideoOutputSettings};
pub use reader_extras::{CaptionGroupInfo, CaptionValidationEvent};
pub use resource_loader::{AssetResourceLoaderDispatch, AssetResourceLoaderEventKind};
pub use text::decimal;
pub use time::{Time, TimeRange};
