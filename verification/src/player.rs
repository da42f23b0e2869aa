//! Player and player-item states, and the decoding of the status and item
//! events that the bridge's observers report.

use vstd::prelude::*;

use crate::player_media_selection_criteria::PlayerTimeControlStatus;
use crate::text::str_eq;
use crate::time::Time;

verus! {

/// `AVPlayerStatus`.
#[derive(Debug, Clone, Copy, PartialEq, Eq, Hash, Structural)]
#[non_exhaustive]
pub enum PlayerStatus {
    /// Unknown.
    Unknown,
    /// Ready to play.
    ReadyToPlay,
    /// Failed.
    Failed,
}

impl PlayerStatus {
    /// The value a raw bridge number stands for.
    pub open spec fn spec_from_raw(raw: i32) -> Self {
        if raw == 1 {
            PlayerStatus::ReadyToPlay
        } else if raw == 2 {
            PlayerStatus::Failed
        } else {
            PlayerStatus::Unknown
        }
    }

    /// Decodes a raw bridge number.
    pub fn from_raw(raw: i32) -> (r: Self)
        ensures
            r == Self::spec_from_raw(raw),
    {
        match raw {
            1 => PlayerStatus::ReadyToPlay,
            2 => PlayerStatus::Failed,
            _ => PlayerStatus::Unknown,
        }
    }
}

/// The player status follows `AVPlayerStatus` numbering: 1 is ready to play
/// and 2 failed; every other number is unknown.
pub proof fn lemma_player_status_numbering(raw: i32)
    ensures
        PlayerStatus::spec_from_raw(1) == PlayerStatus::ReadyToPlay,
        PlayerStatus::spec_from_raw(2) == PlayerStatus::Failed,
        (raw != 1 && raw != 2) <==> PlayerStatus::spec_from_raw(raw) == PlayerStatus::Unknown,
{
}

/// `AVPlayerItemStatus`.
#[derive(Debug, Clone, Copy, PartialEq, Eq, Hash, Structural)]
#[non_exhaustive]
pub enum PlayerItemStatus {
    /// Unknown.
    Unknown,
    /// Ready to play.
    ReadyToPlay,
    /// Failed.
    Failed,
}

impl PlayerItemStatus {
    /// The value a raw bridge number stands for.
    pub open spec fn spec_from_raw(raw: i32) -> Self {
        if raw == 1 {
            PlayerItemStatus::ReadyToPlay
        } else if raw == 2 {
            PlayerItemStatus::Failed
        } else {
            PlayerItemStatus::Unknown
        }
    }

    /// Decodes a raw bridge number.
    pub fn from_raw(raw: i32) -> (r: Self)
        ensures
            r == Self::spec_from_raw(raw),
    {
        match raw {
            1 => PlayerItemStatus::ReadyToPlay,
            2 => PlayerItemStatus::Failed,
            _ => PlayerItemStatus::Unknown,
        }
    }
}

/// The item status follows `AVPlayerItemStatus` numbering: 1 is ready to
/// play and 2 failed; every other number is unknown.
pub proof fn lemma_player_item_status_numbering(raw: i32)
    ensures
        PlayerItemStatus::spec_from_raw(1) == PlayerItemStatus::ReadyToPlay,
        PlayerItemStatus::spec_from_raw(2) == PlayerItemStatus::Failed,
        (raw != 1 && raw != 2) <==> PlayerItemStatus::spec_from_raw(raw) == PlayerItemStatus::Unknown,
{
}

/// Player status event as the bridge reports it.
#[derive(Debug, Clone, PartialEq, Eq)]
pub struct PlayerStatusEventPayload {
    /// Event name.
    pub event: String,
    /// Raw player status.
    pub status: Option<i32>,
    /// Error message of a failed player.
    pub error_message: Option<String>,
    /// Raw time-control status.
    pub time_control_status: Option<i32>,
    /// Raw reason for waiting to play.
    pub reason_for_waiting_to_play: Option<String>,
}

/// Status changes of a player.
#[derive(Debug, Clone, PartialEq, Eq)]
#[non_exhaustive]
pub enum PlayerStatusEvent {
    /// The player status changed.
    StatusChanged { status: PlayerStatus, error_message: Option<String> },
    /// The time-control status changed.
    TimeControlStatusChanged {
        time_control_status: PlayerTimeControlStatus,
        reason_for_waiting_to_play: Option<String>,
    },
}

/// What a status-event payload decodes to; an event without its status
/// decodes to `None`.
pub open spec fn player_status_event_spec(p: PlayerStatusEventPayload) -> Option<PlayerStatusEvent> {
    if p.event@ == "status_changed"@ {
        match p.status {
            Some(s) => Some(
                PlayerStatusEvent::StatusChanged {
                    status: PlayerStatus::spec_from_raw(s),
                    error_message: p.error_message,
                },
            ),
            None => None,
        }
    } else if p.event@ == "time_control_status_changed"@ {
        match p.time_control_status {
            Some(s) => Some(
                PlayerStatusEvent::TimeControlStatusChanged {
                    time_control_status: PlayerTimeControlStatus::spec_from_raw(s),
                    reason_for_waiting_to_play: p.reason_for_waiting_to_play,
                },
            ),
            None => None,
        }
    } else {
        None
    }
}

impl PlayerStatusEvent {
    /// Decodes a status-event payload.
    pub fn from_payload(payload: PlayerStatusEventPayload) -> (r: Option<Self>)
        ensures
            r == player_status_event_spec(payload),
    {
        if str_eq(payload.event.as_str(), "status_changed") {
            match payload.status {
                Some(s) => Some(
                    PlayerStatusEvent::StatusChanged {
                        status: PlayerStatus::from_raw(s),
                        error_message: payload.error_message,
                    },
                ),
                None => None,
            }
        } else if str_eq(payload.event.as_str(), "time_control_status_changed") {
            match payload.time_control_status {
                Some(s) => Some(
                    PlayerStatusEvent::TimeControlStatusChanged {
                        time_control_status: PlayerTimeControlStatus::from_raw(s),
                        reason_for_waiting_to_play: payload.reason_for_waiting_to_play,
                    },
                ),
                None => None,
            }
        } else {
            None
        }
    }
}

/// A player status event carries the decoded status of its raw number (1
/// ready to play, 2 failed, anything else unknown) with the error message; a
/// time-control event carries the decoded time-control status (0 paused, 1
/// waiting, 2 playing, anything else kept as unknown) with the waiting reason;
/// either decodes to nothing without its number.
pub proof fn lemma_player_status_event_carries_payload(p: PlayerStatusEventPayload)
    ensures
        p.event@ == "status_changed"@ ==> (player_status_event_spec(p) is Some <==> p.status is Some),
        p.event@ == "status_changed"@ ==> (player_status_event_spec(p) matches Some(
            PlayerStatusEvent::StatusChanged { status, error_message },
        ) ==> error_message == p.error_message && (p.status == Some(1i32) ==> status == PlayerStatus::ReadyToPlay) && (
        p.status == Some(2i32) ==> status == PlayerStatus::Failed) && (p.status != Some(1i32) && p.status != Some(2i32)
            ==> status == PlayerStatus::Unknown)),
        p.event@ == "status_changed"@ ==> !(player_status_event_spec(p) matches Some(
            PlayerStatusEvent::TimeControlStatusChanged { .. },
        )),
        p.event@ == "time_control_status_changed"@ ==> (player_status_event_spec(p) is Some
            <==> p.time_control_status is Some),
        p.event@ == "time_control_status_changed"@ ==> (player_status_event_spec(p) matches Some(
            PlayerStatusEvent::TimeControlStatusChanged { time_control_status, reason_for_waiting_to_play },
        ) ==> reason_for_waiting_to_play == p.reason_for_waiting_to_play && (p.time_control_status == Some(0i32)
            ==> time_control_status == PlayerTimeControlStatus::Paused) && (p.time_control_status == Some(1i32)
            ==> time_control_status == PlayerTimeControlStatus::WaitingToPlayAtSpecifiedRate) && (p.time_control_status
            == Some(2i32) ==> time_control_status == PlayerTimeControlStatus::Playing) && (p.time_control_status matches Some(v)
            ==> (v < 0 || v > 2) ==> time_control_status == PlayerTimeControlStatus::Unknown(v))),
        p.event@ == "time_control_status_changed"@ ==> !(player_status_event_spec(p) matches Some(
            PlayerStatusEvent::StatusChanged { .. },
        )),
{
    reveal_strlit("status_changed");
    reveal_strlit("time_control_status_changed");
    assert("status_changed"@.len() != "time_control_status_changed"@.len());
}

/// Player-item event as the bridge reports it; `S` is the presentation-size
/// type.
#[derive(Debug, Clone, PartialEq)]
pub struct PlayerItemEventPayload<S> {
    /// Event name.
    pub event: String,
    /// Raw item status.
    pub status: Option<i32>,
    /// Error message.
    pub error_message: Option<String>,
    /// New presentation size.
    pub presentation_size: Option<S>,
    /// Whether a time jump came from a coordinated-playback participant.
    pub has_originating_participant: Option<bool>,
    /// New recommended offset from live.
    pub recommended_time_offset_from_live: Option<Time>,
}

/// Events emitted by a player-item observer; `S` is the presentation-size type.
#[derive(Debug, Clone, PartialEq)]
#[non_exhaustive]
pub enum PlayerItemEvent<S> {
    /// The item status changed.
    StatusChanged { status: PlayerItemStatus, error_message: Option<String> },
    /// The presentation size changed.
    PresentationSizeChanged(S),
    /// Playback time jumped.
    TimeJumped { has_originating_participant: bool },
    /// The item played to its end.
    DidPlayToEnd,
    /// The item failed to play to its end.
    FailedToPlayToEnd { error_message: Option<String> },
    /// Playback stalled.
    PlaybackStalled,
    /// A new access-log entry was added.
    NewAccessLogEntry,
    /// A new error-log entry was added.
    NewErrorLogEntry,
    /// The recommended offset from live changed.
    RecommendedTimeOffsetFromLiveDidChange(Time),
    /// The media selection changed.
    MediaSelectionChanged,
}

/// What a player-item payload decodes to: by name, with an absent status read
/// as raw 0 and an absent participant flag as `false`; a size or offset event
/// without its value, or an unknown name, decodes to `None`.
pub open spec fn player_item_event_spec<S>(p: PlayerItemEventPayload<S>) -> Option<PlayerItemEvent<S>> {
    let name = p.event@;
    if name == "status_changed"@ {
        Some(
            PlayerItemEvent::StatusChanged {
                status: PlayerItemStatus::spec_from_raw(
                    match p.status {
                        Some(s) => s,
                        None => 0,
                    },
                ),
                error_message: p.error_message,
            },
        )
    } else if name == "presentation_size_changed"@ {
        match p.presentation_size {
            Some(size) => Some(PlayerItemEvent::PresentationSizeChanged(size)),
            None => None,
        }
    } else if name == "time_jumped"@ {
        Some(
            PlayerItemEvent::TimeJumped {
                has_originating_participant: match p.has_originating_participant {
                    Some(b) => b,
                    None => false,
                },
            },
        )
    } else if name == "did_play_to_end"@ {
        Some(PlayerItemEvent::DidPlayToEnd)
    } else if name == "failed_to_play_to_end"@ {
        Some(PlayerItemEvent::FailedToPlayToEnd { error_message: p.error_message })
    } else if name == "playback_stalled"@ {
        Some(PlayerItemEvent::PlaybackStalled)
    } else if name == "new_access_log_entry"@ {
        Some(PlayerItemEvent::NewAccessLogEntry)
    } else if name == "new_error_log_entry"@ {
        Some(PlayerItemEvent::NewErrorLogEntry)
    } else if name == "recommended_time_offset_from_live_did_change"@ {
        match p.recommended_time_offset_from_live {
            Some(t) => Some(PlayerItemEvent::RecommendedTimeOffsetFromLiveDidChange(t)),
            None => None,
        }
    } else if name == "media_selection_changed"@ {
        Some(PlayerItemEvent::MediaSelectionChanged)
    } else {
        None
    }
}

/// An item event carries what its payload reports: a status change carries
/// the item status of the raw status (1 ready to play, 2 failed, anything
/// else, or no status at all, unknown) and the error message; a time jump
/// came from a participant only when the payload says so; a failure to play
/// to the end keeps its message; and a size or live-offset change carries its
/// value, decoding to nothing without it.
pub proof fn lemma_item_event_carries_payload<S>(p: PlayerItemEventPayload<S>)
    ensures
        p.event@ == "status_changed"@ ==> (player_item_event_spec(p) matches Some(
            PlayerItemEvent::StatusChanged { status, error_message },
        ) && error_message == p.error_message && (p.status == Some(1i32) ==> status
            == PlayerItemStatus::ReadyToPlay) && (p.status == Some(2i32) ==> status == PlayerItemStatus::Failed) && (
        p.status != Some(1i32) && p.status != Some(2i32) ==> status == PlayerItemStatus::Unknown)),
        p.event@ == "time_jumped"@ ==> player_item_event_spec(p) == Some(
            PlayerItemEvent::<S>::TimeJumped { has_originating_participant: p.has_originating_participant == Some(true) },
        ),
        p.event@ == "failed_to_play_to_end"@ ==> player_item_event_spec(p) == Some(
            PlayerItemEvent::<S>::FailedToPlayToEnd { error_message: p.error_message },
        ),
        p.event@ == "presentation_size_changed"@ ==> (player_item_event_spec(p) is Some <==> p.presentation_size is Some),
        p.event@ == "presentation_size_changed"@ ==> (p.presentation_size matches Some(size) ==> player_item_event_spec(p)
            == Some(PlayerItemEvent::PresentationSizeChanged(size))),
        p.event@ == "recommended_time_offset_from_live_did_change"@ ==> (player_item_event_spec(p) is Some
            <==> p.recommended_time_offset_from_live is Some),
        p.event@ == "recommended_time_offset_from_live_did_change"@ ==> (p.recommended_time_offset_from_live matches Some(
            t,
        ) ==> player_item_event_spec(p) == Some(PlayerItemEvent::<S>::RecommendedTimeOffsetFromLiveDidChange(t))),
{
    reveal_strlit("status_changed");
    reveal_strlit("presentation_size_changed");
    reveal_strlit("time_jumped");
    reveal_strlit("did_play_to_end");
    reveal_strlit("failed_to_play_to_end");
    reveal_strlit("playback_stalled");
    reveal_strlit("new_access_log_entry");
    reveal_strlit("new_error_log_entry");
    reveal_strlit("recommended_time_offset_from_live_did_change");
    reveal_strlit("media_selection_changed");
    assert("status_changed"@.len() != "presentation_size_changed"@.len());
    assert("status_changed"@.len() != "time_jumped"@.len());
    assert("status_changed"@.len() != "did_play_to_end"@.len());
    assert("status_changed"@.len() != "failed_to_play_to_end"@.len());
    assert("status_changed"@.len() != "playback_stalled"@.len());
    assert("status_changed"@.len() != "new_access_log_entry"@.len());
    assert("status_changed"@.len() != "new_error_log_entry"@.len());
    assert("status_changed"@.len() != "recommended_time_offset_from_live_did_change"@.len());
    assert("status_changed"@.len() != "media_selection_changed"@.len());
    assert("presentation_size_changed"@.len() != "time_jumped"@.len());
    assert("presentation_size_changed"@.len() != "did_play_to_end"@.len());
    assert("presentation_size_changed"@.len() != "failed_to_play_to_end"@.len());
    assert("presentation_size_changed"@.len() != "playback_stalled"@.len());
    assert("presentation_size_changed"@.len() != "new_access_log_entry"@.len());
    assert("presentation_size_changed"@.len() != "new_error_log_entry"@.len());
    assert("presentation_size_changed"@.len() != "recommended_time_offset_from_live_did_change"@.len());
    assert("presentation_size_changed"@.len() != "media_selection_changed"@.len());
    assert("time_jumped"@.len() != "did_play_to_end"@.len());
    assert("time_jumped"@.len() != "failed_to_play_to_end"@.len());
    assert("time_jumped"@.len() != "playback_stalled"@.len());
    assert("time_jumped"@.len() != "new_access_log_entry"@.len());
    assert("time_jumped"@.len() != "new_error_log_entry"@.len());
    assert("time_jumped"@.len() != "recommended_time_offset_from_live_did_change"@.len());
    assert("time_jumped"@.len() != "media_selection_changed"@.len());
    assert("did_play_to_end"@.len() != "failed_to_play_to_end"@.len());
    assert("did_play_to_end"@.len() != "playback_stalled"@.len());
    assert("did_play_to_end"@.len() != "new_access_log_entry"@.len());
    assert("did_play_to_end"@.len() != "new_error_log_entry"@.len());
    assert("did_play_to_end"@.len() != "recommended_time_offset_from_live_did_change"@.len());
    assert("did_play_to_end"@.len() != "media_selection_changed"@.len());
    assert("failed_to_play_to_end"@.len() != "playback_stalled"@.len());
    assert("failed_to_play_to_end"@.len() != "new_access_log_entry"@.len());
    assert("failed_to_play_to_end"@.len() != "new_error_log_entry"@.len());
    assert("failed_to_play_to_end"@.len() != "recommended_time_offset_from_live_did_change"@.len());
    assert("failed_to_play_to_end"@.len() != "media_selection_changed"@.len());
    assert("playback_stalled"@.len() != "new_access_log_entry"@.len());
    assert("playback_stalled"@.len() != "new_error_log_entry"@.len());
    assert("playback_stalled"@.len() != "recommended_time_offset_from_live_did_change"@.len());
    assert("playback_stalled"@.len() != "media_selection_changed"@.len());
    assert("new_access_log_entry"@.len() != "new_error_log_entry"@.len());
    assert("new_access_log_entry"@.len() != "recommended_time_offset_from_live_did_change"@.len());
    assert("new_access_log_entry"@.len() != "media_selection_changed"@.len());
    assert("new_error_log_entry"@.len() != "recommended_time_offset_from_live_did_change"@.len());
    assert("new_error_log_entry"@.len() != "media_selection_changed"@.len());
    assert("recommended_time_offset_from_live_did_change"@.len() != "media_selection_changed"@.len());
}

impl<S> PlayerItemEvent<S> {
    /// Decodes a player-item payload.
    pub fn from_payload(payload: PlayerItemEventPayload<S>) -> (r: Option<Self>)
        ensures
            r == player_item_event_spec(payload),
    {
        let name = payload.event.as_str();
        if str_eq(name, "status_changed") {
            Some(
                PlayerItemEvent::StatusChanged {
                    status: PlayerItemStatus::from_raw(
                        match payload.status {
                            Some(s) => s,
                            None => 0,
                        },
                    ),
                    error_message: payload.error_message,
                },
            )
        } else if str_eq(name, "presentation_size_changed") {
            match payload.presentation_size {
                Some(size) => Some(PlayerItemEvent::PresentationSizeChanged(size)),
                None => None,
            }
        } else if str_eq(name, "time_jumped") {
            Some(
                PlayerItemEvent::TimeJumped {
                    has_originating_participant: match payload.has_originating_participant {
                        Some(b) => b,
                        None => false,
                    },
                },
            )
        } else if str_eq(name, "did_play_to_end") {
            Some(PlayerItemEvent::DidPlayToEnd)
        } else if str_eq(name, "failed_to_play_to_end") {
            Some(PlayerItemEvent::FailedToPlayToEnd { error_message: payload.error_message })
        } else if str_eq(name, "playback_stalled") {
            Some(PlayerItemEvent::PlaybackStalled)
        } else if str_eq(name, "new_access_log_entry") {
            Some(PlayerItemEvent::NewAccessLogEntry)
        } else if str_eq(name, "new_error_log_entry") {
            Some(PlayerItemEvent::NewErrorLogEntry)
        } else if str_eq(name, "recommended_time_offset_from_live_did_change") {
            match payload.recommended_time_offset_from_live {
                Some(t) => Some(PlayerItemEvent::RecommendedTimeOffsetFromLiveDidChange(t)),
                None => None,
            }
        } else if str_eq(name, "media_selection_changed") {
            Some(PlayerItemEvent::MediaSelectionChanged)
        } else {
            None
        }
    }
}

} // verus!
