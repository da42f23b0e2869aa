//! Player-item error logs: the events the bridge reports and their decoding.

use std::collections::BTreeMap;

use vstd::prelude::*;

verus! {

/// Error-log event as the bridge reports it.
#[derive(Debug, Clone, PartialEq, Eq)]
pub struct ErrorLogEventPayload {
    /// Date of the event.
    pub date: Option<String>,
    /// URI of the failing request.
    pub uri: Option<String>,
    /// Address of the server.
    pub server_address: Option<String>,
    /// Playback session identifier.
    pub playback_session_id: Option<String>,
    /// Status code of the error.
    pub error_status_code: i64,
    /// Domain of the error.
    pub error_domain: String,
    /// Comment on the error.
    pub error_comment: Option<String>,
    /// HTTP response header fields.
    pub all_http_response_header_fields: Option<BTreeMap<String, String>>,
}

/// An event of a player item's error log.
#[derive(Debug, Clone, PartialEq, Eq)]
pub struct PlayerItemErrorLogEvent {
    /// Date of the event.
    pub date: Option<String>,
    /// URI of the failing request.
    pub uri: Option<String>,
    /// Address of the server.
    pub server_address: Option<String>,
    /// Playback session identifier.
    pub playback_session_id: Option<String>,
    /// Status code of the error.
    pub error_status_code: i64,
    /// Domain of the error.
    pub error_domain: String,
    /// Comment on the error.
    pub error_comment: Option<String>,
    /// HTTP response header fields.
    pub all_http_response_header_fields: Option<BTreeMap<String, String>>,
}

/// The event a payload decodes to: every field carried over as it is.
pub open spec fn error_log_event_spec(p: ErrorLogEventPayload) -> PlayerItemErrorLogEvent {
    PlayerItemErrorLogEvent {
        date: p.date,
        uri: p.uri,
        server_address: p.server_address,
        playback_session_id: p.playback_session_id,
        error_status_code: p.error_status_code,
        error_domain: p.error_domain,
        error_comment: p.error_comment,
        all_http_response_header_fields: p.all_http_response_header_fields,
    }
}

impl From<ErrorLogEventPayload> for PlayerItemErrorLogEvent {
    fn from(payload: ErrorLogEventPayload) -> (r: Self) {
        PlayerItemErrorLogEvent {
            date: payload.date,
            uri: payload.uri,
            server_address: payload.server_address,
            playback_session_id: payload.playback_session_id,
            error_status_code: payload.error_status_code,
            error_domain: payload.error_domain,
            error_comment: payload.error_comment,
            all_http_response_header_fields: payload.all_http_response_header_fields,
        }
    }
}

impl vstd::std_specs::convert::FromSpecImpl<ErrorLogEventPayload> for PlayerItemErrorLogEvent {
    open spec fn obeys_from_spec() -> bool {
        true
    }

    open spec fn from_spec(v: ErrorLogEventPayload) -> Self {
        error_log_event_spec(v)
    }
}

/// Decodes the events of an error log, in order.
pub fn error_log_events(payloads: Vec<ErrorLogEventPayload>) -> (r: Vec<PlayerItemErrorLogEvent>)
    ensures
        r.len() == payloads.len(),
        forall|i: int| 0 <= i < r.len() ==> #[trigger] r[i] == error_log_event_spec(payloads[i]),
{
    let ghost ps = payloads@;
    let mut out: Vec<PlayerItemErrorLogEvent> = Vec::new();
    for p in it: payloads.into_iter()
        invariant
            it.seq() == ps,
            out.len() == it.index(),
            forall|i: int| 0 <= i < out.len() ==> #[trigger] out[i] == error_log_event_spec(ps[i]),
    {
        out.push(PlayerItemErrorLogEvent::from(p));
    }
    out
}

} // verus!
