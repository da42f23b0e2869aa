//! Content-key session values: key systems, key identifiers and their bridge
//! payloads, request options and statuses, the decoding of session events, and
//! the argument checks that guard content-key requests.

use vstd::prelude::*;

use crate::error::AVPlayerError;
use crate::text::str_eq;

verus! {

/// Key system of a content-key session.
#[derive(Debug, Clone, PartialEq, Eq)]
#[non_exhaustive]
pub enum ContentKeySystem {
    /// FairPlay Streaming.
    FairPlayStreaming,
    /// Clear Key.
    ClearKey,
    /// Authorization tokens.
    AuthorizationToken,
    /// A raw value this binding does not name.
    Unknown(String),
}

impl ContentKeySystem {
    /// The bridge's raw name of the value.
    pub open spec fn raw_name(self) -> Seq<char> {
        match self {
            ContentKeySystem::FairPlayStreaming => "fair_play_streaming"@,
            ContentKeySystem::ClearKey => "clear_key"@,
            ContentKeySystem::AuthorizationToken => "authorization_token"@,
            ContentKeySystem::Unknown(raw) => raw@,
        }
    }

    /// Whether `raw` is a name that a named variant stands for.
    pub open spec fn is_known_name(raw: Seq<char>) -> bool {
        raw == "fair_play_streaming"@ || raw == "clear_key"@ || raw == "authorization_token"@
    }

    /// Canonical: an `Unknown` never holds a name that a named variant stands for.
    pub open spec fn is_canonical(self) -> bool {
        match self {
            ContentKeySystem::Unknown(raw) => !Self::is_known_name(raw@),
            _ => true,
        }
    }

    /// Decodes the bridge's raw name; a name it does not know is kept in `Unknown`.
    pub fn from_raw(raw: &str) -> (r: Self)
        ensures
            r.raw_name() == raw@,
            r.is_canonical(),
    {
        if str_eq(raw, "fair_play_streaming") {
            ContentKeySystem::FairPlayStreaming
        } else if str_eq(raw, "clear_key") {
            ContentKeySystem::ClearKey
        } else if str_eq(raw, "authorization_token") {
            ContentKeySystem::AuthorizationToken
        } else {
            ContentKeySystem::Unknown(raw.to_owned())
        }
    }

    /// The bridge's raw name.
    pub fn as_raw(&self) -> (r: &str)
        ensures
            r@ == self.raw_name(),
    {
        match self {
            ContentKeySystem::FairPlayStreaming => "fair_play_streaming",
            ContentKeySystem::ClearKey => "clear_key",
            ContentKeySystem::AuthorizationToken => "authorization_token",
            ContentKeySystem::Unknown(raw) => raw.as_str(),
        }
    }
}

/// Two canonical values with the same raw name are the same value: decoding a
/// raw name gives it back unchanged, and decoding what `as_raw` returns gives
/// back the value it started from.
pub proof fn lemma_content_key_system_raw_round_trip(a: ContentKeySystem, b: ContentKeySystem)
    requires
        a.is_canonical(),
        b.is_canonical(),
        a.raw_name() == b.raw_name(),
    ensures
        (a is FairPlayStreaming) == (b is FairPlayStreaming),
        (a is ClearKey) == (b is ClearKey),
        (a is AuthorizationToken) == (b is AuthorizationToken),
        (a is Unknown) == (b is Unknown),
{
    reveal_strlit("fair_play_streaming");
    reveal_strlit("clear_key");
    reveal_strlit("authorization_token");
    assert("fair_play_streaming"@.len() != "clear_key"@.len());
    assert("fair_play_streaming"@[0] != "authorization_token"@[0]);
    assert("clear_key"@.len() != "authorization_token"@.len());
}

/// Identifier of a content key.
#[derive(Debug, Clone, PartialEq, Eq)]
#[non_exhaustive]
pub enum ContentKeyIdentifier {
    /// A string identifier.
    String(String),
    /// A URL identifier.
    Url(String),
    /// A binary identifier.
    Data(Vec<u8>),
    /// A numeric identifier.
    Number(i64),
}

/// The bridge's encoding of a [`ContentKeyIdentifier`]: a kind tag with the
/// field that holds the value.
#[derive(Debug, Clone, PartialEq, Eq)]
pub struct ContentKeyIdentifierPayload {
    /// `"string"`, `"url"`, `"data"` or `"number"`.
    pub kind: String,
    /// The value of a string or URL identifier.
    pub value: Option<String>,
    /// The bytes of a data identifier.
    pub bytes: Option<Vec<u8>>,
    /// The value of a numeric identifier.
    pub number_value: Option<i64>,
}

/// Two identifiers denote the same key: same kind and same contents.
pub open spec fn same_identifier(a: ContentKeyIdentifier, b: ContentKeyIdentifier) -> bool {
    match (a, b) {
        (ContentKeyIdentifier::String(x), ContentKeyIdentifier::String(y)) => x@ == y@,
        (ContentKeyIdentifier::Url(x), ContentKeyIdentifier::Url(y)) => x@ == y@,
        (ContentKeyIdentifier::Data(x), ContentKeyIdentifier::Data(y)) => x@ == y@,
        (ContentKeyIdentifier::Number(x), ContentKeyIdentifier::Number(y)) => x == y,
        _ => false,
    }
}

/// The payload that encodes `id`.
pub open spec fn identifier_payload_spec(id: ContentKeyIdentifier, p: ContentKeyIdentifierPayload) -> bool {
    match id {
        ContentKeyIdentifier::String(v) => p.kind@ == "string"@ && p.value == Some(v) && p.bytes is None
            && p.number_value is None,
        ContentKeyIdentifier::Url(v) => p.kind@ == "url"@ && p.value == Some(v) && p.bytes is None
            && p.number_value is None,
        ContentKeyIdentifier::Data(b) => p.kind@ == "data"@ && p.value is None && p.bytes is Some
            && p.bytes.unwrap()@ == b@ && p.number_value is None,
        ContentKeyIdentifier::Number(n) => p.kind@ == "number"@ && p.value is None && p.bytes is None
            && p.number_value == Some(n),
    }
}

/// The view of an optional string, empty when absent.
pub open spec fn string_or_empty(s: Option<String>) -> Seq<char> {
    match s {
        Some(v) => v@,
        None => Seq::empty(),
    }
}

/// The identifier a payload decodes to: by kind, with an absent value read as
/// empty (or zero); an unknown kind reads as a string identifier.
pub open spec fn identifier_from_payload_spec(p: ContentKeyIdentifierPayload, id: ContentKeyIdentifier) -> bool {
    if p.kind@ == "url"@ {
        id is Url && id->Url_0@ == string_or_empty(p.value)
    } else if p.kind@ == "data"@ {
        id is Data && id->Data_0@ == (match p.bytes {
            Some(b) => b@,
            None => Seq::empty(),
        })
    } else if p.kind@ == "number"@ {
        id is Number && id->Number_0 == (match p.number_value {
            Some(n) => n,
            None => 0,
        })
    } else {
        id is String && id->String_0@ == string_or_empty(p.value)
    }
}

impl ContentKeyIdentifier {
    /// A string identifier.
    pub fn string(value: String) -> (r: Self)
        ensures
            r == ContentKeyIdentifier::String(value),
    {
        ContentKeyIdentifier::String(value)
    }

    /// A URL identifier.
    pub fn url(value: String) -> (r: Self)
        ensures
            r == ContentKeyIdentifier::Url(value),
    {
        ContentKeyIdentifier::Url(value)
    }

    /// A binary identifier.
    pub fn data(bytes: Vec<u8>) -> (r: Self)
        ensures
            r == ContentKeyIdentifier::Data(bytes),
    {
        ContentKeyIdentifier::Data(bytes)
    }

    /// A numeric identifier.
    pub fn number(value: i64) -> (r: Self)
        ensures
            r == ContentKeyIdentifier::Number(value),
    {
        ContentKeyIdentifier::Number(value)
    }

    /// Encodes the identifier for the bridge.
    pub fn to_payload(&self) -> (p: ContentKeyIdentifierPayload)
        ensures
            identifier_payload_spec(*self, p),
    {
        match self {
            ContentKeyIdentifier::String(value) => ContentKeyIdentifierPayload {
                kind: "string".to_owned(),
                value: Some(value.clone()),
                bytes: None,
                number_value: None,
            },
            ContentKeyIdentifier::Url(value) => ContentKeyIdentifierPayload {
                kind: "url".to_owned(),
                value: Some(value.clone()),
                bytes: None,
                number_value: None,
            },
            ContentKeyIdentifier::Data(bytes) => ContentKeyIdentifierPayload {
                kind: "data".to_owned(),
                value: None,
                bytes: Some(copy_bytes(bytes)),
                number_value: None,
            },
            ContentKeyIdentifier::Number(value) => ContentKeyIdentifierPayload {
                kind: "number".to_owned(),
                value: None,
                bytes: None,
                number_value: Some(*value),
            },
        }
    }

    /// Decodes the bridge's encoding of an identifier.
    pub fn from_payload(payload: ContentKeyIdentifierPayload) -> (r: Self)
        ensures
            identifier_from_payload_spec(payload, r),
    {
        if str_eq(payload.kind.as_str(), "url") {
            ContentKeyIdentifier::Url(
                match payload.value {
                    Some(v) => v,
                    None => String::new(),
                },
            )
        } else if str_eq(payload.kind.as_str(), "data") {
            ContentKeyIdentifier::Data(
                match payload.bytes {
                    Some(b) => b,
                    None => Vec::new(),
                },
            )
        } else if str_eq(payload.kind.as_str(), "number") {
            ContentKeyIdentifier::Number(
                match payload.number_value {
                    Some(n) => n,
                    None => 0,
                },
            )
        } else {
            ContentKeyIdentifier::String(
                match payload.value {
                    Some(v) => v,
                    None => String::new(),
                },
            )
        }
    }
}

/// A copy of a byte vector.
pub fn copy_bytes(bytes: &Vec<u8>) -> (r: Vec<u8>)
    ensures
        r@ == bytes@,
{
    let mut out: Vec<u8> = Vec::new();
    let mut i: usize = 0;
    while i < bytes.len()
        invariant
            i <= bytes.len(),
            out@ == bytes@.subrange(0, i as int),
        decreases bytes.len() - i,
    {
        out.push(bytes[i]);
        i = i + 1;
        proof {
            assert(out@ == bytes@.subrange(0, i as int));
        }
    }
    proof {
        assert(bytes@.subrange(0, bytes@.len() as int) == bytes@);
    }
    out
}

/// Encoding an identifier for the bridge and decoding the payload gives back
/// the same identifier.
pub proof fn lemma_identifier_payload_round_trip(
    id: ContentKeyIdentifier,
    p: ContentKeyIdentifierPayload,
    back: ContentKeyIdentifier,
)
    requires
        identifier_payload_spec(id, p),
        identifier_from_payload_spec(p, back),
    ensures
        same_identifier(id, back),
{
    reveal_strlit("string");
    reveal_strlit("url");
    reveal_strlit("data");
    reveal_strlit("number");
    assert("string"@.len() != "url"@.len());
    assert("string"@[0] != "data"@[0]);
    assert("string"@[0] != "number"@[0]);
    assert("url"@.len() != "data"@.len());
    assert("url"@.len() != "number"@.len());
    assert("data"@.len() != "number"@.len());
}

/// Options of a content-key request.
#[derive(Debug, Clone, PartialEq, Eq)]
pub struct ContentKeyRequestOptions {
    /// Protocol versions the request supports.
    pub protocol_versions: Vec<i32>,
    /// Whether to randomize the device identifier.
    pub should_randomize_device_identifier: Option<bool>,
    /// Seed for the random device identifier.
    pub random_device_identifier_seed: Option<Vec<u8>>,
}

impl Default for ContentKeyRequestOptions {
    fn default() -> (r: Self)
        ensures
            r.protocol_versions@.len() == 0,
            r.should_randomize_device_identifier is None,
            r.random_device_identifier_seed is None,
    {
        ContentKeyRequestOptions {
            protocol_versions: Vec::new(),
            should_randomize_device_identifier: None,
            random_device_identifier_seed: None,
        }
    }
}

impl ContentKeyRequestOptions {
    /// Whether the options set nothing at all.
    pub fn is_empty(&self) -> (r: bool)
        ensures
            r == (self.protocol_versions@.len() == 0 && self.should_randomize_device_identifier is None
                && self.random_device_identifier_seed is None),
    {
        self.protocol_versions.len() == 0 && self.should_randomize_device_identifier.is_none()
            && self.random_device_identifier_seed.is_none()
    }
}

/// Why a content-key request asks to be retried.
#[derive(Debug, Clone, PartialEq, Eq)]
#[non_exhaustive]
pub enum ContentKeyRequestRetryReason {
    /// The request timed out.
    TimedOut,
    /// The response held an expired lease.
    ReceivedResponseWithExpiredLease,
    /// The response held an obsolete key.
    ReceivedObsoleteContentKey,
    /// A raw value this binding does not name.
    Unknown(String),
}

impl ContentKeyRequestRetryReason {
    /// The bridge's raw name of the value.
    pub open spec fn raw_name(self) -> Seq<char> {
        match self {
            ContentKeyRequestRetryReason::TimedOut => "timed_out"@,
            ContentKeyRequestRetryReason::ReceivedResponseWithExpiredLease => "received_response_with_expired_lease"@,
            ContentKeyRequestRetryReason::ReceivedObsoleteContentKey => "received_obsolete_content_key"@,
            ContentKeyRequestRetryReason::Unknown(raw) => raw@,
        }
    }

    /// Whether `raw` is a name that a named variant stands for.
    pub open spec fn is_known_name(raw: Seq<char>) -> bool {
        raw == "timed_out"@ || raw == "received_response_with_expired_lease"@ || raw == "received_obsolete_content_key"@
    }

    /// Canonical: an `Unknown` never holds a name that a named variant stands for.
    pub open spec fn is_canonical(self) -> bool {
        match self {
            ContentKeyRequestRetryReason::Unknown(raw) => !Self::is_known_name(raw@),
            _ => true,
        }
    }

    /// Decodes the bridge's raw name; a name it does not know is kept in `Unknown`.
    pub fn from_raw(raw: &str) -> (r: Self)
        ensures
            r.raw_name() == raw@,
            r.is_canonical(),
    {
        if str_eq(raw, "timed_out") {
            ContentKeyRequestRetryReason::TimedOut
        } else if str_eq(raw, "received_response_with_expired_lease") {
            ContentKeyRequestRetryReason::ReceivedResponseWithExpiredLease
        } else if str_eq(raw, "received_obsolete_content_key") {
            ContentKeyRequestRetryReason::ReceivedObsoleteContentKey
        } else {
            ContentKeyRequestRetryReason::Unknown(raw.to_owned())
        }
    }
}

/// Two canonical values with the same raw name are the same value: a decoded
/// value is determined by the raw name it was decoded from.
pub proof fn lemma_retry_reason_determined_by_raw(a: ContentKeyRequestRetryReason, b: ContentKeyRequestRetryReason)
    requires
        a.is_canonical(),
        b.is_canonical(),
        a.raw_name() == b.raw_name(),
    ensures
        (a is TimedOut) == (b is TimedOut),
        (a is ReceivedResponseWithExpiredLease) == (b is ReceivedResponseWithExpiredLease),
        (a is ReceivedObsoleteContentKey) == (b is ReceivedObsoleteContentKey),
        (a is Unknown) == (b is Unknown),
{
    reveal_strlit("timed_out");
    reveal_strlit("received_response_with_expired_lease");
    reveal_strlit("received_obsolete_content_key");
    assert("timed_out"@.len() != "received_response_with_expired_lease"@.len());
    assert("timed_out"@.len() != "received_obsolete_content_key"@.len());
    assert("received_response_with_expired_lease"@.len() != "received_obsolete_content_key"@.len());
}

/// Status of a content-key request.
#[derive(Debug, Clone, Copy, PartialEq, Eq, Structural)]
#[non_exhaustive]
pub enum ContentKeyRequestStatus {
    /// Waiting for a response.
    RequestingResponse,
    /// A response arrived.
    ReceivedResponse,
    /// Renewed.
    Renewed,
    /// Retried.
    Retried,
    /// Cancelled.
    Cancelled,
    /// Failed.
    Failed,
    /// A raw value this binding does not name.
    Unknown(i32),
}

impl ContentKeyRequestStatus {
    /// The value a raw bridge number stands for.
    pub open spec fn spec_from_raw(raw: i32) -> Self {
        if raw == 0 {
            ContentKeyRequestStatus::RequestingResponse
        } else if raw == 1 {
            ContentKeyRequestStatus::ReceivedResponse
        } else if raw == 2 {
            ContentKeyRequestStatus::Renewed
        } else if raw == 3 {
            ContentKeyRequestStatus::Retried
        } else if raw == 4 {
            ContentKeyRequestStatus::Cancelled
        } else if raw == 5 {
            ContentKeyRequestStatus::Failed
        } else {
            ContentKeyRequestStatus::Unknown(raw)
        }
    }

    /// Decodes a raw bridge number.
    pub fn from_raw(raw: i32) -> (r: Self)
        ensures
            r == Self::spec_from_raw(raw),
    {
        match raw {
            0 => ContentKeyRequestStatus::RequestingResponse,
            1 => ContentKeyRequestStatus::ReceivedResponse,
            2 => ContentKeyRequestStatus::Renewed,
            3 => ContentKeyRequestStatus::Retried,
            4 => ContentKeyRequestStatus::Cancelled,
            5 => ContentKeyRequestStatus::Failed,
            other => ContentKeyRequestStatus::Unknown(other),
        }
    }

    /// Canonical: an `Unknown` never holds a number that a named variant stands for.
    pub open spec fn is_canonical(self) -> bool {
        match self {
            ContentKeyRequestStatus::Unknown(raw) => !(raw == 0 || raw == 1 || raw == 2 || raw == 3 || raw == 4 || raw == 5),
            _ => true,
        }
    }
}

/// Decoding follows `AVContentKeyRequest.Status` numbering: 0 is requesting
/// response, 1 is received response, 2 is renewed, 3 is retried, 4 is
/// cancelled, 5 is failed; every other number is kept as
/// it came, so no two numbers decode to the same value.
pub proof fn lemma_content_key_request_status_numbering(raw: i32, other: i32)
    ensures
        ContentKeyRequestStatus::spec_from_raw(0) == ContentKeyRequestStatus::RequestingResponse,
        ContentKeyRequestStatus::spec_from_raw(1) == ContentKeyRequestStatus::ReceivedResponse,
        ContentKeyRequestStatus::spec_from_raw(2) == ContentKeyRequestStatus::Renewed,
        ContentKeyRequestStatus::spec_from_raw(3) == ContentKeyRequestStatus::Retried,
        ContentKeyRequestStatus::spec_from_raw(4) == ContentKeyRequestStatus::Cancelled,
        ContentKeyRequestStatus::spec_from_raw(5) == ContentKeyRequestStatus::Failed,
        (raw < 0 || raw > 5) ==> ContentKeyRequestStatus::spec_from_raw(raw) == ContentKeyRequestStatus::Unknown(raw),
        ContentKeyRequestStatus::spec_from_raw(raw) == ContentKeyRequestStatus::spec_from_raw(other) ==> raw == other,
{
}

/// Every decoded value is canonical, and a decoded value keeps the number it
/// was decoded from when that number is not a named one.
pub proof fn lemma_request_status_from_raw(raw: i32)
    ensures
        ContentKeyRequestStatus::spec_from_raw(raw).is_canonical(),
        !(raw == 0 || raw == 1 || raw == 2 || raw == 3 || raw == 4 || raw == 5) ==> ContentKeyRequestStatus::spec_from_raw(raw) == ContentKeyRequestStatus::Unknown(raw),
{
}

/// External protection status of a content key.
#[derive(Debug, Clone, Copy, PartialEq, Eq, Structural)]
#[non_exhaustive]
pub enum ExternalContentProtectionStatus {
    /// Not yet known.
    Pending,
    /// Sufficient.
    Sufficient,
    /// Insufficient.
    Insufficient,
    /// A raw value this binding does not name.
    Unknown(i32),
}

impl ExternalContentProtectionStatus {
    /// The value a raw bridge number stands for.
    pub open spec fn spec_from_raw(raw: i32) -> Self {
        if raw == 0 {
            ExternalContentProtectionStatus::Pending
        } else if raw == 1 {
            ExternalContentProtectionStatus::Sufficient
        } else if raw == 2 {
            ExternalContentProtectionStatus::Insufficient
        } else {
            ExternalContentProtectionStatus::Unknown(raw)
        }
    }

    /// Decodes a raw bridge number.
    pub fn from_raw(raw: i32) -> (r: Self)
        ensures
            r == Self::spec_from_raw(raw),
    {
        match raw {
            0 => ExternalContentProtectionStatus::Pending,
            1 => ExternalContentProtectionStatus::Sufficient,
            2 => ExternalContentProtectionStatus::Insufficient,
            other => ExternalContentProtectionStatus::Unknown(other),
        }
    }

    /// Canonical: an `Unknown` never holds a number that a named variant stands for.
    pub open spec fn is_canonical(self) -> bool {
        match self {
            ExternalContentProtectionStatus::Unknown(raw) => !(raw == 0 || raw == 1 || raw == 2),
            _ => true,
        }
    }
}

/// Decoding follows `AVExternalContentProtectionStatus` numbering: 0 is
/// pending, 1 is sufficient, 2 is insufficient; every other number is kept as
/// it came, so no two numbers decode to the same value.
pub proof fn lemma_external_protection_status_numbering(raw: i32, other: i32)
    ensures
        ExternalContentProtectionStatus::spec_from_raw(0) == ExternalContentProtectionStatus::Pending,
        ExternalContentProtectionStatus::spec_from_raw(1) == ExternalContentProtectionStatus::Sufficient,
        ExternalContentProtectionStatus::spec_from_raw(2) == ExternalContentProtectionStatus::Insufficient,
        (raw < 0 || raw > 2) ==> ExternalContentProtectionStatus::spec_from_raw(raw) == ExternalContentProtectionStatus::Unknown(raw),
        ExternalContentProtectionStatus::spec_from_raw(raw) == ExternalContentProtectionStatus::spec_from_raw(other) ==> raw == other,
{
}

/// Every decoded value is canonical, and a decoded value keeps the number it
/// was decoded from when that number is not a named one.
pub proof fn lemma_protection_status_from_raw(raw: i32)
    ensures
        ExternalContentProtectionStatus::spec_from_raw(raw).is_canonical(),
        !(raw == 0 || raw == 1 || raw == 2) ==> ExternalContentProtectionStatus::spec_from_raw(raw) == ExternalContentProtectionStatus::Unknown(raw),
{
}

/// Checks the arguments of a content-key request before it goes to the bridge.
///
/// A request needs an identifier, initialization data, or both. With an
/// identifier, `key_system` is the session's key system, and the clear-key and
/// authorization-token systems accept only string identifiers.
pub fn validate_content_key_request(
    key_system: Option<&ContentKeySystem>,
    identifier: Option<&ContentKeyIdentifier>,
    initialization_data: Option<&[u8]>,
) -> (r: Result<(), AVPlayerError>)
    requires
        identifier is Some ==> key_system is Some,
    ensures
        identifier is None && initialization_data is None ==> (match r {
            Err(e) => e is InvalidArgument && e.message_of()
                == "content-key requests require an identifier, initialization data, or both"@,
            Ok(_) => false,
        }),
        identifier is Some ==> (match r {
            Ok(_) => !((key_system.unwrap() is ClearKey || key_system.unwrap() is AuthorizationToken)
                && !(identifier.unwrap() is String)),
            Err(e) => (key_system.unwrap() is ClearKey || key_system.unwrap() is AuthorizationToken)
                && !(identifier.unwrap() is String) && e is InvalidArgument && e.message_of()
                == "clear-key and authorization-token content-key requests require string identifiers"@,
        }),
        identifier is None && initialization_data is Some ==> r is Ok,
{
    if identifier.is_none() && initialization_data.is_none() {
        return Err(
            AVPlayerError::InvalidArgument(
                "content-key requests require an identifier, initialization data, or both".to_owned(),
            ),
        );
    }
    match identifier {
        Some(id) => {
            let system = key_system.unwrap();
            let restricted = match system {
                ContentKeySystem::ClearKey => true,
                ContentKeySystem::AuthorizationToken => true,
                _ => false,
            };
            let is_string = match id {
                ContentKeyIdentifier::String(_) => true,
                _ => false,
            };
            if restricted && !is_string {
                Err(
                    AVPlayerError::InvalidArgument(
                        "clear-key and authorization-token content-key requests require string identifiers".to_owned(),
                    ),
                )
            } else {
                Ok(())
            }
        },
        None => Ok(()),
    }
}

/// Checks that a session can renew expiring response data: only the FairPlay
/// Streaming key system can.
pub fn validate_renewal_key_system(key_system: &ContentKeySystem) -> (r: Result<(), AVPlayerError>)
    ensures
        key_system is FairPlayStreaming ==> r is Ok,
        !(key_system is FairPlayStreaming) ==> (match r {
            Err(e) => e is InvalidArgument && e.message_of()
                == "content-key renewal requires the FairPlay Streaming key system"@,
            Ok(_) => false,
        }),
{
    match key_system {
        ContentKeySystem::FairPlayStreaming => Ok(()),
        _ => Err(
            AVPlayerError::InvalidArgument(
                "content-key renewal requires the FairPlay Streaming key system".to_owned(),
            ),
        ),
    }
}

/// A session event as the bridge reports it; object fields are bridge handles.
#[derive(Debug, Clone, PartialEq, Eq)]
pub struct ContentKeySessionEventPayload {
    /// Event name.
    pub event: String,
    /// Handle of the request the event is about.
    pub request_ptr: Option<u64>,
    /// Handles of the requests of a collection.
    pub key_request_ptrs: Option<Vec<u64>>,
    /// Handle of the content key the event is about.
    pub content_key_ptr: Option<u64>,
    /// Initialization data of a request collection.
    pub initialization_data: Option<Vec<u8>>,
    /// Updated persistable key.
    pub persistable_content_key: Option<Vec<u8>>,
    /// Identifier of the updated persistable key.
    pub key_identifier: Option<ContentKeyIdentifierPayload>,
    /// Error message of a failed request.
    pub error_message: Option<String>,
    /// Raw retry reason.
    pub retry_reason: Option<String>,
}

/// Event of a content-key session; requests and keys are given by their bridge
/// handles.
#[derive(Debug, Clone, PartialEq, Eq)]
#[non_exhaustive]
pub enum ContentKeySessionEvent {
    /// A key was requested.
    Requested(u64),
    /// A key is being renewed.
    Renewing(u64),
    /// A persistable key was requested.
    Persistable(u64),
    /// A persistable key was updated.
    UpdatedPersistableContentKey {
        persistable_content_key: Vec<u8>,
        key_identifier: Option<ContentKeyIdentifier>,
    },
    /// A request failed.
    Failed { request: u64, error_message: String },
    /// A request asks to be retried.
    RetryRequested { request: u64, reason: ContentKeyRequestRetryReason },
    /// A request succeeded.
    Succeeded(u64),
    /// The protection session identifier changed.
    ContentProtectionSessionIdentifierDidChange,
    /// An expired-session report was generated.
    ExpiredSessionReportGenerated,
    /// The external protection status of a key changed.
    ExternalProtectionStatusDidChange(u64),
    /// Several keys were requested at once.
    RequestedCollection { requests: Vec<u64>, initialization_data: Option<Vec<u8>> },
}

/// What a session-event payload decodes to. Events about a request need its
/// handle and decode to `None` without it; a collection of exactly one request
/// without initialization data is reported as a single request.
pub open spec fn session_event_spec(p: ContentKeySessionEventPayload, r: Option<ContentKeySessionEvent>) -> bool {
    let name = p.event@;
    if name == "requested"@ {
        r == match p.request_ptr {
            Some(h) => Some(ContentKeySessionEvent::Requested(h)),
            None => None,
        }
    } else if name == "renewing"@ {
        r == match p.request_ptr {
            Some(h) => Some(ContentKeySessionEvent::Renewing(h)),
            None => None,
        }
    } else if name == "persistable"@ {
        r == match p.request_ptr {
            Some(h) => Some(ContentKeySessionEvent::Persistable(h)),
            None => None,
        }
    } else if name == "updated_persistable_content_key"@ {
        match r {
            Some(ContentKeySessionEvent::UpdatedPersistableContentKey {
                persistable_content_key,
                key_identifier,
            }) => persistable_content_key@ == (match p.persistable_content_key {
                Some(b) => b@,
                None => Seq::empty(),
            }) && (match (p.key_identifier, key_identifier) {
                (None, None) => true,
                (Some(ip), Some(id)) => identifier_from_payload_spec(ip, id),
                _ => false,
            }),
            _ => false,
        }
    } else if name == "failed"@ {
        match p.request_ptr {
            Some(h) => match r {
                Some(ContentKeySessionEvent::Failed { request, error_message }) => request == h
                    && error_message@ == string_or_empty(p.error_message),
                _ => false,
            },
            None => r is None,
        }
    } else if name == "retry_requested"@ {
        match p.request_ptr {
            Some(h) => match r {
                Some(ContentKeySessionEvent::RetryRequested { request, reason }) => request == h
                    && reason.raw_name() == string_or_empty(p.retry_reason) && reason.is_canonical(),
                _ => false,
            },
            None => r is None,
        }
    } else if name == "succeeded"@ {
        r == match p.request_ptr {
            Some(h) => Some(ContentKeySessionEvent::Succeeded(h)),
            None => None,
        }
    } else if name == "content_protection_session_identifier_did_change"@ {
        r == Some(ContentKeySessionEvent::ContentProtectionSessionIdentifierDidChange)
    } else if name == "expired_session_report_generated"@ {
        r == Some(ContentKeySessionEvent::ExpiredSessionReportGenerated)
    } else if name == "external_protection_status_did_change"@ {
        r == match p.content_key_ptr {
            Some(h) => Some(ContentKeySessionEvent::ExternalProtectionStatusDidChange(h)),
            None => None,
        }
    } else if name == "requested_collection"@ {
        match p.key_request_ptrs {
            Some(hs) => if hs@.len() == 1 && p.initialization_data is None {
                r == Some(ContentKeySessionEvent::Requested(hs@[0]))
            } else {
                match r {
                    Some(ContentKeySessionEvent::RequestedCollection {
                        requests,
                        initialization_data,
                    }) => requests@ == hs@ && initialization_data == p.initialization_data,
                    _ => false,
                }
            },
            None => r is None,
        }
    } else {
        r is None
    }
}

/// A request event carries its payload's request handle in the variant its
/// name names: a "persistable" payload is a persistable-key request, never a
/// plain one, and "failed" and "retry_requested" name the request they are
/// about. Without the handle such a payload decodes to nothing.
pub proof fn lemma_request_events_carry_their_handle(p: ContentKeySessionEventPayload, r: Option<ContentKeySessionEvent>)
    requires
        session_event_spec(p, r),
    ensures
        p.request_ptr matches Some(h) ==> {
            &&& p.event@ == "requested"@ ==> r == Some(ContentKeySessionEvent::Requested(h))
            &&& p.event@ == "renewing"@ ==> r == Some(ContentKeySessionEvent::Renewing(h))
            &&& p.event@ == "persistable"@ ==> r == Some(ContentKeySessionEvent::Persistable(h))
            &&& p.event@ == "succeeded"@ ==> r == Some(ContentKeySessionEvent::Succeeded(h))
            &&& p.event@ == "failed"@ ==> (r matches Some(ContentKeySessionEvent::Failed { request, .. })
                && request == h)
            &&& p.event@ == "retry_requested"@ ==> (r matches Some(
                ContentKeySessionEvent::RetryRequested { request, .. },
            ) && request == h)
        },
        p.request_ptr is None && (p.event@ == "requested"@ || p.event@ == "renewing"@ || p.event@
            == "persistable"@ || p.event@ == "succeeded"@ || p.event@ == "failed"@ || p.event@
            == "retry_requested"@) ==> r is None,
        p.event@ == "external_protection_status_did_change"@ ==> (p.content_key_ptr matches Some(k) ==> r
            == Some(ContentKeySessionEvent::ExternalProtectionStatusDidChange(k))),
{
    reveal_strlit("requested");
    reveal_strlit("renewing");
    reveal_strlit("persistable");
    reveal_strlit("updated_persistable_content_key");
    reveal_strlit("failed");
    reveal_strlit("retry_requested");
    reveal_strlit("succeeded");
    reveal_strlit("content_protection_session_identifier_did_change");
    reveal_strlit("expired_session_report_generated");
    reveal_strlit("external_protection_status_did_change");
    reveal_strlit("requested_collection");
    assert("requested"@.len() != "renewing"@.len());
    assert("requested"@.len() != "persistable"@.len());
    assert("requested"@.len() != "updated_persistable_content_key"@.len());
    assert("requested"@.len() != "failed"@.len());
    assert("requested"@.len() != "retry_requested"@.len());
    assert("requested"@[0] != "succeeded"@[0]);
    assert("requested"@.len() != "content_protection_session_identifier_did_change"@.len());
    assert("requested"@.len() != "expired_session_report_generated"@.len());
    assert("requested"@.len() != "external_protection_status_did_change"@.len());
    assert("requested"@.len() != "requested_collection"@.len());
    assert("renewing"@.len() != "persistable"@.len());
    assert("renewing"@.len() != "updated_persistable_content_key"@.len());
    assert("renewing"@.len() != "failed"@.len());
    assert("renewing"@.len() != "retry_requested"@.len());
    assert("renewing"@.len() != "succeeded"@.len());
    assert("renewing"@.len() != "content_protection_session_identifier_did_change"@.len());
    assert("renewing"@.len() != "expired_session_report_generated"@.len());
    assert("renewing"@.len() != "external_protection_status_did_change"@.len());
    assert("renewing"@.len() != "requested_collection"@.len());
    assert("persistable"@.len() != "updated_persistable_content_key"@.len());
    assert("persistable"@.len() != "failed"@.len());
    assert("persistable"@.len() != "retry_requested"@.len());
    assert("persistable"@.len() != "succeeded"@.len());
    assert("persistable"@.len() != "content_protection_session_identifier_did_change"@.len());
    assert("persistable"@.len() != "expired_session_report_generated"@.len());
    assert("persistable"@.len() != "external_protection_status_did_change"@.len());
    assert("persistable"@.len() != "requested_collection"@.len());
    assert("updated_persistable_content_key"@.len() != "failed"@.len());
    assert("updated_persistable_content_key"@.len() != "retry_requested"@.len());
    assert("updated_persistable_content_key"@.len() != "succeeded"@.len());
    assert("updated_persistable_content_key"@.len() != "content_protection_session_identifier_did_change"@.len());
    assert("updated_persistable_content_key"@.len() != "expired_session_report_generated"@.len());
    assert("updated_persistable_content_key"@.len() != "external_protection_status_did_change"@.len());
    assert("updated_persistable_content_key"@.len() != "requested_collection"@.len());
    assert("failed"@.len() != "retry_requested"@.len());
    assert("failed"@.len() != "succeeded"@.len());
    assert("failed"@.len() != "content_protection_session_identifier_did_change"@.len());
    assert("failed"@.len() != "expired_session_report_generated"@.len());
    assert("failed"@.len() != "external_protection_status_did_change"@.len());
    assert("failed"@.len() != "requested_collection"@.len());
    assert("retry_requested"@.len() != "succeeded"@.len());
    assert("retry_requested"@.len() != "content_protection_session_identifier_did_change"@.len());
    assert("retry_requested"@.len() != "expired_session_report_generated"@.len());
    assert("retry_requested"@.len() != "external_protection_status_did_change"@.len());
    assert("retry_requested"@.len() != "requested_collection"@.len());
    assert("succeeded"@.len() != "content_protection_session_identifier_did_change"@.len());
    assert("succeeded"@.len() != "expired_session_report_generated"@.len());
    assert("succeeded"@.len() != "external_protection_status_did_change"@.len());
    assert("succeeded"@.len() != "requested_collection"@.len());
    assert("content_protection_session_identifier_did_change"@.len() != "expired_session_report_generated"@.len());
    assert("content_protection_session_identifier_did_change"@.len() != "external_protection_status_did_change"@.len());
    assert("content_protection_session_identifier_did_change"@.len() != "requested_collection"@.len());
    assert("expired_session_report_generated"@.len() != "external_protection_status_did_change"@.len());
    assert("expired_session_report_generated"@.len() != "requested_collection"@.len());
    assert("external_protection_status_did_change"@.len() != "requested_collection"@.len());
}

/// A collection of key requests keeps its handles in order with the
/// initialization data, except that one request without initialization data
/// is reported as that single request; without handles it decodes to nothing.
/// A failure keeps its message (empty when absent), a retry keeps the reason
/// it names, and an updated persistable key keeps its bytes.
pub proof fn lemma_session_events_keep_their_data(p: ContentKeySessionEventPayload, r: Option<ContentKeySessionEvent>)
    requires
        session_event_spec(p, r),
    ensures
        p.event@ == "requested_collection"@ ==> (r is Some <==> p.key_request_ptrs is Some),
        p.event@ == "requested_collection"@ ==> (p.key_request_ptrs matches Some(hs) ==> (if hs@.len() == 1
            && p.initialization_data is None {
            r == Some(ContentKeySessionEvent::Requested(hs@[0]))
        } else {
            r matches Some(ContentKeySessionEvent::RequestedCollection { requests, initialization_data })
                && requests@ == hs@ && initialization_data == p.initialization_data
        })),
        p.event@ == "failed"@ ==> (r matches Some(ContentKeySessionEvent::Failed { error_message, .. })
            ==> error_message@ == (match p.error_message {
            Some(m) => m@,
            None => Seq::<char>::empty(),
        })),
        p.event@ == "retry_requested"@ ==> (r matches Some(ContentKeySessionEvent::RetryRequested { reason, .. })
            ==> reason.raw_name() == (match p.retry_reason {
            Some(m) => m@,
            None => Seq::<char>::empty(),
        })),
        p.event@ == "updated_persistable_content_key"@ ==> (r matches Some(
            ContentKeySessionEvent::UpdatedPersistableContentKey { persistable_content_key, key_identifier },
        ) && persistable_content_key@ == (match p.persistable_content_key {
            Some(b) => b@,
            None => Seq::<u8>::empty(),
        }) && (key_identifier is Some <==> p.key_identifier is Some)),
{
    reveal_strlit("requested");
    reveal_strlit("renewing");
    reveal_strlit("persistable");
    reveal_strlit("updated_persistable_content_key");
    reveal_strlit("failed");
    reveal_strlit("retry_requested");
    reveal_strlit("succeeded");
    reveal_strlit("content_protection_session_identifier_did_change");
    reveal_strlit("expired_session_report_generated");
    reveal_strlit("external_protection_status_did_change");
    reveal_strlit("requested_collection");
    assert("requested"@.len() != "renewing"@.len());
    assert("requested"@.len() != "persistable"@.len());
    assert("requested"@.len() != "updated_persistable_content_key"@.len());
    assert("requested"@.len() != "failed"@.len());
    assert("requested"@.len() != "retry_requested"@.len());
    assert("requested"@[0] != "succeeded"@[0]);
    assert("requested"@.len() != "content_protection_session_identifier_did_change"@.len());
    assert("requested"@.len() != "expired_session_report_generated"@.len());
    assert("requested"@.len() != "external_protection_status_did_change"@.len());
    assert("requested"@.len() != "requested_collection"@.len());
    assert("renewing"@.len() != "persistable"@.len());
    assert("renewing"@.len() != "updated_persistable_content_key"@.len());
    assert("renewing"@.len() != "failed"@.len());
    assert("renewing"@.len() != "retry_requested"@.len());
    assert("renewing"@.len() != "succeeded"@.len());
    assert("renewing"@.len() != "content_protection_session_identifier_did_change"@.len());
    assert("renewing"@.len() != "expired_session_report_generated"@.len());
    assert("renewing"@.len() != "external_protection_status_did_change"@.len());
    assert("renewing"@.len() != "requested_collection"@.len());
    assert("persistable"@.len() != "updated_persistable_content_key"@.len());
    assert("persistable"@.len() != "failed"@.len());
    assert("persistable"@.len() != "retry_requested"@.len());
    assert("persistable"@.len() != "succeeded"@.len());
    assert("persistable"@.len() != "content_protection_session_identifier_did_change"@.len());
    assert("persistable"@.len() != "expired_session_report_generated"@.len());
    assert("persistable"@.len() != "external_protection_status_did_change"@.len());
    assert("persistable"@.len() != "requested_collection"@.len());
    assert("updated_persistable_content_key"@.len() != "failed"@.len());
    assert("updated_persistable_content_key"@.len() != "retry_requested"@.len());
    assert("updated_persistable_content_key"@.len() != "succeeded"@.len());
    assert("updated_persistable_content_key"@.len() != "content_protection_session_identifier_did_change"@.len());
    assert("updated_persistable_content_key"@.len() != "expired_session_report_generated"@.len());
    assert("updated_persistable_content_key"@.len() != "external_protection_status_did_change"@.len());
    assert("updated_persistable_content_key"@.len() != "requested_collection"@.len());
    assert("failed"@.len() != "retry_requested"@.len());
    assert("failed"@.len() != "succeeded"@.len());
    assert("failed"@.len() != "content_protection_session_identifier_did_change"@.len());
    assert("failed"@.len() != "expired_session_report_generated"@.len());
    assert("failed"@.len() != "external_protection_status_did_change"@.len());
    assert("failed"@.len() != "requested_collection"@.len());
    assert("retry_requested"@.len() != "succeeded"@.len());
    assert("retry_requested"@.len() != "content_protection_session_identifier_did_change"@.len());
    assert("retry_requested"@.len() != "expired_session_report_generated"@.len());
    assert("retry_requested"@.len() != "external_protection_status_did_change"@.len());
    assert("retry_requested"@.len() != "requested_collection"@.len());
    assert("succeeded"@.len() != "content_protection_session_identifier_did_change"@.len());
    assert("succeeded"@.len() != "expired_session_report_generated"@.len());
    assert("succeeded"@.len() != "external_protection_status_did_change"@.len());
    assert("succeeded"@.len() != "requested_collection"@.len());
    assert("content_protection_session_identifier_did_change"@.len() != "expired_session_report_generated"@.len());
    assert("content_protection_session_identifier_did_change"@.len() != "external_protection_status_did_change"@.len());
    assert("content_protection_session_identifier_did_change"@.len() != "requested_collection"@.len());
    assert("expired_session_report_generated"@.len() != "external_protection_status_did_change"@.len());
    assert("expired_session_report_generated"@.len() != "requested_collection"@.len());
    assert("external_protection_status_did_change"@.len() != "requested_collection"@.len());
}

/// Decodes a session-event payload into the event it reports.
pub fn content_key_session_event_from_payload(payload: ContentKeySessionEventPayload) -> (r: Option<
    ContentKeySessionEvent,
>)
    ensures
        session_event_spec(payload, r),
{
    let event = payload.event.as_str();
    if str_eq(event, "requested") {
        match payload.request_ptr {
            Some(h) => Some(ContentKeySessionEvent::Requested(h)),
            None => None,
        }
    } else if str_eq(event, "renewing") {
        match payload.request_ptr {
            Some(h) => Some(ContentKeySessionEvent::Renewing(h)),
            None => None,
        }
    } else if str_eq(event, "persistable") {
        match payload.request_ptr {
            Some(h) => Some(ContentKeySessionEvent::Persistable(h)),
            None => None,
        }
    } else if str_eq(event, "updated_persistable_content_key") {
        let persistable_content_key = match payload.persistable_content_key {
            Some(b) => b,
            None => Vec::new(),
        };
        let key_identifier = match payload.key_identifier {
            Some(ip) => Some(ContentKeyIdentifier::from_payload(ip)),
            None => None,
        };
        Some(ContentKeySessionEvent::UpdatedPersistableContentKey { persistable_content_key, key_identifier })
    } else if str_eq(event, "failed") {
        match payload.request_ptr {
            Some(h) => Some(
                ContentKeySessionEvent::Failed {
                    request: h,
                    error_message: match payload.error_message {
                        Some(m) => m,
                        None => String::new(),
                    },
                },
            ),
            None => None,
        }
    } else if str_eq(event, "retry_requested") {
        match payload.request_ptr {
            Some(h) => {
                let reason = match &payload.retry_reason {
                    Some(raw) => ContentKeyRequestRetryReason::from_raw(raw.as_str()),
                    None => {
                        proof {
                            reveal_strlit("");
                            assert(""@ =~= Seq::<char>::empty());
                        }
                        ContentKeyRequestRetryReason::from_raw("")
                    },
                };
                Some(ContentKeySessionEvent::RetryRequested { request: h, reason })
            },
            None => None,
        }
    } else if str_eq(event, "succeeded") {
        match payload.request_ptr {
            Some(h) => Some(ContentKeySessionEvent::Succeeded(h)),
            None => None,
        }
    } else if str_eq(event, "content_protection_session_identifier_did_change") {
        Some(ContentKeySessionEvent::ContentProtectionSessionIdentifierDidChange)
    } else if str_eq(event, "expired_session_report_generated") {
        Some(ContentKeySessionEvent::ExpiredSessionReportGenerated)
    } else if str_eq(event, "external_protection_status_did_change") {
        match payload.content_key_ptr {
            Some(h) => Some(ContentKeySessionEvent::ExternalProtectionStatusDidChange(h)),
            None => None,
        }
    } else if str_eq(event, "requested_collection") {
        match payload.key_request_ptrs {
            Some(requests) => {
                if requests.len() == 1 && payload.initialization_data.is_none() {
                    Some(ContentKeySessionEvent::Requested(requests[0]))
                } else {
                    Some(
                        ContentKeySessionEvent::RequestedCollection {
                            requests,
                            initialization_data: payload.initialization_data,
                        },
                    )
                }
            },
            None => None,
        }
    } else {
        None
    }
}

} // verus!
