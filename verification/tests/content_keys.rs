use avplayer::content_key_session::{
    content_key_session_event_from_payload, validate_content_key_request,
    validate_renewal_key_system, ContentKeyIdentifier, ContentKeyIdentifierPayload,
    ContentKeyRequestOptions, ContentKeyRequestRetryReason, ContentKeySessionEvent,
    ContentKeySessionEventPayload, ContentKeySystem,
};
use avplayer::error::AVPlayerError;

fn event(name: &str) -> ContentKeySessionEventPayload {
    ContentKeySessionEventPayload {
        event: name.to_owned(),
        request_ptr: None,
        key_request_ptrs: None,
        content_key_ptr: None,
        initialization_data: None,
        persistable_content_key: None,
        key_identifier: None,
        error_message: None,
        retry_reason: None,
    }
}

#[test]
fn identifiers_survive_the_bridge_encoding() {
    for id in [
        ContentKeyIdentifier::string("skd://key".to_owned()),
        ContentKeyIdentifier::url("https://keys/1".to_owned()),
        ContentKeyIdentifier::data(vec![0, 1, 254, 255]),
        ContentKeyIdentifier::number(-12),
    ] {
        assert_eq!(ContentKeyIdentifier::from_payload(id.to_payload()), id);
    }
}

#[test]
fn identifier_payloads_carry_kind_and_value() {
    assert_eq!(
        ContentKeyIdentifier::number(5).to_payload(),
        ContentKeyIdentifierPayload {
            kind: "number".to_owned(),
            value: None,
            bytes: None,
            number_value: Some(5),
        }
    );
    assert_eq!(
        ContentKeyIdentifier::data(vec![9]).to_payload(),
        ContentKeyIdentifierPayload {
            kind: "data".to_owned(),
            value: None,
            bytes: Some(vec![9]),
            number_value: None,
        }
    );
}

#[test]
fn unknown_identifier_kinds_read_as_strings() {
    let p = ContentKeyIdentifierPayload {
        kind: "uuid".to_owned(),
        value: Some("abc".to_owned()),
        bytes: None,
        number_value: None,
    };
    assert_eq!(
        ContentKeyIdentifier::from_payload(p),
        ContentKeyIdentifier::String("abc".to_owned())
    );
    let p = ContentKeyIdentifierPayload {
        kind: "number".to_owned(),
        value: None,
        bytes: None,
        number_value: None,
    };
    assert_eq!(ContentKeyIdentifier::from_payload(p), ContentKeyIdentifier::Number(0));
}

#[test]
fn requests_need_an_identifier_or_data() {
    assert_eq!(
        validate_content_key_request(Some(&ContentKeySystem::FairPlayStreaming), None, None),
        Err(AVPlayerError::InvalidArgument(
            "content-key requests require an identifier, initialization data, or both".to_owned()
        ))
    );
    assert_eq!(
        validate_content_key_request(None, None, Some(&[1u8, 2][..])),
        Ok(())
    );
}

#[test]
fn clear_key_requests_need_string_identifiers() {
    let url = ContentKeyIdentifier::url("https://k".to_owned());
    let text = ContentKeyIdentifier::string("k".to_owned());
    let expected = Err(AVPlayerError::InvalidArgument(
        "clear-key and authorization-token content-key requests require string identifiers"
            .to_owned(),
    ));
    assert_eq!(
        validate_content_key_request(Some(&ContentKeySystem::ClearKey), Some(&url), None),
        expected
    );
    assert_eq!(
        validate_content_key_request(Some(&ContentKeySystem::AuthorizationToken), Some(&url), None),
        expected
    );
    assert_eq!(
        validate_content_key_request(Some(&ContentKeySystem::ClearKey), Some(&text), None),
        Ok(())
    );
    assert_eq!(
        validate_content_key_request(Some(&ContentKeySystem::FairPlayStreaming), Some(&url), None),
        Ok(())
    );
}

#[test]
fn only_fairplay_renews() {
    assert_eq!(validate_renewal_key_system(&ContentKeySystem::FairPlayStreaming), Ok(()));
    assert_eq!(
        validate_renewal_key_system(&ContentKeySystem::ClearKey),
        Err(AVPlayerError::InvalidArgument(
            "content-key renewal requires the FairPlay Streaming key system".to_owned()
        ))
    );
}

#[test]
fn request_options_default_is_empty() {
    let options = ContentKeyRequestOptions::default();
    assert!(options.is_empty());
    let options = ContentKeyRequestOptions {
        protocol_versions: vec![1],
        ..ContentKeyRequestOptions::default()
    };
    assert!(!options.is_empty());
}

#[test]
fn request_events_need_their_request() {
    assert_eq!(content_key_session_event_from_payload(event("requested")), None);
    let mut p = event("requested");
    p.request_ptr = Some(0x10);
    assert_eq!(
        content_key_session_event_from_payload(p.clone()),
        Some(ContentKeySessionEvent::Requested(0x10))
    );
    p.event = "renewing".to_owned();
    assert_eq!(
        content_key_session_event_from_payload(p.clone()),
        Some(ContentKeySessionEvent::Renewing(0x10))
    );
    p.event = "succeeded".to_owned();
    assert_eq!(
        content_key_session_event_from_payload(p.clone()),
        Some(ContentKeySessionEvent::Succeeded(0x10))
    );
    p.event = "failed".to_owned();
    assert_eq!(
        content_key_session_event_from_payload(p.clone()),
        Some(ContentKeySessionEvent::Failed { request: 0x10, error_message: String::new() })
    );
    p.event = "retry_requested".to_owned();
    p.retry_reason = Some("received_obsolete_content_key".to_owned());
    assert_eq!(
        content_key_session_event_from_payload(p),
        Some(ContentKeySessionEvent::RetryRequested {
            request: 0x10,
            reason: ContentKeyRequestRetryReason::ReceivedObsoleteContentKey,
        })
    );
}

#[test]
fn single_request_collections_are_single_requests() {
    let mut p = event("requested_collection");
    assert_eq!(content_key_session_event_from_payload(p.clone()), None);
    p.key_request_ptrs = Some(vec![0x20]);
    assert_eq!(
        content_key_session_event_from_payload(p.clone()),
        Some(ContentKeySessionEvent::Requested(0x20))
    );
    p.initialization_data = Some(vec![1]);
    assert_eq!(
        content_key_session_event_from_payload(p.clone()),
        Some(ContentKeySessionEvent::RequestedCollection {
            requests: vec![0x20],
            initialization_data: Some(vec![1]),
        })
    );
    p.key_request_ptrs = Some(vec![0x20, 0x30]);
    p.initialization_data = None;
    assert_eq!(
        content_key_session_event_from_payload(p),
        Some(ContentKeySessionEvent::RequestedCollection {
            requests: vec![0x20, 0x30],
            initialization_data: None,
        })
    );
}

#[test]
fn session_wide_events() {
    assert_eq!(
        content_key_session_event_from_payload(event(
            "content_protection_session_identifier_did_change"
        )),
        Some(ContentKeySessionEvent::ContentProtectionSessionIdentifierDidChange)
    );
    assert_eq!(
        content_key_session_event_from_payload(event("expired_session_report_generated")),
        Some(ContentKeySessionEvent::ExpiredSessionReportGenerated)
    );
    let mut p = event("external_protection_status_did_change");
    assert_eq!(content_key_session_event_from_payload(p.clone()), None);
    p.content_key_ptr = Some(0x40);
    assert_eq!(
        content_key_session_event_from_payload(p),
        Some(ContentKeySessionEvent::ExternalProtectionStatusDidChange(0x40))
    );
    let mut p = event("updated_persistable_content_key");
    p.key_identifier = Some(ContentKeyIdentifier::number(3).to_payload());
    assert_eq!(
        content_key_session_event_from_payload(p),
        Some(ContentKeySessionEvent::UpdatedPersistableContentKey {
            persistable_content_key: Vec::new(),
            key_identifier: Some(ContentKeyIdentifier::Number(3)),
        })
    );
    assert_eq!(content_key_session_event_from_payload(event("mystery")), None);
}
