use avplayer::async_api::{flag_completion, text_completion};
use avplayer::collection::{
    bridge_index, checked_queue_item_count, queue_item_index, require_element,
};
use avplayer::error::AVPlayerError;
use avplayer::player_item_metadata_output::{MetadataOutputEvent, MetadataOutputEventPayload};
use avplayer::player_item_rendered_legible_output::{
    pair_in_order, RenderedLegibleOutputEvent, RenderedLegibleOutputEventPayload,
};
use avplayer::resource_loader::{
    resource_loader_dispatch, AssetResourceLoaderDispatch, AssetResourceLoaderEventKind,
};
use avplayer::text::{check_c_text, decimal_unsigned};
use avplayer::time::Time;

#[test]
fn bridge_indices_saturate() {
    assert_eq!(bridge_index(0), 0);
    assert_eq!(bridge_index(41), 41);
    assert_eq!(bridge_index(i32::MAX as usize), i32::MAX);
    assert_eq!(bridge_index(usize::MAX), i32::MAX);
}

#[test]
fn null_elements_are_errors() {
    assert_eq!(require_element(0x55, "queue item", 2), Ok(0x55));
    assert_eq!(
        require_element(0, "media-selection option", 12),
        Err(AVPlayerError::OperationFailed(
            "bridge returned null media-selection option at index 12".to_owned()
        ))
    );
}

#[test]
fn queue_counts_and_indices() {
    assert_eq!(checked_queue_item_count(2), Ok(2));
    assert_eq!(
        checked_queue_item_count(-3),
        Err(AVPlayerError::OperationFailed(
            "queue item count unexpectedly negative: -3".to_owned()
        ))
    );
    assert_eq!(queue_item_index(7), Ok(7));
    let too_big = (i32::MAX as usize).checked_add(1);
    if let Some(index) = too_big {
        let expected = i32::try_from(index).unwrap_err().to_string();
        assert_eq!(
            queue_item_index(index),
            Err(AVPlayerError::OperationFailed(format!(
                "queue item index exceeds bridge range: {expected}"
            )))
        );
    }
}

#[test]
fn c_text_checks_report_the_first_nul() {
    assert_eq!(check_c_text("fair_play_streaming", "key system"), Ok(()));
    for text in ["a\0b", "\0", "héllo\0", "ok\0\0"] {
        let position = text.as_bytes().iter().position(|b| *b == 0).unwrap();
        assert_eq!(
            check_c_text(text, "aperture mode"),
            Err(AVPlayerError::InvalidArgument(format!(
                "aperture mode contains NUL byte: nul byte found in provided data at position: {position}"
            )))
        );
    }
}

#[test]
fn unsigned_decimal_matches_to_string() {
    for n in [0u64, 5, 10, 99, 1_000_000, u64::MAX] {
        assert_eq!(decimal_unsigned(n), n.to_string());
    }
}

#[test]
fn resource_loader_events_deliver_or_release() {
    assert_eq!(
        resource_loader_dispatch(true, Some("loading_requested"), 0x100),
        AssetResourceLoaderDispatch::Deliver {
            kind: AssetResourceLoaderEventKind::LoadingRequested,
            object: 0x100,
        }
    );
    assert_eq!(
        resource_loader_dispatch(true, Some("renewal_requested"), 0x100),
        AssetResourceLoaderDispatch::Deliver {
            kind: AssetResourceLoaderEventKind::RenewalRequested,
            object: 0x100,
        }
    );
    assert_eq!(
        resource_loader_dispatch(true, Some("loading_cancelled"), 0x100),
        AssetResourceLoaderDispatch::Deliver {
            kind: AssetResourceLoaderEventKind::LoadingCancelled,
            object: 0x100,
        }
    );
    assert_eq!(
        resource_loader_dispatch(true, Some("other"), 0x100),
        AssetResourceLoaderDispatch::Reject { release: Some(0x100) }
    );
    assert_eq!(
        resource_loader_dispatch(false, Some("loading_requested"), 0x100),
        AssetResourceLoaderDispatch::Reject { release: Some(0x100) }
    );
    assert_eq!(
        resource_loader_dispatch(true, None, 0x100),
        AssetResourceLoaderDispatch::Reject { release: Some(0x100) }
    );
    assert_eq!(
        resource_loader_dispatch(true, Some("loading_requested"), 0),
        AssetResourceLoaderDispatch::Reject { release: None }
    );
}

#[test]
fn completions_resolve() {
    assert_eq!(
        text_completion(Some("cancelled".to_owned()), Some("{}".to_owned())),
        Err("cancelled".to_owned())
    );
    assert_eq!(text_completion(None, Some("{}".to_owned())), Ok("{}".to_owned()));
    assert_eq!(text_completion(None, None), Err("bridge returned null result".to_owned()));
    assert_eq!(flag_completion(None, true), Ok(true));
    assert_eq!(flag_completion(None, false), Ok(false));
    assert_eq!(flag_completion(Some("seek failed".to_owned()), true), Err("seek failed".to_owned()));
}

#[test]
fn metadata_output_events() {
    let p = MetadataOutputEventPayload {
        event: "timed_metadata_groups".to_owned(),
        groups: vec![1u8, 2],
        track_present: true,
    };
    assert_eq!(
        MetadataOutputEvent::from_payload(p),
        Some(MetadataOutputEvent::TimedMetadataGroups { groups: vec![1u8, 2], track_present: true })
    );
    let p = MetadataOutputEventPayload::<u8> {
        event: "sequence_was_flushed".to_owned(),
        groups: Vec::new(),
        track_present: false,
    };
    assert_eq!(MetadataOutputEvent::from_payload(p), Some(MetadataOutputEvent::SequenceWasFlushed));
    let p = MetadataOutputEventPayload::<u8> {
        event: "x".to_owned(),
        groups: Vec::new(),
        track_present: false,
    };
    assert_eq!(MetadataOutputEvent::from_payload(p), None);
}

#[test]
fn pairs_stop_at_the_shorter_list() {
    assert_eq!(pair_in_order(vec!['a', 'b', 'c'], vec![1, 2]), vec![('a', 1), ('b', 2)]);
    assert_eq!(pair_in_order(vec!['a'], vec![1, 2, 3]), vec![('a', 1)]);
    assert_eq!(pair_in_order(Vec::<char>::new(), vec![1]), Vec::<(char, i32)>::new());
}

#[test]
fn caption_images_carry_their_pixel_buffers() {
    let payload = RenderedLegibleOutputEventPayload {
        event: "rendered_caption_images".to_owned(),
        item_time: Some(Time::new(3, 1)),
        caption_images: Some(vec![(16usize, 8usize)]),
    };
    let event = RenderedLegibleOutputEvent::from_payload(payload, vec![0xBEEFu64]);
    assert_eq!(
        event,
        Some(RenderedLegibleOutputEvent::RenderedCaptionImages {
            item_time: Time::new(3, 1),
            caption_images: vec![((16, 8), 0xBEEF)],
        })
    );
    let no_time = RenderedLegibleOutputEventPayload::<u8> {
        event: "rendered_caption_images".to_owned(),
        item_time: None,
        caption_images: None,
    };
    assert_eq!(RenderedLegibleOutputEvent::from_payload(no_time, vec![1u64]), None);
    let flushed = RenderedLegibleOutputEventPayload::<u8> {
        event: "sequence_was_flushed".to_owned(),
        item_time: None,
        caption_images: None,
    };
    assert_eq!(
        RenderedLegibleOutputEvent::from_payload(flushed, Vec::<u64>::new()),
        Some(RenderedLegibleOutputEvent::SequenceWasFlushed)
    );
}
