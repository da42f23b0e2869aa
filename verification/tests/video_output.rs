use avplayer::error::AVPlayerError;
use avplayer::fragmented_asset::{MediaExtensionPropertiesInfo, MediaExtensionPropertiesPayload};
use avplayer::player_video_output::{
    check_tag_collection_count, plan_tagged_buffers, PlayerVideoTaggedBufferKind,
    PlayerVideoTaggedBufferPayload, PlayerVideoTaggedBufferSlot,
};
use avplayer::reader::{VideoOutputSettings, PIXEL_FORMAT_BGRA};
use avplayer::reader_extras::{CaptionGroupInfo, CaptionValidationEvent};
use avplayer::time::{Time, TimeRange};

fn tagged(kind: &str) -> PlayerVideoTaggedBufferPayload {
    PlayerVideoTaggedBufferPayload {
        tags: vec!["tag".into()],
        buffer_kind: kind.into(),
        pixel_buffer_width: Some(4),
        pixel_buffer_height: Some(2),
    }
}

#[test]
fn samples_adopt_the_retained_buffers_in_order() {
    let retained_ptr: u64 = 0x7f00_1000;
    let plan = plan_tagged_buffers(
        vec![tagged("pixel_buffer"), tagged("sample_buffer"), tagged("other")],
        Time::new(1, 30),
        vec![retained_ptr, 0, 0],
    );
    assert_eq!(plan.tagged_buffers.len(), 3);
    assert_eq!(
        plan.tagged_buffers[0].buffer,
        PlayerVideoTaggedBufferSlot::PixelBuffer(retained_ptr)
    );
    assert_eq!(plan.tagged_buffers[1].buffer, PlayerVideoTaggedBufferSlot::Unavailable);
    assert_eq!(
        plan.tagged_buffers[2].kind,
        PlayerVideoTaggedBufferKind::Unknown("other".into())
    );
    assert!(plan.released.is_empty());
    assert_eq!(plan.presentation_time, Time::new(1, 30));
}

#[test]
fn unadopted_and_surplus_buffers_are_released_in_order() {
    let plan = plan_tagged_buffers(
        vec![tagged("other"), tagged("sample_buffer")],
        Time::new(0, 1),
        vec![0xA0, 0xB0, 0xC0, 0, 0xD0],
    );
    assert_eq!(plan.tagged_buffers[0].buffer, PlayerVideoTaggedBufferSlot::Unavailable);
    assert_eq!(plan.tagged_buffers[1].buffer, PlayerVideoTaggedBufferSlot::SampleBuffer(0xB0));
    assert_eq!(plan.released, vec![0xA0, 0xC0, 0xD0]);
    assert_eq!(plan.tagged_buffers[1].tags, vec!["tag".to_owned()]);
    assert_eq!(plan.tagged_buffers[1].pixel_buffer_width, Some(4));
    assert_eq!(plan.tagged_buffers[1].pixel_buffer_height, Some(2));
}

#[test]
fn missing_buffers_leave_tagged_buffers_empty() {
    let plan = plan_tagged_buffers(vec![tagged("pixel_buffer"), tagged("pixel_buffer")], Time::new(0, 1), vec![0x10]);
    assert_eq!(plan.tagged_buffers[0].buffer, PlayerVideoTaggedBufferSlot::PixelBuffer(0x10));
    assert_eq!(plan.tagged_buffers[1].buffer, PlayerVideoTaggedBufferSlot::Unavailable);
    assert!(plan.released.is_empty());
    let plan = plan_tagged_buffers(Vec::new(), Time::new(0, 1), vec![1, 2]);
    assert!(plan.tagged_buffers.is_empty());
    assert_eq!(plan.released, vec![1, 2]);
}

#[test]
fn every_non_null_buffer_is_adopted_or_released() {
    let retained = vec![3, 0, 5, 7, 0, 9];
    let plan = plan_tagged_buffers(
        vec![tagged("pixel_buffer"), tagged("pixel_buffer"), tagged("x"), tagged("sample_buffer")],
        Time::new(0, 1),
        retained.clone(),
    );
    let adopted = plan
        .tagged_buffers
        .iter()
        .filter(|b| b.buffer != PlayerVideoTaggedBufferSlot::Unavailable)
        .count();
    let non_null = retained.iter().filter(|h| **h != 0).count();
    assert_eq!(adopted + plan.released.len(), non_null);
}

#[test]
fn specifications_need_a_tag_collection() {
    assert_eq!(check_tag_collection_count(1), Ok(()));
    assert_eq!(
        check_tag_collection_count(0),
        Err(AVPlayerError::InvalidArgument(
            "video output specifications require at least one tag collection".to_owned()
        ))
    );
}

#[test]
fn video_settings_builders() {
    assert_eq!(PIXEL_FORMAT_BGRA, u32::from_be_bytes(*b"BGRA"));
    let s = VideoOutputSettings::bgra();
    assert_eq!(s.pixel_format(), PIXEL_FORMAT_BGRA);
    assert_eq!(s.width(), None);
    assert_eq!(s.height(), None);
    let s = s.with_dimensions(640, 360);
    assert_eq!(s.width(), Some(640));
    assert_eq!(s.height(), Some(360));
    assert_eq!(s.pixel_format(), PIXEL_FORMAT_BGRA);
    assert_eq!(VideoOutputSettings::new(42).pixel_format(), 42);
    assert_eq!(VideoOutputSettings::new(PIXEL_FORMAT_BGRA), VideoOutputSettings::bgra());
}

#[test]
fn media_extension_properties_carry_fields() {
    let info = MediaExtensionPropertiesInfo::from(MediaExtensionPropertiesPayload {
        containing_bundle_name: Some("Host".to_owned()),
        containing_bundle_url: None,
        extension_identifier: Some("com.example.ext".to_owned()),
        extension_name: None,
        extension_url: Some("file:///ext".to_owned()),
    });
    assert_eq!(info.containing_bundle_name, Some("Host".to_owned()));
    assert_eq!(info.extension_identifier, Some("com.example.ext".to_owned()));
    assert_eq!(info.extension_url, Some("file:///ext".to_owned()));
    assert_eq!(info.extension_name, None);
}

#[test]
fn caption_values_are_plain_data() {
    let group = CaptionGroupInfo {
        time_range: TimeRange::new(Time::new(0, 1), Time::new(2, 1)),
        captions: vec!["Hi".to_owned()],
    };
    assert_eq!(group.clone(), group);
    let event = CaptionValidationEvent {
        caption_text: "Hi".to_owned(),
        syntax_elements: vec!["ruby".to_owned()],
    };
    assert_eq!(event.syntax_elements.len(), 1);
}
