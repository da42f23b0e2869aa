use avplayer::asset_download::storage_policy_lookup;
use avplayer::error::AVPlayerError;
use avplayer::json::{
    decode_bridge_string, decode_bridge_string_list, encode_string_list, encode_u32_list,
    media_characteristics_from_bridge_json, media_selection_criteria_arguments,
    metadata_collector_arguments,
};
use avplayer::player_media_selection_criteria::MediaCharacteristic;

fn is_decode_error(r: &AVPlayerError) -> bool {
    matches!(r, AVPlayerError::OperationFailed(m) if m.starts_with("failed to decode bridge JSON: ")
        && m.len() > "failed to decode bridge JSON: ".len())
}

#[test]
fn bridge_strings_decode() {
    assert_eq!(
        decode_bridge_string("\"AVPlayerWaitingDuringInterstitialEventReason\""),
        Ok("AVPlayerWaitingDuringInterstitialEventReason".to_owned())
    );
    assert_eq!(decode_bridge_string("\"a\\\"b\\u00e9\""), Ok("a\"bé".to_owned()));
    assert!(is_decode_error(&decode_bridge_string("not json").unwrap_err()));
    assert!(is_decode_error(&decode_bridge_string("[1]").unwrap_err()));
}

#[test]
fn bridge_string_lists_decode() {
    assert_eq!(
        decode_bridge_string_list("[\"x\",\"y\"]"),
        Ok(vec!["x".to_owned(), "y".to_owned()])
    );
    assert_eq!(decode_bridge_string_list("[]"), Ok(Vec::new()));
    assert!(is_decode_error(&decode_bridge_string_list("[1,2]").unwrap_err()));
}

#[test]
fn media_characteristics_decode_from_bridge_json() {
    assert_eq!(
        media_characteristics_from_bridge_json("[\"audible\",\"legible\",\"odd\"]"),
        Ok(vec![
            MediaCharacteristic::Audible,
            MediaCharacteristic::Legible,
            MediaCharacteristic::Unknown("odd".to_owned()),
        ])
    );
    assert!(is_decode_error(&media_characteristics_from_bridge_json("{}").unwrap_err()));
}

#[test]
fn string_lists_encode_as_serde_does() {
    let items = vec!["en".to_owned(), "q\"uote".to_owned()];
    assert_eq!(encode_string_list(&items), serde_json::to_string(&items).unwrap());
    assert_eq!(encode_string_list(&Vec::new()), "[]");
}

#[test]
fn media_selection_criteria_drop_an_empty_principal_list() {
    let (languages, preferred, principal) = media_selection_criteria_arguments(
        &[],
        &vec!["en".to_owned(), "fr".to_owned()],
        &[MediaCharacteristic::Legible],
    );
    assert_eq!(languages, "[\"en\",\"fr\"]");
    assert_eq!(preferred, "[\"legible\"]");
    assert_eq!(principal, None);
    let (_, preferred, principal) = media_selection_criteria_arguments(
        &[MediaCharacteristic::Audible, MediaCharacteristic::Visual],
        &Vec::new(),
        &[],
    );
    assert_eq!(preferred, "[]");
    assert_eq!(principal, Some("[\"audible\",\"visual\"]".to_owned()));
}

#[test]
fn metadata_collector_arguments_keep_absent_lists_absent() {
    assert_eq!(metadata_collector_arguments(None, None), (None, None));
    assert_eq!(
        metadata_collector_arguments(Some(&vec!["id3/TIT2".to_owned()]), None),
        (Some("[\"id3/TIT2\"]".to_owned()), None)
    );
    assert_eq!(
        metadata_collector_arguments(None, Some(&Vec::new())),
        (None, Some("[]".to_owned()))
    );
}

#[test]
fn storage_policy_lookups() {
    assert_eq!(storage_policy_lookup(0x90, None), Ok(Some(0x90)));
    assert_eq!(storage_policy_lookup(0x90, Some("ignored".to_owned())), Ok(Some(0x90)));
    assert_eq!(storage_policy_lookup(0, None), Ok(None));
    assert_eq!(
        storage_policy_lookup(0, Some("no file".to_owned())),
        Err(AVPlayerError::OperationFailed("no file".to_owned()))
    );
}

#[test]
fn number_lists_encode_as_serde_does() {

    assert_eq!(encode_u32_list(&vec![1, 0x74783367]), "[1,1954034535]");
    assert_eq!(encode_u32_list(&Vec::new()), "[]");
    assert_eq!(encode_u32_list(&vec![0]), "[0]");
}

#[test]
fn bridge_indices_count_up_or_fail() {
    use_bridge_indices();
}

fn use_bridge_indices() {
    assert_eq!(avplayer::collection::bridge_indices(3, "track"), Ok(vec![0, 1, 2]));
    assert_eq!(avplayer::collection::bridge_indices(0, "track"), Ok(Vec::new()));
    assert_eq!(
        avplayer::collection::bridge_indices(-1, "track"),
        Err(AVPlayerError::OperationFailed("invalid track count: -1".to_owned()))
    );
}

#[test]
fn only_loading_and_renewal_requests_are_waited_for() {
    use_should_wait();
}

fn use_should_wait() {
    use_kind(avplayer::AssetResourceLoaderEventKind::LoadingRequested, true);
    use_kind(avplayer::AssetResourceLoaderEventKind::RenewalRequested, true);
    use_kind(avplayer::AssetResourceLoaderEventKind::LoadingCancelled, false);
}

fn use_kind(kind: avplayer::AssetResourceLoaderEventKind, expected: bool) {
    assert_eq!(kind.should_wait_for_loading(), expected);
}
