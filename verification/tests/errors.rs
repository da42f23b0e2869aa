use avplayer::asset::{key_value_status_from_bridge, KeyValueStatus};
use avplayer::error::{availability_error, bridge_err, check_status, from_status, AVPlayerError};
use avplayer::status;
use avplayer::text::decimal;

#[test]
fn known_status_codes_map_to_their_error_kinds() {
    assert_eq!(
        from_status(status::INVALID_ARGUMENT, "bad".to_owned()),
        AVPlayerError::InvalidArgument("bad".to_owned())
    );
    assert_eq!(
        from_status(status::ASSET_CREATE_FAILED, "a".to_owned()),
        AVPlayerError::AssetCreateFailed("a".to_owned())
    );
    assert_eq!(
        from_status(status::PLAYER_CREATE_FAILED, "p".to_owned()),
        AVPlayerError::PlayerCreateFailed("p".to_owned())
    );
    assert_eq!(
        from_status(status::READER_CREATE_FAILED, "r".to_owned()),
        AVPlayerError::ReaderCreateFailed("r".to_owned())
    );
    assert_eq!(
        from_status(status::OPERATION_FAILED, "o".to_owned()),
        AVPlayerError::OperationFailed("o".to_owned())
    );
    assert_eq!(
        from_status(status::OBSERVER_FAILED, "w".to_owned()),
        AVPlayerError::ObserverFailed("w".to_owned())
    );
    assert_eq!(
        from_status(status::LOAD_FAILED, "l".to_owned()),
        AVPlayerError::LoadFailed("l".to_owned())
    );
}

#[test]
fn unknown_status_codes_name_the_code() {
    assert_eq!(
        from_status(42, "boom".to_owned()),
        AVPlayerError::OperationFailed("unknown status 42: boom".to_owned())
    );
    assert_eq!(
        from_status(-99, String::new()),
        AVPlayerError::OperationFailed("unknown status -99: ".to_owned())
    );
    assert_eq!(
        from_status(0, "ok?".to_owned()),
        AVPlayerError::OperationFailed("unknown status 0: ok?".to_owned())
    );
}

#[test]
fn status_constants_have_the_bridge_values() {
    assert_eq!(status::OK, 0);
    assert_eq!(status::INVALID_ARGUMENT, -1);
    assert_eq!(status::ASSET_CREATE_FAILED, -2);
    assert_eq!(status::PLAYER_CREATE_FAILED, -3);
    assert_eq!(status::READER_CREATE_FAILED, -4);
    assert_eq!(status::OPERATION_FAILED, -5);
    assert_eq!(status::OBSERVER_FAILED, -6);
    assert_eq!(status::LOAD_FAILED, -7);
}

#[test]
fn descriptions_prefix_the_message_with_the_kind() {
    assert_eq!(
        AVPlayerError::InvalidArgument("x".to_owned()).describe(),
        "invalid argument: x"
    );
    assert_eq!(
        AVPlayerError::AssetCreateFailed("x".to_owned()).describe(),
        "asset creation failed: x"
    );
    assert_eq!(
        AVPlayerError::PlayerCreateFailed("x".to_owned()).describe(),
        "player creation failed: x"
    );
    assert_eq!(
        AVPlayerError::ReaderCreateFailed("x".to_owned()).describe(),
        "asset reader creation failed: x"
    );
    assert_eq!(
        AVPlayerError::OperationFailed("x".to_owned()).describe(),
        "operation failed: x"
    );
    assert_eq!(
        AVPlayerError::ObserverFailed("x".to_owned()).describe(),
        "observer registration failed: x"
    );
    assert_eq!(AVPlayerError::LoadFailed("x".to_owned()).describe(), "load failed: x");
}

#[test]
fn availability_errors_name_symbol_and_release() {
    assert_eq!(
        availability_error("AVPlayer.foo", "12.0"),
        AVPlayerError::OperationFailed("AVPlayer.foo requires macOS 12.0+".to_owned())
    );
}

#[test]
fn bridge_errors_are_load_failures() {
    assert_eq!(
        bridge_err("timed out".to_owned()),
        AVPlayerError::LoadFailed("timed out".to_owned())
    );
}

#[test]
fn decimal_matches_to_string() {
    for n in [0i64, 7, 9, 10, 42, 100, 12345, -1, -10, -907, i64::MAX, i64::MIN] {
        assert_eq!(decimal(n), n.to_string());
    }
}

#[test]
fn status_results_succeed_only_on_ok() {
    assert_eq!(check_status(status::OK, "ignored".to_owned()), Ok(()));
    assert_eq!(
        check_status(status::OBSERVER_FAILED, "no".to_owned()),
        Err(AVPlayerError::ObserverFailed("no".to_owned()))
    );
    assert_eq!(
        check_status(3, "odd".to_owned()),
        Err(AVPlayerError::OperationFailed("unknown status 3: odd".to_owned()))
    );
}

#[test]
fn key_value_statuses_from_the_bridge() {
    assert_eq!(key_value_status_from_bridge(2, String::new()), Ok(KeyValueStatus::Loaded));
    assert_eq!(key_value_status_from_bridge(0, String::new()), Ok(KeyValueStatus::Unknown));
    assert_eq!(
        key_value_status_from_bridge(status::LOAD_FAILED, "timeout".to_owned()),
        Err(AVPlayerError::LoadFailed("timeout".to_owned()))
    );
}
