use agora_rtc::errors::RtcError;
use agora_rtc::options::AREA_CODE_DEFAULT;
use agora_rtc::options::ChannelOptions;
use agora_rtc::options::LICENSE_CAPACITY;
use agora_rtc::options::LogLevel;
use agora_rtc::options::PRODUCT_ID_CAPACITY;
use agora_rtc::options::ServiceOptions;
use agora_rtc::options::StreamQuality;
use agora_rtc::options::VideoDataType;
use agora_rtc::options::VideoFrameInfo;
use agora_rtc::options::VideoFrameRate;
use agora_rtc::options::VideoFrameType;
use agora_rtc::session::Session;
use agora_rtc::session::SessionState;

fn default_options() -> ServiceOptions {
    let mut options = ServiceOptions::default();
    options.area_code = AREA_CODE_DEFAULT;
    options.product_id = vec![0; PRODUCT_ID_CAPACITY];
    options.log_config.level = LogLevel::Notice;
    options
}

fn initialized_session() -> Session {
    let mut s = Session::new("app-id");
    let call = s.begin_initialize(&default_options()).unwrap();
    assert_eq!(call.area_code, AREA_CODE_DEFAULT);
    s.complete_initialize(0).unwrap();
    s
}

fn connected_session(id: u32) -> Session {
    let mut s = initialized_session();
    s.begin_create_connection().unwrap();
    let got = s.complete_create_connection(0, id).unwrap();
    assert_eq!(got, id);
    s
}

fn joined_session(id: u32) -> Session {
    let mut s = connected_session(id);
    let call = s
        .begin_join_channel("test-channel", 42, "tok", &ChannelOptions::default())
        .unwrap();
    assert_eq!(call.connection_id, id);
    s.complete_join_channel("test-channel", 42, "tok", 0).unwrap();
    s
}

fn frame_info() -> VideoFrameInfo {
    VideoFrameInfo {
        data_type: VideoDataType::H264,
        frame_type: VideoFrameType::Key,
        frame_rate: VideoFrameRate::Fps30,
        stream_quality: StreamQuality::High,
    }
}

#[test]
fn full_lifecycle_scenario() {
    let mut s = Session::new("app-id");
    assert_eq!(s.current_state(), SessionState::Uninitialized);

    let call = s.begin_initialize(&default_options()).unwrap();
    assert_eq!(call.area_code, AREA_CODE_DEFAULT);
    assert_eq!(call.product_id, vec![0; PRODUCT_ID_CAPACITY]);
    assert_eq!(call.license, vec![0; LICENSE_CAPACITY]);
    assert_eq!(call.log_level, 5);
    assert_eq!(call.app_id, b"app-id\0".to_vec());
    s.complete_initialize(0).unwrap();
    assert_eq!(s.current_state(), SessionState::Initialized);

    s.begin_create_connection().unwrap();
    let id = s.complete_create_connection(0, 11).unwrap();
    assert_eq!(id, 11);
    assert_eq!(s.connection_id(), Some(11));
    assert_eq!(s.current_state(), SessionState::ConnectionCreated);

    let join = s
        .begin_join_channel("test-channel", 42, "tok", &ChannelOptions::default())
        .unwrap();
    assert_eq!(join.connection_id, 11);
    assert_eq!(join.channel, b"test-channel\0".to_vec());
    assert_eq!(join.user_id, 42);
    assert_eq!(join.token, b"tok\0".to_vec());
    s.complete_join_channel("test-channel", 42, "tok", 0).unwrap();
    assert_eq!(s.current_state(), SessionState::Joined);
    assert_eq!(s.channel(), &b"test-channel".to_vec());
    assert_eq!(s.token(), &b"tok".to_vec());
    assert_eq!(s.user_id(), 42);

    let leave = s.begin_leave_channel().unwrap();
    assert_eq!(leave.connection_id, 11);
    s.complete_leave_channel(0).unwrap();
    assert_eq!(s.current_state(), SessionState::ConnectionCreated);

    let destroy = s.begin_destroy_connection().unwrap().unwrap();
    assert_eq!(destroy.connection_id, 11);
    assert!(!destroy.leave_first);
    s.complete_destroy_connection(0).unwrap();
    assert_eq!(s.current_state(), SessionState::Initialized);
    assert_eq!(s.connection_id(), None);

    assert!(s.begin_deinitialize().unwrap());
    s.complete_deinitialize(0).unwrap();
    assert_eq!(s.current_state(), SessionState::Uninitialized);
}

#[test]
fn create_destroy_create_takes_the_fresh_identifier() {
    let mut s = initialized_session();
    s.begin_create_connection().unwrap();
    let first = s.complete_create_connection(0, 5).unwrap();
    assert_eq!(first, 5);
    s.begin_destroy_connection().unwrap().unwrap();
    s.complete_destroy_connection(0).unwrap();
    s.begin_create_connection().unwrap();
    let second = s.complete_create_connection(0, 9).unwrap();
    assert_eq!(second, 9);
    assert_eq!(s.connection_id(), Some(9));
}

#[test]
fn leave_twice_second_time_is_a_noop() {
    let mut s = joined_session(3);
    assert!(s.begin_leave_channel().is_some());
    s.complete_leave_channel(0).unwrap();
    // Second leave: no native call is named, and completing succeeds.
    assert!(s.begin_leave_channel().is_none());
    assert_eq!(s.complete_leave_channel(0), Ok(()));
    assert_eq!(s.current_state(), SessionState::ConnectionCreated);
}

#[test]
fn leave_unjoins_even_when_the_native_call_fails() {
    let mut s = joined_session(3);
    assert!(s.begin_leave_channel().is_some());
    assert_eq!(s.complete_leave_channel(-8), Err(RtcError::NativeError(-8)));
    assert_eq!(s.current_state(), SessionState::ConnectionCreated);
    // A retry is a no-op, exactly as after a successful leave.
    assert!(s.begin_leave_channel().is_none());
    assert_eq!(s.complete_leave_channel(0), Ok(()));
}

#[test]
fn send_video_while_not_joined_is_invalid_state() {
    let info = frame_info();
    let s = Session::new("app-id");
    assert_eq!(s.begin_send_video(Some(&info)), Err(RtcError::InvalidState));
    let s = initialized_session();
    assert_eq!(s.begin_send_video(Some(&info)), Err(RtcError::InvalidState));
    let s = connected_session(2);
    assert_eq!(s.begin_send_video(Some(&info)), Err(RtcError::InvalidState));
}

#[test]
fn send_video_uses_the_explicit_frame_info() {
    let s = joined_session(4);
    let call = s.begin_send_video(Some(&frame_info())).unwrap();
    assert_eq!(call.connection_id, 4);
    assert_eq!(call.frame_info, frame_info());
}

#[test]
fn send_video_without_default_is_an_error() {
    let s = joined_session(4);
    assert_eq!(s.begin_send_video(None), Err(RtcError::NoDefaultConfigured));
}

#[test]
fn send_video_falls_back_to_the_default() {
    let mut s = joined_session(4);
    s.set_default_frame_info(frame_info());
    let call = s.begin_send_video(None).unwrap();
    assert_eq!(call.frame_info, frame_info());
}

#[test]
fn teardown_from_every_state_ends_uninitialized() {
    let mut s = Session::new("app-id");
    let plan = s.teardown();
    assert_eq!(s.current_state(), SessionState::Uninitialized);
    assert_eq!(plan.leave, None);
    assert_eq!(plan.destroy, None);
    assert!(!plan.deinitialize);

    let mut s = initialized_session();
    let plan = s.teardown();
    assert_eq!(s.current_state(), SessionState::Uninitialized);
    assert_eq!(plan.leave, None);
    assert_eq!(plan.destroy, None);
    assert!(plan.deinitialize);

    let mut s = connected_session(6);
    let plan = s.teardown();
    assert_eq!(s.current_state(), SessionState::Uninitialized);
    assert_eq!(plan.leave, None);
    assert_eq!(plan.destroy, Some(6));
    assert!(plan.deinitialize);

    let mut s = joined_session(6);
    let plan = s.teardown();
    assert_eq!(s.current_state(), SessionState::Uninitialized);
    assert_eq!(plan.leave, Some(6));
    assert_eq!(plan.destroy, Some(6));
    assert!(plan.deinitialize);
    assert_eq!(s.connection_id(), None);
}

#[test]
fn initialize_from_wrong_state_is_invalid_state() {
    let s = initialized_session();
    assert!(matches!(
        s.begin_initialize(&default_options()),
        Err(RtcError::InvalidState)
    ));
}

#[test]
fn initialize_failure_keeps_the_session_uninitialized() {
    let mut s = Session::new("app-id");
    s.begin_initialize(&default_options()).unwrap();
    assert_eq!(s.complete_initialize(-2), Err(RtcError::NativeError(-2)));
    assert_eq!(s.current_state(), SessionState::Uninitialized);
}

#[test]
fn initialize_with_null_in_app_id_is_an_encoding_error() {
    let s = Session::new("app\0id");
    assert!(matches!(
        s.begin_initialize(&default_options()),
        Err(RtcError::EncodingError)
    ));
}

#[test]
fn initialize_with_null_in_log_path_is_an_encoding_error() {
    let s = Session::new("app-id");
    let mut options = default_options();
    options.log_config.path = String::from("/tmp\0/logs");
    assert!(matches!(
        s.begin_initialize(&options),
        Err(RtcError::EncodingError)
    ));
}

#[test]
fn initialize_with_oversized_product_id_exceeds_capacity() {
    let s = Session::new("app-id");
    let mut options = default_options();
    options.product_id = vec![1; PRODUCT_ID_CAPACITY + 1];
    assert!(matches!(
        s.begin_initialize(&options),
        Err(RtcError::CapacityExceeded)
    ));
}

#[test]
fn initialize_with_oversized_license_exceeds_capacity() {
    let s = Session::new("app-id");
    let mut options = default_options();
    options.license = vec![1; LICENSE_CAPACITY + 1];
    assert!(matches!(
        s.begin_initialize(&options),
        Err(RtcError::CapacityExceeded)
    ));
}

#[test]
fn create_connection_from_wrong_state_is_invalid_state() {
    let s = Session::new("app-id");
    assert_eq!(s.begin_create_connection(), Err(RtcError::InvalidState));
    let s = connected_session(1);
    assert_eq!(s.begin_create_connection(), Err(RtcError::InvalidState));
}

#[test]
fn create_connection_failure_keeps_the_state() {
    let mut s = initialized_session();
    s.begin_create_connection().unwrap();
    assert_eq!(
        s.complete_create_connection(-1, 0),
        Err(RtcError::NativeError(-1))
    );
    assert_eq!(s.current_state(), SessionState::Initialized);
    assert_eq!(s.connection_id(), None);
}

#[test]
fn join_from_wrong_state_is_invalid_state() {
    let s = initialized_session();
    assert!(matches!(
        s.begin_join_channel("c", 1, "t", &ChannelOptions::default()),
        Err(RtcError::InvalidState)
    ));
}

#[test]
fn join_with_null_in_channel_name_is_an_encoding_error() {
    let s = connected_session(1);
    assert!(matches!(
        s.begin_join_channel("bad\0name", 1, "t", &ChannelOptions::default()),
        Err(RtcError::EncodingError)
    ));
}

#[test]
fn join_with_null_in_token_is_an_encoding_error() {
    let s = connected_session(1);
    assert!(matches!(
        s.begin_join_channel("c", 1, "ba\0d", &ChannelOptions::default()),
        Err(RtcError::EncodingError)
    ));
}

#[test]
fn join_failure_keeps_the_state() {
    let mut s = connected_session(1);
    s.begin_join_channel("c", 1, "t", &ChannelOptions::default())
        .unwrap();
    assert_eq!(
        s.complete_join_channel("c", 1, "t", -5),
        Err(RtcError::NativeError(-5))
    );
    assert_eq!(s.current_state(), SessionState::ConnectionCreated);
    assert_eq!(s.channel(), &Vec::new());
}

#[test]
fn rejoin_replaces_the_recorded_parameters() {
    let mut s = joined_session(2);
    s.begin_join_channel("other", 7, "tok2", &ChannelOptions::default())
        .unwrap();
    s.complete_join_channel("other", 7, "tok2", 0).unwrap();
    assert_eq!(s.current_state(), SessionState::Joined);
    assert_eq!(s.channel(), &b"other".to_vec());
    assert_eq!(s.user_id(), 7);
}

#[test]
fn mute_needs_a_connection() {
    let s = initialized_session();
    assert_eq!(s.begin_mute_local_audio(true), Err(RtcError::InvalidState));
    let s = connected_session(8);
    let call = s.begin_mute_local_audio(true).unwrap();
    assert_eq!(call.connection_id, 8);
    assert!(call.mute);
    let s = joined_session(8);
    let call = s.begin_mute_local_audio(false).unwrap();
    assert!(!call.mute);
}

#[test]
fn destroy_is_a_noop_when_no_connection_exists() {
    let mut s = initialized_session();
    assert_eq!(s.begin_destroy_connection(), Ok(None));
    assert_eq!(s.complete_destroy_connection(0), Ok(()));
    assert_eq!(s.current_state(), SessionState::Initialized);
}

#[test]
fn destroy_while_uninitialized_is_invalid_state() {
    let s = Session::new("app-id");
    assert!(matches!(
        s.begin_destroy_connection(),
        Err(RtcError::InvalidState)
    ));
}

#[test]
fn destroy_while_joined_leaves_first() {
    let s = joined_session(9);
    let call = s.begin_destroy_connection().unwrap().unwrap();
    assert_eq!(call.connection_id, 9);
    assert!(call.leave_first);
}

#[test]
fn destroy_failure_keeps_the_connection() {
    let mut s = connected_session(9);
    s.begin_destroy_connection().unwrap().unwrap();
    assert_eq!(
        s.complete_destroy_connection(-4),
        Err(RtcError::NativeError(-4))
    );
    assert_eq!(s.connection_id(), Some(9));
    assert_eq!(s.current_state(), SessionState::ConnectionCreated);
}

#[test]
fn deinitialize_is_a_noop_while_uninitialized() {
    let mut s = Session::new("app-id");
    assert_eq!(s.begin_deinitialize(), Ok(false));
    assert_eq!(s.complete_deinitialize(0), Ok(()));
    assert_eq!(s.current_state(), SessionState::Uninitialized);
}

#[test]
fn deinitialize_with_a_live_connection_is_invalid_state() {
    let s = connected_session(1);
    assert_eq!(s.begin_deinitialize(), Err(RtcError::InvalidState));
    let s = joined_session(1);
    assert_eq!(s.begin_deinitialize(), Err(RtcError::InvalidState));
}

#[test]
fn deinitialize_failure_keeps_the_state() {
    let mut s = initialized_session();
    assert!(s.begin_deinitialize().unwrap());
    assert_eq!(s.complete_deinitialize(-6), Err(RtcError::NativeError(-6)));
    assert_eq!(s.current_state(), SessionState::Initialized);
}
