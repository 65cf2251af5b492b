use webrtc_bridge::connection::{
    mute_signals_remove_track, select_sender_for_removal, EngineTransceiverDirection,
};
use webrtc_bridge::datachannel::{DataChannelState, EngineDataChannelState};
use webrtc_bridge::writer::{SeekTarget, VirtualSeekWriter};
use webrtc_bridge::rtc::{
    instant_to_epoch_millis, ConnectionState, EngineConnectionState, EngineIceConnectionState,
    EngineIceGatheringState, EngineSdpType, EngineSignalingState, IceConnectionState,
    IceGatheringState, RtcError, SessionDescription, SessionDescriptionType, SignalingState,
};

const VALID_SDP: &str = "v=0\r\no=- 0 0 IN IP4 127.0.0.1\r\ns=-\r\nt=0 0\r\n";

#[test]
fn rollback_is_rejected_as_a_settable_description() {
    let desc = SessionDescription {
        sdp_type: SessionDescriptionType::Rollback,
        sdp: VALID_SDP.to_string(),
    };
    match desc.to_native() {
        Err(RtcError::SdpError(m)) => assert_eq!(m, "Can't set SDP rollback"),
        other => panic!("expected the SDP error, got {other:?}"),
    }
}

#[test]
fn offer_and_answer_succeed_on_valid_sdp() {
    for t in [
        SessionDescriptionType::Offer,
        SessionDescriptionType::Answer,
        SessionDescriptionType::ProvisionalAnswer,
    ] {
        let desc = SessionDescription {
            sdp_type: t,
            sdp: VALID_SDP.to_string(),
        };
        assert!(desc.to_native().is_ok(), "{t:?} should wrap valid SDP");
    }
}

#[test]
fn unparseable_sdp_surfaces_as_sdp_error() {
    let desc = SessionDescription {
        sdp_type: SessionDescriptionType::Offer,
        sdp: "this is not SDP".to_string(),
    };
    match desc.to_native() {
        Err(RtcError::SdpError(_)) => {}
        other => panic!("expected the SDP error, got {other:?}"),
    }
}

#[test]
fn session_description_round_trips_the_type_vocabulary() {
    let cases = [
        (EngineSdpType::Offer, SessionDescriptionType::Offer),
        (EngineSdpType::Answer, SessionDescriptionType::Answer),
        (
            EngineSdpType::Pranswer,
            SessionDescriptionType::ProvisionalAnswer,
        ),
        (EngineSdpType::Rollback, SessionDescriptionType::Rollback),
    ];
    for (native, portable) in cases {
        let d = SessionDescription::from_native(native, "x".to_string());
        assert_eq!(d.sdp_type, portable);
        assert_eq!(d.sdp, "x");
    }
}

#[test]
fn connection_states_translate_one_to_one() {
    let cases = [
        (EngineConnectionState::New, ConnectionState::New),
        (EngineConnectionState::Connecting, ConnectionState::Connecting),
        (EngineConnectionState::Connected, ConnectionState::Connected),
        (
            EngineConnectionState::Disconnected,
            ConnectionState::Disconnected,
        ),
        (EngineConnectionState::Failed, ConnectionState::Failed),
        (EngineConnectionState::Closed, ConnectionState::Closed),
    ];
    for (native, portable) in cases {
        assert_eq!(ConnectionState::from_native(native), portable);
    }
}

#[test]
fn ice_connection_states_translate_one_to_one() {
    let cases = [
        (EngineIceConnectionState::New, IceConnectionState::New),
        (EngineIceConnectionState::Checking, IceConnectionState::Checking),
        (EngineIceConnectionState::Connected, IceConnectionState::Connected),
        (EngineIceConnectionState::Completed, IceConnectionState::Completed),
        (
            EngineIceConnectionState::Disconnected,
            IceConnectionState::Disconnected,
        ),
        (EngineIceConnectionState::Failed, IceConnectionState::Failed),
        (EngineIceConnectionState::Closed, IceConnectionState::Closed),
    ];
    for (native, portable) in cases {
        assert_eq!(IceConnectionState::from_native(native), portable);
    }
}

#[test]
fn gathering_and_signaling_states_translate_one_to_one() {
    assert_eq!(
        IceGatheringState::from_native(EngineIceGatheringState::New),
        IceGatheringState::New
    );
    assert_eq!(
        IceGatheringState::from_native(EngineIceGatheringState::Gathering),
        IceGatheringState::Gathering
    );
    assert_eq!(
        IceGatheringState::from_native(EngineIceGatheringState::Complete),
        IceGatheringState::Complete
    );

    let cases = [
        (EngineSignalingState::Stable, SignalingState::Stable),
        (EngineSignalingState::Closed, SignalingState::Closed),
        (
            EngineSignalingState::HaveLocalOffer,
            SignalingState::HaveLocalOffer,
        ),
        (
            EngineSignalingState::HaveRemoteOffer,
            SignalingState::HaveRemoteOffer,
        ),
        (
            EngineSignalingState::HaveLocalPranswer,
            SignalingState::HaveLocalProvisionalAnswer,
        ),
        (
            EngineSignalingState::HaveRemotePranswer,
            SignalingState::HaveRemoteProvisionalAnswer,
        ),
    ];
    for (native, portable) in cases {
        assert_eq!(SignalingState::from_native(native), portable);
    }
}

#[test]
fn data_channel_states_translate_one_to_one() {
    let cases = [
        (EngineDataChannelState::Connecting, DataChannelState::Connecting),
        (EngineDataChannelState::Open, DataChannelState::Open),
        (EngineDataChannelState::Closing, DataChannelState::Closing),
        (EngineDataChannelState::Closed, DataChannelState::Closed),
    ];
    for (native, portable) in cases {
        assert_eq!(DataChannelState::from_native(native), portable);
    }
}

#[test]
fn mute_heuristic_fires_only_when_the_peer_cannot_receive() {
    assert!(mute_signals_remove_track(EngineTransceiverDirection::Sendonly));
    assert!(mute_signals_remove_track(EngineTransceiverDirection::Inactive));
    assert!(!mute_signals_remove_track(EngineTransceiverDirection::Sendrecv));
    assert!(!mute_signals_remove_track(EngineTransceiverDirection::Recvonly));
    assert!(!mute_signals_remove_track(EngineTransceiverDirection::Unspecified));
}

#[test]
fn sender_scan_picks_the_first_match() {
    let ids = vec![
        None,
        Some("a".to_string()),
        Some("b".to_string()),
        Some("b".to_string()),
    ];
    assert_eq!(select_sender_for_removal(&ids, &"b".to_string()).unwrap(), 2);
    assert_eq!(select_sender_for_removal(&ids, &"a".to_string()).unwrap(), 1);
}

#[test]
fn sender_scan_reports_track_not_found() {
    let ids = vec![None, Some("a".to_string())];
    match select_sender_for_removal(&ids, &"missing".to_string()) {
        Err(RtcError::RemoveTrackError(m)) => assert_eq!(m, "Track not found"),
        other => panic!("expected the remove-track error, got {other:?}"),
    }
}

#[test]
fn epoch_anchoring_subtracts_the_monotonic_age() {
    assert_eq!(instant_to_epoch_millis(5_000_000, 1_000_000).unwrap(), 4_000);
    assert_eq!(instant_to_epoch_millis(1_500, 0).unwrap(), 1);
    match instant_to_epoch_millis(1, 2) {
        Err(RtcError::StatsError(m)) => assert_eq!(m, "Time went backwards"),
        other => panic!("expected the stats error, got {other:?}"),
    }
}

#[test]
fn error_messages_carry_the_conventional_prefixes() {
    assert_eq!(
        RtcError::SdpError("bad".to_string()).message(),
        "SDP Error: bad"
    );
    assert_eq!(
        RtcError::MediaTrackError("x".to_string()).message(),
        "Media track error: x"
    );
    assert_eq!(
        RtcError::FeatureNotSupported.message(),
        "Feature is not supported by WebRTC.rs"
    );
    assert_eq!(
        RtcError::CreateConnectionError("boom".to_string()).message(),
        "Failed to initialize RTC Connection: boom"
    );
}

#[test]
fn virtual_cursor_tracks_writes_and_seeks() {
    let mut w = VirtualSeekWriter::new();
    assert_eq!(w.position, 0);
    assert_eq!(w.record_write(10).unwrap(), 10);
    assert_eq!(w.position, 10);
    assert_eq!(w.seek(SeekTarget::FromStart(4)).unwrap(), 4);
    assert_eq!(w.seek(SeekTarget::FromCurrent(3)).unwrap(), 7);
    assert_eq!(w.seek(SeekTarget::FromCurrent(-7)).unwrap(), 0);
    match w.seek(SeekTarget::FromCurrent(-1)) {
        Err(RtcError::MediaTrackError(m)) => assert_eq!(m, "Seek out of range"),
        other => panic!("expected an out-of-range error, got {other:?}"),
    }
}

#[test]
fn seeking_from_the_end_of_a_live_stream_is_refused() {
    let mut w = VirtualSeekWriter::new();
    w.record_write(100).unwrap();
    match w.seek(SeekTarget::FromEnd(0)) {
        Err(RtcError::MediaTrackError(m)) => {
            assert_eq!(m, "Cannot seek from the end of a live stream")
        }
        other => panic!("expected the live-stream error, got {other:?}"),
    }
    assert_eq!(w.position, 100, "a refused seek leaves the cursor in place");
}
