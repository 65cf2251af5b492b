use webrtc_bridge::media::{extend_sequence_number, MediaCodec, Packet};
use webrtc_bridge::rtc::RtcError;
use webrtc_bridge::sink::{MediaStreamSink, AUDIO_MAX_LATE, VIDEO_MAX_LATE};
use webrtc_bridge::track::{
    create_audio_opus_track, create_video_h264_track, create_video_vp8_track, MediaStreamTrack,
    AUDIO_CLOCK_RATE, VIDEO_CLOCK_RATE,
};

fn vp8_packet(seq: u64, ts: u32, marker: bool, fill: u8) -> Packet {
    // One-byte VP8 payload descriptor (no extensions) followed by frame data.
    Packet {
        sequence_number: seq,
        timestamp: ts,
        marker,
        padding: false,
        payload: vec![0x10, fill, fill, fill],
    }
}

fn opus_packet(seq: u64, ts: u32, data: Vec<u8>) -> Packet {
    Packet {
        sequence_number: seq,
        timestamp: ts,
        marker: false,
        padding: false,
        payload: data,
    }
}

fn padding_packet(seq: u64, ts: u32) -> Packet {
    Packet {
        sequence_number: seq,
        timestamp: ts,
        marker: false,
        padding: true,
        payload: vec![],
    }
}

#[test]
fn video_frame_completes_at_marker_with_zero_losses() {
    let mut sink = MediaStreamSink::new(64, MediaCodec::VideoVP8, VIDEO_CLOCK_RATE);
    let mut emitted = Vec::new();
    for seq in 0..=9u64 {
        let samples = sink
            .write_rtp(&vp8_packet(seq, 1000, seq == 9, seq as u8))
            .unwrap();
        if seq < 9 {
            assert!(samples.is_empty(), "no sample before the frame boundary");
        }
        emitted.extend(samples);
    }
    assert_eq!(emitted.len(), 1, "exactly one sample after the marker packet");
    let sample = &emitted[0];
    assert_eq!(sample.prev_dropped_packets, 0);
    assert_eq!(sample.prev_padding_packets, 0);
    assert_eq!(sample.packet_timestamp, 1000);
    // The VP8 descriptor byte of each packet is stripped by depacketization.
    let mut expected = Vec::new();
    for seq in 0..=9u8 {
        expected.extend_from_slice(&[seq, seq, seq]);
    }
    assert_eq!(sample.data, expected);
}

#[test]
fn skipped_packets_are_reported_as_dropped_on_the_next_sample() {
    let mut sink = MediaStreamSink::new(64, MediaCodec::VideoVP8, VIDEO_CLOCK_RATE);
    let mut emitted = Vec::new();
    for seq in 0..=10u64 {
        emitted.extend(sink.write_rtp(&vp8_packet(seq, 1000, seq == 9, 1)).unwrap());
    }
    assert_eq!(emitted.len(), 1);
    assert_eq!(emitted[0].prev_dropped_packets, 0);
    // Packets 11..=20 are lost; packet 21 carries the frame boundary.
    let tail = sink.write_rtp(&vp8_packet(21, 2000, true, 2)).unwrap();
    assert_eq!(tail.len(), 1, "the marker completes the second frame");
    assert_eq!(tail[0].prev_dropped_packets, 10);
    assert_eq!(tail[0].prev_padding_packets, 0);
}

#[test]
fn samples_never_go_backwards_in_timestamp() {
    let mut sink = MediaStreamSink::new(64, MediaCodec::VideoVP8, VIDEO_CLOCK_RATE);
    // Three single-packet frames delivered out of order.
    let order = [0u64, 2, 1, 3];
    let stamps = [100u32, 300, 200, 400];
    let mut emitted = Vec::new();
    for k in 0..order.len() {
        emitted.extend(
            sink.write_rtp(&vp8_packet(order[k], stamps[k], true, order[k] as u8))
                .unwrap(),
        );
    }
    assert_eq!(emitted.len(), 4);
    for w in emitted.windows(2) {
        assert!(
            w[0].packet_timestamp <= w[1].packet_timestamp,
            "timestamps must be non-decreasing"
        );
    }
}

#[test]
fn late_packet_is_never_emitted_and_is_counted() {
    let mut sink = MediaStreamSink::new(4, MediaCodec::VideoVP8, VIDEO_CLOCK_RATE);
    let first = sink.write_rtp(&vp8_packet(0, 100, true, 1)).unwrap();
    assert_eq!(first.len(), 1);
    // A jump to sequence 10 slides the window: slots 1..=5 fall out of it.
    assert!(sink.write_rtp(&vp8_packet(10, 600, false, 2)).unwrap().is_empty());
    // Sequence 2 is now more than the window late: silently discarded.
    assert!(sink.write_rtp(&vp8_packet(2, 100, false, 9)).unwrap().is_empty());
    // Complete the frame spanning 6..=11.
    for seq in 6..=9u64 {
        assert!(sink.write_rtp(&vp8_packet(seq, 600, false, 3)).unwrap().is_empty());
    }
    let out = sink.write_rtp(&vp8_packet(11, 600, true, 4)).unwrap();
    assert_eq!(out.len(), 1);
    let sample = &out[0];
    // Slots 1..=5 fell out of the window when sequence 10 arrived, and
    // slot 6 when sequence 11 did: six losses reported on the next sample.
    assert_eq!(sample.prev_dropped_packets, 6);
    // The late packet's bytes appear nowhere in the emitted data.
    assert!(!sample.data.contains(&9));
}

#[test]
fn duplicate_packets_are_ignored() {
    let mut sink = MediaStreamSink::new(64, MediaCodec::VideoVP8, VIDEO_CLOCK_RATE);
    assert!(sink.write_rtp(&vp8_packet(0, 100, false, 1)).unwrap().is_empty());
    assert!(sink.write_rtp(&vp8_packet(0, 100, false, 7)).unwrap().is_empty());
    let out = sink.write_rtp(&vp8_packet(1, 100, true, 2)).unwrap();
    assert_eq!(out.len(), 1);
    // Only the first copy of sequence 0 contributes.
    assert_eq!(out[0].data, vec![1, 1, 1, 2, 2, 2]);
}

#[test]
fn padding_packets_are_counted_separately() {
    let mut sink = MediaStreamSink::new(AUDIO_MAX_LATE, MediaCodec::AudioOpus, AUDIO_CLOCK_RATE);
    let first = sink.write_rtp(&opus_packet(0, 0, vec![5, 6])).unwrap();
    assert_eq!(first.len(), 1);
    assert_eq!(first[0].data, vec![5, 6]);
    // A padding-only packet occupies slot 1 but yields no sample.
    assert!(sink.write_rtp(&padding_packet(1, 480)).unwrap().is_empty());
    let third = sink.write_rtp(&opus_packet(2, 960, vec![7])).unwrap();
    assert_eq!(third.len(), 1);
    assert_eq!(third[0].prev_padding_packets, 1);
    assert_eq!(third[0].prev_dropped_packets, 0);
    assert_eq!(third[0].data, vec![7]);
}

#[test]
fn sample_duration_is_scaled_by_the_clock_rate() {
    let mut sink = MediaStreamSink::new(64, MediaCodec::VideoVP8, VIDEO_CLOCK_RATE);
    let s0 = sink.write_rtp(&vp8_packet(0, 0, true, 0)).unwrap();
    assert_eq!(s0.len(), 1);
    assert_eq!(s0[0].duration, 0, "no later packet known yet");
    // Deliver the third frame before the second: when the second frame
    // completes, its successor's timestamp is already known.
    assert!(sink.write_rtp(&vp8_packet(2, 6000, true, 2)).unwrap().is_empty());
    let rest = sink.write_rtp(&vp8_packet(1, 3000, true, 1)).unwrap();
    assert_eq!(rest.len(), 2);
    // 3000 ticks at 90 kHz is one thirtieth of a second.
    assert_eq!(rest[0].duration, 3000u64 * 1_000_000 / 90_000);
    assert_eq!(rest[1].duration, 0);
}

#[test]
fn malformed_vp8_payload_fails_without_touching_state() {
    let mut sink = MediaStreamSink::new(64, MediaCodec::VideoVP8, VIDEO_CLOCK_RATE);
    assert!(sink.write_rtp(&vp8_packet(0, 100, false, 1)).unwrap().is_empty());
    let short = Packet {
        sequence_number: 1,
        timestamp: 100,
        marker: false,
        padding: false,
        payload: vec![0x10, 1],
    };
    match sink.write_rtp(&short) {
        Err(RtcError::MediaTrackError(_)) => {}
        other => panic!("expected a media track error, got {other:?}"),
    }
    // The buffered state survived the failure: the frame still completes.
    let resent = sink.write_rtp(&vp8_packet(1, 100, true, 2)).unwrap();
    assert_eq!(resent.len(), 1);
    assert_eq!(resent[0].data, vec![1, 1, 1, 2, 2, 2]);
}

#[test]
fn h264_single_nalu_gains_annex_b_framing() {
    let mut sink = MediaStreamSink::new(64, MediaCodec::VideoH264, VIDEO_CLOCK_RATE);
    let nalu = Packet {
        sequence_number: 0,
        timestamp: 0,
        marker: true,
        padding: false,
        payload: vec![0x65, 1, 2],
    };
    let out = sink.write_rtp(&nalu).unwrap();
    assert_eq!(out.len(), 1);
    // The depacketizer prefixes the NAL unit with the Annex B start code.
    assert_eq!(out[0].data, vec![0, 0, 0, 1, 0x65, 1, 2]);
}

#[test]
fn stapa_aggregate_with_dangling_byte_is_refused() {
    // An aggregate (type 24) whose length-prefix walk leaves exactly one
    // trailing byte: the screening must refuse it as malformed instead of
    // letting the engine's walk run past the end of the payload.
    let mut sink = MediaStreamSink::new(64, MediaCodec::VideoH264, VIDEO_CLOCK_RATE);
    let dangling = Packet {
        sequence_number: 0,
        timestamp: 0,
        marker: true,
        padding: false,
        payload: vec![0x18, 0x00, 0x00, 0x00],
    };
    match sink.write_rtp(&dangling) {
        Err(RtcError::MediaTrackError(_)) => {}
        Ok(_) => panic!("expected a media track error, got samples"),
        Err(other) => panic!("expected a media track error, got {other:?}"),
    }
    // The sink survives and keeps working.
    let nalu = Packet {
        sequence_number: 0,
        timestamp: 0,
        marker: true,
        padding: false,
        payload: vec![0x65, 1, 2],
    };
    assert_eq!(sink.write_rtp(&nalu).unwrap().len(), 1);
}

#[test]
fn stapa_aggregate_depacketizes_each_unit() {
    let mut sink = MediaStreamSink::new(64, MediaCodec::VideoH264, VIDEO_CLOCK_RATE);
    // One aggregate holding two units: [0x65, 1] and [0x41, 2, 3].
    let aggregate = Packet {
        sequence_number: 0,
        timestamp: 0,
        marker: true,
        padding: false,
        payload: vec![0x18, 0x00, 0x02, 0x65, 1, 0x00, 0x03, 0x41, 2, 3],
    };
    let out = sink.write_rtp(&aggregate).unwrap();
    assert_eq!(out.len(), 1);
    // Each unit comes out behind its own Annex B start code.
    assert_eq!(
        out[0].data,
        vec![0, 0, 0, 1, 0x65, 1, 0, 0, 0, 1, 0x41, 2, 3]
    );
}

#[test]
fn empty_opus_payload_is_refused() {
    let mut sink = MediaStreamSink::new(AUDIO_MAX_LATE, MediaCodec::AudioOpus, AUDIO_CLOCK_RATE);
    match sink.write_rtp(&opus_packet(0, 0, vec![])) {
        Err(RtcError::MediaTrackError(_)) => {}
        other => panic!("expected a media track error, got {other:?}"),
    }
}

#[test]
fn disabling_a_track_discards_packets_and_reenabling_resumes() {
    let mut track = MediaStreamTrack::from_remote(
        "t".to_string(),
        "audio/opus",
        AUDIO_CLOCK_RATE,
    )
    .unwrap();
    let sink = track.create_sink().unwrap();
    assert!(track.set_sink(Some(sink)).is_none());
    track.begin_read().unwrap();

    let first = track.on_packet(&opus_packet(0, 0, vec![1])).unwrap();
    assert_eq!(first.len(), 1);

    track.set_enabled(false);
    assert!(!track.enabled());
    // While disabled, received packets are discarded without sink writes.
    assert!(track.on_packet(&opus_packet(1, 480, vec![2])).unwrap().is_empty());

    track.set_enabled(true);
    // Forwarding resumes on the same loop; the discarded slot eventually
    // falls out of the lateness window and is reported as dropped.
    let mut resumed = Vec::new();
    for seq in 2..=40u64 {
        resumed.extend(track.on_packet(&opus_packet(seq, 480 * seq as u32, vec![seq as u8])).unwrap());
    }
    assert!(!resumed.is_empty(), "forwarding resumed without restarting the loop");
    assert_eq!(resumed[0].prev_dropped_packets, 1, "the discarded packet's slot is a loss");
    assert_eq!(resumed[0].data, vec![2]);
}

#[test]
fn concurrent_read_attempt_fails_immediately() {
    let mut track = MediaStreamTrack::from_remote(
        "t".to_string(),
        "video/VP8",
        VIDEO_CLOCK_RATE,
    )
    .unwrap();
    track.begin_read().unwrap();
    match track.begin_read() {
        Err(RtcError::MediaTrackError(m)) => assert_eq!(m, "Parallel read is not allowed"),
        other => panic!("expected the parallel-read error, got {other:?}"),
    }
    track.end_read();
    track.begin_read().unwrap();
}

#[test]
fn direction_mismatch_fails_in_both_directions() {
    let remote = MediaStreamTrack::from_remote(
        "r".to_string(),
        "video/VP8",
        VIDEO_CLOCK_RATE,
    )
    .unwrap();
    match remote.write_data(vec![1, 2], 33_000) {
        Err(RtcError::MediaTrackError(m)) => assert_eq!(m, "MediaStreamTrack is not local."),
        other => panic!("expected the not-local error, got {other:?}"),
    }

    let mut local = create_video_vp8_track("l", "s").unwrap();
    match local.begin_read() {
        Err(RtcError::MediaTrackError(m)) => assert_eq!(m, "MediaStreamTrack is not remote."),
        other => panic!("expected the not-remote error, got {other:?}"),
    }
    assert!(local.as_local().is_ok());
    assert!(local.as_remote().is_err());
    assert!(remote.as_remote().is_ok());
    assert!(remote.as_local().is_err());
}

#[test]
fn write_data_is_a_noop_success_when_disabled() {
    let mut local = create_audio_opus_track("l", "s").unwrap();
    assert_eq!(
        local.write_data(vec![9], 20_000).unwrap(),
        Some((vec![9], 20_000))
    );
    local.set_enabled(false);
    assert_eq!(local.write_data(vec![9], 20_000).unwrap(), None);
}

#[test]
fn replaced_sink_gets_packets_no_longer_and_closes_exactly_once() {
    let mut track = MediaStreamTrack::from_remote(
        "t".to_string(),
        "audio/opus",
        AUDIO_CLOCK_RATE,
    )
    .unwrap();
    let first_sink = track.create_sink().unwrap();
    assert!(track.set_sink(Some(first_sink)).is_none());
    track.begin_read().unwrap();
    assert_eq!(track.on_packet(&opus_packet(0, 0, vec![1])).unwrap().len(), 1);

    // Replace the sink mid-stream: the old sink comes back to the caller.
    let replacement = track.create_sink().unwrap();
    let mut old_sink = track.set_sink(Some(replacement)).unwrap();
    assert!(old_sink.rec.started, "the old sink saw the first packet");

    // The next packet goes to the new sink.
    assert_eq!(track.on_packet(&opus_packet(1, 480, vec![2])).unwrap().len(), 1);
    let new_sink = track.set_sink(None).unwrap();
    assert!(new_sink.rec.started, "the replacement sink saw the next packet");

    // The close notification fires exactly once, never twice.
    assert!(old_sink.close());
    assert!(!old_sink.close());
}

#[test]
fn track_factories_fix_codec_and_clock_rate() {
    let vp8 = create_video_vp8_track("a", "s").unwrap();
    assert_eq!(vp8.codec(), MediaCodec::VideoVP8);
    assert_eq!(vp8.clock_rate(), 90_000);
    assert!(vp8.is_local());
    assert!(!vp8.is_remote());
    assert_eq!(vp8.id(), "a");
    assert!(!vp8.has_sink());

    let h264 = create_video_h264_track("b", "s").unwrap();
    assert_eq!(h264.codec(), MediaCodec::VideoH264);
    assert_eq!(h264.clock_rate(), 90_000);

    let opus = create_audio_opus_track("c", "s").unwrap();
    assert_eq!(opus.codec(), MediaCodec::AudioOpus);
    assert_eq!(opus.clock_rate(), 48_000);
}

#[test]
fn sink_selection_uses_the_kind_specific_window() {
    let video = MediaStreamTrack::from_remote("v".to_string(), "video/VP8", VIDEO_CLOCK_RATE)
        .unwrap();
    assert_eq!(video.create_sink().unwrap().rec.max_late, VIDEO_MAX_LATE);

    let audio = MediaStreamTrack::from_remote("a".to_string(), "audio/opus", AUDIO_CLOCK_RATE)
        .unwrap();
    assert_eq!(audio.create_sink().unwrap().rec.max_late, AUDIO_MAX_LATE);

    let local = create_video_vp8_track("l", "s").unwrap();
    assert!(local.create_sink().is_err(), "a local track has no inbound path");
}

#[test]
fn sequence_extension_follows_the_nearest_congruent_value() {
    assert_eq!(extend_sequence_number(100, 105), 105);
    assert_eq!(extend_sequence_number(100, 90), 90);
    // Forward across the 16-bit wrap.
    assert_eq!(extend_sequence_number(65_534, 2), 65_538);
    // A reordered packet from just before the wrap maps backwards.
    assert_eq!(extend_sequence_number(65_538, 65_534), 65_534);
    // Far jumps beyond half the counter space go to the future.
    assert_eq!(extend_sequence_number(0, 40_000), 40_000);
}

#[test]
fn track_construction_fails_closed_on_unknown_codec() {
    match MediaStreamTrack::from_remote("t".to_string(), "video/AV1", 90_000) {
        Err(RtcError::MediaTrackError(m)) => {
            assert_eq!(m, "Received unknown track codec video/AV1")
        }
        Err(other) => panic!("expected a media track error, got {other:?}"),
        Ok(_) => panic!("expected a media track error, got a track"),
    }
}

#[test]
fn unknown_mime_type_fails_closed() {
    match MediaCodec::from("audio/PCMU") {
        Err(RtcError::MediaTrackError(m)) => {
            assert_eq!(m, "Received unknown track codec audio/PCMU")
        }
        other => panic!("expected a media track error, got {other:?}"),
    }
    assert_eq!(MediaCodec::from("video/VP8").unwrap(), MediaCodec::VideoVP8);
    assert_eq!(MediaCodec::from("video/H264").unwrap(), MediaCodec::VideoH264);
    assert_eq!(MediaCodec::from("audio/opus").unwrap(), MediaCodec::AudioOpus);
}
