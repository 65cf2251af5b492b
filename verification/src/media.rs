//! Media data model: codecs, the RTP packet view the pipeline works on, and
//! the reconstructed sample record handed to callers.

use vstd::prelude::*;
use vstd::string::StringExecFns;

use crate::rtc::RtcError;

verus! {

/// The codecs the pipeline knows how to frame.
#[derive(Debug, Clone, Copy, PartialEq, Eq, Structural)]
pub enum MediaCodec {
    VideoVP8,
    VideoH264,
    AudioOpus,
}

impl MediaCodec {
    /// The codec a mime type names, if any.
    pub open spec fn spec_mime_codec(mime: Seq<char>) -> Option<MediaCodec> {
        if mime == "video/VP8"@ {
            Some(MediaCodec::VideoVP8)
        } else if mime == "video/H264"@ {
            Some(MediaCodec::VideoH264)
        } else if mime == "audio/opus"@ {
            Some(MediaCodec::AudioOpus)
        } else {
            None
        }
    }

    /// Selects the codec for a negotiated mime type; an unrecognized mime
    /// type fails closed rather than picking a silent default.
    pub fn from(mime_type: &str) -> (r: Result<Self, RtcError>)
        ensures
            mime_type@ == "video/VP8"@ ==> r == Ok::<MediaCodec, RtcError>(MediaCodec::VideoVP8),
            mime_type@ == "video/H264"@ ==> r == Ok::<MediaCodec, RtcError>(MediaCodec::VideoH264),
            mime_type@ == "audio/opus"@ ==> r == Ok::<MediaCodec, RtcError>(MediaCodec::AudioOpus),
            r is Ok ==> mime_type@ == "video/VP8"@ || mime_type@ == "video/H264"@ || mime_type@
                == "audio/opus"@,
            r matches Ok(c) ==> MediaCodec::spec_mime_codec(mime_type@) == Some(c),
            (r is Ok) == (MediaCodec::spec_mime_codec(mime_type@) is Some),
            r matches Err(e) ==> (e matches RtcError::MediaTrackError(m) && m@
                == "Received unknown track codec "@ + mime_type@),
    {
        proof {
            reveal_strlit("video/VP8");
            reveal_strlit("video/H264");
            reveal_strlit("audio/opus");
            assert("video/VP8"@.len() == 9);
            assert("video/H264"@.len() == 10);
            assert("audio/opus"@.len() == 10);
            assert("video/H264"@[0] == 'v');
            assert("audio/opus"@[0] == 'a');
        }
        let mime = mime_type.to_owned();
        if mime == "video/VP8".to_owned() {
            Ok(MediaCodec::VideoVP8)
        } else if mime == "video/H264".to_owned() {
            Ok(MediaCodec::VideoH264)
        } else if mime == "audio/opus".to_owned() {
            Ok(MediaCodec::AudioOpus)
        } else {
            Err(RtcError::MediaTrackError(
                "Received unknown track codec ".to_owned().concat(mime_type),
            ))
        }
    }

    /// Whether this codec is an audio codec; audio and video differ in
    /// lateness tolerance and framing.
    pub fn is_audio(&self) -> (r: bool)
        ensures
            r == (*self == MediaCodec::AudioOpus),
    {
        match self {
            MediaCodec::AudioOpus => true,
            _ => false,
        }
    }
}

/// One transport-layer media unit, as the pipeline sees it: the fields of an
/// RTP packet that sample reconstruction reads, plus the raw payload bytes.
///
/// Packets are immutable once received. Sequence numbers are carried widened
/// to `u64` (the transport's 16-bit counter, unwrapped by the receiving
/// layer), so reordering distance is plain arithmetic.
#[derive(Debug, Clone, PartialEq, Eq)]
pub struct Packet {
    pub sequence_number: u64,
    pub timestamp: u32,
    pub marker: bool,
    pub padding: bool,
    pub payload: Vec<u8>,
}

/// Widens the transport's 16-bit sequence counter into the pipeline's
/// 64-bit space: of the values congruent to `seq`, the one closest to the
/// previously extended value `prev` is chosen (ties go to the future, and
/// the result never goes below the counter's first epoch), so reordering
/// distance stays plain arithmetic across counter wrap.
pub fn extend_sequence_number(prev: u64, seq: u16) -> (r: u64)
    requires
        prev < u64::MAX - 0x10000,
    ensures
        ({
            let d = ((seq as int) + 0x10000 - (prev as int) % 0x10000) % 0x10000;
            r == if d <= 0x8000 {
                prev + d
            } else if prev + d >= 0x10000 {
                prev + d - 0x10000
            } else {
                prev + d
            }
        }),
        r % 0x10000 == seq as int,
{
    let d: u64 = ((seq as u64) + 0x10000 - prev % 0x10000) % 0x10000;
    if d <= 0x8000 {
        prev + d
    } else if prev + d >= 0x10000 {
        prev + d - 0x10000
    } else {
        prev + d
    }
}

/// A reconstructed, time-ordered application-layer media unit.
///
/// `timestamp` and `duration` are wall-clock microseconds; the reconstructor
/// itself has no clock, so it leaves `timestamp` at zero and the receiving
/// layer may stamp it. `packet_timestamp` is the RTP timestamp shared by the
/// packets that formed the sample. The two counters say how many packets
/// were given up (lost, or padding-only) since the previous sample, so
/// callers can detect gaps.
#[derive(Debug, Clone, PartialEq, Eq)]
pub struct MediaSample {
    pub data: Vec<u8>,
    pub timestamp: u64,
    pub duration: u64,
    pub packet_timestamp: u32,
    pub prev_dropped_packets: u16,
    pub prev_padding_packets: u16,
}

/// Caller-supplied consumer of reconstructed samples.
///
/// Implementations run on whatever context delivers the packet and must not
/// block it for long durations.
pub trait MediaHandler {
    /// Called when a reconstructed sample is available.
    fn on_next_sample(&mut self, sample: MediaSample);
}

} // verus!
