//! Track: one local (outgoing) or remote (incoming) media flow.
//!
//! A track owns its enable/disable state, its direction (fixed at
//! creation), a single-reader gate, and zero-or-one attached sink. The
//! asynchronous packet I/O itself happens outside this crate; the functions
//! here are the decisions the read and write paths take, stated packet by
//! packet: direction gating, the non-blocking exclusive read gate, the
//! discard-while-disabled rule, and per-packet sink dispatch.

use vstd::prelude::*;

use crate::media::{MediaCodec, MediaSample, Packet};
use crate::rtc::RtcError;
use crate::sink::{MediaStreamSink, AUDIO_MAX_LATE, VIDEO_MAX_LATE};

verus! {

/// RTP clock rate used for the video codecs.
pub const VIDEO_CLOCK_RATE: u32 = 90000;

/// RTP clock rate used for the audio codec.
pub const AUDIO_CLOCK_RATE: u32 = 48000;

/// One media flow: local tracks produce (they accept writes), remote
/// tracks consume (they are read); the two are mutually exclusive and the
/// direction is fixed at creation.
pub struct MediaStreamTrack {
    pub id: String,
    pub clock_rate: u32,
    pub codec: MediaCodec,
    pub enabled: bool,
    pub remote: bool,
    pub reading: bool,
    pub sink: Option<MediaStreamSink>,
}

impl MediaStreamTrack {
    pub open spec fn wf(&self) -> bool {
        self.sink matches Some(s) ==> s.wf()
    }

    fn build(id: String, mime_type: &str, clock_rate: u32, remote: bool) -> (r: Result<
        Self,
        RtcError,
    >)
        ensures
            r matches Ok(t) ==> {
                &&& t.wf()
                &&& t.id == id
                &&& t.clock_rate == clock_rate
                &&& t.remote == remote
                &&& t.enabled
                &&& !t.reading
                &&& t.sink is None
                &&& MediaCodec::spec_mime_codec(mime_type@) == Some(t.codec)
            },
            (r is Ok) == (MediaCodec::spec_mime_codec(mime_type@) is Some),
            r matches Err(e) ==> (e matches RtcError::MediaTrackError(m) && m@
                == "Received unknown track codec "@ + mime_type@),
    {
        let codec = match MediaCodec::from(mime_type) {
            Ok(c) => c,
            Err(e) => {
                return Err(e);
            },
        };
        Ok(
            MediaStreamTrack {
                id,
                clock_rate,
                codec,
                enabled: true,
                remote,
                reading: false,
                sink: None,
            },
        )
    }

    /// A local (outgoing) track for the given codec capability: fails with
    /// the media-track error when the mime type names no known codec.
    pub fn from_local(id: String, mime_type: &str, clock_rate: u32) -> (r: Result<Self, RtcError>)
        ensures
            r matches Ok(t) ==> {
                &&& t.wf()
                &&& t.id == id
                &&& t.clock_rate == clock_rate
                &&& !t.remote
                &&& t.enabled
                &&& !t.reading
                &&& t.sink is None
                &&& MediaCodec::spec_mime_codec(mime_type@) == Some(t.codec)
            },
            (r is Ok) == (MediaCodec::spec_mime_codec(mime_type@) is Some),
            r matches Err(e) ==> (e matches RtcError::MediaTrackError(m) && m@
                == "Received unknown track codec "@ + mime_type@),
    {
        Self::build(id, mime_type, clock_rate, false)
    }

    /// A remote (incoming) track surfaced by the connection when
    /// negotiation completes; fails with the media-track error when the
    /// negotiated mime type names no known codec.
    pub fn from_remote(id: String, mime_type: &str, clock_rate: u32) -> (r: Result<Self, RtcError>)
        ensures
            r matches Ok(t) ==> {
                &&& t.wf()
                &&& t.id == id
                &&& t.clock_rate == clock_rate
                &&& t.remote
                &&& t.enabled
                &&& !t.reading
                &&& t.sink is None
                &&& MediaCodec::spec_mime_codec(mime_type@) == Some(t.codec)
            },
            (r is Ok) == (MediaCodec::spec_mime_codec(mime_type@) is Some),
            r matches Err(e) ==> (e matches RtcError::MediaTrackError(m) && m@
                == "Received unknown track codec "@ + mime_type@),
    {
        Self::build(id, mime_type, clock_rate, true)
    }

    pub fn id(&self) -> (r: String)
        ensures
            r == self.id,
    {
        self.id.clone()
    }

    pub fn codec(&self) -> (r: MediaCodec)
        ensures
            r == self.codec,
    {
        self.codec
    }

    pub fn clock_rate(&self) -> (r: u32)
        ensures
            r == self.clock_rate,
    {
        self.clock_rate
    }

    pub fn enabled(&self) -> (r: bool)
        ensures
            r == self.enabled,
    {
        self.enabled
    }

    pub fn is_local(&self) -> (r: bool)
        ensures
            r == !self.remote,
    {
        !self.remote
    }

    pub fn is_remote(&self) -> (r: bool)
        ensures
            r == self.remote,
    {
        self.remote
    }

    /// Takes effect for subsequent operations; an operation already in
    /// flight is not cancelled.
    pub fn set_enabled(&mut self, enabled: bool)
        ensures
            *final(self) == (MediaStreamTrack { enabled, ..*old(self) }),
    {
        self.enabled = enabled;
    }

    /// Succeeds exactly when the track is local.
    pub fn as_local(&self) -> (r: Result<(), RtcError>)
        ensures
            !self.remote ==> r is Ok,
            self.remote ==> (r matches Err(RtcError::MediaTrackError(m)) && m@
                == "MediaStreamTrack is not local."@),
    {
        if self.remote {
            Err(RtcError::MediaTrackError("MediaStreamTrack is not local.".to_owned()))
        } else {
            Ok(())
        }
    }

    /// Succeeds exactly when the track is remote.
    pub fn as_remote(&self) -> (r: Result<(), RtcError>)
        ensures
            self.remote ==> r is Ok,
            !self.remote ==> (r matches Err(RtcError::MediaTrackError(m)) && m@
                == "MediaStreamTrack is not remote."@),
    {
        if self.remote {
            Ok(())
        } else {
            Err(RtcError::MediaTrackError("MediaStreamTrack is not remote.".to_owned()))
        }
    }

    /// The write-path decision for one sample of `data` lasting
    /// `duration_micros`: a remote track refuses it with the
    /// direction-mismatch error, a disabled local track swallows it as a
    /// no-op success, and an enabled local track hands it back for the
    /// transport to send.
    pub fn write_data(&self, data: Vec<u8>, duration_micros: u64) -> (r: Result<
        Option<(Vec<u8>, u64)>,
        RtcError,
    >)
        ensures
            self.remote ==> (r matches Err(RtcError::MediaTrackError(m)) && m@
                == "MediaStreamTrack is not local."@),
            !self.remote && !self.enabled ==> r == Ok::<Option<(Vec<u8>, u64)>, RtcError>(None),
            !self.remote && self.enabled ==> r == Ok::<Option<(Vec<u8>, u64)>, RtcError>(
                Some((data, duration_micros)),
            ),
    {
        if self.remote {
            return Err(RtcError::MediaTrackError("MediaStreamTrack is not local.".to_owned()));
        }
        if !self.enabled {
            return Ok(None);
        }
        Ok(Some((data, duration_micros)))
    }

    pub fn has_sink(&self) -> (r: bool)
        ensures
            r == (self.sink is Some),
    {
        match &self.sink {
            Some(_) => true,
            None => false,
        }
    }

    /// Replaces the attached sink, returning the previous one to the
    /// caller. Replacement does not affect a read already in flight: the
    /// read loop re-reads the bound sink on every packet, so the new sink
    /// takes effect from the next packet on.
    pub fn set_sink(&mut self, sink: Option<MediaStreamSink>) -> (r: Option<MediaStreamSink>)
        requires
            old(self).wf(),
            sink matches Some(s) ==> s.wf(),
        ensures
            final(self).wf(),
            *final(self) == (MediaStreamTrack { sink, ..*old(self) }),
            r == old(self).sink,
    {
        let prior = self.sink.take();
        self.sink = sink;
        prior
    }

    /// A sample sink for this remote track's codec, with the kind-specific
    /// lateness window: video tolerates a larger reordering window than
    /// audio. A local track has no inbound path and refuses with the
    /// direction-mismatch error.
    pub fn create_sink(&self) -> (r: Result<MediaStreamSink, RtcError>)
        ensures
            self.remote ==> (r matches Ok(s) && {
                &&& s.wf()
                &&& s@.codec == self.codec
                &&& !s@.closed
                &&& !s@.rec.started
                &&& s@.rec.max_late == (if self.codec is AudioOpus {
                    AUDIO_MAX_LATE as int
                } else {
                    VIDEO_MAX_LATE as int
                })
                &&& s@.rec.clock_rate == self.clock_rate as int
            }),
            !self.remote ==> (r matches Err(RtcError::MediaTrackError(m)) && m@
                == "MediaStreamTrack is not remote."@),
    {
        match self.as_remote() {
            Ok(_) => {},
            Err(e) => {
                return Err(e);
            },
        }
        let max_late = if self.codec.is_audio() {
            AUDIO_MAX_LATE
        } else {
            VIDEO_MAX_LATE
        };
        Ok(MediaStreamSink::new(max_late, self.codec, self.clock_rate))
    }

    /// The non-blocking exclusive read gate: at most one in-progress read
    /// per track. A local track refuses with the direction-mismatch error;
    /// a track already being read fails immediately with the parallel-read
    /// error rather than queuing or blocking.
    pub fn begin_read(&mut self) -> (r: Result<(), RtcError>)
        ensures
            !old(self).remote ==> (r matches Err(RtcError::MediaTrackError(m)) && m@
                == "MediaStreamTrack is not remote."@ && *final(self) == *old(self)),
            old(self).remote && old(self).reading ==> (r matches Err(RtcError::MediaTrackError(m))
                && m@ == "Parallel read is not allowed"@ && *final(self) == *old(self)),
            old(self).remote && !old(self).reading ==> (r is Ok && *final(self)
                == (MediaStreamTrack { reading: true, ..*old(self) })),
    {
        if !self.remote {
            return Err(RtcError::MediaTrackError("MediaStreamTrack is not remote.".to_owned()));
        }
        if self.reading {
            return Err(RtcError::MediaTrackError("Parallel read is not allowed".to_owned()));
        }
        self.reading = true;
        Ok(())
    }

    /// Releases the read gate when a read cycle or loop finishes.
    pub fn end_read(&mut self)
        ensures
            *final(self) == (MediaStreamTrack { reading: false, ..*old(self) }),
    {
        self.reading = false;
    }

    /// The per-packet decision of the read loop. While the track is
    /// disabled, received packets are discarded — never written to the sink
    /// and never buffered — so re-enabling resumes forwarding without
    /// restarting the loop. With no sink bound the packet is likewise
    /// dropped. Otherwise the packet goes to the currently-bound sink and
    /// the samples it completed come back.
    pub fn on_packet(&mut self, pkt: &Packet) -> (r: Result<Vec<MediaSample>, RtcError>)
        requires
            old(self).wf(),
            pkt.sequence_number < u64::MAX,
        ensures
            final(self).wf(),
            final(self).id == old(self).id,
            final(self).codec == old(self).codec,
            final(self).clock_rate == old(self).clock_rate,
            final(self).enabled == old(self).enabled,
            final(self).remote == old(self).remote,
            final(self).reading == old(self).reading,
            r matches Ok(samples) ==> forall|a: int, b: int|
                0 <= a < b < samples@.len() ==> (#[trigger] samples@[a]).packet_timestamp <= (
                #[trigger] samples@[b]).packet_timestamp,
            !old(self).enabled ==> (r matches Ok(v) && v@.len() == 0 && *final(self) == *old(
                self,
            )),
            old(self).enabled && old(self).sink is None ==> (r matches Ok(v) && v@.len() == 0
                && *final(self) == *old(self)),
            old(self).enabled ==> (old(self).sink matches Some(s0) ==> {
                &&& final(self).sink matches Some(s1) && s1@.codec == s0@.codec && s1@.closed
                    == s0@.closed
                &&& (r matches Err(e) ==> e is MediaTrackError && (final(self).sink matches Some(
                    s1,
                ) && s1@.rec == s0@.rec))
                &&& (pkt.padding ==> r is Ok)
                &&& (!pkt.padding && s0@.codec is AudioOpus && pkt.payload@.len() > 0 ==> r is Ok)
                &&& (!pkt.padding && s0@.codec is VideoVP8 ==> ((r is Ok)
                    == crate::sink::vp8_accepted(pkt.payload@)))
                &&& (!pkt.padding && s0@.codec is VideoH264 && !crate::sink::h264_payload_safe(
                    pkt.payload@,
                ) ==> r is Err)
                &&& (r matches Ok(samples) ==> exists|p2: Packet|
                    #![trigger p2.sequence_number]
                    {
                        &&& p2.sequence_number == pkt.sequence_number
                        &&& p2.timestamp == pkt.timestamp
                        &&& p2.marker == pkt.marker
                        &&& p2.padding == pkt.padding
                        &&& (pkt.padding ==> p2.payload@.len() == 0)
                        &&& (!pkt.padding && s0@.codec is VideoVP8 ==> p2.payload@
                            == crate::sink::vp8_depacketized(pkt.payload@))
                        &&& (!pkt.padding && s0@.codec is AudioOpus ==> p2.payload@ == pkt.payload@)
                        &&& ({
                            let s1 = final(self).sink->Some_0;
                            crate::sink::write_outcome(
                                s0@,
                                s1@,
                                p2,
                                samples@.map_values(|x: MediaSample| x@),
                            )
                        })
                    })
            }),
    {
        if !self.enabled {
            return Ok(Vec::new());
        }
        match &mut self.sink {
            Some(s) => s.write_rtp(pkt),
            None => Ok(Vec::new()),
        }
    }
}

/// A local video track using the VP8 codec.
pub fn create_video_vp8_track(track_id: &str, stream_id: &str) -> (r: Result<
    MediaStreamTrack,
    RtcError,
>)
    ensures
        r matches Ok(t) && t.wf() && t.id@ == track_id@ && !t.remote && t.enabled && !t.reading
            && t.sink is None && t.codec == MediaCodec::VideoVP8 && t.clock_rate
            == VIDEO_CLOCK_RATE,
{
    let _ = stream_id;
    MediaStreamTrack::from_local(track_id.to_owned(), "video/VP8", VIDEO_CLOCK_RATE)
}

/// A local video track using the H264 codec.
pub fn create_video_h264_track(track_id: &str, stream_id: &str) -> (r: Result<
    MediaStreamTrack,
    RtcError,
>)
    ensures
        r matches Ok(t) && t.wf() && t.id@ == track_id@ && !t.remote && t.enabled && !t.reading
            && t.sink is None && t.codec == MediaCodec::VideoH264 && t.clock_rate
            == VIDEO_CLOCK_RATE,
{
    let _ = stream_id;
    proof {
        reveal_strlit("video/VP8");
        reveal_strlit("video/H264");
        assert("video/VP8"@.len() == 9);
        assert("video/H264"@.len() == 10);
    }
    MediaStreamTrack::from_local(track_id.to_owned(), "video/H264", VIDEO_CLOCK_RATE)
}

/// A local audio track using the Opus codec.
pub fn create_audio_opus_track(track_id: &str, stream_id: &str) -> (r: Result<
    MediaStreamTrack,
    RtcError,
>)
    ensures
        r matches Ok(t) && t.wf() && t.id@ == track_id@ && !t.remote && t.enabled && !t.reading
            && t.sink is None && t.codec == MediaCodec::AudioOpus && t.clock_rate
            == AUDIO_CLOCK_RATE,
{
    let _ = stream_id;
    proof {
        reveal_strlit("video/VP8");
        reveal_strlit("video/H264");
        reveal_strlit("audio/opus");
        assert("video/VP8"@.len() == 9);
        assert("video/H264"@.len() == 10);
        assert("audio/opus"@.len() == 10);
        assert("video/H264"@[0] == 'v');
        assert("audio/opus"@[0] == 'a');
    }
    MediaStreamTrack::from_local(track_id.to_owned(), "audio/opus", AUDIO_CLOCK_RATE)
}

} // verus!
