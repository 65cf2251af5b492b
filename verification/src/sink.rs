//! The sample-forwarding sink: one reconstruction pipeline bound at
//! creation to one codec, with a uniform per-packet `write_rtp` entry.
//!
//! Depacketization — extracting the codec's frame data from each RTP
//! payload — is delegated to the transport engine's codec routines behind
//! trusted wrappers; everything the sink decides around them (padding
//! handling, screening aggregate payloads the engine's walk would overrun,
//! buffering, ordering, loss accounting, the close-once rule) is verified
//! against the reconstructor's model.

use vstd::prelude::*;

use crate::media::{MediaCodec, MediaSample, Packet};
use crate::reconstructor::{
    push_transition, spec_drain, ReconState, SampleModel, SampleReconstructor,
    lemma_spec_pop_emission, lemma_spec_pop_frame, lemma_spec_pop_none_stable,
};
use crate::rtc::RtcError;

verus! {

/// Lateness window for video codecs, in packets: video tolerates more
/// reordering jitter than audio.
pub const VIDEO_MAX_LATE: u16 = 64;

/// Lateness window for audio codecs, in packets.
pub const AUDIO_MAX_LATE: u16 = 32;

#[verifier::external_type_specification]
#[verifier::external_body]
pub struct ExH264Packet(webrtc::rtp::codecs::h264::H264Packet);

/// Relies on `H264Packet::default`: a fresh H264 depacketizer with no
/// fragment-reassembly state.
#[verifier::external_body]
fn new_h264_depacketizer() -> webrtc::rtp::codecs::h264::H264Packet {
    webrtc::rtp::codecs::h264::H264Packet::default()
}

/// The frame data behind a VP8 RTP payload: what stripping the VP8 payload
/// descriptor leaves. A function of the payload bytes alone.
pub uninterp spec fn vp8_depacketized(payload: Seq<u8>) -> Seq<u8>;

/// Whether the VP8 descriptor parser accepts a payload. Success of the
/// parse is a function of the payload bytes alone (the parser is built
/// fresh for each call).
pub uninterp spec fn vp8_accepted(payload: Seq<u8>) -> bool;

/// Relies on `Vp8Packet::depacketize` (on a fresh descriptor parser, so the
/// result depends on the payload alone): strips the VP8 payload descriptor,
/// leaving a non-empty strict suffix of the payload; payloads shorter than
/// four bytes are refused as malformed.
#[verifier::external_body]
fn depacketize_vp8(payload: &Vec<u8>) -> (r: Result<Vec<u8>, String>)
    ensures
        (r is Ok) == vp8_accepted(payload@),
        r matches Ok(v) ==> v@ == vp8_depacketized(payload@),
        r matches Ok(v) ==> 0 < v@.len() < payload@.len(),
        payload@.len() < 4 ==> r is Err,
{
    let mut d = webrtc::rtp::codecs::vp8::Vp8Packet::default();
    let b = bytes::Bytes::copy_from_slice(payload.as_slice());
    match webrtc::rtp::packetizer::Depacketizer::depacketize(&mut d, &b) {
        Ok(out) => Ok(out.to_vec()),
        Err(e) => Err(e.to_string()),
    }
}

/// Relies on `OpusPacket::depacketize`: every Opus payload is one complete
/// frame, returned unchanged; only an empty payload is refused.
#[verifier::external_body]
fn depacketize_opus(payload: &Vec<u8>) -> (r: Result<Vec<u8>, String>)
    ensures
        (r is Err) <==> payload@.len() == 0,
        r matches Ok(v) ==> v@ == payload@,
{
    let mut d = webrtc::rtp::codecs::opus::OpusPacket;
    let b = bytes::Bytes::copy_from_slice(payload.as_slice());
    match webrtc::rtp::packetizer::Depacketizer::depacketize(&mut d, &b) {
        Ok(out) => Ok(out.to_vec()),
        Err(e) => Err(e.to_string()),
    }
}

/// The engine's walk over an H264 aggregate (STAP-A) payload: after the
/// one-byte aggregate header, the payload is a run of units, each a
/// two-byte big-endian length followed by that many bytes. Reading a
/// length needs both of its bytes present: a run that leaves exactly one
/// trailing byte would make the engine index past the end. A unit length
/// that overruns the payload stops the engine with an error before any
/// read, which is safe.
pub open spec fn stapa_walk_safe(b: Seq<u8>, off: int) -> bool
    decreases b.len() - off,
{
    if off >= b.len() {
        true
    } else if off + 1 >= b.len() {
        false
    } else {
        let size = (b[off] as int) * 256 + (b[off + 1] as int);
        if b.len() < off + 2 + size {
            true
        } else {
            stapa_walk_safe(b, off + 2 + size)
        }
    }
}

/// The shapes of H264 payload on which the engine's depacketizer is safe
/// to call: everything except an aggregate (type 24) whose length-prefix
/// walk would run past the end. Payloads the engine refuses up front
/// (too short, unknown type) are safe — they fail cleanly.
pub open spec fn h264_payload_safe(b: Seq<u8>) -> bool {
    if b.len() <= 1 {
        true
    } else if b.len() <= 2 && (b[0] & 0x1F) != 9 {
        true
    } else if (b[0] & 0x1F) == 24 {
        stapa_walk_safe(b, 1)
    } else {
        true
    }
}

/// Screens an H264 payload for the aggregate-packet shape the engine's
/// walk would overrun; such a payload is malformed and must be refused
/// before the depacketizer sees it.
fn h264_payload_safe_check(payload: &Vec<u8>) -> (r: bool)
    ensures
        r == h264_payload_safe(payload@),
{
    let n = payload.len();
    if n <= 1 {
        return true;
    }
    let t = payload[0] & 0x1F;
    if n <= 2 && t != 9 {
        return true;
    }
    if t != 24 {
        return true;
    }
    let mut off: usize = 1;
    loop
        invariant
            n == payload@.len(),
            n <= usize::MAX,
            2 < n,
            (payload@[0] & 0x1F) == 24,
            1 <= off <= n,
            stapa_walk_safe(payload@, 1) == stapa_walk_safe(payload@, off as int),
        decreases n - off,
    {
        if off >= n {
            return true;
        }
        if off + 1 >= n {
            return false;
        }
        let size: usize = (payload[off] as usize) * 256 + (payload[off + 1] as usize);
        if n - off - 2 < size {
            return true;
        }
        off = off + 2 + size;
    }
}

/// Relies on `H264Packet::depacketize`: reassembles NAL units into Annex B
/// framing. The caller must have screened aggregate payloads
/// (`h264_payload_safe`): on the excluded shape the engine's walk indexes
/// past the end of the payload. A payload of one byte or less is refused
/// as malformed; beyond that the result depends on the depacketizer's
/// fragment-reassembly state, so nothing more is claimed of it.
#[verifier::external_body]
fn depacketize_h264(
    d: &mut webrtc::rtp::codecs::h264::H264Packet,
    payload: &Vec<u8>,
) -> (r: Result<Vec<u8>, String>)
    requires
        h264_payload_safe(payload@),
    ensures
        payload@.len() <= 1 ==> r is Err,
{
    let b = bytes::Bytes::copy_from_slice(payload.as_slice());
    match webrtc::rtp::packetizer::Depacketizer::depacketize(d, &b) {
        Ok(out) => Ok(out.to_vec()),
        Err(e) => Err(e.to_string()),
    }
}

/// Ghost view of a sink: the codec it is bound to, the reconstructor's
/// abstract state, and whether it has been closed.
#[verifier::ext_equal]
pub ghost struct SinkModel {
    pub codec: MediaCodec,
    pub rec: ReconState,
    pub closed: bool,
}

/// What one successful `write_rtp` did: some packet `p2` carrying the
/// depacketized payload went through the packet-acceptance relation, and
/// the returned samples are exactly what draining the reconstructor then
/// produced.
pub open spec fn write_outcome(
    s0: SinkModel,
    s1: SinkModel,
    p2: Packet,
    samples: Seq<SampleModel>,
) -> bool {
    exists|mid: ReconState|
        {
            &&& #[trigger] push_transition(s0.rec, mid, p2)
            &&& spec_drain(mid).0 == s1.rec
            &&& spec_drain(mid).1 == samples
        }
}

/// Sample sink reconstructing complete samples from RTP packets.
///
/// Owned by the track that created it (or externally supplied, then
/// attached); per-packet access is serialized by the exclusive reference.
/// Fields are public so specifications can speak about them; build one with
/// `new` and feed it through `write_rtp` and `close`, which keep `wf`.
pub struct MediaStreamSink {
    pub codec: MediaCodec,
    pub rec: SampleReconstructor,
    pub h264: webrtc::rtp::codecs::h264::H264Packet,
    pub closed: bool,
}

impl View for MediaStreamSink {
    type V = SinkModel;

    open spec fn view(&self) -> SinkModel {
        SinkModel { codec: self.codec, rec: self.rec@, closed: self.closed }
    }
}

impl MediaStreamSink {
    pub open spec fn wf(&self) -> bool {
        &&& self.rec.wf()
        &&& self@.rec.audio == (self.codec is AudioOpus)
    }

    /// A sink bound to one codec: `max_late` packets of lateness tolerance
    /// and the codec's RTP clock rate for scaling durations.
    pub fn new(max_late: u16, codec: MediaCodec, sample_rate: u32) -> (r: Self)
        ensures
            r.wf(),
            r@.codec == codec,
            !r@.closed,
            !r@.rec.started,
            r@.rec.max_late == max_late as int,
            r@.rec.clock_rate == sample_rate as int,
            r@.rec.hist.len() == 0,
    {
        let audio = codec.is_audio();
        MediaStreamSink {
            codec,
            rec: SampleReconstructor::new(max_late, audio, sample_rate),
            h264: new_h264_depacketizer(),
            closed: false,
        }
    }

    /// Accepts one RTP packet and returns every sample that completed.
    ///
    /// A padding packet enters the pipeline with an empty payload (it keeps
    /// the accounting honest without polluting sample data); any other
    /// payload is depacketized for the bound codec, and a payload the codec
    /// rejects fails with a media-track error, leaving the buffered state
    /// untouched.
    pub fn write_rtp(&mut self, pkt: &Packet) -> (r: Result<Vec<MediaSample>, RtcError>)
        requires
            old(self).wf(),
            pkt.sequence_number < u64::MAX,
        ensures
            final(self).wf(),
            final(self)@.codec == old(self)@.codec,
            final(self)@.closed == old(self)@.closed,
            r matches Err(e) ==> e is MediaTrackError && final(self)@.rec == old(self)@.rec,
            pkt.padding ==> r is Ok,
            !pkt.padding && old(self)@.codec is AudioOpus && pkt.payload@.len() > 0 ==> r is Ok,
            !pkt.padding && old(self)@.codec is AudioOpus && pkt.payload@.len() == 0 ==> r is Err,
            !pkt.padding && old(self)@.codec is VideoVP8 ==> ((r is Ok) == vp8_accepted(
                pkt.payload@,
            )),
            !pkt.padding && old(self)@.codec is VideoVP8 && pkt.payload@.len() < 4 ==> r is Err,
            !pkt.padding && old(self)@.codec is VideoH264 && pkt.payload@.len() <= 1 ==> r is Err,
            !pkt.padding && old(self)@.codec is VideoH264 && !h264_payload_safe(pkt.payload@)
                ==> r is Err,
            r matches Ok(samples) ==> forall|a: int, b: int|
                0 <= a < b < samples@.len() ==> (#[trigger] samples@[a]).packet_timestamp <= (
                #[trigger] samples@[b]).packet_timestamp,
            r matches Ok(samples) ==> exists|p2: Packet|
                #![trigger p2.sequence_number]
                {
                    &&& p2.sequence_number == pkt.sequence_number
                    &&& p2.timestamp == pkt.timestamp
                    &&& p2.marker == pkt.marker
                    &&& p2.padding == pkt.padding
                    &&& (pkt.padding ==> p2.payload@.len() == 0)
                    &&& (!pkt.padding && old(self)@.codec is VideoVP8 ==> p2.payload@
                        == vp8_depacketized(pkt.payload@))
                    &&& (!pkt.padding && old(self)@.codec is AudioOpus ==> p2.payload@
                        == pkt.payload@)
                    &&& write_outcome(
                        old(self)@,
                        final(self)@,
                        p2,
                        samples@.map_values(|x: MediaSample| x@),
                    )
                },
    {
        let depacketized: Result<Vec<u8>, String> = if pkt.padding {
            Ok(Vec::new())
        } else {
            match self.codec {
                MediaCodec::VideoVP8 => depacketize_vp8(&pkt.payload),
                MediaCodec::VideoH264 => {
                    if h264_payload_safe_check(&pkt.payload) {
                        depacketize_h264(&mut self.h264, &pkt.payload)
                    } else {
                        Err("RTP payload overruns its aggregate length prefixes".to_owned())
                    }
                },
                MediaCodec::AudioOpus => depacketize_opus(&pkt.payload),
            }
        };
        let data = match depacketized {
            Ok(d) => d,
            Err(m) => {
                return Err(RtcError::MediaTrackError(m));
            },
        };
        let p2 = Packet {
            sequence_number: pkt.sequence_number,
            timestamp: pkt.timestamp,
            marker: pkt.marker,
            padding: pkt.padding,
            payload: data,
        };
        let ghost p2v: Packet = p2;
        self.rec.push(p2);
        let ghost mid: ReconState = self.rec@;
        let mut out: Vec<MediaSample> = Vec::new();
        let mut cont = true;
        while cont
            invariant
                self.rec.wf(),
                self.codec == old(self).codec,
                self.closed == old(self).closed,
                self@.rec.audio == (self.codec is AudioOpus),
                spec_drain(mid).0 == spec_drain(self.rec@).0,
                spec_drain(mid).1 == out@.map_values(|x: MediaSample| x@) + spec_drain(
                    self.rec@,
                ).1,
                !cont ==> spec_drain(self.rec@) == (self.rec@, Seq::<SampleModel>::empty()),
                forall|a: int, b: int|
                    0 <= a < b < out@.len() ==> (#[trigger] out@[a]).packet_timestamp <= (
                    #[trigger] out@[b]).packet_timestamp,
                out@.len() > 0 ==> (self.rec@.have_last_ts && out@.last().packet_timestamp
                    <= self.rec@.last_ts),
            decreases self.rec.buf@.len() + (if cont {
                1int
            } else {
                0int
            }),
        {
            let ghost cur: ReconState = self.rec@;
            let popped = self.rec.pop();
            proof {
                lemma_spec_pop_none_stable(cur);
                lemma_spec_pop_frame(cur);
                lemma_spec_pop_emission(cur);
            }
            match popped {
                Option::Some(x) => {
                    proof {
                        assert(spec_drain(cur).1 == seq![x@] + spec_drain(self.rec@).1);
                        assert(out@.push(x).map_values(|y: MediaSample| y@) =~= out@.map_values(
                            |y: MediaSample| y@,
                        ).push(x@));
                        assert(out@.map_values(|y: MediaSample| y@).push(x@) + spec_drain(
                            self.rec@,
                        ).1 =~= out@.map_values(|y: MediaSample| y@) + (seq![x@] + spec_drain(
                            self.rec@,
                        ).1));
                    }
                    out.push(x);
                },
                Option::None => {
                    cont = false;
                },
            }
        }
        proof {
            assert(spec_drain(mid).0 == self.rec@);
            assert(spec_drain(mid).1 =~= out@.map_values(|x: MediaSample| x@));
            assert(push_transition(old(self)@.rec, mid, p2v));
            assert(write_outcome(old(self)@, self@, p2v, out@.map_values(|x: MediaSample| x@)));
        }
        Ok(out)
    }

    /// Marks the sink closed. Returns whether this call was the one that
    /// closed it, so a close notification can be delivered exactly once,
    /// never twice.
    pub fn close(&mut self) -> (r: bool)
        ensures
            final(self)@ == (SinkModel { closed: true, ..old(self)@ }),
            r == !old(self)@.closed,
    {
        let was = self.closed;
        self.closed = true;
        !was
    }
}

} // verus!
