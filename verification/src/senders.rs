//! RTP sender parameter records: the portable shape of what the engine
//! reports for a sender. The sender object itself wraps an engine object
//! outside this crate; the unverified layer fills these records field by
//! field.

use vstd::prelude::*;

verus! {

/// Parameters of one RTP sender.
#[derive(Debug, Clone, PartialEq, Eq)]
pub struct RtpParameters {
    pub encodings: Vec<RtpEncodingParameters>,
    pub header_extensions: Vec<RtpHeaderExtensionParameters>,
    pub codecs: Vec<RtpCodecParameters>,
    pub degradation_preference: DegradationPreference,
}

/// One encoding of an RTP sender.
#[derive(Debug, Clone, PartialEq, Eq)]
pub struct RtpEncodingParameters {
    pub rid: String,
    pub ssrc: u32,
    pub payload_type: u8,
    pub rtx: u32,
}

/// One negotiated RTP header extension.
#[derive(Debug, Clone, PartialEq, Eq)]
pub struct RtpHeaderExtensionParameters {
    pub id: i64,
    pub uri: String,
    pub encrypted: bool,
}

/// One negotiated codec, as carried in sender parameters.
#[derive(Debug, Clone, PartialEq, Eq)]
pub struct RtpCodecParameters {
    pub payload_type: u8,
    pub mime_type: String,
    pub clock_rate: u32,
    pub channels: u16,
    pub sdp_fmtp_line: String,
}

#[derive(Debug, Clone, Copy, PartialEq, Eq, Structural)]
pub enum DegradationPreference {
    Balanced,
    MaintainFramerate,
    MaintainResolution,
    Disabled,
}

} // verus!
