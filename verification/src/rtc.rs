//! Error taxonomy, connection configuration records, session descriptions and
//! the portable state vocabulary mirrored from the transport engine.
//!
//! The `Engine*` enumerations model exactly what the engine's own state
//! enumerations can carry, including the `Unspecified` sentinel that the
//! engine documents as never being delivered to callbacks; the `from_native`
//! translations therefore require the sentinel to be absent, and the thin
//! unverified layer around this crate checks for it (and aborts, as a broken
//! engine invariant) before calling in.

use vstd::prelude::*;
use vstd::string::StringExecFns;

verus! {

/// Typed failures for every fallible boundary operation.
///
/// Each variant carries a human-readable detail string sourced from the
/// underlying failure; `message` renders the conventional description.
#[derive(Debug, Clone, PartialEq, Eq)]
pub enum RtcError {
    CreateConnectionError(String),
    SdpError(String),
    IceError(String),
    AddTrackError(String),
    RemoveTrackError(String),
    DataChannelError(String),
    StatsError(String),
    FeatureNotSupported,
    DtmfNotSupported,
    MediaTrackError(String),
    MediaTrackTypeError(String),
}

impl RtcError {
    /// The rendered description of this error, matching the conventional
    /// `"<prefix>: <detail>"` phrasing for variants that carry a detail.
    pub open spec fn message_spec(&self) -> Seq<char> {
        match self {
            RtcError::CreateConnectionError(m) => "Failed to initialize RTC Connection: "@ + m@,
            RtcError::SdpError(m) => "SDP Error: "@ + m@,
            RtcError::IceError(m) => "Failed to add an ICE candidate: "@ + m@,
            RtcError::AddTrackError(m) => "Failed to add a track: "@ + m@,
            RtcError::RemoveTrackError(m) => "Failed to remove a track: "@ + m@,
            RtcError::DataChannelError(m) => "Data channel error: "@ + m@,
            RtcError::StatsError(m) => "Failed to retrieve stats: "@ + m@,
            RtcError::FeatureNotSupported => "Feature is not supported by WebRTC.rs"@,
            RtcError::DtmfNotSupported => "Dtmf is not supported by WebRTC.rs"@,
            RtcError::MediaTrackError(m) => "Media track error: "@ + m@,
            RtcError::MediaTrackTypeError(m) => "Media track type error: "@ + m@,
        }
    }

    pub fn message(&self) -> (r: String)
        ensures
            r@ == self.message_spec(),
    {
        match self {
            RtcError::CreateConnectionError(m) => {
                "Failed to initialize RTC Connection: ".to_owned().concat(m.as_str())
            },
            RtcError::SdpError(m) => "SDP Error: ".to_owned().concat(m.as_str()),
            RtcError::IceError(m) => "Failed to add an ICE candidate: ".to_owned().concat(
                m.as_str(),
            ),
            RtcError::AddTrackError(m) => "Failed to add a track: ".to_owned().concat(m.as_str()),
            RtcError::RemoveTrackError(m) => "Failed to remove a track: ".to_owned().concat(
                m.as_str(),
            ),
            RtcError::DataChannelError(m) => "Data channel error: ".to_owned().concat(m.as_str()),
            RtcError::StatsError(m) => "Failed to retrieve stats: ".to_owned().concat(m.as_str()),
            RtcError::FeatureNotSupported => "Feature is not supported by WebRTC.rs".to_owned(),
            RtcError::DtmfNotSupported => "Dtmf is not supported by WebRTC.rs".to_owned(),
            RtcError::MediaTrackError(m) => "Media track error: ".to_owned().concat(m.as_str()),
            RtcError::MediaTrackTypeError(m) => "Media track type error: ".to_owned().concat(
                m.as_str(),
            ),
        }
    }
}

/// One ICE server entry of the connection configuration.
#[derive(Debug, Clone, PartialEq, Eq)]
pub struct IceServer {
    pub urls: Vec<String>,
    pub username: String,
    pub credential: String,
}

#[derive(Debug, Clone, Copy, PartialEq, Eq, Structural)]
pub enum BundlePolicy {
    Balanced,
    MaxCompat,
    MaxBundle,
}

#[derive(Debug, Clone, Copy, PartialEq, Eq, Structural)]
pub enum RtcpMuxPolicy {
    Negotiate,
    Require,
}

#[derive(Debug, Clone, Copy, PartialEq, Eq, Structural)]
pub enum IceTransportPolicy {
    All,
    Relay,
}

/// Configuration input for creating a connection.
#[derive(Debug, Clone, PartialEq, Eq)]
pub struct ConnectionConfig {
    pub ice_servers: Vec<IceServer>,
    pub ice_candidate_pool_size: u8,
    pub bundle_policy: BundlePolicy,
    pub rtcp_mux_policy: RtcpMuxPolicy,
    pub ice_transport_policy: IceTransportPolicy,
    pub add_default_transceivers: bool,
}

#[derive(Debug, Clone, Copy, PartialEq, Eq, Structural)]
pub enum SessionDescriptionType {
    Offer,
    Answer,
    ProvisionalAnswer,
    Rollback,
}

/// What the engine's own SDP type enumeration can carry, sentinel included.
#[derive(Debug, Clone, Copy, PartialEq, Eq, Structural)]
pub enum EngineSdpType {
    Unspecified,
    Offer,
    Pranswer,
    Answer,
    Rollback,
}

/// A session description record: opaque SDP text plus the type that drives
/// the engine's validation.
#[derive(Debug, Clone, PartialEq, Eq)]
pub struct SessionDescription {
    pub sdp_type: SessionDescriptionType,
    pub sdp: String,
}

#[verifier::external_type_specification]
#[verifier::external_body]
pub struct ExRTCSessionDescription(
    webrtc::peer_connection::sdp::session_description::RTCSessionDescription,
);

/// Whether the engine's SDP parser accepts a session description body.
/// All three description constructors run the same parse over the text
/// alone (the description type is not consulted), so acceptance is a
/// function of the text.
pub uninterp spec fn sdp_accepted(sdp: Seq<char>) -> bool;

/// Relies on `RTCSessionDescription::offer`: wraps SDP text as an offer
/// description; it succeeds exactly when the text parses as SDP.
#[verifier::external_body]
fn engine_offer_description(sdp: String) -> (r: Result<
    webrtc::peer_connection::sdp::session_description::RTCSessionDescription,
    String,
>)
    ensures
        (r is Ok) == sdp_accepted(sdp@),
{
    webrtc::peer_connection::sdp::session_description::RTCSessionDescription::offer(sdp).map_err(
        |e| e.to_string(),
    )
}

/// Relies on `RTCSessionDescription::answer`: wraps SDP text as an answer
/// description; it succeeds exactly when the text parses as SDP.
#[verifier::external_body]
fn engine_answer_description(sdp: String) -> (r: Result<
    webrtc::peer_connection::sdp::session_description::RTCSessionDescription,
    String,
>)
    ensures
        (r is Ok) == sdp_accepted(sdp@),
{
    webrtc::peer_connection::sdp::session_description::RTCSessionDescription::answer(sdp).map_err(
        |e| e.to_string(),
    )
}

/// Relies on `RTCSessionDescription::pranswer`: wraps SDP text as a
/// provisional answer description; it succeeds exactly when the text
/// parses as SDP.
#[verifier::external_body]
fn engine_pranswer_description(sdp: String) -> (r: Result<
    webrtc::peer_connection::sdp::session_description::RTCSessionDescription,
    String,
>)
    ensures
        (r is Ok) == sdp_accepted(sdp@),
{
    webrtc::peer_connection::sdp::session_description::RTCSessionDescription::pranswer(sdp)
        .map_err(|e| e.to_string())
}

impl SessionDescription {
    /// Builds the portable record from the parts the engine hands back.
    pub fn from_native(sdp_type: EngineSdpType, sdp: String) -> (r: Self)
        requires
            sdp_type != EngineSdpType::Unspecified,
        ensures
            sdp_type == EngineSdpType::Offer ==> r.sdp_type == SessionDescriptionType::Offer,
            sdp_type == EngineSdpType::Answer ==> r.sdp_type == SessionDescriptionType::Answer,
            sdp_type == EngineSdpType::Pranswer ==> r.sdp_type
                == SessionDescriptionType::ProvisionalAnswer,
            sdp_type == EngineSdpType::Rollback ==> r.sdp_type == SessionDescriptionType::Rollback,
            r.sdp == sdp,
    {
        let t = match sdp_type {
            EngineSdpType::Unspecified => unreached(),
            EngineSdpType::Offer => SessionDescriptionType::Offer,
            EngineSdpType::Answer => SessionDescriptionType::Answer,
            EngineSdpType::Pranswer => SessionDescriptionType::ProvisionalAnswer,
            EngineSdpType::Rollback => SessionDescriptionType::Rollback,
        };
        SessionDescription { sdp_type: t, sdp }
    }

    /// Turns the record into a description the engine accepts.
    ///
    /// `Rollback` is rejected here: it is not settable through this path.
    /// For the other types the engine's own constructor decides whether the
    /// SDP body parses; either way a failure surfaces as `SdpError`.
    pub fn to_native(&self) -> (r: Result<
        webrtc::peer_connection::sdp::session_description::RTCSessionDescription,
        RtcError,
    >)
        ensures
            self.sdp_type == SessionDescriptionType::Rollback ==> (r matches Err(
                RtcError::SdpError(m),
            ) && m@ == "Can't set SDP rollback"@),
            self.sdp_type != SessionDescriptionType::Rollback ==> ((r is Ok) == sdp_accepted(
                self.sdp@,
            )),
            r is Ok ==> self.sdp_type != SessionDescriptionType::Rollback,
            r matches Err(e) ==> e is SdpError,
    {
        let outcome = match self.sdp_type {
            SessionDescriptionType::Offer => engine_offer_description(self.sdp.clone()),
            SessionDescriptionType::Answer => engine_answer_description(self.sdp.clone()),
            SessionDescriptionType::ProvisionalAnswer => engine_pranswer_description(
                self.sdp.clone(),
            ),
            SessionDescriptionType::Rollback => {
                return Err(RtcError::SdpError("Can't set SDP rollback".to_owned()));
            },
        };
        match outcome {
            Ok(d) => Ok(d),
            Err(m) => Err(RtcError::SdpError(m)),
        }
    }
}

/// An ICE candidate record exchanged during negotiation.
#[derive(Debug, Clone, PartialEq, Eq)]
pub struct IceCandidate {
    pub candidate: String,
    pub sdp_mid: Option<String>,
    pub sdp_mline_index: Option<u16>,
}

#[derive(Debug, Clone, Copy, PartialEq, Eq, Structural)]
pub enum ConnectionState {
    New,
    Connecting,
    Connected,
    Disconnected,
    Failed,
    Closed,
}

/// What the engine's peer connection state enumeration can carry.
#[derive(Debug, Clone, Copy, PartialEq, Eq, Structural)]
pub enum EngineConnectionState {
    Unspecified,
    New,
    Connecting,
    Connected,
    Disconnected,
    Failed,
    Closed,
}

impl ConnectionState {
    pub fn from_native(state: EngineConnectionState) -> (r: Self)
        requires
            state != EngineConnectionState::Unspecified,
        ensures
            state == EngineConnectionState::New ==> r == ConnectionState::New,
            state == EngineConnectionState::Connecting ==> r == ConnectionState::Connecting,
            state == EngineConnectionState::Connected ==> r == ConnectionState::Connected,
            state == EngineConnectionState::Disconnected ==> r == ConnectionState::Disconnected,
            state == EngineConnectionState::Failed ==> r == ConnectionState::Failed,
            state == EngineConnectionState::Closed ==> r == ConnectionState::Closed,
    {
        match state {
            EngineConnectionState::Unspecified => unreached(),
            EngineConnectionState::New => ConnectionState::New,
            EngineConnectionState::Connecting => ConnectionState::Connecting,
            EngineConnectionState::Connected => ConnectionState::Connected,
            EngineConnectionState::Disconnected => ConnectionState::Disconnected,
            EngineConnectionState::Failed => ConnectionState::Failed,
            EngineConnectionState::Closed => ConnectionState::Closed,
        }
    }
}

#[derive(Debug, Clone, Copy, PartialEq, Eq, Structural)]
pub enum IceConnectionState {
    New,
    Checking,
    Connected,
    Completed,
    Failed,
    Disconnected,
    Closed,
}

/// What the engine's ICE connection state enumeration can carry.
#[derive(Debug, Clone, Copy, PartialEq, Eq, Structural)]
pub enum EngineIceConnectionState {
    Unspecified,
    New,
    Checking,
    Connected,
    Completed,
    Disconnected,
    Failed,
    Closed,
}

impl IceConnectionState {
    pub fn from_native(state: EngineIceConnectionState) -> (r: Self)
        requires
            state != EngineIceConnectionState::Unspecified,
        ensures
            state == EngineIceConnectionState::New ==> r == IceConnectionState::New,
            state == EngineIceConnectionState::Checking ==> r == IceConnectionState::Checking,
            state == EngineIceConnectionState::Connected ==> r == IceConnectionState::Connected,
            state == EngineIceConnectionState::Completed ==> r == IceConnectionState::Completed,
            state == EngineIceConnectionState::Disconnected ==> r
                == IceConnectionState::Disconnected,
            state == EngineIceConnectionState::Failed ==> r == IceConnectionState::Failed,
            state == EngineIceConnectionState::Closed ==> r == IceConnectionState::Closed,
    {
        match state {
            EngineIceConnectionState::Unspecified => unreached(),
            EngineIceConnectionState::New => IceConnectionState::New,
            EngineIceConnectionState::Checking => IceConnectionState::Checking,
            EngineIceConnectionState::Connected => IceConnectionState::Connected,
            EngineIceConnectionState::Completed => IceConnectionState::Completed,
            EngineIceConnectionState::Disconnected => IceConnectionState::Disconnected,
            EngineIceConnectionState::Failed => IceConnectionState::Failed,
            EngineIceConnectionState::Closed => IceConnectionState::Closed,
        }
    }
}

#[derive(Debug, Clone, Copy, PartialEq, Eq, Structural)]
pub enum IceGatheringState {
    New,
    Gathering,
    Complete,
}

/// What the engine's ICE gatherer state enumeration can carry.
#[derive(Debug, Clone, Copy, PartialEq, Eq, Structural)]
pub enum EngineIceGatheringState {
    Unspecified,
    New,
    Gathering,
    Complete,
}

impl IceGatheringState {
    pub fn from_native(state: EngineIceGatheringState) -> (r: Self)
        requires
            state != EngineIceGatheringState::Unspecified,
        ensures
            state == EngineIceGatheringState::New ==> r == IceGatheringState::New,
            state == EngineIceGatheringState::Gathering ==> r == IceGatheringState::Gathering,
            state == EngineIceGatheringState::Complete ==> r == IceGatheringState::Complete,
    {
        match state {
            EngineIceGatheringState::Unspecified => unreached(),
            EngineIceGatheringState::New => IceGatheringState::New,
            EngineIceGatheringState::Gathering => IceGatheringState::Gathering,
            EngineIceGatheringState::Complete => IceGatheringState::Complete,
        }
    }
}

#[derive(Debug, Clone, Copy, PartialEq, Eq, Structural)]
pub enum SignalingState {
    Stable,
    Closed,
    HaveLocalOffer,
    HaveLocalProvisionalAnswer,
    HaveRemoteOffer,
    HaveRemoteProvisionalAnswer,
}

/// What the engine's signaling state enumeration can carry.
#[derive(Debug, Clone, Copy, PartialEq, Eq, Structural)]
pub enum EngineSignalingState {
    Unspecified,
    Stable,
    HaveLocalOffer,
    HaveRemoteOffer,
    HaveLocalPranswer,
    HaveRemotePranswer,
    Closed,
}

impl SignalingState {
    pub fn from_native(state: EngineSignalingState) -> (r: Self)
        requires
            state != EngineSignalingState::Unspecified,
        ensures
            state == EngineSignalingState::Stable ==> r == SignalingState::Stable,
            state == EngineSignalingState::Closed ==> r == SignalingState::Closed,
            state == EngineSignalingState::HaveLocalOffer ==> r == SignalingState::HaveLocalOffer,
            state == EngineSignalingState::HaveRemoteOffer ==> r == SignalingState::HaveRemoteOffer,
            state == EngineSignalingState::HaveLocalPranswer ==> r
                == SignalingState::HaveLocalProvisionalAnswer,
            state == EngineSignalingState::HaveRemotePranswer ==> r
                == SignalingState::HaveRemoteProvisionalAnswer,
    {
        match state {
            EngineSignalingState::Unspecified => unreached(),
            EngineSignalingState::Stable => SignalingState::Stable,
            EngineSignalingState::Closed => SignalingState::Closed,
            EngineSignalingState::HaveLocalOffer => SignalingState::HaveLocalOffer,
            EngineSignalingState::HaveRemoteOffer => SignalingState::HaveRemoteOffer,
            EngineSignalingState::HaveLocalPranswer => SignalingState::HaveLocalProvisionalAnswer,
            EngineSignalingState::HaveRemotePranswer => SignalingState::HaveRemoteProvisionalAnswer,
        }
    }
}

/// One generic statistics record: every engine report variant is rendered
/// into this shape by the unverified translation layer.
#[derive(Debug, Clone, PartialEq, Eq)]
pub struct Stats {
    pub id: String,
    pub timestamp: u64,
    pub type_: String,
    pub props: String,
}

/// Anchors a monotonic-clock reading to epoch milliseconds.
///
/// `now_since_epoch_micros` is the wall clock read at call time, as
/// microseconds since the epoch; `instant_age_micros` is how far in the past
/// the monotonic reading lies, also in microseconds. The anchored reading is
/// rejected when it would fall before the epoch.
pub fn instant_to_epoch_millis(now_since_epoch_micros: u64, instant_age_micros: u64) -> (r: Result<
    u64,
    RtcError,
>)
    ensures
        instant_age_micros > now_since_epoch_micros ==> (r matches Err(RtcError::StatsError(m))
            && m@ == "Time went backwards"@),
        instant_age_micros <= now_since_epoch_micros ==> r == Ok::<u64, RtcError>(
            (((now_since_epoch_micros - instant_age_micros) / 1000) as u64),
        ),
{
    if instant_age_micros > now_since_epoch_micros {
        Err(RtcError::StatsError("Time went backwards".to_owned()))
    } else {
        Ok((now_since_epoch_micros - instant_age_micros) / 1000)
    }
}

} // verus!
