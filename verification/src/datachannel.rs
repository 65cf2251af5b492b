//! Data channel records and the channel-scoped observer interface. The
//! channel object itself wraps an engine object and lives outside this
//! crate; what crosses the boundary are these plain records and the state
//! translation.

use vstd::prelude::*;

use crate::rtc::RtcError;

verus! {

#[derive(Debug, Clone, Copy, PartialEq, Eq, Structural)]
pub enum DataChannelState {
    Connecting,
    Open,
    Closing,
    Closed,
}

/// What the engine's channel ready-state enumeration can carry.
#[derive(Debug, Clone, Copy, PartialEq, Eq, Structural)]
pub enum EngineDataChannelState {
    Unspecified,
    Connecting,
    Open,
    Closing,
    Closed,
}

impl DataChannelState {
    pub fn from_native(state: EngineDataChannelState) -> (r: Self)
        requires
            state != EngineDataChannelState::Unspecified,
        ensures
            state == EngineDataChannelState::Connecting ==> r == DataChannelState::Connecting,
            state == EngineDataChannelState::Open ==> r == DataChannelState::Open,
            state == EngineDataChannelState::Closing ==> r == DataChannelState::Closing,
            state == EngineDataChannelState::Closed ==> r == DataChannelState::Closed,
    {
        match state {
            EngineDataChannelState::Unspecified => unreached(),
            EngineDataChannelState::Connecting => DataChannelState::Connecting,
            EngineDataChannelState::Open => DataChannelState::Open,
            EngineDataChannelState::Closing => DataChannelState::Closing,
            EngineDataChannelState::Closed => DataChannelState::Closed,
        }
    }
}

/// One message received on a data channel.
#[derive(Debug, Clone, PartialEq, Eq)]
pub struct DataChannelMessage {
    pub is_string: bool,
    pub data: Vec<u8>,
}

/// Data channel creation options. Reliable and partially-reliable modes
/// are mutually exclusive beneath this layer; invalid combinations surface
/// as a channel-creation failure from the engine, not here.
#[derive(Debug, Clone, PartialEq, Eq)]
pub struct DataChannelInit {
    pub ordered: Option<bool>,
    pub max_retransmits: Option<u16>,
    pub max_packet_life_time: Option<u16>,
    pub protocol: Option<String>,
    pub negotiated: Option<u16>,
}

/// Caller-implemented observer for channel-scoped events; each method is
/// fire-and-forget passthrough from the engine's notifications.
pub trait DataChannelObserver {
    fn on_open(&mut self);

    fn on_close(&mut self);

    fn on_buffered_amount_low(&mut self);

    fn on_error(&mut self, error: RtcError);

    fn on_message(&mut self, message: DataChannelMessage);
}

} // verus!
