//! Decisions of the connection facade and its event bridge that do not
//! touch the engine: the sender scan behind `remove_track`, and the firing
//! rules the bridge applies before dispatching to observers.

use vstd::prelude::*;

use crate::rtc::RtcError;

verus! {

/// What the engine's transceiver direction enumeration can carry.
#[derive(Debug, Clone, Copy, PartialEq, Eq, Structural)]
pub enum EngineTransceiverDirection {
    Unspecified,
    Sendrecv,
    Sendonly,
    Recvonly,
    Inactive,
}

/// The mute-transition heuristic: when a remote track's transceiver
/// direction says the peer can no longer receive on it (send-only or
/// inactive), the bridge synthesizes a remove-track event. Best-effort by
/// design — direction readback may briefly lag renegotiation — so this
/// decides only whether to fire, never claims authority.
pub fn mute_signals_remove_track(direction: EngineTransceiverDirection) -> (r: bool)
    ensures
        r == (direction == EngineTransceiverDirection::Sendonly || direction
            == EngineTransceiverDirection::Inactive),
{
    match direction {
        EngineTransceiverDirection::Sendonly => true,
        EngineTransceiverDirection::Inactive => true,
        _ => false,
    }
}

/// Whether this sender's track id slot carries exactly the wanted id.
pub open spec fn sender_carries(entry: Option<String>, track_id: Seq<char>) -> bool {
    entry matches Some(s) && s@ == track_id
}

/// The sender scan behind `remove_track`: a linear scan of the current
/// senders by the id of the track each one carries (`None` for a sender
/// with no track). Picks the first sender carrying the wanted track, and
/// fails with the track-not-found failure exactly when none does.
pub fn select_sender_for_removal(sender_track_ids: &Vec<Option<String>>, track_id: &String) -> (r:
    Result<usize, RtcError>)
    ensures
        r matches Ok(i) ==> {
            &&& 0 <= (i as int) < sender_track_ids@.len()
            &&& sender_carries(sender_track_ids@[i as int], track_id@)
            &&& forall|j: int|
                0 <= j < i as int ==> !sender_carries(#[trigger] sender_track_ids@[j], track_id@)
        },
        r matches Err(e) ==> {
            &&& e matches RtcError::RemoveTrackError(m) && m@ == "Track not found"@
            &&& forall|j: int|
                0 <= j < sender_track_ids@.len() ==> !sender_carries(
                    #[trigger] sender_track_ids@[j],
                    track_id@,
                )
        },
{
    let n = sender_track_ids.len();
    let mut i: usize = 0;
    while i < n
        invariant
            n == sender_track_ids@.len(),
            0 <= i <= n,
            forall|j: int|
                0 <= j < i as int ==> !sender_carries(#[trigger] sender_track_ids@[j], track_id@),
        decreases n - i,
    {
        match &sender_track_ids[i] {
            Some(s) => {
                if s.eq(track_id) {
                    return Ok(i);
                }
            },
            None => {},
        }
        i += 1;
    }
    Err(RtcError::RemoveTrackError("Track not found".to_owned()))
}

} // verus!
