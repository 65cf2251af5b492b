//! The virtual seekable-writer cursor behind container-encoding byte
//! targets.
//!
//! A container encoder writing a live stream wants a seekable target so it
//! can patch headers it has already emitted, but a live byte sink has no
//! backing store to seek in. The adapter tracks only a virtual write
//! cursor: every write advances it and the bytes flow onward immediately;
//! seeks move the cursor by absolute or relative position. Seeking from
//! the end is refused, since the total length of a live stream is unknown.

use vstd::prelude::*;

use crate::rtc::RtcError;

verus! {

/// A seek request against the virtual cursor; the stream's end is not a
/// usable origin (the mirror of the standard seek vocabulary, minus any
/// backing store).
#[derive(Debug, Clone, Copy, PartialEq, Eq)]
pub enum SeekTarget {
    FromStart(u64),
    FromCurrent(i64),
    FromEnd(i64),
}

/// The virtual write cursor: position is the only state, there is no
/// buffer behind it.
pub struct VirtualSeekWriter {
    pub position: u64,
}

impl VirtualSeekWriter {
    pub fn new() -> (r: Self)
        ensures
            r.position == 0,
    {
        VirtualSeekWriter { position: 0 }
    }

    /// Accounts one completed write of `len` bytes: the cursor advances,
    /// and a stream that would outgrow the cursor's range is refused.
    pub fn record_write(&mut self, len: usize) -> (r: Result<usize, RtcError>)
        ensures
            old(self).position + len <= u64::MAX ==> (r == Ok::<usize, RtcError>(len)
                && final(self).position == old(self).position + len),
            old(self).position + len > u64::MAX ==> (r matches Err(RtcError::MediaTrackError(m))
                && m@ == "Stream position overflow"@ && *final(self) == *old(self)),
    {
        if len as u64 > u64::MAX - self.position {
            return Err(RtcError::MediaTrackError("Stream position overflow".to_owned()));
        }
        self.position = self.position + (len as u64);
        Ok(len)
    }

    /// Moves the virtual cursor and reports the new position.
    ///
    /// Absolute and relative seeks succeed exactly when the destination
    /// lies inside the cursor's range; a seek from the end always fails,
    /// and a failed seek leaves the cursor where it was.
    pub fn seek(&mut self, target: SeekTarget) -> (r: Result<u64, RtcError>)
        ensures
            target matches SeekTarget::FromStart(p) ==> (r == Ok::<u64, RtcError>(p)
                && final(self).position == p),
            target matches SeekTarget::FromCurrent(d) ==> {
                let dest = old(self).position + d;
                &&& (0 <= dest <= u64::MAX ==> (r == Ok::<u64, RtcError>(dest as u64)
                    && final(self).position == dest))
                &&& (!(0 <= dest <= u64::MAX) ==> (r matches Err(RtcError::MediaTrackError(m))
                    && m@ == "Seek out of range"@ && *final(self) == *old(self)))
            },
            target matches SeekTarget::FromEnd(d) ==> (r matches Err(RtcError::MediaTrackError(m))
                && m@ == "Cannot seek from the end of a live stream"@ && *final(self)
                == *old(self)),
    {
        match target {
            SeekTarget::FromStart(p) => {
                self.position = p;
                Ok(p)
            },
            SeekTarget::FromCurrent(d) => {
                if d >= 0 {
                    let step = d as u64;
                    if step > u64::MAX - self.position {
                        return Err(RtcError::MediaTrackError("Seek out of range".to_owned()));
                    }
                    self.position = self.position + step;
                } else {
                    let back = if d == i64::MIN {
                        9223372036854775808u64
                    } else {
                        (-d) as u64
                    };
                    if back > self.position {
                        return Err(RtcError::MediaTrackError("Seek out of range".to_owned()));
                    }
                    self.position = self.position - back;
                }
                Ok(self.position)
            },
            SeekTarget::FromEnd(_) => {
                Err(
                    RtcError::MediaTrackError(
                        "Cannot seek from the end of a live stream".to_owned(),
                    ),
                )
            },
        }
    }
}

} // verus!
