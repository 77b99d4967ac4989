//! Decision logic of the ingestion bridge.
//!
//! The bridge owns the hardware channel: a dedicated thread blocks on reads
//! with a bounded timeout and hands each outcome to `bridge_step`, which
//! decides whether to broadcast, keep reading, or give up. A read timeout is
//! expected and skipped; any other read error is fatal to the bridge, since no
//! further data can ever be produced, and must be surfaced rather than
//! swallowed.

use vstd::prelude::*;

use crate::messages::copy_prefix;
use crate::messages::SerialMessage;

verus! {

/// Outcome of one blocking read from the hardware channel, as plain values:
/// how many bytes arrived at the front of the read buffer, or which class of
/// error occurred.
#[derive(Debug, PartialEq, Eq, Clone, Copy)]
pub enum ReadResult {
    /// The read put this many bytes at the front of the buffer.
    Received(usize),
    /// The bounded per-read timeout elapsed with nothing to read.
    TimedOut,
    /// Any other read error; the channel is not coming back.
    Failed,
}

/// What the ingestion loop must do after one read.
#[derive(Debug, PartialEq, Eq)]
pub enum BridgeAction {
    /// Fan this payload out to every currently connected subscriber.
    Broadcast(SerialMessage),
    /// Nothing arrived; keep reading.
    Continue,
    /// The channel failed; stop the bridge and surface the failure.
    Fail,
}

/// One step of the ingestion loop: a successful read of `n` bytes becomes one
/// broadcast of exactly those `n` bytes, an empty read or a timeout is
/// skipped, and any other error is fatal to the bridge.
pub fn bridge_step(buf: &Vec<u8>, r: ReadResult) -> (a: BridgeAction)
    requires
        r matches ReadResult::Received(n) ==> n <= buf@.len(),
    ensures
        match r {
            ReadResult::Received(n) => if n == 0 {
                a == BridgeAction::Continue
            } else {
                a matches BridgeAction::Broadcast(m) && m.data@ == buf@.take(n as int)
            },
            ReadResult::TimedOut => a == BridgeAction::Continue,
            ReadResult::Failed => a == BridgeAction::Fail,
        },
{
    match r {
        ReadResult::Received(n) => {
            if n == 0 {
                BridgeAction::Continue
            } else {
                let data = copy_prefix(buf, n);
                BridgeAction::Broadcast(SerialMessage { data })
            }
        },
        ReadResult::TimedOut => BridgeAction::Continue,
        ReadResult::Failed => BridgeAction::Fail,
    }
}

} // verus!
