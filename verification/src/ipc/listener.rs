//! The decisions of the event listener: how long to wait before
//! reconnecting, and what to do with what was read.

use vstd::prelude::*;
use crate::ipc::event::{ipc_event, line_is_well_formed, HyprEvent, IpcEventError};

verus! {

/// The wait before the first reconnection, in milliseconds.
pub const FIRST_BACKOFF_MS: u64 = 100;

/// The longest wait between reconnections, in milliseconds.
pub const MAX_BACKOFF_MS: u64 = 1000;

/// The wait after a failed connection that waited `delay_ms`: a tenth of a
/// second longer, and at most a second.
pub open spec fn backoff_after(delay_ms: nat) -> nat {
    if delay_ms + 100 < MAX_BACKOFF_MS { (delay_ms + 100) as nat } else { MAX_BACKOFF_MS as nat }
}

/// The wait before the next try.
pub fn next_backoff(delay_ms: u64) -> (r: u64)
    requires
        delay_ms <= MAX_BACKOFF_MS,
    ensures
        r == backoff_after(delay_ms as nat),
{
    let longer = delay_ms + 100;
    if longer < MAX_BACKOFF_MS {
        longer
    } else {
        MAX_BACKOFF_MS
    }
}

/// The wait after `k` failed connections.
pub open spec fn backoff_after_failures(k: nat) -> nat
    decreases k,
{
    if k == 0 {
        FIRST_BACKOFF_MS as nat
    } else {
        backoff_after(backoff_after_failures((k - 1) as nat))
    }
}

/// The waits grow by a tenth of a second after each failure until they
/// reach a second, and stay there.
pub proof fn law_backoff_grows_to_a_second(k: nat)
    ensures
        backoff_after_failures(k) == if 100 + 100 * k < 1000 { 100 + 100 * k } else { 1000 },
        backoff_after_failures(k) <= MAX_BACKOFF_MS,
    decreases k,
{
    if k > 0 {
        law_backoff_grows_to_a_second((k - 1) as nat);
    }
}

/// What was read from the event socket.
pub enum LineRead {
    /// A line.
    Line(String),
    /// The end of the stream.
    Eof,
    /// Reading failed.
    Failed,
}

/// What the listener does with what it read.
pub enum ListenerAction {
    /// Send the event to the subscribers.
    Deliver(HyprEvent),
    /// Go on with the next line.
    Skip,
    /// Connect again.
    Reconnect,
}

/// The listener's decision for what it read: lines that are events are
/// delivered, other lines skipped, and the end of the stream or a failed
/// read lead to a new connection.
pub fn on_read(read: LineRead) -> (r: ListenerAction)
    requires
        read matches LineRead::Line(l) ==> line_is_well_formed(l@),
    ensures
        match read {
            LineRead::Line(l) => match (ipc_event(l@), r) {
                (Ok(e), ListenerAction::Deliver(d)) => d@ == e,
                (Err(_), ListenerAction::Skip) => true,
                _ => false,
            },
            _ => r is Reconnect,
        },
{
    match read {
        LineRead::Line(l) => {
            match HyprEvent::from_str(l.as_str()) {
                Ok(e) => ListenerAction::Deliver(e),
                Err(_) => ListenerAction::Skip,
            }
        },
        _ => ListenerAction::Reconnect,
    }
}

} // verus!
