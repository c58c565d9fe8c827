//! Defaults of a connection, and time as the frames carry it.
use std::time::Duration;
use vstd::prelude::*;

verus! {

/// Default value, in milliseconds, of the time between KEEPALIVE frames that
/// the client will send.
pub const DEFAULT_KEEPALIVE_INTERVAL: u32 = 30_000;

/// Default value, in milliseconds, of the time that a client will allow a
/// server to not respond to a KEEPALIVE before it is assumed to be dead.
pub const DEFAULT_KEEPALIVE_TIMEOUT: u32 = 60_000;

/// The whole milliseconds that a `Duration` spans.
pub uninterp spec fn duration_millis(d: Duration) -> nat;

/// `Duration::from_millis`: a duration of that many milliseconds.
pub assume_specification[ Duration::from_millis ](millis: u64) -> (d: Duration)
    ensures
        duration_millis(d) == millis,
;

} // verus!
