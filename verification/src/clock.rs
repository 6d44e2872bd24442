//! Wall-clock access.

use crate::model::TimestampMs;
use vstd::prelude::*;

verus! {

/// Returns the current wall-clock timestamp in milliseconds.
///
/// Calls `chrono::Utc::now().timestamp_millis()`. The result depends on the
/// machine's clock, so nothing is promised of it.
#[verifier::external_body]
pub fn now_timestamp_ms() -> (t: TimestampMs) {
    chrono::Utc::now().timestamp_millis()
}

/// The round trip and clock offset measured by a pong: `None` when the
/// answer seems to predate the ping (`now_ms < sent_ms`); otherwise the round
/// trip `now_ms - sent_ms` and the server clock minus the local time at the
/// midpoint of the round trip.
pub open spec fn pong_sample(sent_ms: u64, server_time_ms: i64, now_ms: u64) -> Option<(u64, i64)> {
    if now_ms >= sent_ms {
        let rtt = (now_ms - sent_ms) as u64;
        Some((rtt, (server_time_ms - (sent_ms + rtt / 2)) as i64))
    } else {
        None
    }
}

/// Computes [`pong_sample`].
pub fn pong_clock_sample(sent_ms: u64, server_time_ms: i64, now_ms: u64) -> (r: Option<(u64, i64)>)
    requires
        now_ms >= sent_ms ==> now_ms <= i64::MAX,
        now_ms >= sent_ms ==> i64::MIN <= server_time_ms - (sent_ms + (now_ms - sent_ms) / 2) <= i64::MAX,
    ensures
        r == pong_sample(sent_ms, server_time_ms, now_ms),
{
    if now_ms >= sent_ms {
        let rtt = now_ms - sent_ms;
        let latency = rtt / 2;
        let midpoint = (sent_ms + latency) as i64;
        Some((rtt, server_time_ms - midpoint))
    } else {
        None
    }
}

} // verus!
