use vstd::prelude::*;

verus! {

/// The dy.fi update endpoint.
pub const DDNS_ADDRESS: &'static str = "https://dy.fi/nic/update";

/// Default address endpoint.
pub const IP_CHECK_ADDRESS: &'static str = "https://ident.me";

/// Slack added to the probe interval in the `Keep-Alive` header, so that the
/// server's idle timeout outlasts the probe's sleep.
pub const KEEP_ALIVE_SLACK: u64 = 5;

/// Shortest per-request timeout of the HTTP client, in seconds.
pub const MIN_REQUEST_TIMEOUT: u64 = 30;

pub open spec fn max_spec(a: u64, b: u64) -> u64 {
    if a >= b {
        a
    } else {
        b
    }
}

/// The `timeout=` value of the probe's `Keep-Alive` header.
pub fn keep_alive_timeout(interval: u64) -> (r: u64)
    ensures
        r == if interval + KEEP_ALIVE_SLACK > u64::MAX {
            u64::MAX as int
        } else {
            interval + KEEP_ALIVE_SLACK
        },
{
    interval.saturating_add(KEEP_ALIVE_SLACK)
}

/// Per-request timeout of the HTTP client: `max(interval, 30)` seconds.
pub fn request_timeout(interval: u64) -> (r: u64)
    ensures
        r == max_spec(interval, MIN_REQUEST_TIMEOUT),
{
    if interval >= MIN_REQUEST_TIMEOUT {
        interval
    } else {
        MIN_REQUEST_TIMEOUT
    }
}

/// How long `stop` waits for the workers: one second past the longest
/// request, since a request in flight is allowed to finish.
pub fn stop_grace(interval: u64) -> (r: u64)
    requires
        interval < u64::MAX,
    ensures
        r == max_spec(interval, MIN_REQUEST_TIMEOUT) + 1,
{
    request_timeout(interval) + 1
}

/// Process exit status: zero when both workers ended cleanly.
pub fn exit_code(probe_ok: bool, update_ok: bool) -> (r: i32)
    ensures
        (r == 0) == (probe_ok && update_ok),
        r == 0 || r == 1,
{
    if probe_ok && update_ok {
        0
    } else {
        1
    }
}

} // verus!
