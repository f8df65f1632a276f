//! The status segment: whether the service answers, remembered for half a
//! minute, and the colour in which a process says so.

use crate::api::cache::{age_between, current_timestamp};
use vstd::prelude::*;

verus! {

/// Seconds for which a remembered state of health is used.
pub const CACHE_TTL_SECONDS: u64 = 30;

/// A state of health and the second at which it was found.
#[derive(Debug, Clone, Copy, PartialEq, Eq, Structural)]
pub struct HealthCache {
    pub is_healthy: bool,
    pub timestamp: u64,
}

/// What the status segment shows.
#[derive(Debug, Clone, Copy, PartialEq, Eq, Structural)]
pub enum StatusSegment {
    /// The service answers; the message has this colour of the 256.
    Serving { color: u8 },
    /// The service does not answer.
    Disconnected,
}

/// The colours among which a process picks the one of its message.
pub open spec fn wave_colors() -> Seq<u8> {
    seq![196u8, 202u8, 226u8, 46u8, 51u8, 21u8, 129u8]
}

/// The state of health that is remembered at `now`, if one is and it is
/// younger than the limit.
pub open spec fn remembered_health(cache: Option<HealthCache>, now: u64) -> Option<bool> {
    match cache {
        Some(entry) => if age_between(entry.timestamp, now) < CACHE_TTL_SECONDS {
            Some(entry.is_healthy)
        } else {
            None
        },
        None => None,
    }
}

/// The state of health that the answer to a request shows: healthy on a
/// status from 200 to 299, unhealthy on any other, and healthy too where
/// no answer came, so that a fault of the network alone is not reported.
pub open spec fn health_of(status: Option<u16>) -> bool {
    match status {
        Some(code) => 200 <= code < 300,
        None => true,
    }
}

/// The state of health to show at `now`, and the record to write: what is
/// remembered, and no record; else what the answer to a request shows,
/// and that as the record.
pub open spec fn resolved_health(cache: Option<HealthCache>, now: u64, status: Option<u16>) -> (
    bool,
    Option<HealthCache>,
) {
    match remembered_health(cache, now) {
        Some(healthy) => (healthy, None),
        None => (
            health_of(status),
            Some(HealthCache { is_healthy: health_of(status), timestamp: now }),
        ),
    }
}

/// The colours among which a process picks the one of its message.
pub fn get_wave_colors() -> (colors: Vec<u8>)
    ensures
        colors@ == wave_colors(),
{
    let mut colors: Vec<u8> = Vec::new();
    colors.push(196);
    colors.push(202);
    colors.push(226);
    colors.push(46);
    colors.push(51);
    colors.push(21);
    colors.push(129);
    assert(colors@ =~= wave_colors());
    colors
}

/// The colour of the process with the number `pid`: the same as long as
/// the process runs.
pub fn get_random_color(pid: u32) -> (color: u8)
    ensures
        color == wave_colors()[pid as int % 7],
{
    let colors = get_wave_colors();
    colors[(pid as usize) % colors.len()]
}

/// The state of health that is remembered at `now`.
pub fn read_health_cache_at(cache: Option<HealthCache>, now: u64) -> (r: Option<bool>)
    ensures
        r == remembered_health(cache, now),
{
    match cache {
        Some(entry) => {
            if (now as i128) - (entry.timestamp as i128) < CACHE_TTL_SECONDS as i128 {
                Some(entry.is_healthy)
            } else {
                None
            }
        },
        None => None,
    }
}

/// The state of health that is remembered at this moment. `cache` is the
/// record that was read, `None` where there is none.
pub fn read_health_cache(cache: Option<HealthCache>) -> (r: Option<bool>)
    ensures
        exists|now: u64| r == #[trigger] remembered_health(cache, now),
{
    let now: u64 = current_timestamp();
    read_health_cache_at(cache, now)
}

/// The record of a state of health found at this moment.
pub fn write_health_cache(is_healthy: bool) -> (r: HealthCache)
    ensures
        r.is_healthy == is_healthy,
{
    HealthCache { is_healthy, timestamp: current_timestamp() }
}

/// The state of health that the answer to a request shows. `status` is the
/// status of the answer, `None` where none came.
pub fn check_health(status: Option<u16>) -> (healthy: bool)
    ensures
        healthy == health_of(status),
{
    match status {
        Some(code) => code >= 200 && code < 300,
        None => true,
    }
}

/// The state of health to show at `now`, and the record to write, if any.
/// `status` counts only where nothing recent is remembered.
pub fn resolve_health(cache: Option<HealthCache>, now: u64, status: Option<u16>) -> (r: (
    bool,
    Option<HealthCache>,
))
    ensures
        r == resolved_health(cache, now, status),
{
    match read_health_cache_at(cache, now) {
        Some(healthy) => (healthy, None),
        None => {
            let healthy = check_health(status);
            (healthy, Some(HealthCache { is_healthy: healthy, timestamp: now }))
        },
    }
}

/// What the status segment shows for a state of health, in the process
/// with the number `pid`.
pub fn collect(is_healthy: bool, pid: u32) -> (r: Option<StatusSegment>)
    ensures
        r == Some(
            if is_healthy {
                StatusSegment::Serving { color: wave_colors()[pid as int % 7] }
            } else {
                StatusSegment::Disconnected
            },
        ),
{
    if is_healthy {
        Some(StatusSegment::Serving { color: get_random_color(pid) })
    } else {
        Some(StatusSegment::Disconnected)
    }
}

} // verus!
