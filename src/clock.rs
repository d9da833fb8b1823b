use vstd::prelude::*;
use std::time::Duration;

verus! {

/// Milliseconds in one second.
pub const MILLIS_PER_SECOND: u64 = 1000;

/// Whole milliseconds of a time span of `secs` seconds and `subsec_millis`
/// further milliseconds, saturating at the largest `u64`.
pub open spec fn millis_of(secs: u64, subsec_millis: u32) -> int {
    let exact = secs * 1000 + subsec_millis;
    if exact > u64::MAX {
        u64::MAX as int
    } else {
        exact
    }
}

/// Relies on `SystemTime::elapsed` measured from `UNIX_EPOCH`: the span from
/// the epoch to now, or nothing when the clock stands before the epoch.
/// Nothing is stated of the value: it is the time now.
#[verifier::external_body]
fn since_epoch() -> (r: Option<Duration>) {
    std::time::UNIX_EPOCH.elapsed().ok()
}

/// Relies on `Duration::as_secs`: the whole seconds of the span.
pub assume_specification[ Duration::as_secs ](d: &Duration) -> (r: u64);

/// Relies on `Duration::subsec_millis`: the fractional part of the span in
/// whole milliseconds, which the documentation bounds below one second.
pub assume_specification[ Duration::subsec_millis ](d: &Duration) -> (r: u32)
    ensures
        r < 1000,
;

/// Converts a span of whole seconds and sub-second milliseconds into
/// milliseconds, saturating instead of overflowing.
pub fn epoch_millis(secs: u64, subsec_millis: u32) -> (r: u64)
    ensures
        r == millis_of(secs, subsec_millis),
{
    match secs.checked_mul(MILLIS_PER_SECOND) {
        Some(whole) => whole.saturating_add(subsec_millis as u64),
        None => u64::MAX,
    }
}

/// The current wall-clock time in milliseconds since the Unix epoch; 0 when
/// the system clock reads earlier than the epoch.
pub fn unix_now() -> (r: u64)
    ensures
        r == 0 || exists|secs: u64, sub: u32| sub < 1000 && r == #[trigger] millis_of(secs, sub),
{
    match since_epoch() {
        Some(d) => {
            let secs = d.as_secs();
            let sub = d.subsec_millis();
            epoch_millis(secs, sub)
        },
        None => 0,
    }
}

} // verus!
