//! Millisecond timestamps.

use vstd::prelude::*;

verus! {

/// Milliseconds since the epoch from whole seconds and the milliseconds of
/// the current second; `None` when that does not fit in 64 bits.
pub fn unix_millis(secs: u64, subsec_millis: u32) -> (r: Option<u64>)
    ensures
        secs * 1000 + subsec_millis <= u64::MAX ==> r == Some((secs * 1000 + subsec_millis) as u64),
        secs * 1000 + subsec_millis > u64::MAX ==> r is None,
{
    if secs > (u64::MAX - subsec_millis as u64) / 1000 {
        return None;
    }
    assert(secs * 1000 + subsec_millis <= u64::MAX) by (nonlinear_arith)
        requires
            secs <= (u64::MAX - subsec_millis) / 1000,
    ;
    Some(secs * 1000 + subsec_millis as u64)
}

/// Milliseconds from `start_ms` to `end_ms`, zero when the clock went back.
pub fn elapsed_millis(start_ms: u64, end_ms: u64) -> (r: u64)
    ensures
        end_ms >= start_ms ==> r == end_ms - start_ms,
        end_ms < start_ms ==> r == 0,
{
    if end_ms >= start_ms {
        end_ms - start_ms
    } else {
        0
    }
}

} // verus!
