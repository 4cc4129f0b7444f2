//! Wall-clock timing for the guest: the process-lifetime start instant and
//! the 32-bit truncation the guest-facing millisecond counter uses.

use vstd::prelude::*;

verus! {

#[verifier::external_type_specification]
#[verifier::external_body]
pub struct ExInstant(std::time::Instant);

/// Relies on std::time::Instant::now for the current instant of the
/// monotonic clock. The value is opaque; nothing is claimed of it.
#[verifier::external_body]
pub(crate) fn instant_now() -> std::time::Instant {
    std::time::Instant::now()
}

/// Relies on std::time::Instant::duration_since: the time from `earlier` to
/// `later`, or zero if `earlier` is in fact the later of the two; it never
/// panics.
#[verifier::external_body]
pub(crate) fn duration_between(
    earlier: &std::time::Instant,
    later: &std::time::Instant,
) -> std::time::Duration {
    later.duration_since(*earlier)
}

/// Relies on std::time::Duration::as_millis for the whole number of
/// milliseconds the duration holds. The value depends on the clock reads
/// that produced the duration; nothing is claimed of it.
#[verifier::external_body]
pub(crate) fn duration_millis(d: &std::time::Duration) -> u128 {
    d.as_millis()
}

/// The low 32 bits of `n`, read back as a two's-complement signed value:
/// exactly what a lossy cast of a non-negative count to `i32` yields.
pub open spec fn wrap_to_i32(n: int) -> int {
    let low = n % 0x1_0000_0000;
    if low >= 0x8000_0000 {
        low - 0x1_0000_0000
    } else {
        low
    }
}

/// Truncate an elapsed-millisecond count to the 32-bit signed integer the
/// guest expects. Counts beyond 32 bits wrap silently; this is accepted
/// guest-facing behavior, not an error. Small counts pass through unchanged.
pub fn truncate_millis(ms: u128) -> (r: i32)
    ensures
        r as int == wrap_to_i32(ms as int),
        ms < 0x8000_0000 ==> r == ms as i32,
{
    let low: u64 = (ms % 0x1_0000_0000) as u64;
    if low < 0x8000_0000 {
        low as i32
    } else {
        ((low as i64) - 0x1_0000_0000i64) as i32
    }
}

} // verus!
