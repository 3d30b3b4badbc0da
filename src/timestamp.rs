//! Conversion between 64-bit NTP timestamps (seconds since 1900 in the high
//! 32 bits, a binary fraction of a second in the low 32 bits) and Unix time in
//! nanoseconds.

use vstd::prelude::*;

verus! {

/// Seconds from the NTP epoch (1900-01-01) to the Unix epoch (1970-01-01).
pub const NTP_UNIX_EPOCH: i64 = 2_208_988_800;

/// Nanoseconds in one second.
pub const NANOS_PER_SECOND: u64 = 1_000_000_000;

/// Size of the fraction field: one second is `2^32` fractional ticks.
pub const FRACTION_SCALE: u64 = 0x1_0000_0000;

/// The first Unix-nanosecond instant that the 32-bit seconds field of era 0
/// (which ends in 2036) can no longer hold: `(2^32 - NTP_UNIX_EPOCH) * 10^9`.
pub const NTP_ERA_END_UNIX_NANOS: u64 = 2_085_978_496_000_000_000;

/// The NTP form of a Unix-nanosecond timestamp: whole seconds shifted to the
/// NTP epoch in the high 32 bits (wrapping into the next era past 2036), the
/// nanoseconds scaled to a 32-bit binary fraction (rounded down) in the low 32.
#[verifier::opaque]
pub open spec fn spec_unix_nanos_to_ntp(u: int) -> int {
    let seconds = u / 1_000_000_000 + 2_208_988_800;
    let fraction = (u % 1_000_000_000) * 0x1_0000_0000 / 1_000_000_000;
    (seconds % 0x1_0000_0000) * 0x1_0000_0000 + fraction
}

/// The Unix-nanosecond instant of an NTP timestamp, rounded down to a whole
/// nanosecond; 0 for the unset timestamp 0 and for instants before 1970.
#[verifier::opaque]
pub open spec fn spec_ntp_to_unix_nanos(t: int) -> int {
    let seconds = t / 0x1_0000_0000;
    let fraction = t % 0x1_0000_0000;
    if t == 0 || seconds < 2_208_988_800 {
        0
    } else {
        (seconds - 2_208_988_800) * 1_000_000_000 + fraction * 1_000_000_000 / 0x1_0000_0000
    }
}

/// Converts Unix time in nanoseconds to a 64-bit NTP timestamp.
pub fn unix_nanos_to_ntp(unix_nanos: u64) -> (ntp: u64)
    ensures
        ntp == spec_unix_nanos_to_ntp(unix_nanos as int),
{
    reveal(spec_unix_nanos_to_ntp);
    let seconds: u64 = unix_nanos / NANOS_PER_SECOND + NTP_UNIX_EPOCH as u64;
    let nanos: u64 = unix_nanos % NANOS_PER_SECOND;
    let fraction: u64 = nanos * FRACTION_SCALE / NANOS_PER_SECOND;
    (seconds % FRACTION_SCALE) * FRACTION_SCALE + fraction
}

/// Converts a 64-bit NTP timestamp to Unix time in nanoseconds; the unset
/// timestamp and instants before the Unix epoch give 0.
pub fn ntp_to_unix_nanos(ntp: u64) -> (unix_nanos: u64)
    ensures
        unix_nanos == spec_ntp_to_unix_nanos(ntp as int),
        unix_nanos < NTP_ERA_END_UNIX_NANOS,
{
    reveal(spec_ntp_to_unix_nanos);
    let seconds: u64 = ntp / FRACTION_SCALE;
    let fraction: u64 = ntp % FRACTION_SCALE;
    if ntp == 0 || seconds < NTP_UNIX_EPOCH as u64 {
        return 0;
    }
    (seconds - NTP_UNIX_EPOCH as u64) * NANOS_PER_SECOND + fraction * NANOS_PER_SECOND / FRACTION_SCALE
}

/// A Unix timestamp of era 0 survives the trip through NTP form to within one
/// nanosecond: the NTP value falls at most one fractional tick (about
/// 0.233 ns) short of the instant it came from, and converting it back, which
/// rounds down, gives the same nanosecond or the one before it.
pub proof fn lemma_unix_ntp_round_trip(u: u64)
    requires
        u < NTP_ERA_END_UNIX_NANOS,
    ensures
        ({
            let t = spec_unix_nanos_to_ntp(u as int);
            let exact = (t / 0x1_0000_0000 - 2_208_988_800) * 1_000_000_000 * 0x1_0000_0000
                + (t % 0x1_0000_0000) * 1_000_000_000;
            u * 0x1_0000_0000 - 1_000_000_000 < exact <= u * 0x1_0000_0000
        }),
        u - 1 <= spec_ntp_to_unix_nanos(spec_unix_nanos_to_ntp(u as int)) <= u,
{
    reveal(spec_unix_nanos_to_ntp);
    reveal(spec_ntp_to_unix_nanos);
    let s = u / 1_000_000_000;
    let n = u % 1_000_000_000;
    let f = n * 0x1_0000_0000 / 1_000_000_000;
    let t = spec_unix_nanos_to_ntp(u as int);
    assert(0 <= f < 0x1_0000_0000);
    assert(s + 2_208_988_800 < 0x1_0000_0000);
    assert(t == (s + 2_208_988_800) * 0x1_0000_0000 + f);
    assert(t / 0x1_0000_0000 == s + 2_208_988_800);
    assert(t % 0x1_0000_0000 == f);
    assert(f * 1_000_000_000 <= n * 0x1_0000_0000 < f * 1_000_000_000 + 1_000_000_000);
}

} // verus!
