//! Arithmetic on durations and points in time, both counted in whole
//! nanoseconds: durations as such, points in time from the start of the
//! worker's clock.

use vstd::prelude::*;

verus! {

/// Four fifths of `n`, rounded down.
pub open spec fn spec_four_fifths(n: nat) -> nat {
    n * 4 / 5
}

/// Four fifths of a duration, rounded down to the nanosecond.
pub fn four_fifths(nanos: u128) -> (r: u128)
    ensures
        r == spec_four_fifths(nanos as nat),
        r <= nanos,
{
    let whole: u128 = nanos / 5;
    let rest: u128 = nanos % 5;
    assert(nanos == 5 * whole + rest);
    assert((5 * whole + rest) * 4 / 5 == 4 * whole + rest * 4 / 5) by (nonlinear_arith)
        requires
            0 <= rest < 5,
    ;
    whole * 4 + rest * 4 / 5
}

/// The smaller of two durations.
pub fn min_duration(a: u128, b: u128) -> (r: u128)
    ensures
        r == (if a <= b {
            a
        } else {
            b
        }),
{
    if a <= b {
        a
    } else {
        b
    }
}

/// Nanoseconds in a duration of `secs` seconds and `subsec_nanos` nanoseconds.
pub open spec fn spec_nanos_of(secs: u64, subsec_nanos: u32) -> nat {
    (secs as nat) * 1_000_000_000 + subsec_nanos as nat
}

/// The length in nanoseconds of a duration given as seconds and nanoseconds.
pub fn nanos_of(secs: u64, subsec_nanos: u32) -> (r: u128)
    ensures
        r == spec_nanos_of(secs, subsec_nanos),
{
    let s: u128 = secs as u128;
    let n: u128 = subsec_nanos as u128;
    assert(s * 1_000_000_000 <= 0xffff_ffff_ffff_ffff * 1_000_000_000) by (nonlinear_arith)
        requires
            s <= 0xffff_ffff_ffff_ffff,
    ;
    s * 1_000_000_000 + n
}

} // verus!
