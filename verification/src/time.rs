//! The time that events carry.

use vstd::arithmetic::div_mod::{lemma_fundamental_div_mod, lemma_mod_multiples_vanish};
use vstd::prelude::*;

verus! {

/// The number of values of a millisecond time stamp: stamps count modulo
/// this.
pub const MS_RANGE: u64 = 0x1_0000_0000;

/// The milliseconds in a second.
pub const MS_PER_SECOND: u64 = 1000;

/// The nanoseconds in a millisecond.
pub const NANOS_PER_MS: u32 = 1_000_000;

/// The time stamp of a point in time: its whole milliseconds, counted
/// modulo 2^32.
pub open spec fn spec_to_ms(seconds: int, nanoseconds: int) -> int {
    (seconds * MS_PER_SECOND + nanoseconds / (NANOS_PER_MS as int)) % (MS_RANGE as int)
}

/// The time stamp, in milliseconds, of the point in time that lies
/// `seconds` and `nanoseconds` after the start of the clock. The stamp wraps
/// round every 2^32 milliseconds.
pub fn to_ms(seconds: u64, nanoseconds: u32) -> (ms: u32)
    ensures
        ms == spec_to_ms(seconds as int, nanoseconds as int),
{
    let wrapped: u64 = seconds % MS_RANGE;
    let millis: u64 = (nanoseconds / NANOS_PER_MS) as u64;
    let total: u64 = wrapped * MS_PER_SECOND + millis;
    proof {
        let m = MS_RANGE as int;
        let q = seconds as int / m;
        lemma_fundamental_div_mod(seconds as int, m);
        assert(seconds * MS_PER_SECOND + millis == m * (q * MS_PER_SECOND) + total) by (nonlinear_arith)
            requires
                seconds == m * q + wrapped,
                total == wrapped * MS_PER_SECOND + millis,
        ;
        lemma_mod_multiples_vanish(q * MS_PER_SECOND, total as int, m);
    }
    (total % MS_RANGE) as u32
}

} // verus!
