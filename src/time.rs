use vstd::prelude::*;

verus! {

/// Number of nanoseconds in one second.
pub const NANOS_PER_SECOND: u32 = 1_000_000_000;

/// Number of nanoseconds in one millisecond.
pub const NANOS_PER_MILLI: u32 = 1_000_000;

/// A high-resolution protocol timestamp: seconds since the epoch and a
/// nanosecond part.
#[derive(Clone, Copy, Debug, PartialEq, Eq, Structural)]
pub struct NfsTime {
    pub seconds: i64,
    pub nseconds: u32,
}

impl NfsTime {
    /// A timestamp is well formed when its nanosecond part is below one second.
    pub open spec fn wf(self) -> bool {
        self.nseconds < NANOS_PER_SECOND
    }

    /// Milliseconds since the epoch, truncating the sub-millisecond part.
    pub open spec fn millis(self) -> int {
        self.seconds * 1000 + self.nseconds as int / 1_000_000
    }

    /// The timestamp fits in a signed 64-bit count of milliseconds.
    pub open spec fn millis_fit(self) -> bool {
        i64::MIN <= self.millis() <= i64::MAX
    }
}

/// Converts a timestamp to milliseconds since the epoch:
/// `seconds * 1000 + nseconds / 1_000_000`, never rounding up.
pub fn timestamp_to_millis(seconds: i64, nseconds: u32) -> (r: i64)
    requires
        i64::MIN <= seconds * 1000 + nseconds as int / 1_000_000 <= i64::MAX,
    ensures
        r == seconds * 1000 + nseconds as int / 1_000_000,
{
    let wide: i128 = seconds as i128 * 1000 + (nseconds / NANOS_PER_MILLI) as i128;
    wide as i64
}

/// Converts a timestamp to milliseconds, or `None` when the count does not fit
/// in a signed 64-bit integer.
pub fn checked_millis(t: NfsTime) -> (r: Option<i64>)
    ensures
        r == (if t.millis_fit() { Some(t.millis() as i64) } else { None::<i64> }),
{
    let wide: i128 = t.seconds as i128 * 1000 + (t.nseconds / NANOS_PER_MILLI) as i128;
    if i64::MIN as i128 <= wide && wide <= i64::MAX as i128 {
        Some(wide as i64)
    } else {
        None
    }
}

/// Conversion to milliseconds is monotonic in the pair (seconds, nanoseconds)
/// ordered lexicographically, for well-formed timestamps.
pub proof fn lemma_millis_monotonic(a: NfsTime, b: NfsTime)
    requires
        a.wf(),
        b.wf(),
        a.seconds < b.seconds || (a.seconds == b.seconds && a.nseconds <= b.nseconds),
    ensures
        a.millis() <= b.millis(),
{
    assert(a.nseconds as int / 1_000_000 <= 999);
    assert(b.nseconds as int / 1_000_000 >= 0);
    if a.seconds == b.seconds {
        assert(a.nseconds as int / 1_000_000 <= b.nseconds as int / 1_000_000) by (nonlinear_arith)
            requires
                a.nseconds <= b.nseconds,
        ;
    }
}

} // verus!
