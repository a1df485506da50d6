use vstd::prelude::*;

verus! {

/// Nanoseconds in one second.
pub const NANOS_PER_SEC: u32 = 1_000_000_000;

/// Rounds `a / b` up to the next whole number.
pub open spec fn ceil_div(a: int, b: int) -> int {
    (a + b - 1) / b
}

/// A span of time as whole seconds and the nanoseconds past them.
#[derive(Clone, Copy, Debug, PartialEq, Eq, Structural)]
pub struct TxDuration {
    pub secs: u64,
    pub nanos: u32,
}

impl TxDuration {
    /// The span in nanoseconds.
    pub open spec fn total_nanos(self) -> int {
        self.secs * NANOS_PER_SEC + self.nanos
    }

    /// Seconds and nanoseconds are normalised: fewer than a second of nanoseconds.
    pub open spec fn wf(self) -> bool {
        self.nanos < NANOS_PER_SEC
    }

    /// A span of whole and fractional seconds; excess nanoseconds carry into the seconds.
    pub fn new(secs: u64, nanos: u32) -> (r: Option<TxDuration>)
        ensures
            r.is_some() <==> secs as int + nanos as int / NANOS_PER_SEC as int <= u64::MAX,
            r matches Some(d) ==> d.wf() && d.total_nanos() == secs * NANOS_PER_SEC + nanos,
    {
        let carry = (nanos / NANOS_PER_SEC) as u64;
        if secs > u64::MAX - carry {
            None
        } else {
            Some(TxDuration { secs: secs + carry, nanos: nanos % NANOS_PER_SEC })
        }
    }

    /// A span of whole seconds.
    pub fn from_secs(secs: u64) -> (r: TxDuration)
        ensures
            r.wf(),
            r.total_nanos() == secs * NANOS_PER_SEC,
    {
        TxDuration { secs, nanos: 0 }
    }

    /// A span of milliseconds.
    pub fn from_millis(millis: u64) -> (r: TxDuration)
        ensures
            r.wf(),
            r.total_nanos() == millis * 1_000_000,
    {
        let secs = millis / 1000;
        let rest = millis % 1000;
        let nanos = (rest as u32) * 1_000_000;
        assert(millis == secs * 1000 + rest);
        TxDuration { secs, nanos }
    }
}

/// Ticks of a kernel clock running at `rate` ticks per second that cover `d`,
/// rounded up so that any part of a tick counts as a whole one.
pub open spec fn ticks_for(d: TxDuration, rate: u32) -> int {
    ceil_div(d.total_nanos() * rate, NANOS_PER_SEC as int)
}

/// A count of kernel clock ticks.
#[derive(Clone, Copy, Debug, PartialEq, Eq, Structural)]
pub struct TxTicks {
    pub ticks: u32,
}

impl TxTicks {
    /// Converts a duration to ticks of a clock at `ticks_per_second`, rounding up;
    /// a duration beyond the largest tick count gives that count.
    pub fn from_duration(d: TxDuration, ticks_per_second: u32) -> (r: TxTicks)
        requires
            d.wf(),
            ticks_per_second > 0,
        ensures
            ticks_for(d, ticks_per_second) <= u32::MAX ==> r.ticks == ticks_for(d, ticks_per_second),
            ticks_for(d, ticks_per_second) > u32::MAX ==> r.ticks == u32::MAX,
    {
        let total: u128 = d.secs as u128 * 1_000_000_000u128 + d.nanos as u128;
        assert(total <= 0x1_0000_0000_0000_0000u128 * 1_000_000_000u128) by (nonlinear_arith)
            requires
                total == d.secs * 1_000_000_000int + d.nanos,
                d.secs < 0x1_0000_0000_0000_0000int,
                d.nanos < 1_000_000_000int,
        ;
        assert(total * ticks_per_second <= 0x1_0000_0000_0000_0000int * 1_000_000_000int * 0x1_0000_0000int)
            by (nonlinear_arith)
            requires
                total <= 0x1_0000_0000_0000_0000int * 1_000_000_000int,
                ticks_per_second < 0x1_0000_0000int,
                total >= 0,
        ;
        let product: u128 = total * ticks_per_second as u128;
        let ticks: u128 = (product + 999_999_999u128) / 1_000_000_000u128;
        if ticks > u32::MAX as u128 {
            TxTicks { ticks: u32::MAX }
        } else {
            TxTicks { ticks: ticks as u32 }
        }
    }
}

/// The tick count of a duration is its ceiling: those ticks last at least
/// the duration, and one tick fewer would fall short of it. So a duration
/// shorter than one tick, but not zero, takes exactly one tick.
pub proof fn lemma_ticks_are_ceiling(d: TxDuration, rate: u32)
    requires
        d.wf(),
        rate > 0,
    ensures
        ticks_for(d, rate) * NANOS_PER_SEC >= d.total_nanos() * rate,
        ticks_for(d, rate) > 0 ==> (ticks_for(d, rate) - 1) * NANOS_PER_SEC < d.total_nanos() * rate,
        0 < d.total_nanos() * rate <= NANOS_PER_SEC ==> ticks_for(d, rate) == 1,
{
    let p = d.total_nanos() * rate;
    let n = NANOS_PER_SEC as int;
    assert(p >= 0) by (nonlinear_arith)
        requires
            p == d.total_nanos() * rate,
            d.total_nanos() >= 0,
            rate >= 0,
    ;
    let t = (p + n - 1) / n;
    let q = p / n;
    let r = p % n;
    assert(p == n * q + r);
    if r == 0 {
        assert((n * q + n - 1) / n == q);
        assert(t == q);
    } else {
        assert((n * q + r + n - 1) / n == q + 1);
        assert(t == q + 1);
    }
}

/// A duration of `millis` milliseconds at a clock of `rate` ticks per second
/// takes `ceil(millis * rate / 1000)` ticks: never fewer, and no more.
pub proof fn lemma_millis_to_ticks(d: TxDuration, millis: u64, rate: u32)
    requires
        d.wf(),
        d.total_nanos() == millis * 1_000_000,
        rate > 0,
    ensures
        ticks_for(d, rate) == ceil_div(millis * rate, 1000),
{
    let m = millis * rate;
    let q = m / 1000;
    let r = m % 1000;
    assert(m >= 0) by (nonlinear_arith)
        requires
            m == millis * rate,
            millis >= 0,
            rate >= 0,
    ;
    assert(m == 1000 * q + r);
    let n = d.total_nanos();
    assert(n * rate == 1_000_000_000 * q + r * 1_000_000) by (nonlinear_arith)
        requires
            n == millis * 1_000_000,
            m == millis * rate,
            m == 1000 * q + r,
    ;
    if r == 0 {
        assert((1_000_000_000 * q + 999_999_999) / 1_000_000_000 == q);
        assert((1000 * q + 999) / 1000 == q);
    } else {
        assert((1_000_000_000 * q + r * 1_000_000 + 999_999_999) / 1_000_000_000 == q + 1)
            by (nonlinear_arith)
            requires
                0 < r < 1000,
        ;
        assert((1000 * q + r + 999) / 1000 == q + 1);
    }
}

} // verus!
