use vstd::prelude::*;

verus! {

/// Number of nanoseconds in one second.
pub const NANOS_PER_SEC: u32 = 1_000_000_000;

/// A span of time, held as whole seconds and the nanoseconds below a second.
#[derive(PartialEq, Eq, Structural, Clone, Copy, Debug)]
pub struct Span {
    secs: u64,
    nanos: u32,
}

impl Span {
    /// The whole seconds of the span.
    pub closed spec fn secs_of(&self) -> nat {
        self.secs as nat
    }

    /// The nanoseconds below a second.
    pub closed spec fn subsec_of(&self) -> nat {
        self.nanos as nat
    }

    /// The length of the span in nanoseconds.
    pub open spec fn total_nanos(&self) -> nat {
        self.secs_of() * 1_000_000_000 + self.subsec_of()
    }

    /// Builds a span; nanoseconds of a full second or more carry into the seconds.
    pub fn new(secs: u64, nanos: u32) -> (r: Option<Span>)
        ensures
            r is Some <==> secs as nat + nanos as nat / 1_000_000_000 <= u64::MAX,
            r matches Some(s) ==> s.total_nanos() == secs as nat * 1_000_000_000 + nanos as nat
                && s.subsec_of() < 1_000_000_000,
    {
        let carry: u32 = nanos / NANOS_PER_SEC;
        match secs.checked_add(carry as u64) {
            Some(s) => Some(Span { secs: s, nanos: nanos % NANOS_PER_SEC }),
            None => None,
        }
    }
}

/// The largest value of `i64`, as a natural number.
pub open spec fn i64_max() -> nat {
    0x7fff_ffff_ffff_ffff
}

/// `n` capped at `cap`.
pub open spec fn capped(n: nat, cap: nat) -> nat {
    if n <= cap {
        n
    } else {
        cap
    }
}

/// The span in nanoseconds, exactly.
fn nanos128(s: &Span) -> (r: u128)
    ensures
        r as nat == s.total_nanos(),
{
    s.secs as u128 * 1_000_000_000u128 + s.nanos as u128
}

/// Start delay for a queue-dispatched source: nanoseconds, capped at `i64::MAX`.
pub fn dispatch_delay(timeout: &Span) -> (r: i64)
    ensures
        r as int == capped(timeout.total_nanos(), i64_max()) as int,
{
    let n = nanos128(timeout);
    if n <= i64::MAX as u128 {
        n as i64
    } else {
        i64::MAX
    }
}

/// Repeat interval for a queue-dispatched source: nanoseconds, capped at `u64::MAX`.
pub fn dispatch_interval(interval: &Span) -> (r: u64)
    ensures
        r as nat == capped(interval.total_nanos(), u64::MAX as nat),
{
    let n = nanos128(interval);
    if n <= u64::MAX as u128 {
        n as u64
    } else {
        u64::MAX
    }
}

/// Due time for a thread-pool timer: the span in 100-nanosecond ticks, capped at
/// `i64::MAX` and negated, since a negative due time counts from now.
pub fn due_ticks(timeout: &Span) -> (r: i64)
    ensures
        r as int == -(capped(timeout.total_nanos() / 100, i64_max()) as int),
{
    let t = nanos128(timeout) / 100;
    if t <= i64::MAX as u128 {
        -(t as i64)
    } else {
        -i64::MAX
    }
}

/// Period for a thread-pool timer: whole milliseconds, capped at `u32::MAX`.
pub fn period_millis(interval: &Span) -> (r: u32)
    ensures
        r as nat == capped(interval.total_nanos() / 1_000_000, u32::MAX as nat),
{
    let m = nanos128(interval) / 1_000_000;
    if m <= u32::MAX as u128 {
        m as u32
    } else {
        u32::MAX
    }
}

/// A time value of a signal-delivered interval timer: seconds and nanoseconds.
#[allow(non_camel_case_types)]
#[derive(PartialEq, Eq, Structural, Clone, Copy, Debug)]
pub struct timespec {
    pub tv_sec: i64,
    pub tv_nsec: i64,
}

/// The setting of a signal-delivered interval timer: first expiry and period.
#[allow(non_camel_case_types)]
#[derive(PartialEq, Eq, Structural, Clone, Copy, Debug)]
pub struct itimerspec {
    pub it_interval: timespec,
    pub it_value: timespec,
}

/// The all-zero time value.
pub open spec fn zero_timespec() -> timespec {
    timespec { tv_sec: 0, tv_nsec: 0 }
}

impl timespec {
    /// The span as seconds and nanoseconds; seconds beyond `i64::MAX` are capped.
    pub fn from_span(s: &Span) -> (r: timespec)
        ensures
            r.tv_sec as int == capped(s.secs_of(), i64_max()) as int,
            r.tv_nsec as int == s.subsec_of() as int,
    {
        let sec: i64 = if s.secs <= i64::MAX as u64 {
            s.secs as i64
        } else {
            i64::MAX
        };
        timespec { tv_sec: sec, tv_nsec: s.nanos as i64 }
    }
}

impl itimerspec {
    /// The setting that disarms the timer.
    pub fn zero() -> (r: itimerspec)
        ensures
            r.it_interval == zero_timespec(),
            r.it_value == zero_timespec(),
    {
        itimerspec {
            it_interval: timespec { tv_sec: 0, tv_nsec: 0 },
            it_value: timespec { tv_sec: 0, tv_nsec: 0 },
        }
    }

    /// The setting that first fires after `timeout`, then every `interval`. A zero
    /// first expiry would disarm the timer, so a zero `timeout` becomes one nanosecond:
    /// the timer fires as soon as it can.
    pub fn new(timeout: &Span, interval: &Span) -> (r: itimerspec)
        ensures
            timeout.total_nanos() != 0 ==> r.it_value.tv_sec as int == capped(timeout.secs_of(), i64_max()) as int
                && r.it_value.tv_nsec as int == timeout.subsec_of() as int,
            timeout.total_nanos() == 0 ==> r.it_value == (timespec { tv_sec: 0, tv_nsec: 1 }),
            r.it_value != zero_timespec(),
            r.it_interval.tv_sec as int == capped(interval.secs_of(), i64_max()) as int,
            r.it_interval.tv_nsec as int == interval.subsec_of() as int,
    {
        let mut first = timespec::from_span(timeout);
        if first.tv_sec == 0 && first.tv_nsec == 0 {
            first = timespec { tv_sec: 0, tv_nsec: 1 };
        }
        itimerspec { it_interval: timespec::from_span(interval), it_value: first }
    }

    /// Whether an expiry is pending: the first expiry differs from zero. The period
    /// alone does not arm the timer.
    pub fn is_pending(&self) -> (r: bool)
        ensures
            r == (self.it_value != zero_timespec()),
    {
        self.it_value.tv_sec != 0 || self.it_value.tv_nsec != 0
    }
}

/// A due time of a thread-pool timer, as the two halves of a 64-bit tick count.
#[derive(PartialEq, Eq, Structural, Clone, Copy, Debug)]
pub struct FileTime {
    pub low_date_time: u32,
    pub high_date_time: u32,
}

/// The two's-complement bits of `ticks`, read as an unsigned number.
pub open spec fn ticks_bits(ticks: i64) -> nat {
    if ticks >= 0 {
        ticks as nat
    } else {
        (ticks + 0x1_0000_0000_0000_0000) as nat
    }
}

impl FileTime {
    /// Splits the two's-complement bits of `ticks` into low and high halves.
    pub fn from_ticks(ticks: i64) -> (r: FileTime)
        ensures
            r.low_date_time as nat == ticks_bits(ticks) % 0x1_0000_0000,
            r.high_date_time as nat == ticks_bits(ticks) / 0x1_0000_0000,
    {
        let bits: u64 = if ticks >= 0 {
            ticks as u64
        } else {
            ((ticks + 1) + i64::MAX) as u64 + 0x8000_0000_0000_0000u64
        };
        FileTime { low_date_time: (bits % 0x1_0000_0000) as u32, high_date_time: (bits / 0x1_0000_0000) as u32 }
    }
}

} // verus!
