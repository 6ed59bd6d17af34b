use vstd::arithmetic::div_mod::lemma_fundamental_div_mod_converse;
use vstd::prelude::*;

verus! {

/// Nanoseconds in one second.
pub const NANOS_PER_SEC: i64 = 1_000_000_000;

/// A point in time as seconds and nanoseconds since the epoch.
#[derive(Clone, Copy, Debug, PartialEq, Eq, Structural)]
pub struct Timestamp {
    pub sec: i64,
    pub nsec: i64,
}

/// A non-negative span of time: whole seconds and the nanoseconds beyond them.
#[derive(Clone, Copy, Debug, PartialEq, Eq, Structural)]
pub struct Span {
    pub secs: u64,
    pub nanos: u32,
}

impl Timestamp {
    /// The nanosecond part is normalized.
    pub open spec fn wf(self) -> bool {
        0 <= self.nsec < NANOS_PER_SEC
    }

    /// The instant as nanoseconds since the epoch.
    pub open spec fn total_nanos(self) -> int {
        self.sec * 1_000_000_000 + self.nsec
    }

    /// The zero value, which a kernel reports for a timestamp it did not take.
    pub open spec fn spec_is_absent(self) -> bool {
        self.sec == 0 && self.nsec == 0
    }

    /// Builds a timestamp, or `None` when `nsec` is not in `[0, 1e9)`.
    pub fn from_parts(sec: i64, nsec: i64) -> (r: Option<Timestamp>)
        ensures
            r == (if 0 <= nsec < NANOS_PER_SEC {
                Some(Timestamp { sec, nsec })
            } else {
                None::<Timestamp>
            }),
    {
        if 0 <= nsec && nsec < NANOS_PER_SEC {
            Some(Timestamp { sec, nsec })
        } else {
            None
        }
    }

    /// Whether this is the zero value.
    pub fn is_absent(&self) -> (r: bool)
        ensures
            r == self.spec_is_absent(),
    {
        self.sec == 0 && self.nsec == 0
    }
}

impl Span {
    pub open spec fn wf(self) -> bool {
        self.nanos < 1_000_000_000
    }

    /// The span in nanoseconds.
    pub open spec fn total_nanos(self) -> int {
        self.secs * 1_000_000_000 + self.nanos
    }

    /// The span of `n` nanoseconds.
    pub open spec fn of_nanos(n: nat) -> Span {
        Span { secs: (n / 1_000_000_000) as u64, nanos: (n % 1_000_000_000) as u32 }
    }

    /// The span in whole microseconds; the sub-microsecond rest is dropped.
    pub open spec fn spec_as_micros(self) -> int {
        self.secs * 1_000_000 + self.nanos / 1_000
    }

    /// The span in whole microseconds, truncating.
    pub fn as_micros(&self) -> (r: u128)
        ensures
            r == self.spec_as_micros(),
    {
        (self.secs as u128) * 1_000_000 + (self.nanos as u128) / 1_000
    }
}

/// The absolute difference of two instants, in nanoseconds.
pub open spec fn nanos_between(a: Timestamp, b: Timestamp) -> nat {
    let d = a.total_nanos() - b.total_nanos();
    if d >= 0 { d as nat } else { (-d) as nat }
}

/// The span between two instants, whichever comes first.
pub open spec fn span_between(a: Timestamp, b: Timestamp) -> Span {
    Span::of_nanos(nanos_between(a, b))
}

/// Whether `a` is strictly later than `b`.
pub open spec fn later_than(a: Timestamp, b: Timestamp) -> bool {
    a.sec > b.sec || (a.sec == b.sec && a.nsec > b.nsec)
}

/// The span between two instants, the earlier subtracted from the later, so
/// that no order of the arguments gives a negative or wrapped result.
pub fn diff_systime(first: Timestamp, second: Timestamp) -> (r: Span)
    requires
        first.wf(),
        second.wf(),
    ensures
        r == span_between(first, second),
        r.wf(),
{
    let later_second = second.sec > first.sec || (second.sec == first.sec && second.nsec
        > first.nsec);
    let (later, earlier) = if later_second {
        (second, first)
    } else {
        (first, second)
    };
    let mut secs: i128 = later.sec as i128 - earlier.sec as i128;
    let mut nanos: i64 = later.nsec - earlier.nsec;
    if nanos < 0 {
        secs = secs - 1;
        nanos = nanos + NANOS_PER_SEC;
    }
    proof {
        assert(later.total_nanos() - earlier.total_nanos() == secs * 1_000_000_000 + nanos)
            by (nonlinear_arith)
            requires
                secs == later.sec - earlier.sec || secs == later.sec - earlier.sec - 1,
                secs == later.sec - earlier.sec ==> nanos == later.nsec - earlier.nsec,
                secs == later.sec - earlier.sec - 1 ==> nanos == later.nsec - earlier.nsec
                    + 1_000_000_000,
                later.total_nanos() == later.sec * 1_000_000_000 + later.nsec,
                earlier.total_nanos() == earlier.sec * 1_000_000_000 + earlier.nsec,
        ;
        assert(secs >= 0);
        let n: nat = nanos_between(first, second);
        assert(n == secs * 1_000_000_000 + nanos);
        lemma_fundamental_div_mod_converse(n as int, 1_000_000_000, secs as int, nanos as int);
    }
    Span { secs: secs as u64, nanos: nanos as u32 }
}

/// The span between two instants does not depend on their order, and an
/// instant is at no distance from itself.
pub proof fn lemma_diff_symmetric(a: Timestamp, b: Timestamp)
    requires
        a.wf(),
        b.wf(),
    ensures
        span_between(a, b) == span_between(b, a),
        span_between(a, a) == (Span { secs: 0, nanos: 0 }),
{
}

} // verus!
