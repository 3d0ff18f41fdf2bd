//! Spans of time.

use vstd::prelude::*;

verus! {

/// A span of time: whole seconds and the nanoseconds beyond them.
#[derive(Debug, Clone, Copy, PartialEq, Eq, Structural)]
pub struct Interval {
    secs: u64,
    nanos: u32,
}

/// The nanoseconds of a second.
pub open spec fn second() -> nat {
    1_000_000_000
}

/// The longest span, in nanoseconds.
pub open spec fn longest() -> nat {
    (u64::MAX as nat) * second() + 999_999_999
}

impl Interval {
    /// There is less than a second beyond the whole ones.
    #[verifier::type_invariant]
    spec fn is_normal(self) -> bool {
        self.nanos < 1_000_000_000
    }

    /// The span in nanoseconds.
    pub closed spec fn span(self) -> nat {
        self.secs as nat * second() + self.nanos as nat
    }

    /// A span of whole seconds.
    pub fn from_secs(secs: u64) -> (r: Interval)
        ensures
            r.span() == secs as nat * second(),
    {
        Interval { secs, nanos: 0 }
    }

    /// A span of seconds and nanoseconds. Nanoseconds that make up seconds are
    /// carried over.
    pub fn new(secs: u64, nanos: u32) -> (r: Interval)
        requires
            secs + nanos as nat / second() <= u64::MAX,
        ensures
            r.span() == secs as nat * second() + nanos as nat,
    {
        let carry: u32 = nanos / 1_000_000_000;
        Interval { secs: secs + carry as u64, nanos: nanos % 1_000_000_000 }
    }

    /// The whole seconds of the span.
    pub fn as_secs(&self) -> (r: u64)
        ensures
            r as nat == self.span() / second(),
    {
        proof {
            use_type_invariant(self);
        }
        self.secs
    }

    /// The nanoseconds beyond the whole seconds.
    pub fn subsec_nanos(&self) -> (r: u32)
        ensures
            r as nat == self.span() % second(),
    {
        proof {
            use_type_invariant(self);
        }
        self.nanos
    }

    /// Twice the span, where there is one so long.
    pub fn doubled(&self) -> (r: Option<Interval>)
        ensures
            (r is Some) == (2 * self.span() <= longest()),
            r matches Some(d) ==> d.span() == 2 * self.span(),
    {
        proof {
            use_type_invariant(self);
        }
        let mut nanos: u32 = self.nanos * 2;
        let mut carry: u64 = 0;
        if nanos >= 1_000_000_000 {
            nanos = nanos - 1_000_000_000;
            carry = 1;
        }
        if self.secs > (u64::MAX - carry) / 2 {
            None
        } else {
            Some(Interval { secs: self.secs * 2 + carry, nanos })
        }
    }

    /// The shorter of two spans.
    pub fn shorter(self, other: Interval) -> (r: Interval)
        ensures
            r.span() == if self.span() <= other.span() {
                self.span()
            } else {
                other.span()
            },
    {
        proof {
            use_type_invariant(&self);
            use_type_invariant(&other);
        }
        if self.secs < other.secs || (self.secs == other.secs && self.nanos <= other.nanos) {
            self
        } else {
            other
        }
    }
}

/// A second has a thousand million nanoseconds, and the longest span as many
/// seconds as can be counted.
pub proof fn spans_are_counted()
    ensures
        second() == 1000 * 1000 * 1000,
        longest() == 18446744073709551615 * second() + 999_999_999,
{
}

/// Whatever span is made of seconds and nanoseconds is that long, and the whole
/// seconds that it says it has, and the nanoseconds beyond them, are its own.
pub proof fn spans_are_as_long_as_they_say(
    secs: u64,
    nanos: u32,
    a: Interval,
    b: Interval,
    i: &Interval,
    s: u64,
    n: u32,
)
    requires
        call_ensures(Interval::from_secs, (secs,), a),
        call_ensures(Interval::new, (secs, nanos), b),
        call_ensures(Interval::as_secs, (i,), s),
        call_ensures(Interval::subsec_nanos, (i,), n),
    ensures
        a.span() == secs as nat * second(),
        b.span() == secs as nat * second() + nanos as nat,
        i.span() == s as nat * second() + n as nat,
        n < 1_000_000_000,
{
}

/// Twice a span is twice as long, unless that is too long, and the shorter of
/// two spans is one of them and longer than neither.
pub proof fn spans_are_doubled_and_compared(
    i: &Interval,
    d: Option<Interval>,
    a: Interval,
    b: Interval,
    r: Interval,
)
    requires
        call_ensures(Interval::doubled, (i,), d),
        call_ensures(Interval::shorter, (a, b), r),
    ensures
        d is None <==> i.span() + i.span() > longest(),
        d matches Some(t) ==> t.span() == i.span() + i.span(),
        r.span() <= a.span() && r.span() <= b.span(),
        r.span() == a.span() || r.span() == b.span(),
{
}

} // verus!
