//! A span of non-negative time, counted in whole seconds plus a sub-second
//! remainder of nanoseconds.  The scheduler does exact arithmetic on these
//! values, so the type carries its meaning as a single mathematical number
//! of nanoseconds (the view) and every operation is specified against it.

use vstd::prelude::*;

verus! {

/// Nanoseconds in one second.
pub const NANOS_PER_SEC: u32 = 1_000_000_000;

/// The largest value (in nanoseconds) a `Duration` can hold.
pub open spec fn max_duration_nanos() -> int {
    u64::MAX * (NANOS_PER_SEC as int) + (NANOS_PER_SEC - 1)
}

/// A non-negative span of time.  The view is the total number of
/// nanoseconds, an integer in `[0, max_duration_nanos()]`.
#[derive(Clone, Copy, Debug, PartialEq, Eq, Structural)]
pub struct Duration {
    secs: u64,
    nanos: u32,
}

impl View for Duration {
    type V = int;

    closed spec fn view(&self) -> int {
        self.secs * (NANOS_PER_SEC as int) + self.nanos
    }
}

impl Duration {
    /// The sub-second remainder is always a valid nanosecond count.
    #[verifier::type_invariant]
    closed spec fn inv(self) -> bool {
        self.nanos < NANOS_PER_SEC
    }

    /// A duration of `secs` seconds plus `nanos` nanoseconds; whole seconds
    /// in `nanos` carry over into the seconds, as with the standard library
    /// constructor.
    pub fn new(secs: u64, nanos: u32) -> (r: Duration)
        requires
            secs + nanos as int / (NANOS_PER_SEC as int) <= u64::MAX,
        ensures
            r@ == secs * (NANOS_PER_SEC as int) + nanos,
    {
        let carry: u32 = nanos / NANOS_PER_SEC;
        let rest: u32 = nanos % NANOS_PER_SEC;
        let r = Duration { secs: secs + carry as u64, nanos: rest };
        proof {
            assert(r@ == secs * (NANOS_PER_SEC as int) + nanos) by (nonlinear_arith)
                requires
                    r.secs == secs + carry,
                    r.nanos == rest,
                    carry == nanos / NANOS_PER_SEC,
                    rest == nanos % NANOS_PER_SEC,
                    NANOS_PER_SEC == 1_000_000_000,
            ;
        }
        r
    }

    pub fn from_secs(secs: u64) -> (r: Duration)
        ensures
            r@ == secs * (NANOS_PER_SEC as int),
    {
        Duration { secs, nanos: 0 }
    }

    pub fn from_millis(millis: u64) -> (r: Duration)
        ensures
            r@ == millis * 1_000_000,
    {
        let secs: u64 = millis / 1000;
        let rest: u64 = millis % 1000;
        let r = Duration { secs, nanos: (rest * 1_000_000) as u32 };
        proof {
            assert(r@ == millis * 1_000_000) by (nonlinear_arith)
                requires
                    r.secs == millis / 1000,
                    r.nanos == (millis % 1000) * 1_000_000,
                    NANOS_PER_SEC == 1_000_000_000,
            ;
        }
        r
    }

    pub fn from_nanos(nanos: u64) -> (r: Duration)
        ensures
            r@ == nanos,
    {
        let secs: u64 = nanos / NANOS_PER_SEC as u64;
        let rest: u32 = (nanos % NANOS_PER_SEC as u64) as u32;
        let r = Duration { secs, nanos: rest };
        proof {
            assert(r@ == nanos) by (nonlinear_arith)
                requires
                    r.secs == nanos / 1_000_000_000,
                    r.nanos == nanos % 1_000_000_000,
                    NANOS_PER_SEC == 1_000_000_000,
            ;
        }
        r
    }

    pub fn as_secs(&self) -> (r: u64)
        ensures
            r == self@ / (NANOS_PER_SEC as int),
    {
        proof {
            use_type_invariant(self);
            assert(self.secs == self@ / (NANOS_PER_SEC as int)) by (nonlinear_arith)
                requires
                    self@ == self.secs * (NANOS_PER_SEC as int) + self.nanos,
                    self.nanos < NANOS_PER_SEC,
                    NANOS_PER_SEC == 1_000_000_000,
            ;
        }
        self.secs
    }

    /// The sub-second part, in nanoseconds.
    pub fn subsec_nanos(&self) -> (r: u32)
        ensures
            r == self@ % (NANOS_PER_SEC as int),
    {
        proof {
            use_type_invariant(self);
            assert(self.nanos == self@ % (NANOS_PER_SEC as int)) by (nonlinear_arith)
                requires
                    self@ == self.secs * (NANOS_PER_SEC as int) + self.nanos,
                    self.nanos < NANOS_PER_SEC,
                    NANOS_PER_SEC == 1_000_000_000,
            ;
        }
        self.nanos
    }

    pub fn is_zero(&self) -> (r: bool)
        ensures
            r == (self@ == 0),
    {
        proof {
            use_type_invariant(self);
            assert(self.secs * (NANOS_PER_SEC as int) >= 0) by (nonlinear_arith);
            assert(self.secs == 0 && self.nanos == 0 ==> self@ == 0);
            assert(self.secs > 0 ==> self@ > 0) by (nonlinear_arith)
                requires
                    self@ == self.secs * (NANOS_PER_SEC as int) + self.nanos,
                    NANOS_PER_SEC == 1_000_000_000,
            ;
        }
        self.secs == 0 && self.nanos == 0
    }

    /// `self >= other`, compared as spans of time.
    pub fn ge(&self, other: &Duration) -> (r: bool)
        ensures
            r == (self@ >= other@),
    {
        proof {
            use_type_invariant(self);
            use_type_invariant(other);
            lemma_view_order(*self, *other);
        }
        self.secs > other.secs || (self.secs == other.secs && self.nanos >= other.nanos)
    }

    /// `self < other`, compared as spans of time.
    pub fn lt(&self, other: &Duration) -> (r: bool)
        ensures
            r == (self@ < other@),
    {
        let r = self.ge(other);
        !r
    }

    /// The sum of two durations.  The caller keeps the total within range,
    /// as the standard library's addition panics past it.
    pub fn add(self, other: Duration) -> (r: Duration)
        requires
            self@ + other@ <= max_duration_nanos(),
        ensures
            r@ == self@ + other@,
    {
        proof {
            use_type_invariant(&self);
            use_type_invariant(&other);
            assert(self.secs + other.secs <= u64::MAX) by (nonlinear_arith)
                requires
                    self@ == self.secs * (NANOS_PER_SEC as int) + self.nanos,
                    other@ == other.secs * (NANOS_PER_SEC as int) + other.nanos,
                    self@ + other@ <= max_duration_nanos(),
                    max_duration_nanos() == u64::MAX * (NANOS_PER_SEC as int) + (NANOS_PER_SEC
                        - 1),
                    NANOS_PER_SEC == 1_000_000_000,
            ;
        }
        let nanos_sum: u32 = self.nanos + other.nanos;
        if nanos_sum >= NANOS_PER_SEC {
            proof {
                assert(self.secs + other.secs + 1 <= u64::MAX) by (nonlinear_arith)
                    requires
                        self@ == self.secs * (NANOS_PER_SEC as int) + self.nanos,
                        other@ == other.secs * (NANOS_PER_SEC as int) + other.nanos,
                        self@ + other@ <= max_duration_nanos(),
                        max_duration_nanos() == u64::MAX * (NANOS_PER_SEC as int) + (NANOS_PER_SEC
                            - 1),
                        self.nanos + other.nanos >= NANOS_PER_SEC,
                        NANOS_PER_SEC == 1_000_000_000,
                ;
            }
            let r = Duration { secs: self.secs + other.secs + 1, nanos: nanos_sum - NANOS_PER_SEC };
            proof {
                assert(r@ == self@ + other@) by (nonlinear_arith)
                    requires
                        r.secs == self.secs + other.secs + 1,
                        r.nanos == self.nanos + other.nanos - NANOS_PER_SEC,
                        self@ == self.secs * (NANOS_PER_SEC as int) + self.nanos,
                        other@ == other.secs * (NANOS_PER_SEC as int) + other.nanos,
                        r@ == r.secs * (NANOS_PER_SEC as int) + r.nanos,
                        NANOS_PER_SEC == 1_000_000_000,
                ;
            }
            r
        } else {
            let r = Duration { secs: self.secs + other.secs, nanos: nanos_sum };
            proof {
                assert(r@ == self@ + other@) by (nonlinear_arith)
                    requires
                        r.secs == self.secs + other.secs,
                        r.nanos == self.nanos + other.nanos,
                        self@ == self.secs * (NANOS_PER_SEC as int) + self.nanos,
                        other@ == other.secs * (NANOS_PER_SEC as int) + other.nanos,
                        r@ == r.secs * (NANOS_PER_SEC as int) + r.nanos,
                        NANOS_PER_SEC == 1_000_000_000,
                ;
            }
            r
        }
    }

    /// The largest representable duration.
    pub fn max_value() -> (r: Duration)
        ensures
            r@ == max_duration_nanos(),
    {
        Duration { secs: u64::MAX, nanos: NANOS_PER_SEC - 1 }
    }

    /// The sum of two durations, or `None` where it would not fit.
    pub fn checked_add(self, other: Duration) -> (r: Option<Duration>)
        ensures
            self@ + other@ <= max_duration_nanos() ==> (r matches Some(s) && s@ == self@ + other@),
            self@ + other@ > max_duration_nanos() ==> r is None,
    {
        proof {
            use_type_invariant(&self);
            use_type_invariant(&other);
            assert((self@ + other@ <= max_duration_nanos()) == (self.secs + other.secs + (if self.nanos
                + other.nanos >= NANOS_PER_SEC {
                1int
            } else {
                0int
            }) <= u64::MAX)) by (nonlinear_arith)
                requires
                    self@ == self.secs * (NANOS_PER_SEC as int) + self.nanos,
                    other@ == other.secs * (NANOS_PER_SEC as int) + other.nanos,
                    self.nanos < NANOS_PER_SEC,
                    other.nanos < NANOS_PER_SEC,
                    max_duration_nanos() == u64::MAX * (NANOS_PER_SEC as int) + (NANOS_PER_SEC
                        - 1),
                    NANOS_PER_SEC == 1_000_000_000,
            ;
        }
        let carry: u64 = if self.nanos + other.nanos >= NANOS_PER_SEC {
            1
        } else {
            0
        };
        if self.secs <= u64::MAX - carry && other.secs <= u64::MAX - carry - self.secs {
            Some(self.add(other))
        } else {
            None
        }
    }

    /// The remainder of `self` divided by `m`, as spans of time.
    pub fn rem(self, m: Duration) -> (r: Duration)
        requires
            m@ > 0,
        ensures
            r@ == self@ % m@,
    {
        proof {
            use_type_invariant(&self);
            use_type_invariant(&m);
        }
        let total: u128 = self.secs as u128 * NANOS_PER_SEC as u128 + self.nanos as u128;
        let m_total: u128 = m.secs as u128 * NANOS_PER_SEC as u128 + m.nanos as u128;
        proof {
            assert(total as int == self@ && m_total as int == m@) by (nonlinear_arith)
                requires
                    total as int == self.secs * (NANOS_PER_SEC as int) + self.nanos,
                    m_total as int == m.secs * (NANOS_PER_SEC as int) + m.nanos,
                    self@ == self.secs * (NANOS_PER_SEC as int) + self.nanos,
                    m@ == m.secs * (NANOS_PER_SEC as int) + m.nanos,
            ;
        }
        let q: u128 = total % m_total;
        proof {
            assert((q as int) / (NANOS_PER_SEC as int) <= u64::MAX && (q as int) % (
            NANOS_PER_SEC as int) < NANOS_PER_SEC && q as int == ((q as int) / (
            NANOS_PER_SEC as int)) * (NANOS_PER_SEC as int) + (q as int) % (NANOS_PER_SEC as int))
                by (nonlinear_arith)
                requires
                    0 <= q as int,
                    (q as int) < m_total as int,
                    m_total as int == m.secs * (NANOS_PER_SEC as int) + m.nanos,
                    m.secs <= u64::MAX,
                    m.nanos < NANOS_PER_SEC,
                    NANOS_PER_SEC == 1_000_000_000,
            ;
        }
        let r_secs: u64 = (q / (NANOS_PER_SEC as u128)) as u64;
        let r_nanos: u32 = (q % (NANOS_PER_SEC as u128)) as u32;
        let r = Duration { secs: r_secs, nanos: r_nanos };
        proof {
            assert(r@ == q as int) by (nonlinear_arith)
                requires
                    r@ == r.secs * (NANOS_PER_SEC as int) + r.nanos,
                    r.secs == (q as int) / (NANOS_PER_SEC as int),
                    r.nanos == (q as int) % (NANOS_PER_SEC as int),
                    q as int == ((q as int) / (NANOS_PER_SEC as int)) * (NANOS_PER_SEC as int) + (
                    q as int) % (NANOS_PER_SEC as int),
            ;
        }
        r
    }

    /// The difference of two durations; defined only when `other` does not
    /// exceed `self`, as the standard library's subtraction panics there.
    pub fn sub(self, other: Duration) -> (r: Duration)
        requires
            other@ <= self@,
        ensures
            r@ == self@ - other@,
    {
        proof {
            use_type_invariant(&self);
            use_type_invariant(&other);
            lemma_view_order(self, other);
        }
        if self.nanos >= other.nanos {
            let r = Duration { secs: self.secs - other.secs, nanos: self.nanos - other.nanos };
            proof {
                lemma_sub_views(self, other, r);
            }
            r
        } else {
            proof {
                assert(self.secs > other.secs) by (nonlinear_arith)
                    requires
                        self@ == self.secs * (NANOS_PER_SEC as int) + self.nanos,
                        other@ == other.secs * (NANOS_PER_SEC as int) + other.nanos,
                        other@ <= self@,
                        self.nanos < other.nanos,
                        other.nanos < NANOS_PER_SEC,
                        NANOS_PER_SEC == 1_000_000_000,
                ;
            }
            let r = Duration {
                secs: self.secs - other.secs - 1,
                nanos: self.nanos + NANOS_PER_SEC - other.nanos,
            };
            proof {
                lemma_sub_views(self, other, r);
            }
            r
        }
    }
}

/// Every duration is non-negative: its parts are unsigned.
pub broadcast proof fn lemma_duration_nonneg(d: Duration)
    ensures
        0 <= #[trigger] d@,
{
    assert(0 <= d.secs * (NANOS_PER_SEC as int) + d.nanos) by (nonlinear_arith);
}

impl Duration {
    /// Puts this value's range in scope for a caller's proofs: every
    /// duration held by running code respects the type invariant, so its
    /// view lies within the representable range.  (A ghost value is not
    /// so bound — its sub-second part is only a `u32` — which is why this
    /// is a method on a held value and not a lemma over all values.)
    pub fn range_facts(&self)
        ensures
            0 <= self@ <= max_duration_nanos(),
    {
        proof {
            use_type_invariant(self);
            assert(0 <= self@ <= max_duration_nanos()) by (nonlinear_arith)
                requires
                    self@ == self.secs * (NANOS_PER_SEC as int) + self.nanos,
                    self.secs <= u64::MAX,
                    self.nanos < NANOS_PER_SEC,
                    max_duration_nanos() == u64::MAX * (NANOS_PER_SEC as int) + (NANOS_PER_SEC
                        - 1),
                    NANOS_PER_SEC == 1_000_000_000,
            ;
        }
    }
}

impl Default for Duration {
    /// The zero duration.
    fn default() -> (r: Duration)
        ensures
            r@ == 0,
    {
        Duration { secs: 0, nanos: 0 }
    }
}

/// Orders on the (secs, nanos) pair agree with orders on the view.
proof fn lemma_view_order(a: Duration, b: Duration)
    requires
        a.inv(),
        b.inv(),
    ensures
        (a@ >= b@) == (a.secs > b.secs || (a.secs == b.secs && a.nanos >= b.nanos)),
        a@ >= b@ ==> a.secs >= b.secs,
{
    assert((a@ >= b@) == (a.secs > b.secs || (a.secs == b.secs && a.nanos >= b.nanos)))
        by (nonlinear_arith)
        requires
            a@ == a.secs * (NANOS_PER_SEC as int) + a.nanos,
            b@ == b.secs * (NANOS_PER_SEC as int) + b.nanos,
            a.nanos < NANOS_PER_SEC,
            b.nanos < NANOS_PER_SEC,
            NANOS_PER_SEC == 1_000_000_000,
    ;
}

proof fn lemma_sub_views(a: Duration, b: Duration, r: Duration)
    requires
        a.inv(),
        b.inv(),
        b@ <= a@,
        a.secs >= b.secs,
        if a.nanos >= b.nanos {
            r.secs == a.secs - b.secs && r.nanos == a.nanos - b.nanos
        } else {
            r.secs == a.secs - b.secs - 1 && r.nanos == a.nanos + NANOS_PER_SEC - b.nanos
        },
    ensures
        r@ == a@ - b@,
{
    assert(r@ == a@ - b@) by (nonlinear_arith)
        requires
            a@ == a.secs * (NANOS_PER_SEC as int) + a.nanos,
            b@ == b.secs * (NANOS_PER_SEC as int) + b.nanos,
            r@ == r.secs * (NANOS_PER_SEC as int) + r.nanos,
            a.nanos < NANOS_PER_SEC,
            b.nanos < NANOS_PER_SEC,
            b@ <= a@,
            a.secs >= b.secs,
            if a.nanos >= b.nanos {
                r.secs == a.secs - b.secs && r.nanos == a.nanos - b.nanos
            } else {
                r.secs == a.secs - b.secs - 1 && r.nanos == a.nanos + NANOS_PER_SEC - b.nanos
            },
            NANOS_PER_SEC == 1_000_000_000,
    ;
}

} // verus!
