//! A span of time made of whole seconds and a sub-second nanosecond part.

use vstd::prelude::*;

verus! {

/// Number of nanoseconds in one second.
pub const NANOS_PER_SEC: u32 = 1_000_000_000;

/// Number of nanoseconds in one millisecond.
pub const NANOS_PER_MILLI: u32 = 1_000_000;

/// A duration: `secs` whole seconds plus `nanos` nanoseconds, with
/// `nanos` always below one second. Its view is the total number of
/// nanoseconds.
#[derive(Clone, Copy, Debug, PartialEq, Eq, Structural)]
pub struct Duration {
    secs: u64,
    nanos: u32,
}

impl View for Duration {
    type V = nat;

    closed spec fn view(&self) -> nat {
        (self.secs * NANOS_PER_SEC + self.nanos) as nat
    }
}

impl Duration {
    #[verifier::type_invariant]
    spec fn inv(self) -> bool {
        self.nanos < NANOS_PER_SEC
    }

    /// Creates a duration of `secs` seconds and `nanos` nanoseconds; a
    /// `nanos` of one second or more carries into the seconds.
    pub fn new(secs: u64, nanos: u32) -> (d: Duration)
        requires
            secs + nanos / NANOS_PER_SEC <= u64::MAX,
        ensures
            d@ == secs * NANOS_PER_SEC + nanos,
    {
        let extra = (nanos / NANOS_PER_SEC) as u64;
        let sub = nanos % NANOS_PER_SEC;
        assert(nanos == (nanos / NANOS_PER_SEC) * NANOS_PER_SEC + sub) by (nonlinear_arith)
            requires
                sub == nanos % NANOS_PER_SEC,
        ;
        assert((secs + extra) * NANOS_PER_SEC + sub == secs * NANOS_PER_SEC + nanos) by (nonlinear_arith)
            requires
                nanos == extra * NANOS_PER_SEC + sub,
        ;
        Duration { secs: secs + extra, nanos: sub }
    }

    /// Creates a duration of whole seconds.
    pub fn from_secs(secs: u64) -> (d: Duration)
        ensures
            d@ == secs * NANOS_PER_SEC,
    {
        Duration { secs, nanos: 0 }
    }

    /// The whole seconds of the duration.
    pub fn as_secs(&self) -> (s: u64)
        ensures
            s == self@ / (NANOS_PER_SEC as nat),
    {
        proof {
            use_type_invariant(self);
            lemma_split(self.secs as nat, self.nanos as nat, NANOS_PER_SEC as nat);
        }
        self.secs
    }

    /// The nanoseconds beyond the whole seconds, below one second.
    pub fn subsec_nanos(&self) -> (n: u32)
        ensures
            n == self@ % (NANOS_PER_SEC as nat),
            n < NANOS_PER_SEC,
    {
        proof {
            use_type_invariant(self);
            lemma_split(self.secs as nat, self.nanos as nat, NANOS_PER_SEC as nat);
        }
        self.nanos
    }
}

/// `(q * d + r) / d == q` and `(q * d + r) % d == r` when `r < d`.
pub proof fn lemma_split(q: nat, r: nat, d: nat)
    requires
        r < d,
    ensures
        (q * d + r) / d == q,
        (q * d + r) % d == r,
{
    vstd::arithmetic::div_mod::lemma_fundamental_div_mod_converse(
        (q * d + r) as int,
        d as int,
        q as int,
        r as int,
    );
}

/// The total nanoseconds of an optional duration.
pub open spec fn opt_nanos(o: Option<Duration>) -> Option<nat> {
    match o {
        None => None,
        Some(d) => Some(d@),
    }
}

} // verus!
