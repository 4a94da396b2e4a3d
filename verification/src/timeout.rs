//! Conversions between durations and the millisecond and second counts that
//! Winsock uses for timeouts, lingering and keep-alive.

use vstd::prelude::*;

use crate::error::Error;
use crate::time::{lemma_split, opt_nanos, Duration, NANOS_PER_MILLI, NANOS_PER_SEC};

verus! {

/// The millisecond timeout that means "never time out".
pub const INFINITE: u32 = 0xFFFF_FFFF;

/// The number of whole milliseconds needed to cover `nanos` nanoseconds,
/// that is `nanos / 10^6` rounded up.
pub open spec fn millis_ceil(nanos: nat) -> nat {
    (nanos + 999_999) / 1_000_000
}

/// The millisecond count for a timeout of `nanos` nanoseconds: rounded up to
/// whole milliseconds, and `INFINITE` where that exceeds `u32::MAX`.
pub open spec fn timeout_millis(nanos: nat) -> u32 {
    if millis_ceil(nanos) > u32::MAX {
        INFINITE
    } else {
        millis_ceil(nanos) as u32
    }
}

/// What `dur2ms` returns: no timeout is 0, a zero duration is refused, any
/// other duration is its rounded-up millisecond count.
pub open spec fn dur2ms_spec(dur: Option<Duration>) -> Result<u32, Error> {
    match dur {
        None => Ok(0),
        Some(d) => if d@ == 0 {
            Err(Error::InvalidInput)
        } else {
            Ok(timeout_millis(d@))
        },
    }
}

/// Rounding up `s` seconds and `r < 10^9` nanoseconds to milliseconds is
/// `1000 * s` plus the rounded-up milliseconds of `r`.
proof fn lemma_millis_ceil_split(s: nat, r: nat)
    requires
        r < NANOS_PER_SEC,
    ensures
        millis_ceil(s * (NANOS_PER_SEC as nat) + r) == s * 1000 + r / (NANOS_PER_MILLI as nat) + (if r
            % (NANOS_PER_MILLI as nat) > 0 {
            1nat
        } else {
            0nat
        }),
{
    let m = NANOS_PER_MILLI as nat;
    let q = r / m;
    let k = r % m;
    lemma_split(q, k, m);
    assert(r == q * m + k) by {
        vstd::arithmetic::div_mod::lemma_fundamental_div_mod(r as int, m as int);
    }
    let c: nat = if k > 0 { 1 } else { 0 };
    let t = (k + 999_999) as nat;
    assert(t == c * m + (t - c * m)) by (nonlinear_arith);
    assert(0 <= t - c * m < m);
    let total = s * (NANOS_PER_SEC as nat) + r + 999_999;
    assert(total == (s * 1000 + q + c) * m + (t - c * m)) by (nonlinear_arith)
        requires
            total == s * (NANOS_PER_SEC as nat) + r + 999_999,
            r == q * m + k,
            t == k + 999_999,
            t == c * m + (t - c * m),
            m == 1_000_000,
            NANOS_PER_SEC == 1_000_000_000,
    ;
    lemma_split(s * 1000 + q + c, (t - c * m) as nat, m);
}

/// Converts an optional timeout to the millisecond count Winsock takes.
/// `None` becomes 0 (no timeout). Nanoseconds are rounded up to whole
/// milliseconds, and anything above `u32::MAX` milliseconds (about 50 days)
/// becomes `INFINITE`. A zero duration is refused: Winsock would read 0 as
/// "no timeout".
pub fn dur2ms(dur: Option<Duration>) -> (r: Result<u32, Error>)
    ensures
        r == dur2ms_spec(dur),
{
    match dur {
        Some(d) => {
            let secs = d.as_secs();
            let nanos = d.subsec_nanos();
            proof {
                lemma_split(secs as nat, nanos as nat, NANOS_PER_SEC as nat);
                assert(d@ == secs * NANOS_PER_SEC + nanos) by {
                    vstd::arithmetic::div_mod::lemma_fundamental_div_mod(
                        d@ as int,
                        NANOS_PER_SEC as int,
                    );
                }
                lemma_millis_ceil_split(secs as nat, nanos as nat);
            }
            let round_up: u64 = if nanos % NANOS_PER_MILLI > 0 {
                1
            } else {
                0
            };
            let ms: u32 = match secs.checked_mul(1000) {
                None => INFINITE,
                Some(whole) => match whole.checked_add((nanos / NANOS_PER_MILLI) as u64) {
                    None => INFINITE,
                    Some(partial) => match partial.checked_add(round_up) {
                        None => INFINITE,
                        Some(total) => if total > (u32::MAX as u64) {
                            INFINITE
                        } else {
                            total as u32
                        },
                    },
                },
            };
            if ms == 0 {
                return Err(Error::InvalidInput);
            }
            Ok(ms)
        },
        None => Ok(0),
    }
}

/// The duration, in nanoseconds, of a millisecond timeout read from Winsock:
/// none for 0, else `raw` milliseconds.
pub open spec fn ms_nanos(raw: u32) -> Option<nat> {
    if raw == 0 {
        None
    } else {
        Some((raw as nat) * (NANOS_PER_MILLI as nat))
    }
}

/// Converts a millisecond timeout read from Winsock to a duration: 0 means
/// no timeout.
pub fn ms2dur(raw: u32) -> (r: Option<Duration>)
    ensures
        opt_nanos(r) == ms_nanos(raw),
{
    if raw == 0 {
        None
    } else {
        let secs = raw / 1000;
        let nsec = (raw % 1000) * NANOS_PER_MILLI;
        proof {
            assert(raw == secs * 1000 + raw % 1000) by (nonlinear_arith)
                requires
                    secs == raw / 1000,
            ;
            assert(secs * NANOS_PER_SEC + nsec == raw * NANOS_PER_MILLI) by (nonlinear_arith)
                requires
                    raw == secs * 1000 + raw % 1000,
                    nsec == (raw % 1000) * NANOS_PER_MILLI,
                    NANOS_PER_SEC == 1000 * NANOS_PER_MILLI,
            ;
        }
        Some(Duration::new(secs as u64, nsec))
    }
}

/// The Winsock `linger` option value: whether lingering on close is on, and
/// for how many seconds.
#[derive(Clone, Copy, Debug, PartialEq, Eq, Structural)]
pub struct Linger {
    pub l_onoff: u16,
    pub l_linger: u16,
}

/// The duration, in nanoseconds, of a `linger` option value: none when
/// lingering is off, else `l_linger` seconds.
pub open spec fn linger_nanos(linger_opt: Linger) -> Option<nat> {
    if linger_opt.l_onoff == 0 {
        None
    } else {
        Some((linger_opt.l_linger as nat) * (NANOS_PER_SEC as nat))
    }
}

/// Converts a `linger` option value read from Winsock to a duration: `None`
/// when lingering is off, else the linger time in whole seconds.
pub fn linger2dur(linger_opt: Linger) -> (r: Option<Duration>)
    ensures
        opt_nanos(r) == linger_nanos(linger_opt),
{
    if linger_opt.l_onoff == 0 {
        None
    } else {
        Some(Duration::from_secs(linger_opt.l_linger as u64))
    }
}

/// The `linger` option value for an optional linger time: off for `None`;
/// on for `Some(d)`, with the whole seconds of `d` taken modulo 2^16 (the
/// field holds 16 bits; the seconds are truncated, not saturated).
pub open spec fn dur2linger_spec(dur: Option<Duration>) -> Linger {
    match dur {
        Some(d) => Linger { l_onoff: 1, l_linger: ((d@ / (NANOS_PER_SEC as nat)) % 0x1_0000) as u16 },
        None => Linger { l_onoff: 0, l_linger: 0 },
    }
}

/// Converts an optional linger time to the Winsock `linger` option value.
pub fn dur2linger(dur: Option<Duration>) -> (r: Linger)
    ensures
        r == dur2linger_spec(dur),
{
    match dur {
        Some(d) => {
            let secs = d.as_secs();
            Linger { l_onoff: 1, l_linger: (secs % 0x1_0000) as u16 }
        },
        None => Linger { l_onoff: 0, l_linger: 0 },
    }
}

/// A timeout read back from Winsock and set again is set as the same
/// millisecond count: whatever duration `ms2dur(raw)` gives (none for 0),
/// `dur2ms` turns it back into `raw`.
pub proof fn lemma_read_then_set_timeout(raw: u32, dur: Option<Duration>)
    requires
        opt_nanos(dur) == ms_nanos(raw),
    ensures
        dur2ms_spec(dur) == Ok::<u32, Error>(raw),
{
    if raw != 0 {
        let d = dur.unwrap();
        let m = NANOS_PER_MILLI as nat;
        lemma_split(raw as nat, 999_999, m);
        assert(d@ + 999_999 == raw * m + 999_999);
    }
}

/// A nonzero timeout that is set and read back is never shorter than the one
/// set and exceeds it by less than a millisecond, unless it is longer than
/// `u32::MAX` milliseconds, in which case it is set as `INFINITE`.
pub proof fn lemma_set_then_read_timeout(d: Duration)
    requires
        d@ != 0,
    ensures
        dur2ms_spec(Some(d)) is Ok,
        dur2ms_spec(Some(d)) matches Ok(ms) && ms != 0 && (if millis_ceil(d@) <= u32::MAX {
            d@ <= ms * (NANOS_PER_MILLI as nat) < d@ + NANOS_PER_MILLI
        } else {
            ms == INFINITE
        }),
{
    let m = NANOS_PER_MILLI as nat;
    let c = millis_ceil(d@);
    vstd::arithmetic::div_mod::lemma_fundamental_div_mod((d@ + 999_999) as int, m as int);
    let rem = ((d@ + 999_999) % m) as nat;
    assert(d@ + 999_999 == c * m + rem);
    assert(rem < m);
    assert(c >= 1) by (nonlinear_arith)
        requires
            d@ >= 1,
            d@ + 999_999 == c * m + rem,
            rem < m,
            m == 1_000_000,
    ;
}

/// Lingering that is set and read back: `None` reads back as `None`, and
/// `Some(d)` as the whole seconds of `d` modulo 2^16.
pub proof fn lemma_linger_set_then_read(dur: Option<Duration>)
    ensures
        linger_nanos(dur2linger_spec(dur)) == match dur {
            None => None,
            Some(d) => Some(((d@ / (NANOS_PER_SEC as nat)) % 0x1_0000) * (NANOS_PER_SEC as nat)),
        },
{
}

/// What `dur2ms` gives, in terms of the duration alone: 0 for no timeout;
/// the refusal for a zero duration; else the least number of milliseconds
/// `ms` with `d <= ms` milliseconds (so `ms - 1` milliseconds fall short of
/// `d`), or `u32::MAX` (`INFINITE`) where `d` exceeds `u32::MAX`
/// milliseconds.
pub proof fn lemma_dur2ms_value(dur: Option<Duration>)
    ensures
        match dur {
            None => dur2ms_spec(dur) == Ok::<u32, Error>(0),
            Some(d) => if d@ == 0 {
                dur2ms_spec(dur) == Err::<u32, Error>(Error::InvalidInput)
            } else {
                dur2ms_spec(dur) matches Ok(ms) && ms >= 1 && if d@ <= (u32::MAX as nat)
                    * 1_000_000 {
                    (ms - 1) * 1_000_000 < d@ <= ms * 1_000_000
                } else {
                    ms == u32::MAX
                }
            },
        },
{
    if let Some(d) = dur {
        if d@ != 0 {
            let m = NANOS_PER_MILLI as nat;
            let c = millis_ceil(d@);
            vstd::arithmetic::div_mod::lemma_fundamental_div_mod((d@ + 999_999) as int, m as int);
            let rem = ((d@ + 999_999) % m) as nat;
            assert(d@ + 999_999 == c * m + rem);
            assert(rem < m);
            let max = u32::MAX as nat;
            if d@ <= max * 1_000_000 {
                assert(c <= max) by (nonlinear_arith)
                    requires
                        d@ <= max * 1_000_000,
                        d@ + 999_999 == c * m + rem,
                        m == 1_000_000,
                ;
                assert(c >= 1) by (nonlinear_arith)
                    requires
                        d@ >= 1,
                        d@ + 999_999 == c * m + rem,
                        rem < m,
                        m == 1_000_000,
                ;
                assert((c - 1) * 1_000_000 < d@ <= c * 1_000_000) by (nonlinear_arith)
                    requires
                        d@ + 999_999 == c * m + rem,
                        rem < m,
                        m == 1_000_000,
                        c >= 1,
                ;
            } else {
                assert(c > max) by (nonlinear_arith)
                    requires
                        d@ > max * 1_000_000,
                        d@ + 999_999 == c * m + rem,
                        rem < m,
                        m == 1_000_000,
                ;
            }
        }
    }
}

} // verus!
