use vstd::prelude::*;

verus! {

/// The value stored per key: the number of events observed in the current
/// window, and an optional absolute expiry in seconds since the Unix epoch.
/// `ttl == None` means the record never expires; the rate-limit path always
/// sets an expiry, but the type supports unexpiring records.
#[derive(Clone, Copy, PartialEq, Eq, Hash, Debug)]
pub struct StoredValue {
    pub count: i64,
    pub ttl: Option<i64>,
}

/// The expiry of a record as a mathematical integer; records without an
/// expiry are mapped to zero (they are never scheduled for eviction, so the
/// value is only read for expiring records).
pub open spec fn expiry_of(v: StoredValue) -> int {
    match v.ttl {
        Some(t) => t as int,
        None => 0,
    }
}

/// A record is expired at time `now` when its expiry lies strictly in the
/// past. Records without an expiry never expire.
pub open spec fn is_expired(v: StoredValue, now: i64) -> bool {
    match v.ttl {
        Some(t) => t < now,
        None => false,
    }
}

/// Addition on `i64` that clamps at the ends of the range instead of wrapping.
pub open spec fn sat_add_i64(a: i64, b: i64) -> i64 {
    if a + b > i64::MAX {
        i64::MAX
    } else if a + b < i64::MIN {
        i64::MIN
    } else {
        (a + b) as i64
    }
}

/// Executable saturating addition, proved against `sat_add_i64`.
pub fn saturating_add_i64(a: i64, b: i64) -> (r: i64)
    ensures
        r == sat_add_i64(a, b),
{
    if b >= 0 {
        if a <= i64::MAX - b {
            a + b
        } else {
            i64::MAX
        }
    } else {
        if a >= i64::MIN - b {
            a + b
        } else {
            i64::MIN
        }
    }
}

/// The number of seconds a caller must wait before the window expires:
/// `expiry - now`, clamped to zero when the window is already over (an
/// expired-but-not-yet-swept record reports "retry immediately" rather than
/// a negative wait) and saturated at `i64::MAX`. A record without an expiry
/// reports zero.
pub open spec fn remaining_secs(ttl: Option<i64>, now: i64) -> i64 {
    match ttl {
        Some(t) => if t - now <= 0 {
            0
        } else if t - now > i64::MAX {
            i64::MAX
        } else {
            (t - now) as i64
        },
        None => 0,
    }
}

/// Executable computation of the remaining wait, proved against
/// `remaining_secs`.
pub fn compute_remaining(ttl: &Option<i64>, now: i64) -> (r: i64)
    ensures
        r == remaining_secs(*ttl, now),
{
    match ttl {
        Some(t) => {
            let t = *t;
            if t <= now {
                0
            } else if now >= 0 {
                t - now
            } else if t > i64::MAX + now {
                i64::MAX
            } else {
                t - now
            }
        },
        None => 0,
    }
}

} // verus!
