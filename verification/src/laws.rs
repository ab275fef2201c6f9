use vstd::prelude::*;

use crate::errors::ModelError;
use crate::model::{delete_step, evict_step, inc_step, insert_step, Records};
use crate::record::{remaining_secs, sat_add_i64, StoredValue};

verus! {

/// Law: on a key not previously inserted, the first increment with
/// `limit >= 1` succeeds and leaves count 1.
pub proof fn lemma_first_increment_fresh_key(
    m: Records,
    key: Seq<char>,
    limit: i64,
    ttl_seconds: i64,
    now: i64,
)
    requires
        !m.contains_key(key),
        1 <= limit,
    ensures
        inc_step(m, key, limit, ttl_seconds, now).1 == Ok::<(), ModelError>(()),
        inc_step(m, key, limit, ttl_seconds, now).0.contains_key(key),
        inc_step(m, key, limit, ttl_seconds, now).0[key].count == 1,
{
}

/// The store after a sequence of increments of the same key, one per entry
/// of `nows`, oldest first.
pub open spec fn inc_seq(
    m: Records,
    key: Seq<char>,
    limit: i64,
    ttl_seconds: i64,
    nows: Seq<i64>,
) -> Records
    decreases nows.len(),
{
    if nows.len() == 0 {
        m
    } else {
        inc_seq(
            inc_step(m, key, limit, ttl_seconds, nows[0]).0,
            key,
            limit,
            ttl_seconds,
            nows.drop_first(),
        )
    }
}

/// Whether every increment of the sequence succeeds.
pub open spec fn inc_seq_all_ok(
    m: Records,
    key: Seq<char>,
    limit: i64,
    ttl_seconds: i64,
    nows: Seq<i64>,
) -> bool
    decreases nows.len(),
{
    nows.len() == 0 || (inc_step(m, key, limit, ttl_seconds, nows[0]).1 == Ok::<
        (),
        ModelError,
    >(()) && inc_seq_all_ok(
        inc_step(m, key, limit, ttl_seconds, nows[0]).0,
        key,
        limit,
        ttl_seconds,
        nows.drop_first(),
    ))
}

/// Auxiliary induction: increments on a key that is already present, while
/// they stay within the limit, all succeed, raise the count by exactly one
/// each, and keep the record's expiry untouched.
proof fn lemma_increments_from_present(
    m: Records,
    key: Seq<char>,
    limit: i64,
    ttl_seconds: i64,
    nows: Seq<i64>,
)
    requires
        m.contains_key(key),
        0 <= m[key].count,
        m[key].count + nows.len() <= limit,
    ensures
        inc_seq_all_ok(m, key, limit, ttl_seconds, nows),
        inc_seq(m, key, limit, ttl_seconds, nows).contains_key(key),
        inc_seq(m, key, limit, ttl_seconds, nows)[key].count == m[key].count + nows.len(),
        inc_seq(m, key, limit, ttl_seconds, nows)[key].ttl == m[key].ttl,
    decreases nows.len(),
{
    if nows.len() > 0 {
        let m1 = inc_step(m, key, limit, ttl_seconds, nows[0]).0;
        lemma_increments_from_present(m1, key, limit, ttl_seconds, nows.drop_first());
    }
}

/// Law: starting from a store that does not hold the key, a sequence of
/// `n` increments with `1 <= n <= limit` succeeds at every call and leaves
/// the stored count exactly `n`, with the expiry fixed by the first call's
/// time — the window is never extended. Concurrent increments serialize
/// through the store's exclusive writer, so this is also what `n` parallel
/// callers observe in total: no update is lost.
pub proof fn lemma_increments_accumulate(
    m: Records,
    key: Seq<char>,
    limit: i64,
    ttl_seconds: i64,
    nows: Seq<i64>,
)
    requires
        !m.contains_key(key),
        1 <= nows.len() <= limit,
    ensures
        inc_seq_all_ok(m, key, limit, ttl_seconds, nows),
        inc_seq(m, key, limit, ttl_seconds, nows).contains_key(key),
        inc_seq(m, key, limit, ttl_seconds, nows)[key].count == nows.len(),
        inc_seq(m, key, limit, ttl_seconds, nows)[key].ttl == Some(
            sat_add_i64(nows[0], ttl_seconds),
        ),
{
    let m1 = inc_step(m, key, limit, ttl_seconds, nows[0]).0;
    lemma_increments_from_present(m1, key, limit, ttl_seconds, nows.drop_first());
}

/// Law: once the stored count has reached the limit, a further increment
/// within the window fails with `PastRateLimit`, changes nothing, and the
/// reported wait lies between 0 and `ttl_seconds`. The window is the one a
/// call at time `now0` opened; the failing call happens at `now >= now0`.
pub proof fn lemma_limit_exceeded(
    m: Records,
    key: Seq<char>,
    limit: i64,
    ttl_seconds: i64,
    now0: i64,
    now: i64,
)
    requires
        m.contains_key(key),
        m[key].count >= limit,
        m[key].ttl == Some(sat_add_i64(now0, ttl_seconds)),
        now0 <= now,
        0 <= ttl_seconds,
        now0 + ttl_seconds <= i64::MAX,
    ensures
        inc_step(m, key, limit, ttl_seconds, now).0 == m,
        inc_step(m, key, limit, ttl_seconds, now).1 == Err::<(), ModelError>(
            ModelError::PastRateLimit(remaining_secs(m[key].ttl, now)),
        ),
        0 <= remaining_secs(m[key].ttl, now) <= ttl_seconds,
{
}

/// Law: once a record's expiry has passed, an eviction pass removes it, and
/// the next increment of the key succeeds and opens a fresh window with
/// count 1.
pub proof fn lemma_eviction_resets_window(
    m: Records,
    key: Seq<char>,
    limit: i64,
    ttl_seconds: i64,
    now: i64,
    later: i64,
)
    requires
        m.contains_key(key),
        m[key].ttl is Some,
        (match m[key].ttl {
            Some(t) => t < now,
            None => false,
        }),
        1 <= limit,
    ensures
        !evict_step(m, now).contains_key(key),
        inc_step(evict_step(m, now), key, limit, ttl_seconds, later).1 == Ok::<(), ModelError>(()),
        inc_step(evict_step(m, now), key, limit, ttl_seconds, later).0[key].count == 1,
{
}

/// Law: `insert` on an already-present key fails with `AlreadyPresent` and
/// alters nothing: the existing record keeps its count and its expiry.
pub proof fn lemma_insert_existing_unchanged(
    m: Records,
    key: Seq<char>,
    count: i64,
    ttl_seconds: i64,
    now: i64,
)
    requires
        m.contains_key(key),
    ensures
        insert_step(m, key, count, ttl_seconds, now).0 == m,
        insert_step(m, key, count, ttl_seconds, now).1 == Err::<(), ModelError>(
            ModelError::AlreadyPresent,
        ),
        insert_step(m, key, count, ttl_seconds, now).0[key] == m[key],
{
}

/// Law: `delete` on an absent key fails with `NotFound` and changes nothing;
/// `delete` on a present key succeeds and removes it, so a following read
/// finds nothing. (That the key also leaves the expiry queue is part of the
/// contract of `Store::delete` itself.)
pub proof fn lemma_delete_semantics(m: Records, key: Seq<char>)
    ensures
        !m.contains_key(key) ==> delete_step(m, key).1 == Err::<(), ModelError>(
            ModelError::NotFound,
        ) && delete_step(m, key).0 == m,
        m.contains_key(key) ==> delete_step(m, key).1 == Ok::<(), ModelError>(()) && !delete_step(
            m,
            key,
        ).0.contains_key(key),
{
}

} // verus!
