use vstd::prelude::*;

use crate::errors::ModelError;
use crate::record::{expiry_of, is_expired, remaining_secs, sat_add_i64, StoredValue};

verus! {

/// The mathematical state of the store: each live key with its record.
pub type Records = Map<Seq<char>, StoredValue>;

/// What `insert` does: refuse a key that is already present, otherwise create
/// a record with the given count and expiry `now + ttl_seconds`.
pub open spec fn insert_step(
    m: Records,
    key: Seq<char>,
    count: i64,
    ttl_seconds: i64,
    now: i64,
) -> (Records, Result<(), ModelError>) {
    if m.contains_key(key) {
        (m, Err(ModelError::AlreadyPresent))
    } else {
        (
            m.insert(key, (StoredValue { count: count, ttl: Some(sat_add_i64(now, ttl_seconds)) })),
            Ok(()),
        )
    }
}

/// What `delete` does: refuse an absent key, otherwise remove the record.
pub open spec fn delete_step(m: Records, key: Seq<char>) -> (Records, Result<(), ModelError>) {
    if m.contains_key(key) {
        (m.remove(key), Ok(()))
    } else {
        (m, Err(ModelError::NotFound))
    }
}

/// What `inc_below_limit` does. An absent key opens a fresh window: count 1,
/// expiry `now + ttl_seconds`. A present key below the limit is replaced by a
/// record with the count raised by one and the original expiry kept (the
/// window is fixed, not sliding). A present key at or over the limit is left
/// unchanged and the call fails with the seconds remaining in its window.
pub open spec fn inc_step(
    m: Records,
    key: Seq<char>,
    limit: i64,
    ttl_seconds: i64,
    now: i64,
) -> (Records, Result<(), ModelError>) {
    if !m.contains_key(key) {
        (
            m.insert(key, (StoredValue { count: 1, ttl: Some(sat_add_i64(now, ttl_seconds)) })),
            Ok(()),
        )
    } else if m[key].count < limit {
        (
            m.insert(key, (StoredValue { count: (m[key].count + 1) as i64, ttl: m[key].ttl })),
            Ok(()),
        )
    } else {
        (m, Err(ModelError::PastRateLimit(remaining_secs(m[key].ttl, now))))
    }
}

/// What one eviction pass does: drop every record whose expiry lies strictly
/// before `now` and keep every other record unchanged.
pub open spec fn evict_step(m: Records, now: i64) -> Records {
    Map::<Seq<char>, StoredValue>::new(
        |k: Seq<char>| m.contains_key(k) && !is_expired(m[k], now),
        |k: Seq<char>| m[k],
    )
}

/// The expiry queue is exactly synchronized with the map: it schedules a key
/// if and only if the map holds an expiring record for it, and then under the
/// record's own expiry. The queue never references a dead key and is never
/// missing a live, expiring key.
pub open spec fn queue_synced(m: Records, q: Map<Seq<char>, int>) -> bool {
    &&& forall|k: Seq<char>| #[trigger]
        q.contains_key(k) ==> m.contains_key(k) && m[k].ttl is Some && q[k] == expiry_of(m[k])
    &&& forall|k: Seq<char>| #[trigger]
        m.contains_key(k) && m[k].ttl is Some ==> q.contains_key(k)
}

} // verus!
