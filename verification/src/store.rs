use vstd::prelude::*;

use crate::errors::ModelError;
use crate::expiry_queue::{queue_entries, ExpiryQueue};
use crate::model::{delete_step, evict_step, inc_step, insert_step, queue_synced, Records};
use crate::record::{compute_remaining, is_expired, saturating_add_i64, StoredValue};
use crate::store_map::{map_contents, map_published, no_records, MapStore};

verus! {

/// Relies on `chrono::Utc::now`: the current time in whole seconds since the
/// Unix epoch. Nothing is promised of the clock's value.
#[verifier::external_body]
fn now_seconds() -> i64 {
    chrono::Utc::now().timestamp()
}

/// The rate-limit store: a reader/writer-split map of counter records and
/// the expiry queue that schedules their eviction. The queue is kept
/// synchronized with the map inside the same critical section as each
/// mutation, and every mutation ends with a publish, so a reader never
/// observes a state in which the two disagree.
///
/// Concurrency: mutating operations take `&mut self`, so callers on several
/// threads must serialize them through one exclusive lock around the store,
/// exactly as the map's single writer handle demands. This design documents,
/// and does not remove, the resulting hazard: an eviction pass and a caller
/// contend for the same lock, and no fairness between them is promised.
pub struct Store {
    map: MapStore,
    queue: ExpiryQueue,
}

impl Store {
    /// The records of the store: the writer's view of the map, with every
    /// write so far applied.
    pub closed spec fn records(self) -> Records {
        map_contents(self.map)
    }

    /// The records a reader can see: the map as of the last publish.
    pub closed spec fn visible(self) -> Records {
        map_published(self.map)
    }

    /// The entries of the expiry queue: each scheduled key with its expiry.
    pub closed spec fn scheduled(self) -> Map<Seq<char>, int> {
        queue_entries(self.queue)
    }

    /// Well-formedness, established by `new` and preserved by every
    /// operation: the store is published (readers see the writer's state),
    /// the expiry queue is exactly synchronized with the map, only finitely
    /// many keys are scheduled, and no count is negative.
    pub closed spec fn wf(self) -> bool {
        &&& self.visible() == self.records()
        &&& queue_synced(self.records(), self.scheduled())
        &&& self.scheduled().dom().finite()
        &&& forall|k: Seq<char>| #[trigger]
            self.records().contains_key(k) ==> self.records()[k].count >= 0
    }

    /// An empty store. Clearing and publishing the fresh handles pins down
    /// the starting state: no records, readers in agreement, nothing
    /// scheduled.
    pub fn new() -> (s: Store)
        ensures
            s.wf(),
            s.records() == no_records(),
    {
        let mut map = MapStore::new();
        map.clear();
        map.publish();
        let mut queue = ExpiryQueue::new();
        queue.clear();
        Store { map, queue }
    }

    /// Reads through the read handle: the record a reader can see under the
    /// key, or `None`. Never fails on a missing key.
    pub fn get(&self, key: &String) -> (r: Option<StoredValue>)
        ensures
            (match r {
                Some(v) => self.visible().contains_key(key@) && v == self.visible()[key@],
                None => !self.visible().contains_key(key@),
            }),
            self.wf() ==> (match r {
                Some(v) => self.records().contains_key(key@) && v == self.records()[key@],
                None => !self.records().contains_key(key@),
            }),
    {
        self.map.published_get(key)
    }

    /// Creates a record under the key at time `now`: the given count, expiry
    /// `now + ttl_seconds` (saturating). Fails with `AlreadyPresent`,
    /// changing nothing, exactly when the key is already live.
    pub fn insert_at(
        &mut self,
        key: &String,
        count: i64,
        ttl_seconds: i64,
        now: i64,
    ) -> (r: Result<(), ModelError>)
        requires
            old(self).wf(),
            0 <= count,
        ensures
            final(self).wf(),
            final(self).records() == insert_step(
                old(self).records(),
                key@,
                count,
                ttl_seconds,
                now,
            ).0,
            r == insert_step(old(self).records(), key@, count, ttl_seconds, now).1,
    {
        if self.map.published_contains(key) {
            return Err(ModelError::AlreadyPresent);
        }
        let expiry = saturating_add_i64(now, ttl_seconds);
        self.map.write(key, StoredValue { count, ttl: Some(expiry) });
        self.queue.schedule(key, expiry);
        self.map.publish();
        Ok(())
    }

    /// Creates a record under the key with expiry `ttl_seconds` from the
    /// current time. Fails with `AlreadyPresent`, changing nothing, exactly
    /// when the key is already live.
    pub fn insert(&mut self, key: &String, count: i64, ttl_seconds: i64) -> (r: Result<
        (),
        ModelError,
    >)
        requires
            old(self).wf(),
            0 <= count,
        ensures
            final(self).wf(),
            exists|now: i64|
                final(self).records() == #[trigger] insert_step(
                    old(self).records(),
                    key@,
                    count,
                    ttl_seconds,
                    now,
                ).0 && r == insert_step(old(self).records(), key@, count, ttl_seconds, now).1,
    {
        let now = now_seconds();
        self.insert_at(key, count, ttl_seconds, now)
    }

    /// Removes the key's record. Fails with `NotFound`, changing nothing,
    /// exactly when the key is absent. A deleted key is also dropped from
    /// the expiry queue, so no orphaned eviction scheduling remains.
    pub fn delete(&mut self, key: &String) -> (r: Result<(), ModelError>)
        requires
            old(self).wf(),
        ensures
            final(self).wf(),
            final(self).records() == delete_step(old(self).records(), key@).0,
            r == delete_step(old(self).records(), key@).1,
            !final(self).scheduled().contains_key(key@),
    {
        if !self.map.published_contains(key) {
            return Err(ModelError::NotFound);
        }
        self.map.erase(key);
        self.queue.unschedule(key);
        self.map.publish();
        Ok(())
    }

    /// The central operation, at time `now`. An absent key opens a fresh
    /// window: count 1, expiry `now + ttl_seconds`. A present key below the
    /// limit is replaced by a record with the count raised by one and the
    /// original expiry kept: the window is fixed, never extended by an
    /// increment. A present key at or over the limit leaves the store
    /// unchanged and fails with `PastRateLimit` carrying the seconds
    /// remaining in its window, clamped to zero when the window is already
    /// over but the record has not yet been swept.
    pub fn inc_below_limit_at(
        &mut self,
        key: &String,
        limit: i64,
        ttl_seconds: i64,
        now: i64,
    ) -> (r: Result<(), ModelError>)
        requires
            old(self).wf(),
        ensures
            final(self).wf(),
            final(self).records() == inc_step(old(self).records(), key@, limit, ttl_seconds, now).0,
            r == inc_step(old(self).records(), key@, limit, ttl_seconds, now).1,
    {
        match self.map.published_get(key) {
            None => self.insert_at(key, 1, ttl_seconds, now),
            Some(stored) => {
                if stored.count < limit {
                    // Replace rather than mutate in place: the concurrent map
                    // keeps values immutable under readers, so the increment
                    // is remove-and-reinsert with the original expiry kept.
                    let replacement = StoredValue { count: stored.count + 1, ttl: stored.ttl };
                    self.map.write(key, replacement);
                    self.map.publish();
                    Ok(())
                } else {
                    Err(ModelError::PastRateLimit(compute_remaining(&stored.ttl, now)))
                }
            },
        }
    }

    /// The central operation at the current time: increment the key's
    /// counter if it is below the limit, otherwise refuse with the seconds
    /// remaining in the window.
    pub fn inc_below_limit(&mut self, key: &String, limit: i64, ttl_seconds: i64) -> (r: Result<
        (),
        ModelError,
    >)
        requires
            old(self).wf(),
        ensures
            final(self).wf(),
            exists|now: i64|
                final(self).records() == #[trigger] inc_step(
                    old(self).records(),
                    key@,
                    limit,
                    ttl_seconds,
                    now,
                ).0 && r == inc_step(old(self).records(), key@, limit, ttl_seconds, now).1,
    {
        let now = now_seconds();
        self.inc_below_limit_at(key, limit, ttl_seconds, now)
    }

    /// One pass of the eviction loop at time `now`: repeatedly pops the
    /// entry with the lowest expiry while that expiry lies strictly in the
    /// past, removing the key from the map, and then publishes, so readers
    /// observe the evictions. Every record whose expiry has passed is gone
    /// afterwards; every other record is untouched.
    pub fn evict_once_at(&mut self, now: i64)
        requires
            old(self).wf(),
        ensures
            final(self).wf(),
            final(self).records() == evict_step(old(self).records(), now),
    {
        loop
            invariant_except_break
                queue_synced(self.records(), self.scheduled()),
                self.scheduled().dom().finite(),
                self.visible() == old(self).visible(),
                forall|k: Seq<char>| #[trigger]
                    self.records().contains_key(k) ==> self.records()[k].count >= 0,
                forall|k: Seq<char>| #[trigger]
                    self.records().contains_key(k) ==> old(self).records().contains_key(k)
                        && self.records()[k] == old(self).records()[k],
                forall|k: Seq<char>| #[trigger]
                    old(self).records().contains_key(k) ==> self.records().contains_key(k)
                        || is_expired(old(self).records()[k], now),
            ensures
                queue_synced(self.records(), self.scheduled()),
                self.scheduled().dom().finite(),
                self.visible() == old(self).visible(),
                forall|k: Seq<char>| #[trigger]
                    self.records().contains_key(k) ==> self.records()[k].count >= 0,
                forall|k: Seq<char>| #[trigger]
                    self.records().contains_key(k) ==> old(self).records().contains_key(k)
                        && self.records()[k] == old(self).records()[k],
                forall|k: Seq<char>| #[trigger]
                    old(self).records().contains_key(k) ==> self.records().contains_key(k)
                        || is_expired(old(self).records()[k], now),
                forall|k: Seq<char>| #[trigger]
                    self.records().contains_key(k) ==> !is_expired(self.records()[k], now),
            decreases self.scheduled().dom().len(),
        {
            let ghost q0 = self.scheduled();
            let ghost m0 = self.records();
            match self.queue.pop_soonest() {
                None => {
                    proof {
                        assert forall|k: Seq<char>| #[trigger]
                            self.records().contains_key(k) implies !is_expired(
                            self.records()[k],
                            now,
                        ) by {
                            assert(!q0.contains_key(k));
                        }
                    }
                    break ;
                },
                Some(entry) => {
                    if entry.1 < now {
                        self.map.erase(&entry.0);
                    } else {
                        // The earliest entry is not yet due: put it back and
                        // stop, since everything else expires no sooner.
                        self.queue.schedule(&entry.0, entry.1);
                        proof {
                            assert(self.scheduled() =~= q0);
                            assert forall|k: Seq<char>| #[trigger]
                                self.records().contains_key(k) implies !is_expired(
                                self.records()[k],
                                now,
                            ) by {
                                if self.records()[k].ttl is Some {
                                    assert(q0.contains_key(k));
                                    assert(entry.1 as int <= q0[k]);
                                }
                            }
                        }
                        break ;
                    }
                },
            }
        }
        proof {
            assert(self.records() =~= evict_step(old(self).records(), now));
        }
        self.map.publish();
    }

    /// One pass of the eviction loop at the current time.
    pub fn evict_once(&mut self)
        requires
            old(self).wf(),
        ensures
            final(self).wf(),
            exists|now: i64| final(self).records() == #[trigger] evict_step(
                old(self).records(),
                now,
            ),
    {
        let now = now_seconds();
        self.evict_once_at(now);
    }
}

} // verus!
