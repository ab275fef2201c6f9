use vstd::prelude::*;

verus! {

/// The expiry queue: a min-ordered priority queue of (key, expiry) pairs,
/// used to find the next key to evict without scanning the whole map. It is
/// a scheduling index, not a data store: it never owns record data. Each key
/// appears at most once, so Verus sees it as a map from keys to expiries.
#[verifier::external_body]
pub struct ExpiryQueue {
    inner: priority_queue::DoublePriorityQueue<String, i64>,
}

/// The entries of the queue: each scheduled key with its expiry.
pub uninterp spec fn queue_entries(q: ExpiryQueue) -> Map<Seq<char>, int>;

/// No scheduled keys at all.
pub open spec fn no_entries() -> Map<Seq<char>, int> {
    Map::empty()
}

impl ExpiryQueue {
    /// Relies on `DoublePriorityQueue::new`. Nothing is assumed of the fresh
    /// queue; `clear` establishes emptiness.
    #[verifier::external_body]
    pub(crate) fn new() -> ExpiryQueue {
        ExpiryQueue { inner: priority_queue::DoublePriorityQueue::new() }
    }

    /// Relies on `DoublePriorityQueue::clear`: removes every entry.
    #[verifier::external_body]
    pub(crate) fn clear(&mut self)
        ensures
            queue_entries(*final(self)) == no_entries(),
    {
        self.inner.clear();
    }

    /// Relies on `DoublePriorityQueue::push`: inserts the key with the given
    /// expiry, or updates the expiry when the key is already scheduled.
    #[verifier::external_body]
    pub(crate) fn schedule(&mut self, key: &String, expiry: i64)
        ensures
            queue_entries(*final(self)) == queue_entries(*old(self)).insert(key@, expiry as int),
    {
        self.inner.push(key.clone(), expiry);
    }

    /// Relies on `DoublePriorityQueue::remove`: removes the key's entry if it
    /// is scheduled; removing an absent key is a no-op.
    #[verifier::external_body]
    pub(crate) fn unschedule(&mut self, key: &String)
        ensures
            queue_entries(*final(self)) == queue_entries(*old(self)).remove(key@),
    {
        self.inner.remove(key);
    }

    /// Relies on `DoublePriorityQueue::pop_min`: removes and returns an entry
    /// with the lowest expiry, or `None` when the queue is empty. When several
    /// entries share the lowest expiry, which of them leaves is not specified.
    #[verifier::external_body]
    pub(crate) fn pop_soonest(&mut self) -> (r: Option<(String, i64)>)
        ensures
            (match r {
                None => queue_entries(*old(self)) == no_entries() && queue_entries(*final(self))
                    == queue_entries(*old(self)),
                Some(entry) => queue_entries(*old(self)).contains_key(entry.0@)
                    && queue_entries(*old(self))[entry.0@] == entry.1 as int && (forall|
                    k: Seq<char>,
                |
                    queue_entries(*old(self)).contains_key(k) ==> entry.1 as int <= queue_entries(
                        *old(self),
                    )[k]) && queue_entries(*final(self)) == queue_entries(*old(self)).remove(
                    entry.0@,
                ),
            }),
    {
        self.inner.pop_min()
    }
}

} // verus!
