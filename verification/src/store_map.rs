use vstd::prelude::*;

use crate::record::StoredValue;

verus! {

/// The reader/writer-split concurrent map: a pair of evmap handles over one
/// map from keys to counter records. Writes made through the write handle
/// stay invisible to the read handle until they are published; Verus reasons
/// about the pair through the two views `map_contents` and `map_published`.
///
/// Every write goes through `write` (evmap's `update`, which replaces the
/// whole value-bag) or `erase` (evmap's `empty`), so each key holds at most
/// one value and the map behaves as an ordinary single-valued map.
#[verifier::external_body]
pub struct MapStore {
    write_handle: evmap::WriteHandle<String, Box<StoredValue>>,
    read_handle: evmap::ReadHandle<String, Box<StoredValue>>,
}

/// What the map will hold once every write so far is published: the writer's
/// view of the contents.
pub uninterp spec fn map_contents(m: MapStore) -> Map<Seq<char>, StoredValue>;

/// What readers can see now: the contents as of the last publish.
pub uninterp spec fn map_published(m: MapStore) -> Map<Seq<char>, StoredValue>;

/// No records at all.
pub open spec fn no_records() -> Map<Seq<char>, StoredValue> {
    Map::empty()
}

impl MapStore {
    /// Relies on `evmap::new`. Nothing is assumed of the fresh pair of
    /// handles; `clear` and `publish` establish emptiness.
    #[verifier::external_body]
    pub(crate) fn new() -> MapStore {
        let (read_handle, write_handle) = evmap::new();
        MapStore { write_handle, read_handle }
    }

    /// Relies on `evmap::WriteHandle::purge`: removes every value-bag; the
    /// removals reach readers only at the next publish.
    #[verifier::external_body]
    pub(crate) fn clear(&mut self)
        ensures
            map_contents(*final(self)) == no_records(),
            map_published(*final(self)) == map_published(*old(self)),
    {
        self.write_handle.purge();
    }

    /// Relies on `evmap::ReadHandle::contains_key`: readers see only writes
    /// that have been published.
    #[verifier::external_body]
    pub(crate) fn published_contains(&self, key: &String) -> (r: bool)
        ensures
            r == map_published(*self).contains_key(key@),
    {
        self.read_handle.contains_key(key)
    }

    /// Relies on `evmap::ReadHandle::get_one`: returns a value stored under
    /// the key as of the last publish. Since all writes replace the key's
    /// whole value-bag, the key holds at most one value and `get_one` returns
    /// exactly the published record.
    #[verifier::external_body]
    pub(crate) fn published_get(&self, key: &String) -> (r: Option<StoredValue>)
        ensures
            (match r {
                Some(v) => map_published(*self).contains_key(key@) && v == map_published(
                    *self,
                )[key@],
                None => !map_published(*self).contains_key(key@),
            }),
    {
        self.read_handle.get_one(key).map(|v| **v)
    }

    /// Relies on `evmap::WriteHandle::update`: replaces the value-bag of the
    /// key with the one given value; the change reaches readers only at the
    /// next publish.
    #[verifier::external_body]
    pub(crate) fn write(&mut self, key: &String, value: StoredValue)
        ensures
            map_contents(*final(self)) == map_contents(*old(self)).insert(key@, value),
            map_published(*final(self)) == map_published(*old(self)),
    {
        self.write_handle.update(key.clone(), Box::new(value));
    }

    /// Relies on `evmap::WriteHandle::empty`: removes the key's value-bag;
    /// the removal reaches readers only at the next publish. Removing an
    /// absent key is a no-op.
    #[verifier::external_body]
    pub(crate) fn erase(&mut self, key: &String)
        ensures
            map_contents(*final(self)) == map_contents(*old(self)).remove(key@),
            map_published(*final(self)) == map_published(*old(self)),
    {
        self.write_handle.empty(key.clone());
    }

    /// Relies on `evmap::WriteHandle::refresh`: makes every write so far
    /// visible to readers.
    #[verifier::external_body]
    pub(crate) fn publish(&mut self)
        ensures
            map_contents(*final(self)) == map_contents(*old(self)),
            map_published(*final(self)) == map_contents(*old(self)),
    {
        self.write_handle.refresh();
    }
}

} // verus!
