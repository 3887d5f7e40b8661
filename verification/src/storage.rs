//! The storage views that executions read and write.
//!
//! The storage engine itself lives outside this crate. What the execution
//! core needs from it is a value to hand to the runtimes: a read-only
//! [`Snapshot`] of committed entries and a [`Fork`] that collects the writes
//! of one execution in the order in which they were made.

use vstd::prelude::*;

verus! {

/// One key with the value stored under it.
pub struct Entry {
    pub key: Vec<u8>,
    pub value: Vec<u8>,
}

/// Key and value of an entry as sequences of bytes.
pub open spec fn entry_view(entry: Entry) -> (Seq<u8>, Seq<u8>) {
    (entry.key@, entry.value@)
}

/// A read-only view of committed storage.
pub struct Snapshot {
    pub entries: Vec<Entry>,
}

impl Snapshot {
    /// A snapshot of empty storage.
    pub fn new() -> (snapshot: Snapshot)
        ensures
            snapshot.entries@.len() == 0,
    {
        Snapshot { entries: Vec::new() }
    }
}

/// A mutable, uncommitted view over storage, scoped to one execution.
pub struct Fork {
    pub changes: Vec<Entry>,
}

impl Fork {
    /// The writes made so far, oldest first.
    pub open spec fn writes(&self) -> Seq<(Seq<u8>, Seq<u8>)> {
        self.changes@.map_values(|entry: Entry| entry_view(entry))
    }

    /// A fork without writes.
    pub fn new() -> (fork: Fork)
        ensures
            fork.writes() == Seq::<(Seq<u8>, Seq<u8>)>::empty(),
    {
        Fork { changes: Vec::new() }
    }

    /// Records that `value` is written under `key`.
    pub fn put(&mut self, key: Vec<u8>, value: Vec<u8>)
        ensures
            final(self).writes() == old(self).writes().push((key@, value@)),
    {
        self.changes.push(Entry { key, value });
    }

    /// Number of writes made so far.
    pub fn len(&self) -> (len: usize)
        ensures
            len == self.writes().len(),
    {
        self.changes.len()
    }
}

} // verus!
