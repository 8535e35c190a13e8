//! Connection-scoped ambient metadata: a key–value container created once per
//! connection, written by the work of the current turn and cleared before the
//! next turn starts. Because turns are strictly sequential, no concurrent
//! access is possible; the clear-on-reuse contract is stated here explicitly.

use vstd::prelude::*;

verus! {

/// Ambient key–value metadata for one connection.
pub struct MetadataScope {
    /// Entries recorded during the current turn, in insertion order.
    pub entries: Vec<(String, String)>,
}

impl MetadataScope {
    /// An empty scope, born with the connection.
    pub fn new() -> (r: MetadataScope)
        ensures
            r.entries@.len() == 0,
    {
        MetadataScope { entries: Vec::new() }
    }

    /// Record one key–value pair for the current turn.
    pub fn insert(&mut self, key: String, value: String)
        ensures
            final(self).entries@ == old(self).entries@.push((key, value)),
    {
        self.entries.push((key, value));
    }

    /// Drop everything the finished turn recorded.
    pub fn clear(&mut self)
        ensures
            final(self).entries@.len() == 0,
    {
        self.entries.clear();
    }

    /// How many entries the current turn has recorded.
    pub fn len(&self) -> (n: usize)
        ensures
            n == self.entries@.len(),
    {
        self.entries.len()
    }
}

} // verus!
