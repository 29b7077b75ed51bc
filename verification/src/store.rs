//! The single-slot record store. It models the one well-known file the
//! transport writes: the whole contents are replaced on every write and
//! hold at most one encoded record. The surrounding application is free
//! to persist the slot's bytes and load them back.

use vstd::prelude::*;

verus! {

/// Holds the bytes of at most one encoded record. A write replaces the
/// previous contents entirely.
pub struct LogStore {
    slot: Option<Vec<u8>>,
}

impl View for LogStore {
    type V = Option<Seq<u8>>;

    closed spec fn view(&self) -> Option<Seq<u8>> {
        match self.slot {
            Some(ref b) => Some(b@),
            None => None,
        }
    }
}

impl LogStore {
    /// An empty store: nothing has been written yet.
    pub fn new() -> (r: Self)
        ensures
            r@ is None,
    {
        Self { slot: None }
    }

    /// Replaces the stored contents with exactly `bytes`.
    pub fn put(&mut self, bytes: Vec<u8>)
        ensures
            final(self)@ == Some(bytes@),
    {
        self.slot = Some(bytes);
    }

    /// The current contents, if anything has been stored.
    pub fn contents(&self) -> (r: Option<&Vec<u8>>)
        ensures
            r is Some <==> self@ is Some,
            r is Some ==> r->0@ == self@->0,
    {
        match &self.slot {
            Some(b) => Some(b),
            None => None,
        }
    }
}

} // verus!
