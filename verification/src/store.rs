use vstd::prelude::*;

use crate::types::Identity;

verus! {

/// Why the append log refuses a call.
#[derive(Clone, Copy, PartialEq, Eq, Structural, Debug)]
pub enum Error {
    /// The caller of a privileged operation is not the log's owner.
    AdminError,
}

/// The append-only log that records newly created raffle addresses: a
/// counter plus the records keyed by insertion order. The host persists
/// it and serializes the calls, as it does for the raffles themselves.
#[derive(Clone, Debug)]
pub struct Store {
    /// Whoever installed the log; only they may initialize it.
    pub owner: Identity,
    /// Whether `init` has prepared the record space. An insert before
    /// that would fault in the host's storage and aborts outright, so
    /// `insert` refuses to run before `init`.
    pub initialized: bool,
    /// How many records have been inserted.
    pub count: u64,
    /// The record inserted under index `i`, at position `i`.
    pub records: Vec<String>,
}

impl Store {
    /// The count matches the recorded entries.
    pub open spec fn wf(self) -> bool {
        self.count as nat == self.records@.len()
    }

    /// A fresh log owned by `owner`, not yet initialized, with nothing
    /// recorded.
    pub fn new(owner: Identity) -> (s: Store)
        ensures
            s.wf(),
            s.owner == owner,
            !s.initialized,
            s.count == 0,
            s.records@ == Seq::<String>::empty(),
    {
        Store { owner, initialized: false, count: 0, records: Vec::new() }
    }

    /// Prepares the log for inserts. Only the recorded owner may; anyone
    /// else is refused with `AdminError` and changes nothing.
    pub fn init(&mut self, caller: Identity) -> (r: Result<(), Error>)
        ensures
            r == (if caller == old(self).owner {
                Ok::<(), Error>(())
            } else {
                Err::<(), Error>(Error::AdminError)
            }),
            r is Err ==> *final(self) == *old(self),
            r is Ok ==> *final(self) == (Store { initialized: true, ..*old(self) }),
    {
        if caller != self.owner {
            return Err(Error::AdminError);
        }
        self.initialized = true;
        Ok(())
    }

    /// Appends `data` under the next index and returns that index.
    /// Indices are assigned contiguously in arrival order.
    pub fn insert(&mut self, data: String) -> (index: u64)
        requires
            old(self).wf(),
            old(self).initialized,
            old(self).count < u64::MAX,
        ensures
            final(self).wf(),
            index == old(self).count,
            final(self).count == old(self).count + 1,
            final(self).records@ == old(self).records@.push(data),
            final(self).owner == old(self).owner,
            final(self).initialized,
    {
        let index = self.count;
        self.records.push(data);
        self.count = self.count + 1;
        index
    }
}

} // verus!
