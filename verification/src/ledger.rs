use vstd::prelude::*;

use crate::types::Identity;

verus! {

/// The ticket ledger: buyer identities keyed by purchase order.
///
/// Ticket indices are `0 .. count`, contiguous and assigned in arrival
/// order; the count only ever grows while the ledger lives.
#[derive(Clone, Debug)]
pub struct TicketLedger {
    /// How many tickets have been sold.
    pub count: u64,
    /// The buyer of ticket `i`, at position `i`.
    pub buyers: Vec<Identity>,
}

impl TicketLedger {
    /// The count matches the recorded buyers, so every index below it
    /// names exactly one buyer.
    pub open spec fn wf(self) -> bool {
        self.count as nat == self.buyers@.len()
    }

    /// An empty ledger: no tickets sold yet.
    pub fn new() -> (l: TicketLedger)
        ensures
            l.wf(),
            l.count == 0,
            l.buyers@ == Seq::<Identity>::empty(),
    {
        TicketLedger { count: 0, buyers: Vec::new() }
    }

    /// Sells the next ticket: records `buyer` under the current count and
    /// advances the count by one. The assigned index is returned.
    pub fn sell(&mut self, buyer: Identity) -> (index: u64)
        requires
            old(self).wf(),
            old(self).count < u64::MAX,
        ensures
            final(self).wf(),
            index == old(self).count,
            final(self).count == old(self).count + 1,
            final(self).buyers@ == old(self).buyers@.push(buyer),
    {
        let index = self.count;
        self.buyers.push(buyer);
        self.count = self.count + 1;
        index
    }

    /// The buyer recorded under `index`, if a ticket with that index has
    /// been sold.
    pub fn buyer_at(&self, index: u64) -> (r: Option<Identity>)
        requires
            self.wf(),
        ensures
            index < self.count ==> r == Some(self.buyers@[index as int]),
            index >= self.count ==> r is None,
    {
        if index < self.count {
            let n = self.buyers.len();
            assert(index < n);
            Some(self.buyers[index as usize])
        } else {
            None
        }
    }
}

} // verus!
