use vstd::prelude::*;

use crate::bridge::{transfer, TransferRequest};
use crate::error::Error;
use crate::ledger::TicketLedger;
use crate::selector::{select_winner, winner_index_of};
use crate::types::{Amount, CollectionRef, Identity, Party, PurseRef};

verus! {

/// What a draw settles besides recording the winner: the host must sweep
/// the whole balance of `purse` to `beneficiary`, the organizer.
#[derive(Clone, Copy, PartialEq, Eq, Debug)]
pub struct DrawSettlement {
    pub winner_index: u64,
    pub purse: PurseRef,
    pub beneficiary: Identity,
}

/// One raffle instance: the immutable configuration fixed at creation and
/// the state the five operations grow.
///
/// The host persists this state between calls and serializes the calls, so
/// each operation runs alone and to completion. Every operation that can
/// fail leaves the state untouched on failure; external work (the asset
/// transfer, the purse sweep) is returned as a request for the host to
/// perform, and a host whose call fails discards the new state, keeping
/// the whole call atomic.
#[derive(Clone, Debug)]
pub struct Raffle {
    /// Display name, fixed at creation.
    pub name: String,
    /// First moment at which tickets may be bought.
    pub start_date: u64,
    /// Last moment at which tickets may be bought; a cancel collapses it
    /// to the cancel time, closing the window.
    pub end_date: u64,
    /// The external contract holding the raffled asset.
    pub collection: CollectionRef,
    /// Which asset of the collection is raffled.
    pub nft_index: u64,
    /// The ticket price. Payment itself runs through the escrow purse
    /// outside this library; the price is recorded and handed out.
    pub price: Amount,
    /// The organizer: set once at creation, never reassigned.
    pub owner: Identity,
    /// The escrow purse handle, once one has been minted.
    pub purse: Option<PurseRef>,
    /// The ticket ledger; it exists once the asset has been deposited.
    pub ledger: Option<TicketLedger>,
    /// The winning ticket index, once drawn.
    pub winner: Option<u64>,
    /// Whether the asset has left the raffle's custody (claim or cancel).
    pub claimed: bool,
}

impl Raffle {
    /// Every recorded winner names a sold ticket. The draw records a
    /// winner below the count of its moment, and no operation ever shrinks
    /// the ledger, so every state a raffle can reach satisfies this.
    pub open spec fn winner_in_range(self) -> bool {
        match self.winner {
            Some(w) => w < self.tickets_sold(),
            None => true,
        }
    }

    /// The ledger, where it exists, counts its buyers correctly, and any
    /// recorded winner names a sold ticket. Constructors establish this
    /// and every operation preserves it.
    pub open spec fn wf(self) -> bool {
        &&& match self.ledger {
            Some(l) => l.wf(),
            None => true,
        }
        &&& self.winner_in_range()
    }

    /// How many tickets have been sold.
    pub open spec fn tickets_sold(self) -> nat {
        match self.ledger {
            Some(l) => l.count as nat,
            None => 0,
        }
    }

    /// Everything but the ledger is the same in `post` as in `pre`.
    pub open spec fn only_ledger_differs(pre: Raffle, post: Raffle) -> bool {
        &&& post.name == pre.name
        &&& post.start_date == pre.start_date
        &&& post.end_date == pre.end_date
        &&& post.collection == pre.collection
        &&& post.nft_index == pre.nft_index
        &&& post.price == pre.price
        &&& post.owner == pre.owner
        &&& post.purse == pre.purse
        &&& post.winner == pre.winner
        &&& post.claimed == pre.claimed
    }

    /// Everything but the winner record is the same in `post` as in `pre`.
    pub open spec fn only_winner_differs(pre: Raffle, post: Raffle) -> bool {
        &&& post.name == pre.name
        &&& post.start_date == pre.start_date
        &&& post.end_date == pre.end_date
        &&& post.collection == pre.collection
        &&& post.nft_index == pre.nft_index
        &&& post.price == pre.price
        &&& post.owner == pre.owner
        &&& post.purse == pre.purse
        &&& post.ledger == pre.ledger
        &&& post.claimed == pre.claimed
    }

    /// Everything but the claimed flag is the same in `post` as in `pre`.
    pub open spec fn only_claimed_differs(pre: Raffle, post: Raffle) -> bool {
        &&& post.name == pre.name
        &&& post.start_date == pre.start_date
        &&& post.end_date == pre.end_date
        &&& post.collection == pre.collection
        &&& post.nft_index == pre.nft_index
        &&& post.price == pre.price
        &&& post.owner == pre.owner
        &&& post.purse == pre.purse
        &&& post.ledger == pre.ledger
        &&& post.winner == pre.winner
    }

    /// Everything but the claimed flag and the end time is the same in
    /// `post` as in `pre`.
    pub open spec fn only_claimed_and_end_differ(pre: Raffle, post: Raffle) -> bool {
        &&& post.name == pre.name
        &&& post.start_date == pre.start_date
        &&& post.collection == pre.collection
        &&& post.nft_index == pre.nft_index
        &&& post.price == pre.price
        &&& post.owner == pre.owner
        &&& post.purse == pre.purse
        &&& post.ledger == pre.ledger
        &&& post.winner == pre.winner
    }

    /// A fresh raffle: configuration recorded, nothing sold, nothing
    /// drawn, the asset not yet in custody.
    pub fn new(
        name: String,
        start_date: u64,
        end_date: u64,
        collection: CollectionRef,
        nft_index: u64,
        price: Amount,
        owner: Identity,
    ) -> (r: Raffle)
        requires
            start_date <= end_date,
        ensures
            r.wf(),
            r.name == name,
            r.start_date == start_date,
            r.end_date == end_date,
            r.collection == collection,
            r.nft_index == nft_index,
            r.price == price,
            r.owner == owner,
            r.purse is None,
            r.ledger is None,
            r.winner is None,
            !r.claimed,
    {
        Raffle {
            name,
            start_date,
            end_date,
            collection,
            nft_index,
            price,
            owner,
            purse: None,
            ledger: None,
            winner: None,
            claimed: false,
        }
    }

    /// Whether `caller` may run a privileged operation: only the recorded
    /// organizer may.
    pub open spec fn admin_check(self, caller: Identity) -> Result<(), Error> {
        if caller == self.owner {
            Ok(())
        } else {
            Err(Error::AdminError)
        }
    }

    /// Verifies that `caller` is the organizer. This is the first check of
    /// every privileged operation; nothing happens before it.
    pub fn check_admin_account(&self, caller: Identity) -> (r: Result<(), Error>)
        ensures
            r == self.admin_check(caller),
    {
        if caller == self.owner {
            Ok(())
        } else {
            Err(Error::AdminError)
        }
    }

    /// The recorded ticket price.
    pub fn get_price(&self) -> (r: Amount)
        ensures
            r == self.price,
    {
        self.price
    }

    /// Returns the escrow purse handle, recording `fresh` as the purse if
    /// none exists yet. Idempotent after the first call: once a handle is
    /// recorded, every later call returns that handle and changes nothing.
    pub fn get_purse(&mut self, fresh: PurseRef) -> (r: PurseRef)
        ensures
            final(self).purse == Some(r),
            old(self).purse matches Some(p) ==> r == p && *final(self) == *old(self),
            old(self).purse is None ==> r == fresh && final(self).purse == Some(fresh)
                && Self::only_purse_differs(*old(self), *final(self)),
    {
        match self.purse {
            Some(p) => p,
            None => {
                self.purse = Some(fresh);
                fresh
            },
        }
    }

    /// Everything but the purse handle is the same in `post` as in `pre`.
    pub open spec fn only_purse_differs(pre: Raffle, post: Raffle) -> bool {
        &&& post.name == pre.name
        &&& post.start_date == pre.start_date
        &&& post.end_date == pre.end_date
        &&& post.collection == pre.collection
        &&& post.nft_index == pre.nft_index
        &&& post.price == pre.price
        &&& post.owner == pre.owner
        &&& post.ledger == pre.ledger
        &&& post.winner == pre.winner
        &&& post.claimed == pre.claimed
    }

    /// What a deposit decides, given who called and whom the asset
    /// contract reports as approved for the asset.
    pub open spec fn deposit_result(self, caller: Identity, approved: Option<Identity>) -> Result<
        TransferRequest,
        Error,
    > {
        if caller != self.owner {
            Err(Error::AdminError)
        } else if self.ledger is Some {
            Err(Error::FatalError)
        } else if approved is None {
            Err(Error::NotApproved)
        } else {
            Ok(
                TransferRequest {
                    contract_hash: self.collection,
                    sender: Party::Account(caller),
                    recipient: Party::RaffleContract,
                    token_id: self.nft_index,
                },
            )
        }
    }

    /// Takes the asset into custody and opens the ledger.
    ///
    /// Only the organizer may deposit, only once (a deposit on a raffle
    /// whose ledger already exists is refused outright, so a re-deposit
    /// can never wipe a grown ledger), and only with the asset approved
    /// for transfer (`approved` is the asset contract's answer, fetched by
    /// the host just before this call). On success the returned request
    /// moves the asset from the organizer to the raffle, and the ticket
    /// ledger starts empty.
    pub fn deposit(&mut self, caller: Identity, approved: Option<Identity>) -> (r: Result<
        TransferRequest,
        Error,
    >)
        requires
            old(self).wf(),
        ensures
            final(self).wf(),
            r == old(self).deposit_result(caller, approved),
            r is Err ==> *final(self) == *old(self),
            r is Ok ==> (final(self).ledger matches Some(l) && l.count == 0 && l.buyers@
                == Seq::<Identity>::empty()),
            r is Ok ==> Self::only_ledger_differs(*old(self), *final(self)),
    {
        if let Err(e) = self.check_admin_account(caller) {
            return Err(e);
        }
        if self.ledger.is_some() {
            return Err(Error::FatalError);
        }
        if approved.is_none() {
            return Err(Error::NotApproved);
        }
        let request = transfer(
            self.collection,
            Party::Account(caller),
            Party::RaffleContract,
            self.nft_index,
        );
        self.ledger = Some(TicketLedger::new());
        Ok(request)
    }

    /// What a ticket purchase at `now` decides.
    pub open spec fn buy_result(self, now: u64) -> Result<u64, Error> {
        if now > self.end_date {
            Err(Error::TimeError)
        } else if self.start_date > now {
            Err(Error::TimeError)
        } else {
            match self.ledger {
                None => Err(Error::FatalError),
                Some(l) => if l.count == u64::MAX {
                    Err(Error::FatalError)
                } else {
                    Ok(l.count)
                },
            }
        }
    }

    /// Sells a ticket to `buyer` at time `now` and returns the assigned
    /// ticket index.
    ///
    /// The purchase is accepted exactly when `start_date <= now <=
    /// end_date` and the ledger exists and can still count one more
    /// ticket; the indices assigned by successive successful purchases are
    /// `0, 1, 2, ...` in call order. A call outside the window fails with
    /// `TimeError` and changes nothing. Payment is not verified here: the
    /// deposit front-end is trusted to have moved the price into the
    /// escrow purse first.
    pub fn buy_ticket(&mut self, buyer: Identity, now: u64) -> (r: Result<u64, Error>)
        requires
            old(self).wf(),
        ensures
            final(self).wf(),
            r == old(self).buy_result(now),
            r is Err ==> *final(self) == *old(self),
            r matches Ok(index) ==> ({
                &&& old(self).ledger matches Some(l0)
                &&& final(self).ledger matches Some(l)
                &&& index == l0.count
                &&& l.count == l0.count + 1
                &&& l.buyers@ == l0.buyers@.push(buyer)
                &&& Self::only_ledger_differs(*old(self), *final(self))
            }),
    {
        if now > self.end_date {
            return Err(Error::TimeError);
        }
        if self.start_date > now {
            return Err(Error::TimeError);
        }
        match &mut self.ledger {
            None => Err(Error::FatalError),
            Some(l) => {
                if l.count == u64::MAX {
                    Err(Error::FatalError)
                } else {
                    Ok(l.sell(buyer))
                }
            },
        }
    }

    /// What a draw by `caller` at `now` decides.
    pub open spec fn draw_result(self, caller: Identity, now: u64) -> Result<
        DrawSettlement,
        Error,
    > {
        if caller != self.owner {
            Err(Error::AdminError)
        } else if self.end_date > now {
            Err(Error::TimeError)
        } else if self.winner is Some {
            Err(Error::DrawExists)
        } else {
            match self.ledger {
                None => Err(Error::FatalError),
                Some(l) => if l.count == 0 {
                    Err(Error::WinnerError)
                } else {
                    match self.purse {
                        None => Err(Error::FatalError),
                        Some(p) => Ok(
                            DrawSettlement {
                                winner_index: winner_index_of(l.count, now) as u64,
                                purse: p,
                                beneficiary: self.owner,
                            },
                        ),
                    }
                },
            }
        }
    }

    /// Draws the winner and settles the escrow.
    ///
    /// Only the organizer may draw, only once `now` has reached the end
    /// time, only once (a recorded winner is never overwritten, so the
    /// purse is never swept twice), and only with at least one ticket
    /// sold. The winner is the pseudo-random index derived from `now`, and
    /// the returned settlement tells the host to sweep the whole purse
    /// balance to the organizer.
    pub fn draw(&mut self, caller: Identity, now: u64) -> (r: Result<DrawSettlement, Error>)
        requires
            old(self).wf(),
        ensures
            final(self).wf(),
            r == old(self).draw_result(caller, now),
            r is Err ==> *final(self) == *old(self),
            r matches Ok(s) ==> final(self).winner == Some(s.winner_index) && s.winner_index
                < old(self).tickets_sold() && Self::only_winner_differs(*old(self), *final(self)),
    {
        if let Err(e) = self.check_admin_account(caller) {
            return Err(e);
        }
        if self.end_date > now {
            return Err(Error::TimeError);
        }
        if self.winner.is_some() {
            return Err(Error::DrawExists);
        }
        let count = match &self.ledger {
            None => {
                return Err(Error::FatalError);
            },
            Some(l) => l.count,
        };
        let random_winner = match select_winner(count, now) {
            Ok(w) => w,
            Err(e) => {
                return Err(e);
            },
        };
        let purse = match self.purse {
            None => {
                return Err(Error::FatalError);
            },
            Some(p) => p,
        };
        self.winner = Some(random_winner);
        Ok(DrawSettlement { winner_index: random_winner, purse, beneficiary: self.owner })
    }

    /// What a claim by `caller` decides.
    pub open spec fn claim_result(self, caller: Identity) -> Result<TransferRequest, Error> {
        match self.ledger {
            None => Err(Error::FatalError),
            Some(l) => match self.winner {
                None => Err(Error::FatalError),
                Some(w) => if w >= l.count {
                    Err(Error::WinnerError)
                } else if l.buyers@[w as int] != caller {
                    Err(Error::WinnerError)
                } else if self.claimed {
                    Err(Error::WinnerAlreadyExist)
                } else {
                    Ok(
                        TransferRequest {
                            contract_hash: self.collection,
                            sender: Party::RaffleContract,
                            recipient: Party::Account(caller),
                            token_id: self.nft_index,
                        },
                    )
                },
            },
        }
    }

    /// Hands the asset to the winner.
    ///
    /// Anyone may call, but the claim succeeds only for the identity
    /// recorded at the winning ticket index, and only while the asset is
    /// still in custody; every other caller gets `WinnerError` and no
    /// transfer. On success the returned request moves the asset from the
    /// raffle to the caller and the claimed flag is set.
    pub fn claim(&mut self, caller: Identity) -> (r: Result<TransferRequest, Error>)
        requires
            old(self).wf(),
        ensures
            final(self).wf(),
            r == old(self).claim_result(caller),
            r is Err ==> *final(self) == *old(self),
            r is Ok ==> final(self).claimed && Self::only_claimed_differs(
                *old(self),
                *final(self),
            ),
    {
        let (winner, count) = match (&self.ledger, &self.winner) {
            (Some(l), Some(w)) => (*w, l.count),
            _ => {
                return Err(Error::FatalError);
            },
        };
        let winner_partipiciant = match &self.ledger {
            Some(l) => match l.buyer_at(winner) {
                Some(b) => b,
                None => {
                    return Err(Error::WinnerError);
                },
            },
            None => {
                return Err(Error::FatalError);
            },
        };
        if winner_partipiciant != caller {
            return Err(Error::WinnerError);
        }
        if self.claimed {
            return Err(Error::WinnerAlreadyExist);
        }
        let request = transfer(
            self.collection,
            Party::RaffleContract,
            Party::Account(caller),
            self.nft_index,
        );
        self.claimed = true;
        Ok(request)
    }

    /// What a cancel by `caller` at `now` decides.
    pub open spec fn cancel_result(self, caller: Identity, now: u64) -> Result<
        TransferRequest,
        Error,
    > {
        if caller != self.owner {
            Err(Error::AdminError)
        } else if self.end_date < now {
            Err(Error::TimeError)
        } else {
            match self.ledger {
                None => Err(Error::FatalError),
                Some(l) => if l.count > 0 {
                    Err(Error::CancelError)
                } else {
                    Ok(
                        TransferRequest {
                            contract_hash: self.collection,
                            sender: Party::RaffleContract,
                            recipient: Party::Account(caller),
                            token_id: self.nft_index,
                        },
                    )
                },
            }
        }
    }

    /// Abandons the raffle while it is still possible.
    ///
    /// Only the organizer may cancel, only while the end time has not
    /// passed, and only with no tickets sold; a single sold ticket makes
    /// every cancel fail with `CancelError`. On success the returned
    /// request moves the asset back to the organizer, the claimed flag is
    /// set, and the end time collapses to `now`, closing the window.
    pub fn cancel(&mut self, caller: Identity, now: u64) -> (r: Result<TransferRequest, Error>)
        requires
            old(self).wf(),
        ensures
            final(self).wf(),
            r == old(self).cancel_result(caller, now),
            r is Err ==> *final(self) == *old(self),
            r is Ok ==> final(self).claimed && final(self).end_date == now
                && Self::only_claimed_and_end_differ(*old(self), *final(self)),
    {
        if let Err(e) = self.check_admin_account(caller) {
            return Err(e);
        }
        if self.end_date < now {
            return Err(Error::TimeError);
        }
        let count = match &self.ledger {
            None => {
                return Err(Error::FatalError);
            },
            Some(l) => l.count,
        };
        if count > 0 {
            return Err(Error::CancelError);
        }
        let request = transfer(
            self.collection,
            Party::RaffleContract,
            Party::Account(caller),
            self.nft_index,
        );
        self.claimed = true;
        self.end_date = now;
        Ok(request)
    }
}

/// A purchase outside the window is always refused with `TimeError`,
/// whatever else the state holds.
pub proof fn lemma_window_enforced(raffle: Raffle, now: u64)
    requires
        now < raffle.start_date || now > raffle.end_date,
    ensures
        raffle.buy_result(now) == Err::<u64, Error>(Error::TimeError),
{
}

/// Ticket indices are handed out sequentially: a successful purchase is
/// assigned exactly the number of tickets sold before it.
pub proof fn lemma_ticket_indices_sequential(raffle: Raffle, now: u64, index: u64)
    requires
        raffle.buy_result(now) == Ok::<u64, Error>(index),
    ensures
        index == raffle.tickets_sold(),
{
}

/// A draw before the end time is refused with `TimeError`; a draw over an
/// open ledger with no tickets sold is refused with `WinnerError`, never
/// left to fault on the modulus. The second clause holds on every
/// well-formed state: a recorded winner names a sold ticket, so zero sold
/// tickets means no winner is recorded and the zero-count refusal answers.
pub proof fn lemma_draw_preconditions(raffle: Raffle, caller: Identity, now: u64)
    requires
        raffle.wf(),
        caller == raffle.owner,
    ensures
        now < raffle.end_date ==> raffle.draw_result(caller, now) == Err::<DrawSettlement, Error>(
            Error::TimeError,
        ),
        (now >= raffle.end_date && (raffle.ledger matches Some(l) && l.count == 0))
            ==> raffle.draw_result(caller, now) == Err::<DrawSettlement, Error>(Error::WinnerError),
{
}

/// A claim succeeds only for the identity recorded at the winning ticket
/// index; with a winner on record, any other caller gets `WinnerError`.
pub proof fn lemma_claim_authorization(raffle: Raffle, caller: Identity)
    ensures
        raffle.claim_result(caller) is Ok ==> (raffle.ledger matches Some(l)
            && raffle.winner matches Some(w) && w < l.count && l.buyers@[w as int] == caller
            && !raffle.claimed),
        (raffle.ledger matches Some(l) && raffle.winner matches Some(w) && w < l.count
            && l.buyers@[w as int] != caller) ==> raffle.claim_result(caller) == Err::<
            TransferRequest,
            Error,
        >(Error::WinnerError),
{
}

/// One sold ticket blocks cancellation for good: on any state with a
/// positive ticket count a cancel never succeeds, and for the organizer
/// inside the window it fails with `CancelError` exactly.
pub proof fn lemma_sale_blocks_cancel(raffle: Raffle, caller: Identity, now: u64)
    requires
        raffle.tickets_sold() > 0,
    ensures
        raffle.cancel_result(caller, now) is Err,
        caller == raffle.owner && now <= raffle.end_date ==> raffle.cancel_result(caller, now)
            == Err::<TransferRequest, Error>(Error::CancelError),
{
}

/// The ticket count never decreases: a deposit succeeds only while no
/// ledger exists yet, so it opens an empty ledger rather than wiping a
/// grown one, and every other operation's contract leaves the ledger alone
/// or grows it by one.
pub proof fn lemma_deposit_only_opens(raffle: Raffle, caller: Identity, approved: Option<Identity>)
    ensures
        raffle.deposit_result(caller, approved) is Ok ==> raffle.ledger is None,
{
}

/// One successful ticket purchase, exactly as `buy_ticket`'s contract
/// describes it: `pre` admits a purchase at `now`, `index` is the assigned
/// ticket, and `post` is the state the call leaves behind.
pub open spec fn successful_sale(
    pre: Raffle,
    buyer: Identity,
    now: u64,
    index: u64,
    post: Raffle,
) -> bool {
    &&& pre.buy_result(now) == Ok::<u64, Error>(index)
    &&& pre.ledger matches Some(l0)
    &&& post.ledger matches Some(l)
    &&& l.count == l0.count + 1
    &&& l.buyers@ == l0.buyers@.push(buyer)
    &&& Raffle::only_ledger_differs(pre, post)
}

/// Ticket monotonicity over whole runs: any number of successful
/// purchases from a freshly opened ledger are assigned exactly the indices
/// `0, 1, 2, ...` in call order, with no gaps and no duplicates, and the
/// ledger then maps each index to that purchase's buyer. `states[i]` is
/// the raffle before the `i`-th purchase; each step is one successful
/// `buy_ticket` call as its contract states it.
pub proof fn lemma_ticket_monotonicity(
    states: Seq<Raffle>,
    buyers: Seq<Identity>,
    times: Seq<u64>,
    indices: Seq<u64>,
)
    requires
        states.len() == buyers.len() + 1,
        times.len() == buyers.len(),
        indices.len() == buyers.len(),
        states[0].wf(),
        states[0].ledger matches Some(l) && l.count == 0,
        forall|i: int| 0 <= i < buyers.len() ==> successful_sale(
            states[i],
            buyers[i],
            times[i],
            indices[i],
            states[i + 1],
        ),
    ensures
        forall|i: int| 0 <= i < buyers.len() ==> indices[i] == i,
        states[buyers.len() as int].ledger matches Some(l) && l.count == buyers.len()
            && l.buyers@ == buyers,
    decreases buyers.len(),
{
    if buyers.len() == 0 {
        let l = states[0].ledger.unwrap();
        assert(l.buyers@ =~= buyers);
    } else {
        let k = buyers.len() - 1;
        assert forall|i: int| 0 <= i < k implies successful_sale(
            states.drop_last()[i],
            buyers.drop_last()[i],
            times.drop_last()[i],
            indices.drop_last()[i],
            states.drop_last()[i + 1],
        ) by {
            assert(successful_sale(states[i], buyers[i], times[i], indices[i], states[i + 1]));
        }
        lemma_ticket_monotonicity(
            states.drop_last(),
            buyers.drop_last(),
            times.drop_last(),
            indices.drop_last(),
        );
        assert(successful_sale(states[k], buyers[k], times[k], indices[k], states[k + 1]));
        let before = states[k].ledger.unwrap();
        let after = states[k + 1].ledger.unwrap();
        assert(before.count == k);
        assert(after.buyers@ =~= buyers);
        assert forall|i: int| 0 <= i < buyers.len() implies indices[i] == i by {
            if i < k {
                assert(indices.drop_last()[i] == i);
            }
        }
    }
}

} // verus!
