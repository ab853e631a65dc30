use vstd::prelude::*;

use crate::types::{CollectionRef, Party};

verus! {

/// A fully marshalled request to the external asset contract: move asset
/// `token_id` of the collection at `contract_hash` from `sender` to
/// `recipient`. The host performs the call; a refusal by the asset
/// contract aborts the operation that produced the request.
#[derive(Clone, Copy, PartialEq, Eq, Debug)]
pub struct TransferRequest {
    pub contract_hash: CollectionRef,
    pub sender: Party,
    pub recipient: Party,
    pub token_id: u64,
}

/// A fully marshalled query to the external asset contract: who, if
/// anyone, `owner` has approved to move asset `token_id`.
#[derive(Clone, Copy, PartialEq, Eq, Debug)]
pub struct ApprovalQuery {
    pub contract_hash: CollectionRef,
    pub owner: Party,
    pub token_id: u64,
}

/// Marshals the arguments of an asset transfer.
pub fn transfer(contract_hash: CollectionRef, sender: Party, recipient: Party, token_id: u64) -> (r:
    TransferRequest)
    ensures
        r == (TransferRequest { contract_hash, sender, recipient, token_id }),
{
    TransferRequest { contract_hash, sender, recipient, token_id }
}

/// Marshals the arguments of an approval lookup.
pub fn get_approved(contract_hash: CollectionRef, owner: Party, token_id: u64) -> (r: ApprovalQuery)
    ensures
        r == (ApprovalQuery { contract_hash, owner, token_id }),
{
    ApprovalQuery { contract_hash, owner, token_id }
}

} // verus!
