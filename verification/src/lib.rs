//! An escrow-backed lottery around a single custodied asset.
//!
//! An organizer locks one non-fungible asset, participants buy numbered
//! tickets, and after the closing time a pseudo-random winner derived from
//! the draw-time clock may redeem the asset. The state machine, the ticket
//! ledger, the winner selection and the custody bookkeeping live here with
//! full contracts; the host that persists state, moves funds and talks to
//! the asset contract drives this library from outside.

pub mod bridge;
pub mod error;
pub mod ledger;
pub mod raffle;
pub mod selector;
pub mod store;
pub mod types;

pub use bridge::{ApprovalQuery, TransferRequest};
pub use error::Error;
pub use ledger::TicketLedger;
pub use raffle::{DrawSettlement, Raffle};
pub use types::{Amount, CollectionRef, Identity, Party, PurseRef};
