use vstd::prelude::*;

verus! {

/// Every way a raffle operation can refuse to run. Each failure aborts the
/// whole call: an operation that returns an error leaves the state exactly
/// as it found it.
#[derive(Clone, Copy, PartialEq, Eq, Structural, Debug)]
pub enum Error {
    /// A storage fault: an entry the operation relies on does not exist
    /// yet, an entry that must be written once would be overwritten (a
    /// deposit on a raffle whose ledger already exists), or a counter
    /// would overflow. The host aborts such a call outright.
    FatalError,
    /// The caller of a privileged operation is not the organizer.
    AdminError,
    /// The call came outside its required time window.
    TimeError,
    /// A claim by someone other than the recorded winner, or a draw with
    /// no tickets sold.
    WinnerError,
    /// A deposit without a prior transfer approval for the asset.
    NotApproved,
    /// A cancel after tickets have already been sold.
    CancelError,
    /// A draw when a winner is already recorded.
    DrawExists,
    /// A claim after the asset has already left the raffle's custody.
    WinnerAlreadyExist,
}

impl Error {
    /// The stable numeric code under which the host reports this failure
    /// to callers.
    pub fn code(self) -> (r: u16)
        ensures
            r == self.code_spec(),
    {
        match self {
            Error::FatalError => 0,
            Error::AdminError => 1,
            Error::TimeError => 2,
            Error::WinnerError => 3,
            Error::NotApproved => 4,
            Error::CancelError => 5,
            Error::DrawExists => 6,
            Error::WinnerAlreadyExist => 7,
        }
    }

    pub open spec fn code_spec(self) -> u16 {
        match self {
            Error::FatalError => 0,
            Error::AdminError => 1,
            Error::TimeError => 2,
            Error::WinnerError => 3,
            Error::NotApproved => 4,
            Error::CancelError => 5,
            Error::DrawExists => 6,
            Error::WinnerAlreadyExist => 7,
        }
    }
}

} // verus!
