use vstd::prelude::*;

verus! {

/// Every way a ledger operation can fail. A failed operation changes nothing.
#[derive(Clone, Copy, Debug, PartialEq, Eq, Structural)]
pub enum LedgerError {
    UnknownIdentity,
    NotVerified,
    AlreadyKnown,
    InvalidAmount,
    InsufficientFunds,
    InvalidName,
    LimitExceeded,
}

} // verus!
