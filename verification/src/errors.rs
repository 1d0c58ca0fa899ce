//! Failure taxonomy of the accounting core.

use vstd::prelude::*;

verus! {

/// Every way a market operation can fail.
#[derive(Clone, Copy, Debug, PartialEq, Eq, Structural)]
pub enum AmmError {
    /// A record already occupies the storage slot of this market identifier;
    /// creation must fail rather than merge or overwrite.
    AlreadyExists,
    /// The configured fee is not strictly below 10000 basis points; a
    /// deployment-configuration defect, checked defensively at creation.
    InvalidFee,
    /// The payer cannot cover the allocation cost of the new record.
    InsufficientFunds,
    /// A mutating operation found the record's lock already held; the caller
    /// may retry later.
    MarketLocked,
}

} // verus!
