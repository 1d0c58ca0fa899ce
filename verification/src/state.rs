//! The per-market state record.

use vstd::prelude::*;
use crate::constants::FEE_DENOMINATOR;
use crate::keys::Pubkey;

verus! {

/// One market-maker record per market.
///
/// `id` is the market identifier and the sole seed of the record's storage
/// address; `admin` may administer the market but holds no custody; `fee` is
/// the trading fee in basis points, fixed at creation; `lock` is the logical
/// re-entrancy guard that mutating operations toggle.
#[derive(Clone, Copy, Debug)]
pub struct Amm {
    pub id: Pubkey,
    pub admin: Pubkey,
    pub fee: u16,
    pub lock: bool,
}

impl Amm {
    /// Well-formedness: the fee is a valid basis-point rate, strictly below
    /// 100%.
    pub open spec fn wf(self) -> bool {
        self.fee < FEE_DENOMINATOR
    }
}

} // verus!
