//! The creation handler: validates inputs and initialises a new market
//! record exactly once per identifier.

use vstd::prelude::*;
use crate::constants::{FEE, FEE_DENOMINATOR};
use crate::errors::AmmError;
use crate::keys::Pubkey;
use crate::ledger::{Ledger, Payer};
use crate::state::Amm;

verus! {

/// The accounts taking part in market creation: the nominated admin (read
/// only; any party may nominate any admin, no ownership proof is asked) and
/// the payer funding the record's allocation (a verified signer).
#[derive(Clone, Copy, Debug)]
pub struct CreateAmm {
    pub admin: Pubkey,
    pub payer: Payer,
}

/// Creates the market record for `id` with the configured fee rate.
///
/// Succeeds exactly when no record is bound to `id` yet and the payer can
/// cover the allocation cost; the new record then carries `id`, the
/// nominated admin, the fee constant, and an unlocked flag.
pub fn create_amm(ledger: &mut Ledger, accounts: &mut CreateAmm, id: Pubkey) -> (r: Result<
    Amm,
    AmmError,
>)
    requires
        old(ledger).wf(),
        old(accounts).payer.is_signer,
    ensures
        final(ledger).wf(),
        final(ledger).alloc_cost_spec() == old(ledger).alloc_cost_spec(),
        final(accounts).admin == old(accounts).admin,
        final(accounts).payer.address == old(accounts).payer.address,
        final(accounts).payer.is_signer == old(accounts).payer.is_signer,
        old(ledger).contains_id(id@) ==> r == Err::<Amm, AmmError>(AmmError::AlreadyExists),
        !old(ledger).contains_id(id@) && old(accounts).payer.lamports
            < old(ledger).alloc_cost_spec() ==> r == Err::<Amm, AmmError>(AmmError::InsufficientFunds),
        !old(ledger).contains_id(id@) && old(accounts).payer.lamports
            >= old(ledger).alloc_cost_spec() ==> (match r {
            Ok(a) => {
                &&& a.id == id
                &&& a.admin == old(accounts).admin
                &&& a.fee == FEE
                &&& a.lock == false
                &&& final(ledger).records_seq() == old(ledger).records_seq().push(a)
                &&& final(accounts).payer.lamports == old(accounts).payer.lamports
                    - old(ledger).alloc_cost_spec()
            },
            Err(_) => false,
        }),
        r is Err ==> final(ledger).records_seq() == old(ledger).records_seq()
            && final(accounts).payer.lamports == old(accounts).payer.lamports,
{
    create_amm_with_fee(ledger, accounts, id, FEE)
}

/// The creation handler with the fee rate as an explicit argument, so the
/// defensive fee check is stated for every configuration, not only for the
/// compiled-in constant.
///
/// A fee of 10000 basis points or more is a configuration defect and fails
/// with `InvalidFee` for every input, before any other check.
pub fn create_amm_with_fee(
    ledger: &mut Ledger,
    accounts: &mut CreateAmm,
    id: Pubkey,
    fee: u16,
) -> (r: Result<Amm, AmmError>)
    requires
        old(ledger).wf(),
        old(accounts).payer.is_signer,
    ensures
        final(ledger).wf(),
        final(ledger).alloc_cost_spec() == old(ledger).alloc_cost_spec(),
        final(accounts).admin == old(accounts).admin,
        final(accounts).payer.address == old(accounts).payer.address,
        final(accounts).payer.is_signer == old(accounts).payer.is_signer,
        fee >= FEE_DENOMINATOR ==> r == Err::<Amm, AmmError>(AmmError::InvalidFee),
        fee < FEE_DENOMINATOR && old(ledger).contains_id(id@) ==> r == Err::<Amm, AmmError>(
            AmmError::AlreadyExists,
        ),
        fee < FEE_DENOMINATOR && !old(ledger).contains_id(id@) && old(accounts).payer.lamports
            < old(ledger).alloc_cost_spec() ==> r == Err::<Amm, AmmError>(
            AmmError::InsufficientFunds,
        ),
        fee < FEE_DENOMINATOR && !old(ledger).contains_id(id@) && old(accounts).payer.lamports
            >= old(ledger).alloc_cost_spec() ==> (match r {
            Ok(a) => {
                &&& a.id == id
                &&& a.admin == old(accounts).admin
                &&& a.fee == fee
                &&& a.lock == false
                &&& final(ledger).records_seq() == old(ledger).records_seq().push(a)
                &&& final(accounts).payer.lamports == old(accounts).payer.lamports
                    - old(ledger).alloc_cost_spec()
            },
            Err(_) => false,
        }),
        r is Err ==> final(ledger).records_seq() == old(ledger).records_seq()
            && final(accounts).payer.lamports == old(accounts).payer.lamports,
{
    if fee >= FEE_DENOMINATOR {
        return Err(AmmError::InvalidFee);
    }
    if ledger.has_record(&id) {
        return Err(AmmError::AlreadyExists);
    }
    let cost = ledger.alloc_cost();
    if accounts.payer.lamports < cost {
        return Err(AmmError::InsufficientFunds);
    }
    accounts.payer.lamports = accounts.payer.lamports - cost;
    let amm = Amm { id, admin: accounts.admin, fee, lock: false };
    ledger.append_record(amm);
    Ok(amm)
}

} // verus!
