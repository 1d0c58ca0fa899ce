//! The guard layer: the locking discipline and the constant-product pricing
//! rule that every value-moving operation against a market record must
//! honour.

use vstd::prelude::*;
use vstd::arithmetic::div_mod::{
    lemma_div_is_ordered,
    lemma_div_multiples_vanish,
    lemma_div_pos_is_pos,
    lemma_fundamental_div_mod,
    lemma_mod_bound,
};
use vstd::arithmetic::mul::{
    lemma_mul_inequality,
    lemma_mul_is_commutative,
    lemma_mul_is_distributive_sub,
    lemma_mul_is_distributive_sub_other_way,
    lemma_mul_upper_bound,
};
use crate::constants::{FEE_DENOMINATOR, VIRTUAL_SOL};
use crate::errors::AmmError;
use crate::state::Amm;

verus! {

/// The reserve balances of one market, stored outside the record itself.
#[derive(Clone, Copy, Debug)]
pub struct Reserves {
    /// Real reserve of the native asset, in lamports.
    pub real: u64,
    /// Reserve of the market's token, in base units.
    pub token: u64,
}

/// The net input after the fee, in basis points, is deducted on the input
/// side; the division rounds the net amount down, in favour of the pool.
pub open spec fn net_input(amount_in: int, fee: int) -> int {
    amount_in * (FEE_DENOMINATOR - fee) / (FEE_DENOMINATOR as int)
}

/// The output granted by the constant-product curve for a net input: the
/// real reserve is offset by the virtual reserve constant, and the division
/// rounds down, in favour of the pool.
pub open spec fn curve_output(real_reserve: int, token: int, net_in: int) -> int {
    token * net_in / (real_reserve + VIRTUAL_SOL + net_in)
}

/// The output owed for a gross input of `amount_in` against reserves
/// `(real, token)` under fee rate `fee`.
pub open spec fn swap_output(real_reserve: int, token: int, amount_in: int, fee: int) -> int {
    curve_output(real_reserve, token, net_input(amount_in, fee))
}

/// Takes the record's logical re-entrancy lock, or reports that it is
/// already held. Never blocks, never touches the other fields.
pub fn acquire(amm: &mut Amm) -> (r: Result<(), AmmError>)
    ensures
        final(amm).id == old(amm).id,
        final(amm).admin == old(amm).admin,
        final(amm).fee == old(amm).fee,
        old(amm).lock ==> r == Err::<(), AmmError>(AmmError::MarketLocked) && final(amm).lock,
        !old(amm).lock ==> r == Ok::<(), AmmError>(()) && final(amm).lock,
{
    if amm.lock {
        return Err(AmmError::MarketLocked);
    }
    amm.lock = true;
    Ok(())
}

/// Releases the record's logical re-entrancy lock; every exit path of a
/// mutating operation must reach this.
pub fn release(amm: &mut Amm)
    ensures
        final(amm).id == old(amm).id,
        final(amm).admin == old(amm).admin,
        final(amm).fee == old(amm).fee,
        !final(amm).lock,
{
    amm.lock = false;
}

/// Net input and curve output are within range: the net input never exceeds
/// the gross input, and the output never exceeds the token reserve.
pub proof fn lemma_swap_output_bounds(real_reserve: int, token: int, amount_in: int, fee: int)
    requires
        0 <= real_reserve,
        0 <= token,
        0 <= amount_in,
        0 <= fee < FEE_DENOMINATOR,
    ensures
        0 <= net_input(amount_in, fee) <= amount_in,
        0 <= swap_output(real_reserve, token, amount_in, fee) <= token,
{
    let d = FEE_DENOMINATOR as int;
    let net = net_input(amount_in, fee);
    lemma_div_pos_is_pos(amount_in * (d - fee), d);
    lemma_mul_inequality(d - fee, d, amount_in);
    lemma_mul_is_commutative(amount_in, d - fee);
    lemma_mul_is_commutative(amount_in, d);
    lemma_div_is_ordered(amount_in * (d - fee), amount_in * d, d);
    lemma_div_multiples_vanish(amount_in, d);
    assert(net <= amount_in);
    let denom = real_reserve + VIRTUAL_SOL + net;
    lemma_div_pos_is_pos(token * net, denom);
    lemma_mul_inequality(net, denom, token);
    lemma_mul_is_commutative(token, net);
    lemma_mul_is_commutative(token, denom);
    lemma_div_is_ordered(token * net, token * denom, denom);
    lemma_div_multiples_vanish(token, denom);
    assert(curve_output(real_reserve, token, net) <= token);
}

/// A swap never shrinks the curve constant: with the virtual offset applied
/// to the real reserve, the effective product after the trade is at least
/// the product before it. Rounding down on the output side leaves the
/// difference with the pool.
pub proof fn lemma_swap_grows_curve_constant(
    real_reserve: int,
    token: int,
    amount_in: int,
    fee: int,
)
    requires
        0 <= real_reserve,
        0 <= token,
        0 <= amount_in,
        0 <= fee < FEE_DENOMINATOR,
    ensures
        (real_reserve + VIRTUAL_SOL + net_input(amount_in, fee)) * (token - swap_output(
            real_reserve,
            token,
            amount_in,
            fee,
        )) >= (real_reserve + VIRTUAL_SOL) * token,
{
    lemma_swap_output_bounds(real_reserve, token, amount_in, fee);
    let net = net_input(amount_in, fee);
    let d = real_reserve + VIRTUAL_SOL + net;
    let out = swap_output(real_reserve, token, amount_in, fee);
    lemma_fundamental_div_mod(token * net, d);
    lemma_mod_bound(token * net, d);
    assert(d * out <= token * net);
    lemma_mul_is_distributive_sub(d, token, out);
    lemma_mul_is_distributive_sub_other_way(token, d, net);
    lemma_mul_is_commutative(token, net);
    assert((d - net) * token == d * token - net * token);
    lemma_mul_is_commutative(d, token);
}

/// One value-moving operation under the guard discipline: a swap of
/// `amount_in` lamports for tokens.
///
/// If the lock is already held the operation fails with `MarketLocked` and
/// alters neither the reserves nor the lock. Otherwise it takes the lock,
/// prices the input on the constant-product curve with the virtual offset,
/// moves the reserves, and releases the lock before returning; the lock is
/// never left held.
pub fn guarded_swap(amm: &mut Amm, reserves: &mut Reserves, amount_in: u64) -> (r: Result<
    u64,
    AmmError,
>)
    requires
        old(amm).wf(),
        old(reserves).real + VIRTUAL_SOL + amount_in <= u64::MAX,
    ensures
        final(amm).id == old(amm).id,
        final(amm).admin == old(amm).admin,
        final(amm).fee == old(amm).fee,
        old(amm).lock ==> r == Err::<u64, AmmError>(AmmError::MarketLocked) && *final(amm)
            == *old(amm) && *final(reserves) == *old(reserves),
        !old(amm).lock ==> !final(amm).lock && (match r {
            Ok(out) => {
                &&& out == swap_output(
                    old(reserves).real as int,
                    old(reserves).token as int,
                    amount_in as int,
                    old(amm).fee as int,
                )
                &&& final(reserves).real == old(reserves).real + net_input(
                    amount_in as int,
                    old(amm).fee as int,
                )
                &&& final(reserves).token == old(reserves).token - out
            },
            Err(_) => false,
        }),
{
    if amm.lock {
        return Err(AmmError::MarketLocked);
    }
    amm.lock = true;
    proof {
        lemma_swap_output_bounds(
            reserves.real as int,
            reserves.token as int,
            amount_in as int,
            amm.fee as int,
        );
        lemma_mul_upper_bound(
            amount_in as int,
            u64::MAX as int,
            (FEE_DENOMINATOR - amm.fee) as int,
            FEE_DENOMINATOR as int,
        );
        lemma_mul_upper_bound(
            reserves.token as int,
            u64::MAX as int,
            net_input(amount_in as int, amm.fee as int),
            u64::MAX as int,
        );
    }
    let net128: u128 = (amount_in as u128) * ((FEE_DENOMINATOR - amm.fee) as u128) / (
    FEE_DENOMINATOR as u128);
    let net: u64 = net128 as u64;
    let denom: u128 = (reserves.real as u128) + (VIRTUAL_SOL as u128) + (net as u128);
    let out128: u128 = (reserves.token as u128) * (net as u128) / denom;
    let out: u64 = out128 as u64;
    reserves.real = reserves.real + net;
    reserves.token = reserves.token - out;
    amm.lock = false;
    Ok(out)
}

} // verus!
