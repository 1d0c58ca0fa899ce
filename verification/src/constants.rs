//! Fixed economic parameters of the exchange.
//!
//! These values are compiled in and shared by every market: the bonding
//! curve's shape is the same for all markets the program creates, and no
//! runtime path may change them.

use vstd::prelude::*;

verus! {

/// Lamports in one SOL, the host chain's native unit.
pub const LAMPORTS_PER_SOL: u64 = 1000000000;

/// Virtual SOL offset: added to the real reserve in the pricing formula so
/// that price discovery starts from a nonzero effective reserve.
pub const VIRTUAL_SOL: u64 = 24 * LAMPORTS_PER_SOL;

/// Trading fee in basis points (units of 1/10000); 100 means 1%.
pub const FEE: u16 = 100;

/// Basis-point denominator; a fee must stay strictly below this bound.
pub const FEE_DENOMINATOR: u16 = 10000;

/// Decimal precision of the token.
pub const TOKEN_DECIMAL: u8 = 6;

/// Fixed total token supply, in base units of `TOKEN_DECIMAL` decimals
/// (one billion whole tokens).
pub const TOTAL_SUPPLY: u64 = 1000000000 * 1000000;

/// The byte sequence of the textual domain-separation tag under which the
/// shared value-custody authority is derived.
pub open spec fn authority_seed_spec() -> Seq<u8> {
    seq![97u8, 117u8, 116u8, 104u8, 111u8, 114u8, 105u8, 116u8, 121u8]
}

/// The authority tag, `b"authority"`, as owned bytes usable as a seed.
pub fn authority_seed_bytes() -> (v: Vec<u8>)
    ensures
        v@ == authority_seed_spec(),
{
    let mut v: Vec<u8> = Vec::new();
    v.push(97u8);
    v.push(117u8);
    v.push(116u8);
    v.push(104u8);
    v.push(111u8);
    v.push(114u8);
    v.push(105u8);
    v.push(116u8);
    v.push(121u8);
    proof {
        assert(v@ =~= authority_seed_spec());
    }
    v
}

} // verus!
