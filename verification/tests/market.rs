use rocketfun::constants::{FEE, TOTAL_SUPPLY, VIRTUAL_SOL};
use rocketfun::create_amm::{create_amm, create_amm_with_fee, CreateAmm};
use rocketfun::errors::AmmError;
use rocketfun::guard::{acquire, guarded_swap, release, Reserves};
use rocketfun::keys::Pubkey;
use rocketfun::ledger::{Ledger, Payer};

const ALLOC_COST: u64 = 2_000_000;

fn key(byte: u8) -> Pubkey {
    Pubkey::new([byte; 32])
}

fn accounts(admin: Pubkey, payer: Pubkey, lamports: u64) -> CreateAmm {
    CreateAmm { admin, payer: Payer { address: payer, lamports, is_signer: true } }
}

#[test]
fn create_on_empty_ledger_initializes_record() {
    let mut ledger = Ledger::new(ALLOC_COST);
    let admin_x = key(0x01);
    let payer_y = key(0x02);
    let mut ctx = accounts(admin_x, payer_y, 10_000_000);
    let id = key(0xAA);

    let amm = create_amm(&mut ledger, &mut ctx, id).unwrap();
    assert!(amm.id.eq_key(&id));
    assert!(amm.admin.eq_key(&admin_x));
    assert_eq!(amm.fee, 100);
    assert_eq!(amm.fee, FEE);
    assert!(!amm.lock);
    assert_eq!(ctx.payer.lamports, 10_000_000 - ALLOC_COST);

    let stored = ledger.find_record(&id).unwrap();
    assert!(stored.id.eq_key(&id));
    assert!(stored.admin.eq_key(&admin_x));
    assert_eq!(stored.fee, FEE);
    assert!(!stored.lock);
}

#[test]
fn create_twice_fails_and_preserves_record() {
    let mut ledger = Ledger::new(ALLOC_COST);
    let admin_x = key(0x01);
    let payer_y = key(0x02);
    let id = key(0xAA);

    let mut ctx = accounts(admin_x, payer_y, 10_000_000);
    create_amm(&mut ledger, &mut ctx, id).unwrap();
    let lamports_after_first = ctx.payer.lamports;

    // A retry, even by another payer naming another admin, must fail and
    // change nothing.
    let mut ctx2 = accounts(key(0x03), key(0x04), 10_000_000);
    let err = create_amm(&mut ledger, &mut ctx2, id).unwrap_err();
    assert_eq!(err, AmmError::AlreadyExists);
    assert_eq!(ctx2.payer.lamports, 10_000_000);
    assert_eq!(ctx.payer.lamports, lamports_after_first);

    let stored = ledger.find_record(&id).unwrap();
    assert!(stored.admin.eq_key(&admin_x));
    assert_eq!(stored.fee, FEE);
    assert!(!stored.lock);
}

#[test]
fn distinct_ids_create_independent_records() {
    let mut ledger = Ledger::new(ALLOC_COST);
    let mut ctx = accounts(key(0x01), key(0x02), 100_000_000);
    let id_a = key(0xAA);
    let id_b = key(0xBB);
    create_amm(&mut ledger, &mut ctx, id_a).unwrap();
    create_amm(&mut ledger, &mut ctx, id_b).unwrap();
    assert!(ledger.find_record(&id_a).is_some());
    assert!(ledger.find_record(&id_b).is_some());
    assert!(ledger.find_record(&key(0xCC)).is_none());
}

#[test]
fn fee_at_bound_fails_for_every_input() {
    let mut ledger = Ledger::new(ALLOC_COST);
    let mut ctx = accounts(key(0x01), key(0x02), 10_000_000);
    let id = key(0xAA);

    let err = create_amm_with_fee(&mut ledger, &mut ctx, id, 10000).unwrap_err();
    assert_eq!(err, AmmError::InvalidFee);
    assert!(ledger.find_record(&id).is_none());
    assert_eq!(ctx.payer.lamports, 10_000_000);

    // Even on an identifier that is already bound, the fee defect dominates.
    create_amm(&mut ledger, &mut ctx, id).unwrap();
    let err = create_amm_with_fee(&mut ledger, &mut ctx, id, 10000).unwrap_err();
    assert_eq!(err, AmmError::InvalidFee);
}

#[test]
fn fee_just_below_bound_is_accepted() {
    let mut ledger = Ledger::new(ALLOC_COST);
    let mut ctx = accounts(key(0x01), key(0x02), 10_000_000);
    let amm = create_amm_with_fee(&mut ledger, &mut ctx, key(0xAA), 9999).unwrap();
    assert_eq!(amm.fee, 9999);
    assert!(!amm.lock);
}

#[test]
fn poor_payer_cannot_fund_allocation() {
    let mut ledger = Ledger::new(ALLOC_COST);
    let mut ctx = accounts(key(0x01), key(0x02), ALLOC_COST - 1);
    let err = create_amm(&mut ledger, &mut ctx, key(0xAA)).unwrap_err();
    assert_eq!(err, AmmError::InsufficientFunds);
    assert_eq!(ctx.payer.lamports, ALLOC_COST - 1);
    assert!(ledger.find_record(&key(0xAA)).is_none());
}

#[test]
fn locked_record_rejects_mutation_untouched() {
    let mut amm = rocketfun::state::Amm { id: key(0xAA), admin: key(0x01), fee: FEE, lock: true };
    let mut reserves = Reserves { real: 5_000_000_000, token: TOTAL_SUPPLY };
    let err = guarded_swap(&mut amm, &mut reserves, 1_000_000_000).unwrap_err();
    assert_eq!(err, AmmError::MarketLocked);
    assert!(amm.lock);
    assert_eq!(reserves.real, 5_000_000_000);
    assert_eq!(reserves.token, TOTAL_SUPPLY);
}

#[test]
fn swap_prices_on_the_offset_curve() {
    let mut amm = rocketfun::state::Amm { id: key(0xAA), admin: key(0x01), fee: FEE, lock: false };
    let mut reserves = Reserves { real: 0, token: TOTAL_SUPPLY };
    // One SOL in at a 1% fee: net input 990_000_000 lamports, priced against
    // an effective reserve of VIRTUAL_SOL.
    let out = guarded_swap(&mut amm, &mut reserves, 1_000_000_000).unwrap();
    assert_eq!(out, 39_615_846_338_535);
    assert_eq!(reserves.real, 990_000_000);
    assert_eq!(reserves.token, TOTAL_SUPPLY - 39_615_846_338_535);
    assert!(!amm.lock);
    assert_eq!(amm.fee, FEE);
}

#[test]
fn swap_never_shrinks_the_curve_constant() {
    let mut amm = rocketfun::state::Amm { id: key(0xAA), admin: key(0x01), fee: FEE, lock: false };
    let mut reserves = Reserves { real: 3_333_333_333, token: TOTAL_SUPPLY / 2 };
    let k_before = (reserves.real as u128 + VIRTUAL_SOL as u128) * reserves.token as u128;
    guarded_swap(&mut amm, &mut reserves, 777_777_777).unwrap();
    let k_after = (reserves.real as u128 + VIRTUAL_SOL as u128) * reserves.token as u128;
    assert!(k_after >= k_before);
}

#[test]
fn swap_with_zero_input_moves_nothing() {
    let mut amm = rocketfun::state::Amm { id: key(0xAA), admin: key(0x01), fee: FEE, lock: false };
    let mut reserves = Reserves { real: 7, token: 11 };
    let out = guarded_swap(&mut amm, &mut reserves, 0).unwrap();
    assert_eq!(out, 0);
    assert_eq!(reserves.real, 7);
    assert_eq!(reserves.token, 11);
    assert!(!amm.lock);
}

#[test]
fn lock_discipline_acquire_release() {
    let mut amm = rocketfun::state::Amm { id: key(0xAA), admin: key(0x01), fee: FEE, lock: false };
    acquire(&mut amm).unwrap();
    assert!(amm.lock);
    let err = acquire(&mut amm).unwrap_err();
    assert_eq!(err, AmmError::MarketLocked);
    assert!(amm.lock);
    release(&mut amm);
    assert!(!amm.lock);
    assert_eq!(amm.fee, FEE);
}

#[test]
fn economic_constants_hold() {
    assert_eq!(VIRTUAL_SOL, 24_000_000_000);
    assert_eq!(FEE, 100);
    assert_eq!(TOTAL_SUPPLY, 1_000_000_000_000_000);
    assert_eq!(rocketfun::constants::TOKEN_DECIMAL, 6);
}

#[test]
fn key_equality_is_bytewise() {
    let a = key(0xAA);
    let b = key(0xAA);
    assert!(a.eq_key(&b));
    let mut bytes = [0xAA; 32];
    bytes[31] = 0xAB;
    let c = Pubkey::new(bytes);
    assert!(!a.eq_key(&c));
}
