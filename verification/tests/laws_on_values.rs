use prediction_market::errors::PredictionMarketError;
use prediction_market::market::{
    claim_payout, create_pool_at, place_stake_at, resolve_pool_at, Asset, PoolKeys,
};
use prediction_market::state::{Pool, PoolStatus, Pubkey};

fn key(b: u8) -> Pubkey {
    Pubkey::new_from_array([b; 32])
}

fn new_pool(close_ts: i64, resolve_ts: i64) -> Pool {
    let keys = PoolKeys {
        creator: key(1),
        admin: key(2),
        token_mint: None,
        vault_authority: key(3),
        vault_token_account: Pubkey::zero(),
        bump: 1,
        vault_bump: 2,
        vault_token_bump: 0,
    };
    create_pool_at(keys, "Q?".to_string(), ["Yes".to_string(), "No".to_string()], close_ts, resolve_ts, 0)
        .unwrap()
}

#[test]
fn ledger_stays_balanced_over_many_stakes() {
    let mut pool = new_pool(100, 200);
    let mut records = Vec::new();
    for i in 0..20u8 {
        let amount = 1 + (i as u64) * 7;
        records.push(place_stake_at(&mut pool, Asset::NativeSol, None, key(9), key(i), i % 2, amount, 0, 50).unwrap());
        assert_eq!(pool.stake_per_outcome[0] + pool.stake_per_outcome[1], pool.total_staked);
        for o in 0..2u8 {
            let recorded: u64 = records.iter().filter(|s| s.outcome == o && s.pool == key(9)).map(|s| s.amount).sum();
            assert_eq!(pool.stake_per_outcome[o as usize], recorded);
        }
    }
}

#[test]
fn betting_closes_before_resolution_opens() {
    let mut pool = new_pool(100, 160);
    assert!(place_stake_at(&mut pool, Asset::NativeSol, None, key(9), key(5), 0, 10, 0, 99).is_ok());
    let r = place_stake_at(&mut pool, Asset::NativeSol, None, key(9), key(6), 0, 10, 0, 100);
    assert_eq!(r.unwrap_err(), PredictionMarketError::BettingClosed);
    let r = resolve_pool_at(&mut pool, &key(2), 0, 159);
    assert_eq!(r.unwrap_err(), PredictionMarketError::TooEarlyToResolve);
    assert!(resolve_pool_at(&mut pool, &key(2), 0, 160).is_ok());
}

#[test]
fn resolution_moves_no_funds_and_happens_once() {
    let mut pool = new_pool(100, 160);
    place_stake_at(&mut pool, Asset::NativeSol, None, key(9), key(5), 1, 10, 0, 99).unwrap();
    let before = pool.clone();
    resolve_pool_at(&mut pool, &key(2), 1, 500).unwrap();
    assert_eq!(pool.total_staked, before.total_staked);
    assert_eq!(pool.stake_per_outcome, before.stake_per_outcome);
    assert_eq!(pool.status, PoolStatus::Resolved);
    for signer in [key(2), key(3)] {
        for w in 0..3u8 {
            assert!(resolve_pool_at(&mut pool, &signer, w, 1_000).is_err());
        }
    }
    assert_eq!(pool.winning_outcome, Some(1));
}

#[test]
fn rounding_never_overpays_the_vault() {
    // three winners of 1 each on a pool of 7: each gets 1 * 6 / 3 = 2
    // (distributable 7 * 9_900 / 10_000 = 6), fees round to 0.
    let mut pool = new_pool(100, 160);
    let mut stakes = Vec::new();
    for u in 0..3u8 {
        stakes.push(place_stake_at(&mut pool, Asset::NativeSol, None, key(9), key(u), 0, 1, 0, 10).unwrap());
    }
    place_stake_at(&mut pool, Asset::NativeSol, None, key(9), key(50), 1, 4, 0, 10).unwrap();
    resolve_pool_at(&mut pool, &key(2), 0, 160).unwrap();
    let mut paid = 0;
    for s in stakes.iter_mut() {
        paid += claim_payout(&pool, s, Asset::NativeSol).unwrap();
    }
    assert_eq!(paid, 6);
    assert!(paid <= pool.total_staked);
}
