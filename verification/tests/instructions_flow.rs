use prediction_market::errors::{HandlerError, PredictionMarketError};
use prediction_market::fees::{distributable_of, fee_share_of, payout_of};
use prediction_market::instructions::claim_payout_native::ClaimPayoutNative;
use prediction_market::instructions::claim_payout_spl::ClaimPayoutSpl;
use prediction_market::instructions::collect_fees_native::CollectFeesNative;
use prediction_market::instructions::collect_fees_spl::CollectFeesSpl;
use prediction_market::instructions::create_pool_native::CreatePoolNative;
use prediction_market::instructions::create_pool_spl::CreatePoolSpl;
use prediction_market::instructions::initialize_config::InitializeConfig;
use prediction_market::instructions::place_stake_native::PlaceStakeNative;
use prediction_market::instructions::place_stake_spl::PlaceStakeSpl;
use prediction_market::instructions::resolve_pool::ResolvePool;
use prediction_market::market::{
    claim_payout, create_pool_at, place_stake_at, resolve_pool_at, Asset, FeePayout, PoolKeys,
};
use prediction_market::state::{Config, Pool, PoolStatus, Pubkey, Stake, TokenAccountKeys};

fn key(b: u8) -> Pubkey {
    Pubkey::new_from_array([b; 32])
}

fn keys(token_mint: Option<Pubkey>) -> PoolKeys {
    PoolKeys {
        creator: key(1),
        admin: key(2),
        token_mint,
        vault_authority: key(3),
        vault_token_account: key(4),
        bump: 254,
        vault_bump: 253,
        vault_token_bump: 252,
    }
}

fn names() -> [String; 2] {
    ["Yes".to_string(), "No".to_string()]
}

fn open_pool(token_mint: Option<Pubkey>) -> Pool {
    create_pool_at(
        keys(token_mint),
        "Will it rain tomorrow?".to_string(),
        names(),
        1_000,
        1_060,
        500,
    )
    .unwrap()
}

fn stake_on(pool: &mut Pool, user: u8, outcome: u8, amount: u64, now: i64) -> Stake {
    place_stake_at(pool, Asset::NativeSol, None, key(9), key(user), outcome, amount, 7, now).unwrap()
}

/// A native pool with 600 staked on outcome 0 (100 + 200 + 300) and 400 on
/// outcome 1, resolved for outcome 0.
fn resolved_pool() -> (Pool, Vec<Stake>, Stake) {
    let mut pool = open_pool(None);
    let a = stake_on(&mut pool, 10, 0, 100, 600);
    let b = stake_on(&mut pool, 11, 0, 200, 700);
    let c = stake_on(&mut pool, 12, 0, 300, 800);
    let loser = stake_on(&mut pool, 13, 1, 400, 900);
    resolve_pool_at(&mut pool, &key(2), 0, 1_060).unwrap();
    (pool, vec![a, b, c], loser)
}

#[test]
fn fee_and_payout_arithmetic() {
    assert_eq!(fee_share_of(10_000, 50), 50);
    assert_eq!(fee_share_of(1_999, 50), 9);
    assert_eq!(fee_share_of(u64::MAX, 50), 92_233_720_368_547_758);
    assert_eq!(distributable_of(1_000), 990);
    assert_eq!(distributable_of(u64::MAX), 18_262_276_632_972_456_098);
    assert_eq!(payout_of(300, 990, 600), Some(495));
    assert_eq!(payout_of(1, 990, 0), None);
    assert_eq!(payout_of(u64::MAX, u64::MAX, u64::MAX), Some(u64::MAX));
    // the quotient is truncated to 64 bits
    assert_eq!(payout_of(u64::MAX, u64::MAX, 1), Some(1));
}

#[test]
fn create_pool_records_everything() {
    let pool = open_pool(Some(key(5)));
    assert!(pool.creator == key(1));
    assert!(pool.admin == key(2));
    assert_eq!(pool.question, "Will it rain tomorrow?");
    assert_eq!(pool.outcome_names, names());
    assert!(pool.token_mint == Some(key(5)));
    assert!(!pool.is_native_sol());
    assert!(pool.vault_authority == key(3));
    assert!(pool.vault_token_account == key(4));
    assert_eq!(pool.total_staked, 0);
    assert_eq!(pool.stake_per_outcome, [0, 0]);
    assert_eq!((pool.close_ts, pool.resolve_ts), (1_000, 1_060));
    assert_eq!(pool.status, PoolStatus::Open);
    assert_eq!(pool.winning_outcome, None);
    assert_eq!(pool.fee_taken, 0);
    assert!(!pool.fees_collected);
    assert_eq!((pool.bump, pool.vault_bump, pool.vault_token_bump), (254, 253, 252));
}

#[test]
fn create_pool_refusals() {
    let long = "q".repeat(201);
    let r = create_pool_at(keys(None), long, names(), 1_000, 1_060, 500);
    assert_eq!(r.unwrap_err(), PredictionMarketError::QuestionTooLong);
    // 200 bytes exactly is accepted
    let r = create_pool_at(keys(None), "q".repeat(200), names(), 1_000, 1_060, 500);
    assert!(r.is_ok());
    // 67 three-byte characters are 201 bytes although only 67 characters
    let r = create_pool_at(keys(None), "€".repeat(67), names(), 1_000, 1_060, 500);
    assert_eq!(r.unwrap_err(), PredictionMarketError::QuestionTooLong);
    let r = create_pool_at(
        keys(None),
        "ok".to_string(),
        ["Yes".to_string(), "n".repeat(33)],
        1_000,
        1_060,
        500,
    );
    assert_eq!(r.unwrap_err(), PredictionMarketError::OutcomeLabelTooLong);
    let r = create_pool_at(keys(None), "ok".to_string(), names(), 500, 1_060, 500);
    assert_eq!(r.unwrap_err(), PredictionMarketError::CloseTimeInPast);
    let r = create_pool_at(keys(None), "ok".to_string(), names(), 1_000, 1_059, 500);
    assert_eq!(r.unwrap_err(), PredictionMarketError::ResolveTimeTooSoon);
}

#[test]
fn create_pool_handlers_check_labels_before_the_clock() {
    let ctx = CreatePoolNative {
        creator: key(1),
        admin: key(2),
        vault_authority: key(3),
        pool_bump: 1,
        vault_bump: 2,
    };
    let r = prediction_market::create_pool_native(ctx, "q".repeat(201), names(), 1_000, 1_060);
    assert!(matches!(r, Err(HandlerError::Market(PredictionMarketError::QuestionTooLong))));
    // Off-chain there is no clock sysvar: the read fails and nothing is created.
    let r = prediction_market::create_pool_native(ctx, "ok".to_string(), names(), 1_000, 1_060);
    assert!(matches!(r, Err(HandlerError::Clock(_))));
    let spl = CreatePoolSpl {
        creator: key(1),
        admin: key(2),
        token_mint: key(5),
        vault_authority: key(3),
        vault_token_account: key(4),
        pool_bump: 1,
        vault_bump: 2,
        vault_token_bump: 3,
    };
    let r = prediction_market::create_pool_spl(spl, "ok".to_string(), ["a".repeat(40), "b".to_string()], 1_000, 1_060);
    assert!(matches!(r, Err(HandlerError::Market(PredictionMarketError::OutcomeLabelTooLong))));
}

#[test]
fn stakes_update_the_ledger() {
    let mut pool = open_pool(None);
    let s = place_stake_at(&mut pool, Asset::NativeSol, None, key(9), key(10), 1, 250, 7, 999).unwrap();
    assert!(s.pool == key(9));
    assert!(s.user == key(10));
    assert_eq!((s.outcome, s.amount, s.claimed, s.bump), (1, 250, false, 7));
    assert_eq!(pool.total_staked, 250);
    assert_eq!(pool.stake_per_outcome, [0, 250]);
    stake_on(&mut pool, 11, 0, 50, 999);
    assert_eq!(pool.total_staked, 300);
    assert_eq!(pool.stake_per_outcome, [50, 250]);
}

#[test]
fn stake_refusals_leave_the_pool_unchanged() {
    let mut pool = open_pool(None);
    stake_on(&mut pool, 10, 0, 5, 600);
    let before = pool.clone();
    let same = |p: &Pool| p.total_staked == before.total_staked && p.stake_per_outcome == before.stake_per_outcome;
    let r = place_stake_at(&mut pool, Asset::SplToken, Some(key(5)), key(9), key(10), 0, 5, 7, 600);
    assert_eq!(r.unwrap_err(), PredictionMarketError::ExpectedNativeSol);
    let r = place_stake_at(&mut pool, Asset::NativeSol, None, key(9), key(10), 0, 0, 7, 600);
    assert_eq!(r.unwrap_err(), PredictionMarketError::ZeroStakeAmount);
    let r = place_stake_at(&mut pool, Asset::NativeSol, None, key(9), key(10), 2, 5, 7, 600);
    assert_eq!(r.unwrap_err(), PredictionMarketError::InvalidOutcomeIndex);
    let r = place_stake_at(&mut pool, Asset::NativeSol, None, key(9), key(10), 0, 5, 7, 1_000);
    assert_eq!(r.unwrap_err(), PredictionMarketError::BettingClosed);
    let r = place_stake_at(&mut pool, Asset::NativeSol, None, key(9), key(10), 0, u64::MAX, 7, 600);
    assert_eq!(r.unwrap_err(), PredictionMarketError::MathOverflow);
    assert!(same(&pool));
    let mut spl = open_pool(Some(key(5)));
    let r = place_stake_at(&mut spl, Asset::NativeSol, None, key(9), key(10), 0, 5, 7, 600);
    assert_eq!(r.unwrap_err(), PredictionMarketError::ExpectedSplToken);
    pool.status = PoolStatus::Closed;
    let r = place_stake_at(&mut pool, Asset::NativeSol, None, key(9), key(10), 0, 5, 7, 600);
    assert_eq!(r.unwrap_err(), PredictionMarketError::PoolNotOpen);
}

#[test]
fn stake_handler_checks_before_the_clock() {
    let mut ctx = PlaceStakeNative { user: key(10), pool_key: key(9), pool: open_pool(None), stake_bump: 3 };
    let r = prediction_market::place_stake_native(&mut ctx, 0, 0);
    assert!(matches!(r, Err(HandlerError::Market(PredictionMarketError::ZeroStakeAmount))));
    let r = prediction_market::place_stake_native(&mut ctx, 0, 10);
    assert!(matches!(r, Err(HandlerError::Clock(_))));
    assert_eq!(ctx.pool.total_staked, 0);
}

#[test]
fn resolution_rules() {
    let mut pool = open_pool(None);
    stake_on(&mut pool, 10, 0, 100, 600);
    let r = resolve_pool_at(&mut pool, &key(7), 0, 2_000);
    assert_eq!(r.unwrap_err(), PredictionMarketError::UnauthorizedResolver);
    let r = resolve_pool_at(&mut pool, &key(2), 2, 2_000);
    assert_eq!(r.unwrap_err(), PredictionMarketError::InvalidOutcomeIndex);
    let r = resolve_pool_at(&mut pool, &key(2), 0, 1_059);
    assert_eq!(r.unwrap_err(), PredictionMarketError::TooEarlyToResolve);
    let r = resolve_pool_at(&mut pool, &key(2), 1, 1_060);
    assert_eq!(r.unwrap_err(), PredictionMarketError::NoWinningStakes);
    assert_eq!(pool.status, PoolStatus::Open);
    assert_eq!(pool.winning_outcome, None);
    resolve_pool_at(&mut pool, &key(2), 0, 1_060).unwrap();
    assert_eq!(pool.status, PoolStatus::Resolved);
    assert_eq!(pool.winning_outcome, Some(0));
    assert_eq!(pool.total_staked, 100);
    let r = resolve_pool_at(&mut pool, &key(2), 0, 3_000);
    assert_eq!(r.unwrap_err(), PredictionMarketError::PoolNotResolvable);
    let mut odd = open_pool(None);
    odd.winning_outcome = Some(1);
    let r = resolve_pool_at(&mut odd, &key(2), 0, 3_000);
    assert_eq!(r.unwrap_err(), PredictionMarketError::PoolAlreadyResolved);
    odd.status = PoolStatus::Cancelled;
    let r = resolve_pool_at(&mut odd, &key(2), 0, 3_000);
    assert_eq!(r.unwrap_err(), PredictionMarketError::PoolNotResolvable);
}

#[test]
fn resolve_handler_checks_admin_before_the_clock() {
    let mut ctx = ResolvePool { admin: key(8), pool: open_pool(None) };
    let r = prediction_market::resolve_pool(&mut ctx, 0);
    assert!(matches!(r, Err(HandlerError::Market(PredictionMarketError::UnauthorizedResolver))));
    ctx.admin = key(2);
    let r = prediction_market::resolve_pool(&mut ctx, 0);
    assert!(matches!(r, Err(HandlerError::Clock(_))));
    assert_eq!(ctx.pool.status, PoolStatus::Open);
}

fn config() -> Config {
    prediction_market::initialize_config(InitializeConfig { authority: key(20), config_bump: 9 }, key(21))
}

#[test]
fn initialize_config_records_the_treasury() {
    let c = config();
    assert!(c.authority == key(20));
    assert!(c.platform_treasury == key(21));
    assert_eq!(c.bump, 9);
}

#[test]
fn native_fee_collection() {
    let (pool, _, _) = resolved_pool();
    let mut ctx = CollectFeesNative { config: config(), pool, platform_treasury: key(22), creator_wallet: key(1) };
    let r = prediction_market::collect_fees_native(&mut ctx);
    assert_eq!(r.unwrap_err(), PredictionMarketError::InvalidPlatformTreasury);
    ctx.platform_treasury = key(21);
    ctx.creator_wallet = key(23);
    let r = prediction_market::collect_fees_native(&mut ctx);
    assert_eq!(r.unwrap_err(), PredictionMarketError::InvalidCreatorWallet);
    ctx.creator_wallet = key(1);
    let f = prediction_market::collect_fees_native(&mut ctx).unwrap();
    assert_eq!(f, FeePayout { platform_fee: 5, creator_fee: 5 });
    assert_eq!(ctx.pool.fee_taken, 10);
    assert!(ctx.pool.fees_collected);
    assert_eq!(ctx.pool.total_staked, 1_000);
    let r = prediction_market::collect_fees_native(&mut ctx);
    assert_eq!(r.unwrap_err(), PredictionMarketError::AlreadyClaimed);
    assert_eq!(ctx.pool.fee_taken, 10);
}

#[test]
fn native_fee_collection_refusals() {
    let mut ctx = CollectFeesNative { config: config(), pool: open_pool(None), platform_treasury: key(21), creator_wallet: key(1) };
    let r = prediction_market::collect_fees_native(&mut ctx);
    assert_eq!(r.unwrap_err(), PredictionMarketError::PoolNotResolved);
    ctx.pool.status = PoolStatus::Resolved;
    ctx.pool.token_mint = Some(key(5));
    let r = prediction_market::collect_fees_native(&mut ctx);
    assert_eq!(r.unwrap_err(), PredictionMarketError::ExpectedSplToken);
    assert!(!ctx.pool.fees_collected);
}

#[test]
fn fees_of_the_largest_pool() {
    let mut pool = open_pool(None);
    pool.status = PoolStatus::Resolved;
    pool.total_staked = u64::MAX;
    let mut ctx = CollectFeesNative { config: config(), pool, platform_treasury: key(21), creator_wallet: key(1) };
    let f = prediction_market::collect_fees_native(&mut ctx).unwrap();
    assert_eq!(f, FeePayout { platform_fee: 92_233_720_368_547_758, creator_fee: 92_233_720_368_547_758 });
    assert_eq!(ctx.pool.fee_taken, 184_467_440_737_095_516);
    assert!(ctx.pool.fees_collected);
}

#[test]
fn spl_fee_collection() {
    let mut pool = open_pool(Some(key(5)));
    place_stake_at(&mut pool, Asset::SplToken, Some(key(5)), key(9), key(10), 1, 20_000, 7, 600).unwrap();
    let treasury = TokenAccountKeys { mint: key(5), owner: key(21) };
    let creator = TokenAccountKeys { mint: key(5), owner: key(1) };
    let mut ctx = CollectFeesSpl { config: config(), pool, platform_treasury_token: treasury, creator_token_account: creator };
    let r = prediction_market::collect_fees_spl(&mut ctx);
    assert_eq!(r.unwrap_err(), PredictionMarketError::PoolNotResolved);
    resolve_pool_at(&mut ctx.pool, &key(2), 1, 5_000).unwrap();
    ctx.platform_treasury_token.mint = key(6);
    let r = prediction_market::collect_fees_spl(&mut ctx);
    assert_eq!(r.unwrap_err(), PredictionMarketError::MintMismatch);
    ctx.platform_treasury_token.mint = key(5);
    ctx.creator_token_account.mint = key(6);
    let r = prediction_market::collect_fees_spl(&mut ctx);
    assert_eq!(r.unwrap_err(), PredictionMarketError::MintMismatch);
    ctx.creator_token_account.mint = key(5);
    ctx.platform_treasury_token.owner = key(22);
    let r = prediction_market::collect_fees_spl(&mut ctx);
    assert_eq!(r.unwrap_err(), PredictionMarketError::InvalidPlatformTreasury);
    ctx.platform_treasury_token.owner = key(21);
    ctx.creator_token_account.owner = key(22);
    let r = prediction_market::collect_fees_spl(&mut ctx);
    assert_eq!(r.unwrap_err(), PredictionMarketError::InvalidCreatorWallet);
    ctx.creator_token_account.owner = key(1);
    let f = prediction_market::collect_fees_spl(&mut ctx).unwrap();
    assert_eq!(f, FeePayout { platform_fee: 100, creator_fee: 100 });
    assert_eq!(ctx.pool.fee_taken, 200);
    let r = prediction_market::collect_fees_spl(&mut ctx);
    assert_eq!(r.unwrap_err(), PredictionMarketError::AlreadyClaimed);
}

#[test]
fn winners_claim_their_share() {
    let (pool, winners, loser) = resolved_pool();
    let mut paid = 0u64;
    for (w, expected) in winners.iter().zip([165u64, 330, 495]) {
        let mut ctx = ClaimPayoutNative { pool: pool.clone(), stake: *w };
        let payout = prediction_market::claim_payout_native(&mut ctx).unwrap();
        assert_eq!(payout, expected);
        assert!(ctx.stake.claimed);
        let again = prediction_market::claim_payout_native(&mut ctx);
        assert_eq!(again.unwrap_err(), PredictionMarketError::AlreadyClaimed);
        paid += payout;
    }
    // 990 to the winners plus 5 + 5 in fees: exactly the 1_000 staked
    assert_eq!(paid, 990);
    let mut ctx = ClaimPayoutNative { pool: pool.clone(), stake: loser };
    let r = prediction_market::claim_payout_native(&mut ctx);
    assert_eq!(r.unwrap_err(), PredictionMarketError::NotAWinningStake);
    assert!(!ctx.stake.claimed);
    let mut spl = ClaimPayoutSpl { pool, stake: winners[0] };
    let r = prediction_market::claim_payout_spl(&mut spl);
    assert_eq!(r.unwrap_err(), PredictionMarketError::ExpectedNativeSol);
}

#[test]
fn claim_refusals() {
    let mut pool = open_pool(None);
    let s = stake_on(&mut pool, 10, 0, 100, 600);
    let mut stake = s;
    let r = claim_payout(&pool, &mut stake, Asset::NativeSol);
    assert_eq!(r.unwrap_err(), PredictionMarketError::PoolNotResolved);
    pool.status = PoolStatus::Resolved;
    let r = claim_payout(&pool, &mut stake, Asset::NativeSol);
    assert_eq!(r.unwrap_err(), PredictionMarketError::PoolNotResolved);
    pool.winning_outcome = Some(0);
    pool.total_staked = 100;
    pool.stake_per_outcome = [0, 100];
    let r = claim_payout(&pool, &mut stake, Asset::NativeSol);
    assert_eq!(r.unwrap_err(), PredictionMarketError::MathOverflow);
    assert!(!stake.claimed);
    let r = claim_payout(&pool, &mut stake, Asset::SplToken);
    assert_eq!(r.unwrap_err(), PredictionMarketError::ExpectedNativeSol);
}

#[test]
fn winners_of_the_largest_pool_are_paid() {
    let mut pool = open_pool(None);
    let s = stake_on(&mut pool, 10, 0, 3, 600);
    pool.status = PoolStatus::Resolved;
    pool.winning_outcome = Some(0);
    pool.total_staked = u64::MAX;
    pool.stake_per_outcome = [4, u64::MAX - 4];
    let mut stake = s;
    let payout = claim_payout(&pool, &mut stake, Asset::NativeSol).unwrap();
    // 3 / 4 of u64::MAX * 9_900 / 10_000
    assert_eq!(payout, 13_696_707_474_729_342_073);
    assert!(stake.claimed);
}

#[test]
fn spl_fees_on_a_native_pool_are_refused() {
    let (pool, _, _) = resolved_pool();
    let t = TokenAccountKeys { mint: key(5), owner: key(21) };
    let mut ctx = CollectFeesSpl { config: config(), pool, platform_treasury_token: t, creator_token_account: t };
    let r = prediction_market::collect_fees_spl(&mut ctx);
    assert_eq!(r.unwrap_err(), PredictionMarketError::ExpectedNativeSol);
    assert!(!ctx.pool.fees_collected);
}

#[test]
fn spl_stake_from_another_mint_is_refused() {
    let mut pool = open_pool(Some(key(5)));
    let r = place_stake_at(&mut pool, Asset::SplToken, Some(key(6)), key(9), key(10), 0, 5, 7, 600);
    assert_eq!(r.unwrap_err(), PredictionMarketError::MintMismatch);
    assert_eq!(pool.total_staked, 0);
    let mut ctx = PlaceStakeSpl { user: key(10), pool_key: key(9), pool, stake_bump: 3, user_token_mint: key(6) };
    let r = prediction_market::place_stake_spl(&mut ctx, 0, 5);
    assert!(matches!(r, Err(HandlerError::Market(PredictionMarketError::MintMismatch))));
    ctx.user_token_mint = key(5);
    let r = prediction_market::place_stake_spl(&mut ctx, 0, 5);
    assert!(matches!(r, Err(HandlerError::Clock(_))));
}

#[test]
fn latest_close_time_leaves_no_resolution_time() {
    let r = create_pool_at(keys(None), "ok".to_string(), names(), i64::MAX, i64::MAX, 0);
    assert_eq!(r.unwrap_err(), PredictionMarketError::ResolveTimeTooSoon);
    let r = create_pool_at(keys(None), "ok".to_string(), names(), i64::MAX - 60, i64::MAX, 0);
    assert!(r.is_ok());
    let r = create_pool_at(keys(None), "ok".to_string(), names(), i64::MAX - 59, i64::MAX, i64::MAX);
    assert_eq!(r.unwrap_err(), PredictionMarketError::CloseTimeInPast);
}

#[test]
fn pubkey_equality_and_zero() {
    assert!(key(1) == key(1));
    assert!(key(1) != key(2));
    let mut b = [1u8; 32];
    b[31] = 2;
    assert!(Pubkey::new_from_array(b) != key(1));
    assert_eq!(Pubkey::zero().to_bytes(), [0u8; 32]);
}
