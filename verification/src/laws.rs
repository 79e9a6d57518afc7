use vstd::prelude::*;

use crate::constants::{
    CREATOR_FEE_BPS, FEE_DENOMINATOR, MIN_CLOSE_TO_RESOLVE_GAP, NUM_OUTCOMES, PLATFORM_FEE_BPS,
};
use crate::errors::PredictionMarketError;
use crate::fees::{distributable, payout_share};
use crate::market::{
    claim_payout_result, collect_fees_native_result, collect_fees_spl_result, create_pool_result,
    fee_split, place_stake_result, resolve_pool_result, Asset, FeePayout, PoolKeys,
};
use crate::state::{Pool, PoolStatus, Pubkey, Stake, TokenAccountKeys};

verus! {

// ---------------------------------------------------------------- arithmetic

/// `(x * d / w) * w <= x * d` and `x <= w ==> x * d / w <= d`.
proof fn lemma_share_bounds(x: int, d: int, w: int)
    requires
        0 <= x,
        0 <= d,
        0 < w,
    ensures
        (x * d / w) * w <= x * d,
        x <= w ==> x * d / w <= d,
        0 <= x * d / w,
{
    vstd::arithmetic::div_mod::lemma_fundamental_div_mod(x * d, w);
    assert(0 <= (x * d) % w < w) by {
        vstd::arithmetic::div_mod::lemma_mod_bound(x * d, w);
    }
    assert(0 <= x * d) by (nonlinear_arith)
        requires
            0 <= x,
            0 <= d,
    ;
    assert(w * (x * d / w) == (x * d / w) * w) by (nonlinear_arith);
    if x <= w {
        assert(x * d <= w * d) by (nonlinear_arith)
            requires
                x <= w,
                0 <= d,
        ;
        let q = x * d / w;
        assert(q <= d) by (nonlinear_arith)
            requires
                q * w <= w * d,
                0 < w,
        ;
    }
    vstd::arithmetic::div_mod::lemma_div_pos_is_pos(x * d, w);
}

/// The fees, for every pool total: each is `total * 50 / 10_000` (0.5%),
/// the two are equal and together at most 1% of the pool; the winners' part
/// is `total * 9_900 / 10_000` (99%), and with the fees it never exceeds the
/// pool.
pub proof fn lemma_fee_split(total: u64)
    ensures
        fee_split(total).platform_fee == total * PLATFORM_FEE_BPS / (FEE_DENOMINATOR as int),
        fee_split(total).creator_fee == fee_split(total).platform_fee,
        (fee_split(total).platform_fee + fee_split(total).creator_fee) * FEE_DENOMINATOR <= total
            * (PLATFORM_FEE_BPS + CREATOR_FEE_BPS),
        distributable(total) == total * (FEE_DENOMINATOR - PLATFORM_FEE_BPS - CREATOR_FEE_BPS) / (
        FEE_DENOMINATOR as int),
        distributable(total) + fee_split(total).platform_fee + fee_split(total).creator_fee
            <= total,
{
    let t = total as int;
    assert(0 <= t * 50 / 10_000 <= t && (t * 50 / 10_000) * 10_000 <= t * 50) by (nonlinear_arith)
        requires
            t >= 0,
    ;
    assert(0 <= t * 9_900 / 10_000 <= t) by (nonlinear_arith)
        requires
            t >= 0,
    ;
    assert(t * 9_900 / 10_000 + 2 * (t * 50 / 10_000) <= t) by (nonlinear_arith)
        requires
            t >= 0,
    ;
}

/// Payouts are proportional to stakes: monotone in the amount staked, zero
/// for nothing, and the whole winners' part for the whole winning side.
pub proof fn lemma_payout_proportional(a: u64, b: u64, d: u64, w: u64)
    requires
        w > 0,
        a <= b <= w,
    ensures
        payout_share(a, d, w) matches Some(pa) && payout_share(b, d, w) matches Some(pb) && pa
            <= pb && pb <= d,
        payout_share(0, d, w) == Some(0u64),
        payout_share(w, d, w) == Some(d),
{
    lemma_share_bounds(a as int, d as int, w as int);
    lemma_share_bounds(b as int, d as int, w as int);
    assert(a * d <= b * d) by (nonlinear_arith)
        requires
            a <= b,
    ;
    vstd::arithmetic::div_mod::lemma_div_is_ordered(a * d, b * d, w as int);
    assert(w * d / (w as int) == d) by {
        vstd::arithmetic::div_mod::lemma_div_multiples_vanish(d as int, w as int);
    }
    assert(0 * d == 0);
}


// ---------------------------------------------------------------- life cycle

/// A created pool is open, empty, unresolved, with no fees taken, and its
/// resolution time is at least the minimum gap after its close time.
pub proof fn lemma_created_pool_is_fresh(
    keys: PoolKeys,
    question: String,
    outcome_names: [String; NUM_OUTCOMES],
    close_ts: i64,
    resolve_ts: i64,
    now: i64,
)
    requires
        create_pool_result(keys, question, outcome_names, close_ts, resolve_ts, now) is Ok,
    ensures
        ({
            let p = create_pool_result(keys, question, outcome_names, close_ts, resolve_ts, now)->Ok_0;
            &&& p.status == PoolStatus::Open
            &&& p.total_staked == 0
            &&& p.ledger_balanced()
            &&& p.winning_outcome is None
            &&& !p.fees_collected
            &&& p.fee_taken == 0
            &&& now < p.close_ts
            &&& p.close_ts + MIN_CLOSE_TO_RESOLVE_GAP <= p.resolve_ts
        }),
{
}

/// A stake adds its amount to the pool total and to its outcome, leaves the
/// other outcome, the schedule and the resolution as they were, and so keeps
/// a balanced ledger balanced.
pub proof fn lemma_stake_keeps_ledger_balanced(
    pool: Pool,
    asset: Asset,
    payer_mint: Option<Pubkey>,
    pool_key: Pubkey,
    user: Pubkey,
    outcome: u8,
    amount: u64,
    stake_bump: u8,
    now: i64,
)
    requires
        place_stake_result(pool, asset, payer_mint, pool_key, user, outcome, amount, stake_bump, now) is Ok,
    ensures
        ({
            let (p, s) = place_stake_result(pool, asset, payer_mint, pool_key, user, outcome, amount, stake_bump, now)->Ok_0;
            &&& p.total_staked == pool.total_staked + amount
            &&& p.stake_per_outcome[outcome as int] == pool.stake_per_outcome[outcome as int] + amount
            &&& p.stake_per_outcome[1 - outcome] == pool.stake_per_outcome[1 - outcome]
            &&& pool.ledger_balanced() ==> p.ledger_balanced()
            &&& p.close_ts == pool.close_ts && p.resolve_ts == pool.resolve_ts
            &&& p.status == pool.status && p.winning_outcome == pool.winning_outcome
            &&& s.amount == amount && s.outcome == outcome && s.user == user && !s.claimed
            &&& now < pool.close_ts
        }),
{
}

/// Betting and resolution never overlap: on a pool whose resolution time is
/// at least the minimum gap after its close time, a stake accepted at
/// `stake_time` and a resolution accepted at `resolve_time` are more than
/// the gap apart.
pub proof fn lemma_betting_closes_before_resolution(
    pool: Pool,
    asset: Asset,
    payer_mint: Option<Pubkey>,
    pool_key: Pubkey,
    user: Pubkey,
    outcome: u8,
    amount: u64,
    stake_bump: u8,
    stake_time: i64,
    signer: Pubkey,
    winning_outcome: u8,
    resolve_time: i64,
)
    requires
        pool.close_ts + MIN_CLOSE_TO_RESOLVE_GAP <= pool.resolve_ts,
        place_stake_result(pool, asset, payer_mint, pool_key, user, outcome, amount, stake_bump, stake_time) is Ok,
        resolve_pool_result(pool, signer, winning_outcome, resolve_time) is Ok,
    ensures
        stake_time + MIN_CLOSE_TO_RESOLVE_GAP < resolve_time,
{
}

/// Only the pool's admin can resolve it.
pub proof fn lemma_only_admin_resolves(pool: Pool, signer: Pubkey, winning_outcome: u8, now: i64)
    requires
        signer != pool.admin,
    ensures
        resolve_pool_result(pool, signer, winning_outcome, now) == Err::<Pool, PredictionMarketError>(
            PredictionMarketError::UnauthorizedResolver,
        ),
{
}

/// Resolution moves no funds: it records a winning outcome that someone
/// staked on, marks the pool resolved, and changes nothing else.
pub proof fn lemma_resolution_moves_no_funds(pool: Pool, signer: Pubkey, winning_outcome: u8, now: i64)
    requires
        resolve_pool_result(pool, signer, winning_outcome, now) is Ok,
    ensures
        ({
            let p = resolve_pool_result(pool, signer, winning_outcome, now)->Ok_0;
            &&& p == Pool { status: PoolStatus::Resolved, winning_outcome: Some(winning_outcome), ..pool }
            &&& (winning_outcome as usize) < NUM_OUTCOMES
            &&& pool.stake_per_outcome[winning_outcome as int] > 0
            &&& pool.resolve_ts <= now
        }),
{
}

/// A pool is resolved at most once: every later resolution is refused.
pub proof fn lemma_resolved_once(
    pool: Pool,
    signer: Pubkey,
    winning_outcome: u8,
    now: i64,
    later_signer: Pubkey,
    later_outcome: u8,
    later: i64,
)
    requires
        resolve_pool_result(pool, signer, winning_outcome, now) is Ok,
    ensures
        resolve_pool_result(
            resolve_pool_result(pool, signer, winning_outcome, now)->Ok_0,
            later_signer,
            later_outcome,
            later,
        ) is Err,
{
}

/// Fees are collected at most once per pool: after a successful collection
/// every later one is refused, and with the same accounts it is refused as
/// already claimed.
pub proof fn lemma_fees_collected_once(
    pool: Pool,
    config_treasury: Pubkey,
    platform_treasury: Pubkey,
    creator_wallet: Pubkey,
    later_config_treasury: Pubkey,
    later_platform_treasury: Pubkey,
    later_creator_wallet: Pubkey,
)
    requires
        collect_fees_native_result(pool, config_treasury, platform_treasury, creator_wallet) is Ok,
    ensures
        ({
            let (p, f) = collect_fees_native_result(pool, config_treasury, platform_treasury, creator_wallet)->Ok_0;
            &&& collect_fees_native_result(p, later_config_treasury, later_platform_treasury, later_creator_wallet) is Err
            &&& collect_fees_native_result(p, config_treasury, platform_treasury, creator_wallet)
                == Err::<(Pool, FeePayout), PredictionMarketError>(PredictionMarketError::AlreadyClaimed)
            &&& p.fee_taken == f.platform_fee + f.creator_fee
            &&& f == fee_split(pool.total_staked)
            &&& p.total_staked == pool.total_staked
            &&& p.stake_per_outcome == pool.stake_per_outcome
        }),
{
}

/// The same for SPL token pools.
pub proof fn lemma_spl_fees_collected_once(
    pool: Pool,
    config_treasury: Pubkey,
    treasury_token: TokenAccountKeys,
    creator_token: TokenAccountKeys,
    later_config_treasury: Pubkey,
    later_treasury_token: TokenAccountKeys,
    later_creator_token: TokenAccountKeys,
)
    requires
        collect_fees_spl_result(pool, config_treasury, treasury_token, creator_token) is Ok,
    ensures
        ({
            let (p, f) = collect_fees_spl_result(pool, config_treasury, treasury_token, creator_token)->Ok_0;
            &&& collect_fees_spl_result(p, later_config_treasury, later_treasury_token, later_creator_token) is Err
            &&& collect_fees_spl_result(p, config_treasury, treasury_token, creator_token)
                == Err::<(Pool, FeePayout), PredictionMarketError>(PredictionMarketError::AlreadyClaimed)
            &&& p.fee_taken == f.platform_fee + f.creator_fee
            &&& f == fee_split(pool.total_staked)
            &&& p.total_staked == pool.total_staked
            &&& p.stake_per_outcome == pool.stake_per_outcome
        }),
{
}

/// A stake pays out at most once: after a successful claim, claiming the
/// same stake again is refused as already claimed.
pub proof fn lemma_claimed_once(pool: Pool, stake: Stake, asset: Asset)
    requires
        claim_payout_result(pool, stake, asset) is Ok,
    ensures
        ({
            let (s, payout) = claim_payout_result(pool, stake, asset)->Ok_0;
            &&& s == Stake { claimed: true, ..stake }
            &&& claim_payout_result(pool, s, asset) == Err::<(Stake, u64), PredictionMarketError>(
                PredictionMarketError::AlreadyClaimed,
            )
        }),
{
}

// ---------------------------------------------------------------- payouts and solvency

/// A winner is paid: on a resolved pool of the right denomination, an
/// unclaimed stake on the winning side, with an amount of at most that
/// side's total, is paid `amount / winning_side_total` of the winners' part
/// `total * 9_900 / 10_000`, rounded down, whatever the pool's total.
pub proof fn lemma_winner_is_paid(pool: Pool, stake: Stake, asset: Asset)
    requires
        asset_matches(pool, asset),
        pool.status == PoolStatus::Resolved,
        !stake.claimed,
        pool.winning_outcome == Some(stake.outcome),
        (stake.outcome as usize) < NUM_OUTCOMES,
        0 < stake.amount <= pool.stake_per_outcome[stake.outcome as int],
    ensures
        claim_payout_result(pool, stake, asset) == Ok::<(Stake, u64), PredictionMarketError>(
            (
                Stake { claimed: true, ..stake },
                (stake.amount * (pool.total_staked * (FEE_DENOMINATOR - PLATFORM_FEE_BPS
                    - CREATOR_FEE_BPS) / (FEE_DENOMINATOR as int)) / (
                pool.stake_per_outcome[stake.outcome as int] as int)) as u64,
            ),
        ),
{
    lemma_fee_split(pool.total_staked);
}

/// The pool is denominated as `asset` says.
pub open spec fn asset_matches(pool: Pool, asset: Asset) -> bool {
    match asset {
        Asset::NativeSol => pool.token_mint is None,
        Asset::SplToken => pool.token_mint is Some,
    }
}

/// Sum of the amounts of those of `stakes` that are on `outcome`.
pub open spec fn amounts_on(stakes: Seq<Stake>, outcome: u8) -> int
    decreases stakes.len(),
{
    if stakes.len() == 0 {
        0
    } else {
        amounts_on(stakes.drop_last(), outcome) + if stakes.last().outcome == outcome {
            stakes.last().amount as int
        } else {
            0
        }
    }
}

/// Sum of the amounts of those stake records that belong to the pool at
/// `pool_key` and are on `outcome`.
pub open spec fn recorded_on(records: Seq<Stake>, pool_key: Pubkey, outcome: u8) -> int
    decreases records.len(),
{
    if records.len() == 0 {
        0
    } else {
        recorded_on(records.drop_last(), pool_key, outcome) + if records.last().pool == pool_key
            && records.last().outcome == outcome {
            records.last().amount as int
        } else {
            0
        }
    }
}

/// The pool's ledger agrees with the stake records: each outcome's total is
/// the sum of the pool's stake records on it, and the pool total is the sum
/// of the two.
pub open spec fn ledger_matches(pool: Pool, pool_key: Pubkey, records: Seq<Stake>) -> bool {
    &&& pool.stake_per_outcome[0] == recorded_on(records, pool_key, 0)
    &&& pool.stake_per_outcome[1] == recorded_on(records, pool_key, 1)
    &&& pool.ledger_balanced()
}

/// Sum of what claiming each of `stakes` on `pool` pays out (nothing for a
/// refused claim).
pub open spec fn payouts_total(pool: Pool, stakes: Seq<Stake>, asset: Asset) -> int
    decreases stakes.len(),
{
    if stakes.len() == 0 {
        0
    } else {
        payouts_total(pool, stakes.drop_last(), asset) + match claim_payout_result(
            pool,
            stakes.last(),
            asset,
        ) {
            Ok((_, payout)) => payout as int,
            Err(_) => 0,
        }
    }
}

/// What fee collection pays out of a pool of `total`.
pub open spec fn fees_total(total: u64) -> int {
    fee_split(total).platform_fee + fee_split(total).creator_fee
}

/// A new pool's ledger agrees with there being no stake records yet.
pub proof fn lemma_created_pool_has_no_stakes(
    keys: PoolKeys,
    question: String,
    outcome_names: [String; NUM_OUTCOMES],
    close_ts: i64,
    resolve_ts: i64,
    now: i64,
    pool_key: Pubkey,
)
    requires
        create_pool_result(keys, question, outcome_names, close_ts, resolve_ts, now) is Ok,
    ensures
        ledger_matches(
            create_pool_result(keys, question, outcome_names, close_ts, resolve_ts, now)->Ok_0,
            pool_key,
            Seq::empty(),
        ),
{
}

/// Staking keeps the pool's ledger in agreement with its stake records: an
/// accepted stake adds its new record, whose amount and outcome are the ones
/// added to the ledger (a refused stake changes neither).
pub proof fn lemma_stake_keeps_ledger_matching(
    pool: Pool,
    asset: Asset,
    payer_mint: Option<Pubkey>,
    pool_key: Pubkey,
    user: Pubkey,
    outcome: u8,
    amount: u64,
    stake_bump: u8,
    now: i64,
    records: Seq<Stake>,
)
    requires
        ledger_matches(pool, pool_key, records),
        place_stake_result(pool, asset, payer_mint, pool_key, user, outcome, amount, stake_bump, now) is Ok,
    ensures
        ({
            let (p, s) = place_stake_result(pool, asset, payer_mint, pool_key, user, outcome, amount, stake_bump, now)->Ok_0;
            ledger_matches(p, pool_key, records.push(s))
        }),
{
    let s = place_stake_result(pool, asset, payer_mint, pool_key, user, outcome, amount, stake_bump, now)->Ok_0.1;
    assert(records.push(s).drop_last() =~= records);
}

/// Every stake record of a pool whose ledger agrees with its records is
/// within its outcome's total.
pub proof fn lemma_recorded_stake_within_outcome(pool: Pool, pool_key: Pubkey, records: Seq<Stake>, i: int)
    requires
        ledger_matches(pool, pool_key, records),
        0 <= i < records.len(),
        records[i].pool == pool_key,
        (records[i].outcome as usize) < NUM_OUTCOMES,
    ensures
        records[i].amount <= pool.stake_per_outcome[records[i].outcome as int],
{
    lemma_record_within_sum(records, pool_key, records[i].outcome, i);
}

proof fn lemma_record_within_sum(records: Seq<Stake>, pool_key: Pubkey, outcome: u8, i: int)
    requires
        0 <= i < records.len(),
        records[i].pool == pool_key,
        records[i].outcome == outcome,
    ensures
        records[i].amount <= recorded_on(records, pool_key, outcome),
    decreases records.len(),
{
    lemma_recorded_nonneg(records.drop_last(), pool_key, outcome);
    if i < records.len() - 1 {
        assert(records.drop_last()[i] == records[i]);
        lemma_record_within_sum(records.drop_last(), pool_key, outcome, i);
    }
}

proof fn lemma_recorded_nonneg(records: Seq<Stake>, pool_key: Pubkey, outcome: u8)
    ensures
        0 <= recorded_on(records, pool_key, outcome),
    decreases records.len(),
{
    if records.len() > 0 {
        lemma_recorded_nonneg(records.drop_last(), pool_key, outcome);
    }
}

proof fn lemma_amounts_nonneg(stakes: Seq<Stake>, outcome: u8)
    ensures
        0 <= amounts_on(stakes, outcome),
    decreases stakes.len(),
{
    if stakes.len() > 0 {
        lemma_amounts_nonneg(stakes.drop_last(), outcome);
    }
}

/// Records that all belong to the pool at `pool_key` add up on an outcome to
/// what is recorded for it.
proof fn lemma_own_records_sum(records: Seq<Stake>, pool_key: Pubkey, outcome: u8)
    requires
        forall|i: int| 0 <= i < records.len() ==> #[trigger] records[i].pool == pool_key,
    ensures
        amounts_on(records, outcome) == recorded_on(records, pool_key, outcome),
    decreases records.len(),
{
    if records.len() > 0 {
        let rest = records.drop_last();
        assert forall|i: int| 0 <= i < rest.len() implies #[trigger] rest[i].pool == pool_key by {
            assert(rest[i] == records[i]);
        }
        lemma_own_records_sum(rest, pool_key, outcome);
        assert(records[records.len() - 1].pool == pool_key);
    }
}

proof fn lemma_payouts_scaled(pool: Pool, stakes: Seq<Stake>, asset: Asset, o: u8, w: u64)
    requires
        pool.winning_outcome == Some(o),
        (o as usize) < NUM_OUTCOMES,
        w == pool.stake_per_outcome[o as int],
        w > 0,
        amounts_on(stakes, o) <= w,
    ensures
        payouts_total(pool, stakes, asset) * w <= amounts_on(stakes, o) * distributable(
            pool.total_staked,
        ),
        0 <= payouts_total(pool, stakes, asset),
    decreases stakes.len(),
{
    let d = distributable(pool.total_staked);
    if stakes.len() > 0 {
        let rest = stakes.drop_last();
        let s = stakes.last();
        lemma_amounts_nonneg(rest, o);
        let a: int = if s.outcome == o {
            s.amount as int
        } else {
            0
        };
        assert(a <= w);
        lemma_payouts_scaled(pool, rest, asset, o, w);
        lemma_share_bounds(a, d as int, w as int);
        let here = match claim_payout_result(pool, s, asset) {
            Ok((_, payout)) => payout as int,
            Err(_) => 0,
        };
        assert(here * w <= a * d) by {
            if claim_payout_result(pool, s, asset) is Ok {
                assert(s.outcome == o);
                assert(here == a * d / (w as int));
            } else {
                assert(0 <= a * d) by (nonlinear_arith)
                    requires
                        0 <= a,
                        0 <= d,
                ;
            }
        }
        let pr = payouts_total(pool, rest, asset);
        let ar = amounts_on(rest, o);
        assert((pr + here) * w == pr * w + here * w) by (nonlinear_arith);
        assert((ar + a) * d == ar * d + a * d) by (nonlinear_arith);
        assert(0 <= here);
    }
}

/// The vault always covers what leaves it: on a resolved pool, for any
/// stakes whose amounts on the winning outcome add up to at most the winning
/// side's total (as the distinct stakes of a pool whose ledger agrees with
/// its records do), the claims paid on them plus the fees collected never
/// exceed the pool's total.
pub proof fn lemma_vault_covers_claims_and_fees(pool: Pool, stakes: Seq<Stake>, asset: Asset)
    requires
        pool.winning_outcome matches Some(o) && (o as usize) < NUM_OUTCOMES && amounts_on(
            stakes,
            o,
        ) <= pool.stake_per_outcome[o as int],
    ensures
        payouts_total(pool, stakes, asset) + fees_total(pool.total_staked) <= pool.total_staked,
{
    lemma_fee_split(pool.total_staked);
    let o = pool.winning_outcome.unwrap();
    let w = pool.stake_per_outcome[o as int];
    let d = distributable(pool.total_staked);
    if w > 0 {
        lemma_payouts_scaled(pool, stakes, asset, o, w);
        let p = payouts_total(pool, stakes, asset);
        let a = amounts_on(stakes, o);
        assert(a * d <= w * d) by (nonlinear_arith)
            requires
                a <= w,
                0 <= d,
        ;
        assert(p <= d) by (nonlinear_arith)
            requires
                p * w <= w * d,
                0 < w,
        ;
    } else {
        lemma_no_payout_without_winners(pool, stakes, asset);
    }
}

/// The same for all the stake records of a resolved pool whose ledger agrees
/// with them: paying every claim on them and the fees never exceeds the pool.
pub proof fn lemma_vault_covers_every_recorded_stake(
    pool: Pool,
    pool_key: Pubkey,
    records: Seq<Stake>,
    asset: Asset,
)
    requires
        ledger_matches(pool, pool_key, records),
        forall|i: int| 0 <= i < records.len() ==> #[trigger] records[i].pool == pool_key,
        pool.winning_outcome matches Some(o) && (o as usize) < NUM_OUTCOMES,
    ensures
        payouts_total(pool, records, asset) + fees_total(pool.total_staked) <= pool.total_staked,
{
    let o = pool.winning_outcome.unwrap();
    lemma_own_records_sum(records, pool_key, o);
    lemma_vault_covers_claims_and_fees(pool, records, asset);
}

/// Where nobody staked on the winning side, every claim is refused.
proof fn lemma_no_payout_without_winners(pool: Pool, stakes: Seq<Stake>, asset: Asset)
    requires
        pool.winning_outcome matches Some(o) && (o as usize) < NUM_OUTCOMES
            && pool.stake_per_outcome[o as int] == 0,
    ensures
        payouts_total(pool, stakes, asset) == 0,
    decreases stakes.len(),
{
    if stakes.len() > 0 {
        lemma_no_payout_without_winners(pool, stakes.drop_last(), asset);
    }
}


// ---------------------------------------------------------------- when instructions succeed

/// A stake is accepted exactly when the pool is of the stake's denomination
/// (and of the paying account's mint), open, the amount is positive, the
/// outcome exists, betting has not closed, and the amount fits in a u64 when
/// added to the pool total and to its outcome's total; the accepted stake
/// then adds exactly its amount to both.
pub proof fn lemma_stake_accepted_exactly_when_it_fits(
    pool: Pool,
    asset: Asset,
    payer_mint: Option<Pubkey>,
    pool_key: Pubkey,
    user: Pubkey,
    outcome: u8,
    amount: u64,
    stake_bump: u8,
    now: i64,
)
    ensures
        place_stake_result(pool, asset, payer_mint, pool_key, user, outcome, amount, stake_bump, now) is Ok
            <==> {
            &&& asset_matches(pool, asset)
            &&& (payer_mint is None || payer_mint == pool.token_mint)
            &&& pool.status == PoolStatus::Open
            &&& amount > 0
            &&& (outcome as usize) < NUM_OUTCOMES
            &&& now < pool.close_ts
            &&& pool.total_staked + amount <= u64::MAX
            &&& pool.stake_per_outcome[outcome as int] + amount <= u64::MAX
        },
        place_stake_result(pool, asset, payer_mint, pool_key, user, outcome, amount, stake_bump, now) matches Ok((p, s)) ==> {
            &&& p.total_staked == pool.total_staked + amount
            &&& p.stake_per_outcome[outcome as int] == pool.stake_per_outcome[outcome as int] + amount
            &&& p.stake_per_outcome[1 - outcome] == pool.stake_per_outcome[1 - outcome]
            &&& s.amount == amount
            &&& s.outcome == outcome
        },
{
}

/// A resolution is accepted exactly when the signer is the pool's admin, the
/// pool is open or closed and not yet resolved, the outcome exists, the
/// resolution time has come and someone staked on the outcome; it then
/// records exactly that outcome as the winner.
pub proof fn lemma_resolution_accepted_exactly_when(
    pool: Pool,
    signer: Pubkey,
    winning_outcome: u8,
    now: i64,
)
    ensures
        resolve_pool_result(pool, signer, winning_outcome, now) is Ok <==> {
            &&& signer == pool.admin
            &&& (pool.status == PoolStatus::Open || pool.status == PoolStatus::Closed)
            &&& pool.winning_outcome is None
            &&& (winning_outcome as usize) < NUM_OUTCOMES
            &&& pool.resolve_ts <= now
            &&& pool.stake_per_outcome[winning_outcome as int] > 0
        },
        resolve_pool_result(pool, signer, winning_outcome, now) matches Ok(p) ==> {
            &&& p.status == PoolStatus::Resolved
            &&& p.winning_outcome == Some(winning_outcome)
        },
{
}

/// A pool is created exactly when the question and labels are within their
/// byte limits, the close time is in the future and the resolution time is
/// at least the minimum gap after it.
pub proof fn lemma_creation_accepted_exactly_when(
    keys: PoolKeys,
    question: String,
    outcome_names: [String; NUM_OUTCOMES],
    close_ts: i64,
    resolve_ts: i64,
    now: i64,
)
    ensures
        create_pool_result(keys, question, outcome_names, close_ts, resolve_ts, now) is Ok <==> {
            &&& crate::market::byte_len(question) <= crate::constants::MAX_QUESTION_LEN
            &&& crate::market::byte_len(outcome_names[0]) <= crate::constants::MAX_OUTCOME_LEN
            &&& crate::market::byte_len(outcome_names[1]) <= crate::constants::MAX_OUTCOME_LEN
            &&& now < close_ts
            &&& close_ts + MIN_CLOSE_TO_RESOLVE_GAP <= resolve_ts
        },
        create_pool_result(keys, question, outcome_names, close_ts, resolve_ts, now) matches Ok(p) ==> {
            &&& p.token_mint == keys.token_mint
            &&& p.creator == keys.creator
            &&& p.admin == keys.admin
            &&& p.close_ts == close_ts
            &&& p.resolve_ts == resolve_ts
            &&& p.status == PoolStatus::Open
            &&& p.total_staked == 0
        },
{
}

// ---------------------------------------------------------------- fees leave the rest alone

/// Fee collection touches only the fee bookkeeping: the pool keeps its
/// status, winner, ledger and schedule, so every claim is answered after it
/// exactly as before it.
pub proof fn lemma_fee_collection_keeps_claims(
    pool: Pool,
    config_treasury: Pubkey,
    platform_treasury: Pubkey,
    creator_wallet: Pubkey,
    stake: Stake,
    asset: Asset,
)
    requires
        collect_fees_native_result(pool, config_treasury, platform_treasury, creator_wallet) is Ok,
    ensures
        ({
            let (p, f) = collect_fees_native_result(pool, config_treasury, platform_treasury, creator_wallet)->Ok_0;
            &&& p.status == pool.status
            &&& p.winning_outcome == pool.winning_outcome
            &&& p.total_staked == pool.total_staked
            &&& p.stake_per_outcome == pool.stake_per_outcome
            &&& p.token_mint == pool.token_mint
            &&& p.close_ts == pool.close_ts && p.resolve_ts == pool.resolve_ts
            &&& p.fee_taken == f.platform_fee + f.creator_fee
            &&& p.fees_collected
            &&& claim_payout_result(p, stake, asset) == claim_payout_result(pool, stake, asset)
        }),
{
}

/// The same for SPL token pools.
pub proof fn lemma_spl_fee_collection_keeps_claims(
    pool: Pool,
    config_treasury: Pubkey,
    treasury_token: TokenAccountKeys,
    creator_token: TokenAccountKeys,
    stake: Stake,
    asset: Asset,
)
    requires
        collect_fees_spl_result(pool, config_treasury, treasury_token, creator_token) is Ok,
    ensures
        ({
            let (p, f) = collect_fees_spl_result(pool, config_treasury, treasury_token, creator_token)->Ok_0;
            &&& p.status == pool.status
            &&& p.winning_outcome == pool.winning_outcome
            &&& p.total_staked == pool.total_staked
            &&& p.stake_per_outcome == pool.stake_per_outcome
            &&& p.token_mint == pool.token_mint
            &&& p.close_ts == pool.close_ts && p.resolve_ts == pool.resolve_ts
            &&& p.fee_taken == f.platform_fee + f.creator_fee
            &&& p.fees_collected
            &&& claim_payout_result(p, stake, asset) == claim_payout_result(pool, stake, asset)
        }),
{
}
} // verus!
