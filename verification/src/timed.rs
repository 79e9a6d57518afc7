use vstd::prelude::*;

use crate::constants::NUM_OUTCOMES;
use crate::errors::{HandlerError, PredictionMarketError};
use crate::market::{
    check_pool_labels, check_resolve, check_stake, create_pool_at, create_pool_precheck,
    create_pool_result, place_stake_at, place_stake_precheck, place_stake_result, resolve_pool_at,
    resolve_pool_result, resolve_precheck, Asset, PoolKeys,
};
use crate::state::{Pool, Pubkey, Stake};
use crate::sysvar::clock_unix_timestamp;

verus! {

/// What pool creation that reads the clock hands back: the label refusal
/// where the labels are refused; otherwise a clock failure, or exactly
/// what creation at some clock time gives.
pub open spec fn create_pool_clocked(
    keys: PoolKeys,
    question: String,
    outcome_names: [String; NUM_OUTCOMES],
    close_ts: i64,
    resolve_ts: i64,
    r: Result<Pool, HandlerError>,
) -> bool {
    match create_pool_precheck(question, outcome_names) {
        Some(e) => r == Err::<Pool, HandlerError>(HandlerError::Market(e)),
        None => match r {
            Ok(p) => exists|now: i64|
                #[trigger] create_pool_result(keys, question, outcome_names, close_ts, resolve_ts, now)
                    == Ok::<Pool, PredictionMarketError>(p),
            Err(HandlerError::Market(e)) => exists|now: i64|
                #[trigger] create_pool_result(keys, question, outcome_names, close_ts, resolve_ts, now)
                    == Err::<Pool, PredictionMarketError>(e),
            Err(HandlerError::Clock(_)) => true,
        },
    }
}

/// What staking that reads the clock does, from pool `before` to pool
/// `after`: the refusal of the checks that need no clock, with the pool
/// unchanged; otherwise a clock failure with the pool unchanged, or exactly
/// what staking at some clock time gives.
pub open spec fn place_stake_clocked(
    before: Pool,
    asset: Asset,
    payer_mint: Option<Pubkey>,
    pool_key: Pubkey,
    user: Pubkey,
    outcome: u8,
    amount: u64,
    stake_bump: u8,
    after: Pool,
    r: Result<Stake, HandlerError>,
) -> bool {
    match place_stake_precheck(before, asset, payer_mint, outcome, amount) {
        Some(e) => r == Err::<Stake, HandlerError>(HandlerError::Market(e)) && after == before,
        None => match r {
            Ok(s) => exists|now: i64|
                #[trigger] place_stake_result(before, asset, payer_mint, pool_key, user, outcome, amount, stake_bump, now)
                    == Ok::<(Pool, Stake), PredictionMarketError>((after, s)),
            Err(HandlerError::Market(e)) => after == before && exists|now: i64|
                #[trigger] place_stake_result(before, asset, payer_mint, pool_key, user, outcome, amount, stake_bump, now)
                    == Err::<(Pool, Stake), PredictionMarketError>(e),
            Err(HandlerError::Clock(_)) => after == before,
        },
    }
}

/// What resolution that reads the clock does, from pool `before` to pool
/// `after`, in the same terms as `place_stake_clocked`.
pub open spec fn resolve_pool_clocked(
    before: Pool,
    signer: Pubkey,
    winning_outcome: u8,
    after: Pool,
    r: Result<(), HandlerError>,
) -> bool {
    match resolve_precheck(before, signer, winning_outcome) {
        Some(e) => r == Err::<(), HandlerError>(HandlerError::Market(e)) && after == before,
        None => match r {
            Ok(()) => exists|now: i64|
                #[trigger] resolve_pool_result(before, signer, winning_outcome, now)
                    == Ok::<Pool, PredictionMarketError>(after),
            Err(HandlerError::Market(e)) => after == before && exists|now: i64|
                #[trigger] resolve_pool_result(before, signer, winning_outcome, now)
                    == Err::<Pool, PredictionMarketError>(e),
            Err(HandlerError::Clock(_)) => after == before,
        },
    }
}

/// Reads the cluster clock, mapping a failed read to `HandlerError::Clock`.
fn now_or_clock_error() -> (r: Result<i64, HandlerError>)
    ensures
        r matches Err(e) ==> e is Clock,
{
    match clock_unix_timestamp() {
        Ok(now) => Ok(now),
        Err(e) => Err(HandlerError::Clock(e)),
    }
}

/// Creates a pool at the time the cluster clock gives. The label checks come
/// first; then, whatever the clock reads, the result is creation at that time.
pub fn create_pool(
    keys: PoolKeys,
    question: String,
    outcome_names: [String; NUM_OUTCOMES],
    close_ts: i64,
    resolve_ts: i64,
) -> (r: Result<Pool, HandlerError>)
    ensures
        create_pool_clocked(keys, question, outcome_names, close_ts, resolve_ts, r),
{
    if let Err(e) = check_pool_labels(&question, &outcome_names) {
        return Err(HandlerError::Market(e));
    }
    let now = now_or_clock_error()?;
    let ghost q = question;
    let ghost n = outcome_names;
    let r = create_pool_at(keys, question, outcome_names, close_ts, resolve_ts, now);
    assert(r == create_pool_result(keys, q, n, close_ts, resolve_ts, now));
    match r {
        Ok(p) => Ok(p),
        Err(e) => Err(HandlerError::Market(e)),
    }
}

/// Stakes on `pool` at the time the cluster clock gives. A refused stake
/// leaves the pool as it was.
pub fn place_stake(
    pool: &mut Pool,
    asset: Asset,
    payer_mint: Option<Pubkey>,
    pool_key: Pubkey,
    user: Pubkey,
    outcome: u8,
    amount: u64,
    stake_bump: u8,
) -> (r: Result<Stake, HandlerError>)
    ensures
        place_stake_clocked(*old(pool), asset, payer_mint, pool_key, user, outcome, amount, stake_bump, *final(pool), r),
{
    if let Err(e) = check_stake(pool, asset, payer_mint, outcome, amount) {
        return Err(HandlerError::Market(e));
    }
    let now = now_or_clock_error()?;
    let ghost before = *pool;
    let r = place_stake_at(pool, asset, payer_mint, pool_key, user, outcome, amount, stake_bump, now);
    match r {
        Ok(s) => {
            assert(place_stake_result(before, asset, payer_mint, pool_key, user, outcome, amount, stake_bump, now)
                == Ok::<(Pool, Stake), PredictionMarketError>((*pool, s)));
            Ok(s)
        },
        Err(e) => {
            assert(place_stake_result(before, asset, payer_mint, pool_key, user, outcome, amount, stake_bump, now)
                == Err::<(Pool, Stake), PredictionMarketError>(e));
            Err(HandlerError::Market(e))
        },
    }
}

/// Resolves `pool` at the time the cluster clock gives. A refused resolution
/// leaves the pool as it was.
pub fn resolve_pool(pool: &mut Pool, signer: &Pubkey, winning_outcome: u8) -> (r: Result<
    (),
    HandlerError,
>)
    ensures
        resolve_pool_clocked(*old(pool), *signer, winning_outcome, *final(pool), r),
{
    if let Err(e) = check_resolve(pool, signer, winning_outcome) {
        return Err(HandlerError::Market(e));
    }
    let now = now_or_clock_error()?;
    let ghost before = *pool;
    match resolve_pool_at(pool, signer, winning_outcome, now) {
        Ok(()) => {
            assert(resolve_pool_result(before, *signer, winning_outcome, now)
                == Ok::<Pool, PredictionMarketError>(*pool));
            Ok(())
        },
        Err(e) => {
            assert(resolve_pool_result(before, *signer, winning_outcome, now)
                == Err::<Pool, PredictionMarketError>(e));
            Err(HandlerError::Market(e))
        },
    }
}

} // verus!
