use vstd::prelude::*;

use crate::constants::{
    CREATOR_FEE_BPS, FEE_DENOMINATOR, MAX_OUTCOME_LEN, MAX_QUESTION_LEN, MIN_CLOSE_TO_RESOLVE_GAP, NUM_OUTCOMES,
    PLATFORM_FEE_BPS,
};
use crate::errors::PredictionMarketError;
use crate::fees::{distributable, distributable_of, fee_share, payout_of, payout_share};
use crate::state::{Pool, PoolStatus, Pubkey, Stake};

verus! {

/// What a pool is denominated in, as the instruction that acts on it expects.
#[derive(Clone, Copy, Debug, PartialEq, Eq, Structural)]
pub enum Asset {
    NativeSol,
    SplToken,
}

/// The addresses and PDA bumps that a new pool is created with.
#[derive(Clone, Copy, Debug)]
pub struct PoolKeys {
    pub creator: Pubkey,
    pub admin: Pubkey,
    /// None for a native SOL pool.
    pub token_mint: Option<Pubkey>,
    pub vault_authority: Pubkey,
    pub vault_token_account: Pubkey,
    pub bump: u8,
    pub vault_bump: u8,
    pub vault_token_bump: u8,
}

/// The two fee transfers of fee collection.
#[derive(Clone, Copy, Debug, PartialEq, Eq, Structural)]
pub struct FeePayout {
    pub platform_fee: u64,
    pub creator_fee: u64,
}

/// Length of a string in UTF-8 bytes, as `str::len` counts it.
pub open spec fn byte_len(s: String) -> usize {
    vstd::utf8::encode_utf8(s@).len() as usize
}

/// The refusal owed to an instruction for `asset` on `pool`, if the pool is
/// denominated otherwise.
pub open spec fn asset_error(pool: Pool, asset: Asset) -> Option<PredictionMarketError> {
    match asset {
        Asset::NativeSol => if pool.token_mint is None {
            None
        } else {
            Some(PredictionMarketError::ExpectedSplToken)
        },
        Asset::SplToken => if pool.token_mint is Some {
            None
        } else {
            Some(PredictionMarketError::ExpectedNativeSol)
        },
    }
}

// ---------------------------------------------------------------- creation

/// The checks of pool creation that come before the clock is read.
pub open spec fn create_pool_precheck(question: String, outcome_names: [String; NUM_OUTCOMES]) -> Option<
    PredictionMarketError,
> {
    if byte_len(question) > MAX_QUESTION_LEN {
        Some(PredictionMarketError::QuestionTooLong)
    } else if byte_len(outcome_names[0]) > MAX_OUTCOME_LEN || byte_len(outcome_names[1])
        > MAX_OUTCOME_LEN {
        Some(PredictionMarketError::OutcomeLabelTooLong)
    } else {
        None
    }
}

/// A freshly created pool: open, empty, unresolved.
pub open spec fn created_pool(
    keys: PoolKeys,
    question: String,
    outcome_names: [String; NUM_OUTCOMES],
    close_ts: i64,
    resolve_ts: i64,
) -> Pool {
    Pool {
        creator: keys.creator,
        admin: keys.admin,
        question,
        outcome_names,
        token_mint: keys.token_mint,
        vault_authority: keys.vault_authority,
        vault_token_account: keys.vault_token_account,
        total_staked: 0,
        stake_per_outcome: [0u64, 0u64],
        close_ts,
        resolve_ts,
        status: PoolStatus::Open,
        winning_outcome: None,
        fee_taken: 0,
        fees_collected: false,
        bump: keys.bump,
        vault_bump: keys.vault_bump,
        vault_token_bump: keys.vault_token_bump,
    }
}

/// Pool creation at clock time `now`.
pub open spec fn create_pool_result(
    keys: PoolKeys,
    question: String,
    outcome_names: [String; NUM_OUTCOMES],
    close_ts: i64,
    resolve_ts: i64,
    now: i64,
) -> Result<Pool, PredictionMarketError> {
    match create_pool_precheck(question, outcome_names) {
        Some(e) => Err(e),
        None => if close_ts <= now {
            Err(PredictionMarketError::CloseTimeInPast)
        } else if resolve_ts < close_ts + MIN_CLOSE_TO_RESOLVE_GAP {
            Err(PredictionMarketError::ResolveTimeTooSoon)
        } else {
            Ok(created_pool(keys, question, outcome_names, close_ts, resolve_ts))
        },
    }
}

/// Checks the question and the outcome labels against their length limits.
pub fn check_pool_labels(question: &String, outcome_names: &[String; NUM_OUTCOMES]) -> (r: Result<
    (),
    PredictionMarketError,
>)
    ensures
        match create_pool_precheck(*question, *outcome_names) {
            Some(e) => r == Err::<(), PredictionMarketError>(e),
            None => r is Ok,
        },
{
    if question.as_str().len() > MAX_QUESTION_LEN {
        return Err(PredictionMarketError::QuestionTooLong);
    }
    let mut i: usize = 0;
    while i < NUM_OUTCOMES
        invariant
            i <= NUM_OUTCOMES,
            forall|j: int| 0 <= j < i ==> byte_len(#[trigger] outcome_names[j]) <= MAX_OUTCOME_LEN,
            byte_len(*question) <= MAX_QUESTION_LEN,
        decreases NUM_OUTCOMES - i,
    {
        if outcome_names[i].as_str().len() > MAX_OUTCOME_LEN {
            assert(byte_len(outcome_names[i as int]) > MAX_OUTCOME_LEN);
            assert(byte_len(*question) <= MAX_QUESTION_LEN);
            assert(i == 0 || i == 1);
            return Err(PredictionMarketError::OutcomeLabelTooLong);
        }
        i = i + 1;
    }
    assert(byte_len(outcome_names[0]) <= MAX_OUTCOME_LEN);
    assert(byte_len(outcome_names[1]) <= MAX_OUTCOME_LEN);
    Ok(())
}

/// Creates a pool at clock time `now`.
pub fn create_pool_at(
    keys: PoolKeys,
    question: String,
    outcome_names: [String; NUM_OUTCOMES],
    close_ts: i64,
    resolve_ts: i64,
    now: i64,
) -> (r: Result<Pool, PredictionMarketError>)
    ensures
        r == create_pool_result(keys, question, outcome_names, close_ts, resolve_ts, now),
{
    check_pool_labels(&question, &outcome_names)?;
    if !(close_ts > now) {
        return Err(PredictionMarketError::CloseTimeInPast);
    }
    // A close time so late that the gap overflows leaves no later resolution time.
    match close_ts.checked_add(MIN_CLOSE_TO_RESOLVE_GAP) {
        Some(earliest_resolve) => if !(resolve_ts >= earliest_resolve) {
            return Err(PredictionMarketError::ResolveTimeTooSoon);
        },
        None => return Err(PredictionMarketError::ResolveTimeTooSoon),
    }
    Ok(
        Pool {
            creator: keys.creator,
            admin: keys.admin,
            question,
            outcome_names,
            token_mint: keys.token_mint,
            vault_authority: keys.vault_authority,
            vault_token_account: keys.vault_token_account,
            total_staked: 0,
            stake_per_outcome: [0u64, 0u64],
            close_ts,
            resolve_ts,
            status: PoolStatus::Open,
            winning_outcome: None,
            fee_taken: 0,
            fees_collected: false,
            bump: keys.bump,
            vault_bump: keys.vault_bump,
            vault_token_bump: keys.vault_token_bump,
        },
    )
}


// ---------------------------------------------------------------- staking

/// The checks of staking that come before the clock is read. `payer_mint`
/// is the mint of the token account that the stake is paid from, None for a
/// stake paid in native SOL.
pub open spec fn place_stake_precheck(
    pool: Pool,
    asset: Asset,
    payer_mint: Option<Pubkey>,
    outcome: u8,
    amount: u64,
) -> Option<PredictionMarketError> {
    match asset_error(pool, asset) {
        Some(e) => Some(e),
        None => if payer_mint is Some && payer_mint != pool.token_mint {
            Some(PredictionMarketError::MintMismatch)
        } else if pool.status != PoolStatus::Open {
            Some(PredictionMarketError::PoolNotOpen)
        } else if amount == 0 {
            Some(PredictionMarketError::ZeroStakeAmount)
        } else if outcome as usize >= NUM_OUTCOMES {
            Some(PredictionMarketError::InvalidOutcomeIndex)
        } else {
            None
        },
    }
}

/// The per-outcome ledger with `amount` added on `outcome`.
pub open spec fn added_on_outcome(per_outcome: [u64; NUM_OUTCOMES], outcome: u8, amount: u64) -> [u64;
    NUM_OUTCOMES] {
    if outcome == 0 {
        [(per_outcome[0] + amount) as u64, per_outcome[1]]
    } else {
        [per_outcome[0], (per_outcome[1] + amount) as u64]
    }
}

/// Staking `amount` on `outcome` at clock time `now`: the pool afterwards
/// and the new stake record of `user`.
pub open spec fn place_stake_result(
    pool: Pool,
    asset: Asset,
    payer_mint: Option<Pubkey>,
    pool_key: Pubkey,
    user: Pubkey,
    outcome: u8,
    amount: u64,
    stake_bump: u8,
    now: i64,
) -> Result<(Pool, Stake), PredictionMarketError> {
    match place_stake_precheck(pool, asset, payer_mint, outcome, amount) {
        Some(e) => Err(e),
        None => if now >= pool.close_ts {
            Err(PredictionMarketError::BettingClosed)
        } else if pool.total_staked + amount > u64::MAX {
            Err(PredictionMarketError::MathOverflow)
        } else if pool.stake_per_outcome[outcome as int] + amount > u64::MAX {
            Err(PredictionMarketError::MathOverflow)
        } else {
            Ok(
                (
                    Pool {
                        total_staked: (pool.total_staked + amount) as u64,
                        stake_per_outcome: added_on_outcome(pool.stake_per_outcome, outcome, amount),
                        ..pool
                    },
                    Stake { pool: pool_key, user, outcome, amount, claimed: false, bump: stake_bump },
                ),
            )
        },
    }
}

/// Checks of staking that come before the clock is read.
pub fn check_stake(
    pool: &Pool,
    asset: Asset,
    payer_mint: Option<Pubkey>,
    outcome: u8,
    amount: u64,
) -> (r: Result<(), PredictionMarketError>)
    ensures
        match place_stake_precheck(*pool, asset, payer_mint, outcome, amount) {
            Some(e) => r == Err::<(), PredictionMarketError>(e),
            None => r is Ok,
        },
{
    check_asset(pool, asset)?;
    if let Some(mint) = payer_mint {
        let matches = match pool.token_mint {
            Some(pool_mint) => mint == pool_mint,
            None => false,
        };
        if !matches {
            return Err(PredictionMarketError::MintMismatch);
        }
    }
    if pool.status != PoolStatus::Open {
        return Err(PredictionMarketError::PoolNotOpen);
    }
    if !(amount > 0) {
        return Err(PredictionMarketError::ZeroStakeAmount);
    }
    if !((outcome as usize) < NUM_OUTCOMES) {
        return Err(PredictionMarketError::InvalidOutcomeIndex);
    }
    Ok(())
}

/// Stakes `amount` of `user` on `outcome` of `pool` at clock time `now`.
/// A refused stake leaves the pool as it was.
pub fn place_stake_at(
    pool: &mut Pool,
    asset: Asset,
    payer_mint: Option<Pubkey>,
    pool_key: Pubkey,
    user: Pubkey,
    outcome: u8,
    amount: u64,
    stake_bump: u8,
    now: i64,
) -> (r: Result<Stake, PredictionMarketError>)
    ensures
        match place_stake_result(
            *old(pool),
            asset,
            payer_mint,
            pool_key,
            user,
            outcome,
            amount,
            stake_bump,
            now,
        ) {
            Ok((p, s)) => r == Ok::<Stake, PredictionMarketError>(s) && *final(pool) == p,
            Err(e) => r == Err::<Stake, PredictionMarketError>(e) && *final(pool) == *old(pool),
        },
{
    check_stake(pool, asset, payer_mint, outcome, amount)?;
    if !(now < pool.close_ts) {
        return Err(PredictionMarketError::BettingClosed);
    }
    let total = match pool.total_staked.checked_add(amount) {
        Some(t) => t,
        None => return Err(PredictionMarketError::MathOverflow),
    };
    let idx = outcome as usize;
    let on_outcome = match pool.stake_per_outcome[idx].checked_add(amount) {
        Some(v) => v,
        None => return Err(PredictionMarketError::MathOverflow),
    };
    let per_outcome = if idx == 0 {
        [on_outcome, pool.stake_per_outcome[1]]
    } else {
        [pool.stake_per_outcome[0], on_outcome]
    };
    pool.total_staked = total;
    pool.stake_per_outcome = per_outcome;
    Ok(Stake { pool: pool_key, user, outcome, amount, claimed: false, bump: stake_bump })
}

/// Refuses an instruction for `asset` on a pool denominated otherwise.
pub fn check_asset(pool: &Pool, asset: Asset) -> (r: Result<(), PredictionMarketError>)
    ensures
        match asset_error(*pool, asset) {
            Some(e) => r == Err::<(), PredictionMarketError>(e),
            None => r is Ok,
        },
{
    match asset {
        Asset::NativeSol => if pool.is_native_sol() {
            Ok(())
        } else {
            Err(PredictionMarketError::ExpectedSplToken)
        },
        Asset::SplToken => if !pool.is_native_sol() {
            Ok(())
        } else {
            Err(PredictionMarketError::ExpectedNativeSol)
        },
    }
}

// ---------------------------------------------------------------- resolution

/// The checks of resolution that come before the clock is read: the signer
/// is the pool's admin, the pool is open or closed and unresolved, and the
/// outcome index is in range.
pub open spec fn resolve_precheck(pool: Pool, signer: Pubkey, winning_outcome: u8) -> Option<
    PredictionMarketError,
> {
    if pool.admin != signer {
        Some(PredictionMarketError::UnauthorizedResolver)
    } else if !(pool.status == PoolStatus::Open || pool.status == PoolStatus::Closed) {
        Some(PredictionMarketError::PoolNotResolvable)
    } else if pool.winning_outcome is Some {
        Some(PredictionMarketError::PoolAlreadyResolved)
    } else if winning_outcome as usize >= NUM_OUTCOMES {
        Some(PredictionMarketError::InvalidOutcomeIndex)
    } else {
        None
    }
}

/// Resolution by `signer` at clock time `now`: the pool afterwards.
pub open spec fn resolve_pool_result(pool: Pool, signer: Pubkey, winning_outcome: u8, now: i64) -> Result<
    Pool,
    PredictionMarketError,
> {
    match resolve_precheck(pool, signer, winning_outcome) {
        Some(e) => Err(e),
        None => if now < pool.resolve_ts {
            Err(PredictionMarketError::TooEarlyToResolve)
        } else if pool.stake_per_outcome[winning_outcome as int] == 0 {
            Err(PredictionMarketError::NoWinningStakes)
        } else {
            Ok(
                Pool {
                    winning_outcome: Some(winning_outcome),
                    status: PoolStatus::Resolved,
                    ..pool
                },
            )
        },
    }
}

/// Checks of resolution that come before the clock is read.
pub fn check_resolve(pool: &Pool, signer: &Pubkey, winning_outcome: u8) -> (r: Result<
    (),
    PredictionMarketError,
>)
    ensures
        match resolve_precheck(*pool, *signer, winning_outcome) {
            Some(e) => r == Err::<(), PredictionMarketError>(e),
            None => r is Ok,
        },
{
    if !(pool.admin == *signer) {
        return Err(PredictionMarketError::UnauthorizedResolver);
    }
    if !(pool.status == PoolStatus::Open || pool.status == PoolStatus::Closed) {
        return Err(PredictionMarketError::PoolNotResolvable);
    }
    if !pool.winning_outcome.is_none() {
        return Err(PredictionMarketError::PoolAlreadyResolved);
    }
    if !((winning_outcome as usize) < NUM_OUTCOMES) {
        return Err(PredictionMarketError::InvalidOutcomeIndex);
    }
    Ok(())
}

/// Resolves `pool` with `winning_outcome` at clock time `now`. Moves no funds.
/// A refused resolution leaves the pool as it was.
pub fn resolve_pool_at(pool: &mut Pool, signer: &Pubkey, winning_outcome: u8, now: i64) -> (r: Result<
    (),
    PredictionMarketError,
>)
    ensures
        match resolve_pool_result(*old(pool), *signer, winning_outcome, now) {
            Ok(p) => r is Ok && *final(pool) == p,
            Err(e) => r == Err::<(), PredictionMarketError>(e) && *final(pool) == *old(pool),
        },
{
    check_resolve(pool, signer, winning_outcome)?;
    if !(now >= pool.resolve_ts) {
        return Err(PredictionMarketError::TooEarlyToResolve);
    }
    if !(pool.stake_per_outcome[winning_outcome as usize] > 0) {
        return Err(PredictionMarketError::NoWinningStakes);
    }
    pool.winning_outcome = Some(winning_outcome);
    pool.status = PoolStatus::Resolved;
    Ok(())
}

// ---------------------------------------------------------------- fees

/// The platform and creator fees of a pool of `total`.
pub open spec fn fee_split(total: u64) -> FeePayout {
    FeePayout {
        platform_fee: fee_share(total, PLATFORM_FEE_BPS),
        creator_fee: fee_share(total, CREATOR_FEE_BPS),
    }
}

/// The pool once its fees are paid out, and the two fee transfers.
pub open spec fn fees_paid(pool: Pool) -> (Pool, FeePayout) {
    let f = fee_split(pool.total_staked);
    (
        Pool {
            fee_taken: (f.platform_fee + f.creator_fee) as u64,
            fees_collected: true,
            ..pool
        },
        f,
    )
}

/// Fee collection on a native SOL pool, paid to `platform_treasury` and
/// `creator_wallet`, where `config_treasury` is the treasury in the config.
pub open spec fn collect_fees_native_result(
    pool: Pool,
    config_treasury: Pubkey,
    platform_treasury: Pubkey,
    creator_wallet: Pubkey,
) -> Result<(Pool, FeePayout), PredictionMarketError> {
    if platform_treasury != config_treasury {
        Err(PredictionMarketError::InvalidPlatformTreasury)
    } else if creator_wallet != pool.creator {
        Err(PredictionMarketError::InvalidCreatorWallet)
    } else if pool.token_mint is Some {
        Err(PredictionMarketError::ExpectedSplToken)
    } else if pool.status != PoolStatus::Resolved {
        Err(PredictionMarketError::PoolNotResolved)
    } else if pool.fees_collected {
        Err(PredictionMarketError::AlreadyClaimed)
    } else {
        Ok(fees_paid(pool))
    }
}

/// Fee collection on an SPL token pool, paid to the token accounts
/// `treasury_token` and `creator_token`.
pub open spec fn collect_fees_spl_result(
    pool: Pool,
    config_treasury: Pubkey,
    treasury_token: crate::state::TokenAccountKeys,
    creator_token: crate::state::TokenAccountKeys,
) -> Result<(Pool, FeePayout), PredictionMarketError> {
    if pool.token_mint is None {
        Err(PredictionMarketError::ExpectedNativeSol)
    } else if treasury_token.mint != pool.token_mint.unwrap() {
        Err(PredictionMarketError::MintMismatch)
    } else if creator_token.mint != pool.token_mint.unwrap() {
        Err(PredictionMarketError::MintMismatch)
    } else if pool.status != PoolStatus::Resolved {
        Err(PredictionMarketError::PoolNotResolved)
    } else if pool.fees_collected {
        Err(PredictionMarketError::AlreadyClaimed)
    } else if treasury_token.owner != config_treasury {
        Err(PredictionMarketError::InvalidPlatformTreasury)
    } else if creator_token.owner != pool.creator {
        Err(PredictionMarketError::InvalidCreatorWallet)
    } else {
        Ok(fees_paid(pool))
    }
}

/// Computes the fees of `pool`, records their sum as taken and marks them
/// collected.
pub fn pay_fees(pool: &mut Pool) -> (r: FeePayout)
    ensures
        (*final(pool), r) == fees_paid(*old(pool)),
        r.platform_fee == old(pool).total_staked * PLATFORM_FEE_BPS / (FEE_DENOMINATOR as int),
        r.creator_fee == old(pool).total_staked * CREATOR_FEE_BPS / (FEE_DENOMINATOR as int),
        *final(pool) == (Pool {
            fee_taken: (r.platform_fee + r.creator_fee) as u64,
            fees_collected: true,
            ..*old(pool)
        }),
{
    let platform_fee = crate::fees::fee_share_of(pool.total_staked, PLATFORM_FEE_BPS);
    let creator_fee = crate::fees::fee_share_of(pool.total_staked, CREATOR_FEE_BPS);
    assert(platform_fee + creator_fee <= pool.total_staked) by (nonlinear_arith)
        requires
            platform_fee == pool.total_staked * 50 / 10_000,
            creator_fee == pool.total_staked * 50 / 10_000,
            pool.total_staked >= 0,
    ;
    pool.fee_taken = platform_fee + creator_fee;
    pool.fees_collected = true;
    FeePayout { platform_fee, creator_fee }
}

// ---------------------------------------------------------------- payouts

/// The checks of a claim that come before the winning side's total is read.
pub open spec fn claim_precheck(pool: Pool, stake: Stake, asset: Asset) -> Option<PredictionMarketError> {
    match asset_error(pool, asset) {
        Some(e) => Some(e),
        None => if pool.status != PoolStatus::Resolved {
            Some(PredictionMarketError::PoolNotResolved)
        } else if stake.claimed {
            Some(PredictionMarketError::AlreadyClaimed)
        } else if pool.winning_outcome is None {
            Some(PredictionMarketError::PoolNotResolved)
        } else if stake.outcome != pool.winning_outcome.unwrap() {
            Some(PredictionMarketError::NotAWinningStake)
        } else {
            None
        },
    }
}

/// A claim reads `stake_per_outcome[winning_outcome]`, which panics for
/// these inputs: the winning outcome recorded in the pool is out of range.
pub open spec fn claim_index_out_of_range(pool: Pool, stake: Stake, asset: Asset) -> bool {
    &&& claim_precheck(pool, stake, asset) is None
    &&& pool.winning_outcome.unwrap() as usize >= NUM_OUTCOMES
}

/// A claim: the stake afterwards and the payout transferred to its owner.
pub open spec fn claim_payout_result(pool: Pool, stake: Stake, asset: Asset) -> Result<
    (Stake, u64),
    PredictionMarketError,
> {
    match claim_precheck(pool, stake, asset) {
        Some(e) => Err(e),
        None => {
            let winning_side_total = pool.stake_per_outcome[pool.winning_outcome.unwrap() as int];
            match payout_share(stake.amount, distributable(pool.total_staked), winning_side_total) {
                None => Err(PredictionMarketError::MathOverflow),
                Some(payout) => Ok((Stake { claimed: true, ..stake }, payout)),
            }
        },
    }
}

/// The checks of a claim that come before the winning side's total is read;
/// on success, the winning outcome that the stake picked.
pub fn check_claim(pool: &Pool, stake: &Stake, asset: Asset) -> (r: Result<u8, PredictionMarketError>)
    ensures
        match claim_precheck(*pool, *stake, asset) {
            Some(e) => r == Err::<u8, PredictionMarketError>(e),
            None => r == Ok::<u8, PredictionMarketError>(pool.winning_outcome.unwrap()),
        },
{
    check_asset(pool, asset)?;
    if pool.status != PoolStatus::Resolved {
        return Err(PredictionMarketError::PoolNotResolved);
    }
    if stake.claimed {
        return Err(PredictionMarketError::AlreadyClaimed);
    }
    let winning_outcome = match pool.winning_outcome {
        Some(w) => w,
        None => return Err(PredictionMarketError::PoolNotResolved),
    };
    if stake.outcome != winning_outcome {
        return Err(PredictionMarketError::NotAWinningStake);
    }
    Ok(winning_outcome)
}

/// Claims the payout of `stake` on the resolved `pool`. A refused claim
/// leaves the stake as it was.
pub fn claim_payout(pool: &Pool, stake: &mut Stake, asset: Asset) -> (r: Result<
    u64,
    PredictionMarketError,
>)
    requires
        !claim_index_out_of_range(*pool, *old(stake), asset),
    ensures
        match claim_payout_result(*pool, *old(stake), asset) {
            Ok((s, payout)) => r == Ok::<u64, PredictionMarketError>(payout) && *final(stake) == s,
            Err(e) => r == Err::<u64, PredictionMarketError>(e) && *final(stake) == *old(stake),
        },
{
    let winning_outcome = check_claim(pool, stake, asset)?;
    let winning_side_total = pool.stake_per_outcome[winning_outcome as usize];
    let distributable = distributable_of(pool.total_staked);
    let payout = match payout_of(stake.amount, distributable, winning_side_total) {
        Some(p) => p,
        None => return Err(PredictionMarketError::MathOverflow),
    };
    stake.claimed = true;
    Ok(payout)
}

} // verus!
