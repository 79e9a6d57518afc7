//! Prediction pools with two outcomes: users stake native SOL or an SPL token
//! on an outcome, the pool's admin resolves it after close, the platform and
//! the creator each collect a 0.5% fee, and winners claim their proportional
//! share of the rest.
//!
//! Every instruction is a verified function from the accounts it reads to the
//! accounts it writes and the transfers it asks for; the runtime around it
//! (account loading, PDA checks, transfers) stays outside.
pub mod constants;
pub mod errors;
pub mod fees;
pub mod instructions;
pub mod laws;
pub mod market;
pub mod state;
mod sysvar;
pub mod timed;

use vstd::prelude::*;

use crate::constants::NUM_OUTCOMES;
use crate::errors::{HandlerError, PredictionMarketError};
use crate::instructions::claim_payout_native::ClaimPayoutNative;
use crate::instructions::claim_payout_spl::ClaimPayoutSpl;
use crate::instructions::collect_fees_native::CollectFeesNative;
use crate::instructions::collect_fees_spl::CollectFeesSpl;
use crate::instructions::create_pool_native::CreatePoolNative;
use crate::instructions::create_pool_spl::CreatePoolSpl;
use crate::instructions::initialize_config::InitializeConfig;
use crate::instructions::place_stake_native::PlaceStakeNative;
use crate::instructions::place_stake_spl::PlaceStakeSpl;
use crate::instructions::resolve_pool::ResolvePool;
use crate::market::{
    claim_index_out_of_range, claim_payout_result, collect_fees_native_result,
    collect_fees_spl_result, Asset, FeePayout,
};
use crate::state::{Config, Pool, Pubkey, Stake};
use crate::timed::{create_pool_clocked, place_stake_clocked, resolve_pool_clocked};

verus! {

/// One-time setup: sets the platform treasury wallet that receives the
/// platform fee on every resolved pool.
pub fn initialize_config(ctx: InitializeConfig, platform_treasury: Pubkey) -> (config: Config)
    ensures
        config == (Config { authority: ctx.authority, platform_treasury, bump: ctx.config_bump }),
{
    instructions::initialize_config::handler(ctx, platform_treasury)
}

/// Creates a new prediction pool denominated in native SOL.
pub fn create_pool_native(
    ctx: CreatePoolNative,
    question: String,
    outcome_names: [String; NUM_OUTCOMES],
    close_ts: i64,
    resolve_ts: i64,
) -> (r: Result<Pool, HandlerError>)
    ensures
        create_pool_clocked(ctx.pool_keys(), question, outcome_names, close_ts, resolve_ts, r),
        r matches Ok(p) ==> p.token_mint is None && p.creator == ctx.creator && p.admin == ctx.admin,
{
    instructions::create_pool_native::handler(ctx, question, outcome_names, close_ts, resolve_ts)
}

/// Creates a new prediction pool denominated in an SPL token (e.g. USDC).
pub fn create_pool_spl(
    ctx: CreatePoolSpl,
    question: String,
    outcome_names: [String; NUM_OUTCOMES],
    close_ts: i64,
    resolve_ts: i64,
) -> (r: Result<Pool, HandlerError>)
    ensures
        create_pool_clocked(ctx.pool_keys(), question, outcome_names, close_ts, resolve_ts, r),
        r matches Ok(p) ==> p.token_mint == Some(ctx.token_mint) && p.creator == ctx.creator
            && p.admin == ctx.admin,
{
    instructions::create_pool_spl::handler(ctx, question, outcome_names, close_ts, resolve_ts)
}

/// Stakes native SOL on an outcome for an open pool.
pub fn place_stake_native(ctx: &mut PlaceStakeNative, outcome: u8, amount: u64) -> (r: Result<
    Stake,
    HandlerError,
>)
    ensures
        final(ctx).user == old(ctx).user,
        final(ctx).pool_key == old(ctx).pool_key,
        final(ctx).stake_bump == old(ctx).stake_bump,
        place_stake_clocked(
            old(ctx).pool,
            Asset::NativeSol,
            None,
            old(ctx).pool_key,
            old(ctx).user,
            outcome,
            amount,
            old(ctx).stake_bump,
            final(ctx).pool,
            r,
        ),
{
    instructions::place_stake_native::handler(ctx, outcome, amount)
}

/// Stakes an SPL token on an outcome for an open pool.
pub fn place_stake_spl(ctx: &mut PlaceStakeSpl, outcome: u8, amount: u64) -> (r: Result<
    Stake,
    HandlerError,
>)
    ensures
        final(ctx).user == old(ctx).user,
        final(ctx).pool_key == old(ctx).pool_key,
        final(ctx).stake_bump == old(ctx).stake_bump,
        final(ctx).user_token_mint == old(ctx).user_token_mint,
        place_stake_clocked(
            old(ctx).pool,
            Asset::SplToken,
            Some(old(ctx).user_token_mint),
            old(ctx).pool_key,
            old(ctx).user,
            outcome,
            amount,
            old(ctx).stake_bump,
            final(ctx).pool,
            r,
        ),
{
    instructions::place_stake_spl::handler(ctx, outcome, amount)
}

/// Admin-only: sets the winning outcome once resolve_ts has passed.
/// Moves no funds, only updates pool state.
pub fn resolve_pool(ctx: &mut ResolvePool, winning_outcome: u8) -> (r: Result<(), HandlerError>)
    ensures
        final(ctx).admin == old(ctx).admin,
        resolve_pool_clocked(old(ctx).pool, old(ctx).admin, winning_outcome, final(ctx).pool, r),
{
    instructions::resolve_pool::handler(ctx, winning_outcome)
}

/// Permissionless: pays the platform and creator fee out of a resolved
/// native SOL pool. Can only run once per pool.
pub fn collect_fees_native(ctx: &mut CollectFeesNative) -> (r: Result<FeePayout, PredictionMarketError>)
    ensures
        final(ctx).config == old(ctx).config,
        final(ctx).platform_treasury == old(ctx).platform_treasury,
        final(ctx).creator_wallet == old(ctx).creator_wallet,
        match collect_fees_native_result(
            old(ctx).pool,
            old(ctx).config.platform_treasury,
            old(ctx).platform_treasury,
            old(ctx).creator_wallet,
        ) {
            Ok((p, f)) => r == Ok::<FeePayout, PredictionMarketError>(f) && final(ctx).pool == p,
            Err(e) => r == Err::<FeePayout, PredictionMarketError>(e) && final(ctx).pool == old(
                ctx,
            ).pool,
        },
{
    instructions::collect_fees_native::handler(ctx)
}

/// Permissionless: pays the platform and creator fee out of a resolved
/// SPL token pool. Can only run once per pool.
pub fn collect_fees_spl(ctx: &mut CollectFeesSpl) -> (r: Result<FeePayout, PredictionMarketError>)
    ensures
        final(ctx).config == old(ctx).config,
        final(ctx).platform_treasury_token == old(ctx).platform_treasury_token,
        final(ctx).creator_token_account == old(ctx).creator_token_account,
        match collect_fees_spl_result(
            old(ctx).pool,
            old(ctx).config.platform_treasury,
            old(ctx).platform_treasury_token,
            old(ctx).creator_token_account,
        ) {
            Ok((p, f)) => r == Ok::<FeePayout, PredictionMarketError>(f) && final(ctx).pool == p,
            Err(e) => r == Err::<FeePayout, PredictionMarketError>(e) && final(ctx).pool == old(
                ctx,
            ).pool,
        },
{
    instructions::collect_fees_spl::handler(ctx)
}

/// Winner claims their proportional share of a resolved native SOL pool.
pub fn claim_payout_native(ctx: &mut ClaimPayoutNative) -> (r: Result<u64, PredictionMarketError>)
    requires
        !claim_index_out_of_range(old(ctx).pool, old(ctx).stake, Asset::NativeSol),
    ensures
        final(ctx).pool == old(ctx).pool,
        match claim_payout_result(old(ctx).pool, old(ctx).stake, Asset::NativeSol) {
            Ok((s, payout)) => r == Ok::<u64, PredictionMarketError>(payout) && final(ctx).stake == s,
            Err(e) => r == Err::<u64, PredictionMarketError>(e) && final(ctx).stake == old(ctx).stake,
        },
{
    instructions::claim_payout_native::handler(ctx)
}

/// Winner claims their proportional share of a resolved SPL token pool.
pub fn claim_payout_spl(ctx: &mut ClaimPayoutSpl) -> (r: Result<u64, PredictionMarketError>)
    requires
        !claim_index_out_of_range(old(ctx).pool, old(ctx).stake, Asset::SplToken),
    ensures
        final(ctx).pool == old(ctx).pool,
        match claim_payout_result(old(ctx).pool, old(ctx).stake, Asset::SplToken) {
            Ok((s, payout)) => r == Ok::<u64, PredictionMarketError>(payout) && final(ctx).stake == s,
            Err(e) => r == Err::<u64, PredictionMarketError>(e) && final(ctx).stake == old(ctx).stake,
        },
{
    instructions::claim_payout_spl::handler(ctx)
}

} // verus!
