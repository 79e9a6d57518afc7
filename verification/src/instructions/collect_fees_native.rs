use vstd::prelude::*;

use crate::errors::PredictionMarketError;
use crate::market::{collect_fees_native_result, pay_fees, FeePayout};
use crate::state::{Config, Pool, Pubkey};

verus! {

/// What native fee collection reads and writes of its accounts.
#[derive(Clone, Debug)]
pub struct CollectFeesNative {
    pub config: Config,
    pub pool: Pool,
    /// Address of the wallet that is to receive the platform fee.
    pub platform_treasury: Pubkey,
    /// Address of the wallet that is to receive the creator fee.
    pub creator_wallet: Pubkey,
}

/// Permissionless: computes the platform and creator fees of a resolved
/// native SOL pool and marks them collected; the caller transfers them.
/// Can succeed only once per pool. A refusal leaves the pool as it was.
pub fn handler(ctx: &mut CollectFeesNative) -> (r: Result<FeePayout, PredictionMarketError>)
    ensures
        final(ctx).config == old(ctx).config,
        final(ctx).platform_treasury == old(ctx).platform_treasury,
        final(ctx).creator_wallet == old(ctx).creator_wallet,
        match collect_fees_native_result(
            old(ctx).pool,
            old(ctx).config.platform_treasury,
            old(ctx).platform_treasury,
            old(ctx).creator_wallet,
        ) {
            Ok((p, f)) => r == Ok::<FeePayout, PredictionMarketError>(f) && final(ctx).pool == p,
            Err(e) => r == Err::<FeePayout, PredictionMarketError>(e) && final(ctx).pool == old(
                ctx,
            ).pool,
        },
{
    if !(ctx.platform_treasury == ctx.config.platform_treasury) {
        return Err(PredictionMarketError::InvalidPlatformTreasury);
    }
    if !(ctx.creator_wallet == ctx.pool.creator) {
        return Err(PredictionMarketError::InvalidCreatorWallet);
    }
    if !ctx.pool.is_native_sol() {
        return Err(PredictionMarketError::ExpectedSplToken);
    }
    if ctx.pool.status != crate::state::PoolStatus::Resolved {
        return Err(PredictionMarketError::PoolNotResolved);
    }
    if ctx.pool.fees_collected {
        return Err(PredictionMarketError::AlreadyClaimed);
    }
    Ok(pay_fees(&mut ctx.pool))
}

} // verus!
