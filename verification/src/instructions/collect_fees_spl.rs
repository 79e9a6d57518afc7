use vstd::prelude::*;

use crate::errors::PredictionMarketError;
use crate::market::{collect_fees_spl_result, pay_fees, FeePayout};
use crate::state::{Config, Pool, PoolStatus, TokenAccountKeys};

verus! {

/// What SPL fee collection reads and writes of its accounts.
#[derive(Clone, Debug)]
pub struct CollectFeesSpl {
    pub config: Config,
    pub pool: Pool,
    /// The token account that is to receive the platform fee.
    pub platform_treasury_token: TokenAccountKeys,
    /// The token account that is to receive the creator fee.
    pub creator_token_account: TokenAccountKeys,
}

/// Permissionless: computes the platform and creator fees of a resolved SPL
/// token pool and marks them collected; the caller transfers them. Can
/// succeed only once per pool. A refusal leaves the pool as it was.
pub fn handler(ctx: &mut CollectFeesSpl) -> (r: Result<FeePayout, PredictionMarketError>)
    ensures
        final(ctx).config == old(ctx).config,
        final(ctx).platform_treasury_token == old(ctx).platform_treasury_token,
        final(ctx).creator_token_account == old(ctx).creator_token_account,
        match collect_fees_spl_result(
            old(ctx).pool,
            old(ctx).config.platform_treasury,
            old(ctx).platform_treasury_token,
            old(ctx).creator_token_account,
        ) {
            Ok((p, f)) => r == Ok::<FeePayout, PredictionMarketError>(f) && final(ctx).pool == p,
            Err(e) => r == Err::<FeePayout, PredictionMarketError>(e) && final(ctx).pool == old(
                ctx,
            ).pool,
        },
{
    let mint = match ctx.pool.token_mint {
        Some(m) => m,
        None => return Err(PredictionMarketError::ExpectedNativeSol),
    };
    if !(ctx.platform_treasury_token.mint == mint) {
        return Err(PredictionMarketError::MintMismatch);
    }
    if !(ctx.creator_token_account.mint == mint) {
        return Err(PredictionMarketError::MintMismatch);
    }
    if ctx.pool.status != PoolStatus::Resolved {
        return Err(PredictionMarketError::PoolNotResolved);
    }
    if ctx.pool.fees_collected {
        return Err(PredictionMarketError::AlreadyClaimed);
    }
    if !(ctx.platform_treasury_token.owner == ctx.config.platform_treasury) {
        return Err(PredictionMarketError::InvalidPlatformTreasury);
    }
    if !(ctx.creator_token_account.owner == ctx.pool.creator) {
        return Err(PredictionMarketError::InvalidCreatorWallet);
    }
    Ok(pay_fees(&mut ctx.pool))
}

} // verus!
