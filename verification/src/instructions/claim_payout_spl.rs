use vstd::prelude::*;

use crate::errors::PredictionMarketError;
use crate::market::{claim_index_out_of_range, claim_payout, claim_payout_result, Asset};
use crate::state::{Pool, Stake};

verus! {

/// What a claim reads and writes of its accounts: the pool and the
/// claimant's stake.
#[derive(Clone, Debug)]
pub struct ClaimPayoutSpl {
    pub pool: Pool,
    pub stake: Stake,
}

/// A winner claims their proportional share of a resolved SPL token pool:
/// the payout is handed back for the caller to transfer, and the stake is
/// marked claimed. A refused claim leaves the stake as it was.
pub fn handler(ctx: &mut ClaimPayoutSpl) -> (r: Result<u64, PredictionMarketError>)
    requires
        !claim_index_out_of_range(old(ctx).pool, old(ctx).stake, Asset::SplToken),
    ensures
        final(ctx).pool == old(ctx).pool,
        match claim_payout_result(old(ctx).pool, old(ctx).stake, Asset::SplToken) {
            Ok((s, payout)) => r == Ok::<u64, PredictionMarketError>(payout) && final(ctx).stake == s,
            Err(e) => r == Err::<u64, PredictionMarketError>(e) && final(ctx).stake == old(ctx).stake,
        },
{
    claim_payout(&ctx.pool, &mut ctx.stake, Asset::SplToken)
}

} // verus!
