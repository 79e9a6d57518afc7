use vstd::prelude::*;

use crate::errors::HandlerError;
use crate::market::Asset;
use crate::state::{Pool, Pubkey, Stake};
use crate::timed::{place_stake, place_stake_clocked};

verus! {

/// What staking reads and writes of its accounts: the staking user, the
/// pool and its address, and the bump of the new stake PDA.
#[derive(Clone, Debug)]
pub struct PlaceStakeNative {
    pub user: Pubkey,
    pub pool_key: Pubkey,
    pub pool: Pool,
    pub stake_bump: u8,
}

/// Stakes `amount` of native SOL on `outcome` of an open pool, at the time the
/// cluster clock gives, and hands back the new stake record. The caller
/// transfers `amount` into the vault. A refused stake leaves the pool as it was.
pub fn handler(ctx: &mut PlaceStakeNative, outcome: u8, amount: u64) -> (r: Result<Stake, HandlerError>)
    ensures
        final(ctx).user == old(ctx).user,
        final(ctx).pool_key == old(ctx).pool_key,
        final(ctx).stake_bump == old(ctx).stake_bump,
        place_stake_clocked(
            old(ctx).pool,
            Asset::NativeSol,
            None,
            old(ctx).pool_key,
            old(ctx).user,
            outcome,
            amount,
            old(ctx).stake_bump,
            final(ctx).pool,
            r,
        ),
{
    place_stake(&mut ctx.pool, Asset::NativeSol, None, ctx.pool_key, ctx.user, outcome, amount, ctx.stake_bump)
}

} // verus!
