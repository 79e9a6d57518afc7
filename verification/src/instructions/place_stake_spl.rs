use vstd::prelude::*;

use crate::errors::HandlerError;
use crate::market::Asset;
use crate::state::{Pool, Pubkey, Stake};
use crate::timed::{place_stake, place_stake_clocked};

verus! {

/// What staking reads and writes of its accounts: the staking user, the
/// pool and its address, the bump of the new stake PDA, and the mint of the
/// user's token account.
#[derive(Clone, Debug)]
pub struct PlaceStakeSpl {
    pub user: Pubkey,
    pub pool_key: Pubkey,
    pub pool: Pool,
    pub stake_bump: u8,
    /// Mint of the token account that the stake is paid from.
    pub user_token_mint: Pubkey,
}

/// Stakes `amount` of an SPL token on `outcome` of an open pool, at the time the
/// cluster clock gives, and hands back the new stake record. The caller
/// transfers `amount` into the vault. A stake paid from a token account of
/// another mint than the pool's is refused with `MintMismatch`. A refused
/// stake leaves the pool as it was.
pub fn handler(ctx: &mut PlaceStakeSpl, outcome: u8, amount: u64) -> (r: Result<Stake, HandlerError>)
    ensures
        final(ctx).user == old(ctx).user,
        final(ctx).pool_key == old(ctx).pool_key,
        final(ctx).stake_bump == old(ctx).stake_bump,
        final(ctx).user_token_mint == old(ctx).user_token_mint,
        place_stake_clocked(
            old(ctx).pool,
            Asset::SplToken,
            Some(old(ctx).user_token_mint),
            old(ctx).pool_key,
            old(ctx).user,
            outcome,
            amount,
            old(ctx).stake_bump,
            final(ctx).pool,
            r,
        ),
{
    place_stake(
        &mut ctx.pool,
        Asset::SplToken,
        Some(ctx.user_token_mint),
        ctx.pool_key,
        ctx.user,
        outcome,
        amount,
        ctx.stake_bump,
    )
}

} // verus!
