use vstd::prelude::*;

use crate::constants::NUM_OUTCOMES;
use crate::errors::HandlerError;
use crate::market::PoolKeys;
use crate::state::{Pool, PoolStatus, Pubkey};
use crate::timed::{create_pool, create_pool_clocked};

verus! {

/// What SPL pool creation reads of its accounts: their addresses and the
/// bumps of the pool, vault authority and vault token account PDAs.
#[derive(Clone, Copy, Debug)]
pub struct CreatePoolSpl {
    pub creator: Pubkey,
    pub admin: Pubkey,
    pub token_mint: Pubkey,
    pub vault_authority: Pubkey,
    pub vault_token_account: Pubkey,
    pub pool_bump: u8,
    pub vault_bump: u8,
    pub vault_token_bump: u8,
}

impl CreatePoolSpl {
    /// The keys that the new pool records.
    pub open spec fn pool_keys(self) -> PoolKeys {
        PoolKeys {
            creator: self.creator,
            admin: self.admin,
            token_mint: Some(self.token_mint),
            vault_authority: self.vault_authority,
            vault_token_account: self.vault_token_account,
            bump: self.pool_bump,
            vault_bump: self.vault_bump,
            vault_token_bump: self.vault_token_bump,
        }
    }
}

/// Creates a pool denominated in the SPL token `ctx.token_mint`, at the time
/// the cluster clock gives.
pub fn handler(
    ctx: CreatePoolSpl,
    question: String,
    outcome_names: [String; NUM_OUTCOMES],
    close_ts: i64,
    resolve_ts: i64,
) -> (r: Result<Pool, HandlerError>)
    ensures
        create_pool_clocked(ctx.pool_keys(), question, outcome_names, close_ts, resolve_ts, r),
        r matches Ok(p) ==> {
            &&& p.token_mint == Some(ctx.token_mint)
            &&& p.vault_token_account == ctx.vault_token_account
            &&& p.vault_token_bump == ctx.vault_token_bump
            &&& p.creator == ctx.creator
            &&& p.admin == ctx.admin
            &&& p.vault_authority == ctx.vault_authority
            &&& p.bump == ctx.pool_bump
            &&& p.vault_bump == ctx.vault_bump
            &&& p.question == question
            &&& p.outcome_names == outcome_names
            &&& p.close_ts == close_ts
            &&& p.resolve_ts == resolve_ts
            &&& p.status == PoolStatus::Open
            &&& p.total_staked == 0
            &&& p.stake_per_outcome == [0u64, 0u64]
            &&& p.winning_outcome is None
            &&& p.fee_taken == 0
            &&& !p.fees_collected
        },
{
    let keys = PoolKeys {
        creator: ctx.creator,
        admin: ctx.admin,
        token_mint: Some(ctx.token_mint),
        vault_authority: ctx.vault_authority,
        vault_token_account: ctx.vault_token_account,
        bump: ctx.pool_bump,
        vault_bump: ctx.vault_bump,
        vault_token_bump: ctx.vault_token_bump,
    };
    create_pool(keys, question, outcome_names, close_ts, resolve_ts)
}

} // verus!
