use vstd::prelude::*;

use crate::constants::NUM_OUTCOMES;
use crate::errors::HandlerError;
use crate::market::PoolKeys;
use crate::state::{Pool, PoolStatus, Pubkey};
use crate::timed::{create_pool, create_pool_clocked};

verus! {

/// What native SOL pool creation reads of its accounts.
#[derive(Clone, Copy, Debug)]
pub struct CreatePoolNative {
    pub creator: Pubkey,
    pub admin: Pubkey,
    pub vault_authority: Pubkey,
    pub pool_bump: u8,
    pub vault_bump: u8,
}

impl CreatePoolNative {
    /// The keys that the new pool records: no mint, and the all-zero address
    /// and bump for the unused vault token account.
    pub open spec fn pool_keys(self) -> PoolKeys {
        PoolKeys {
            creator: self.creator,
            admin: self.admin,
            token_mint: None,
            vault_authority: self.vault_authority,
            vault_token_account: Pubkey::spec_zero(),
            bump: self.pool_bump,
            vault_bump: self.vault_bump,
            vault_token_bump: 0,
        }
    }
}

/// Creates a pool denominated in native SOL, at the time the cluster clock
/// gives.
pub fn handler(
    ctx: CreatePoolNative,
    question: String,
    outcome_names: [String; NUM_OUTCOMES],
    close_ts: i64,
    resolve_ts: i64,
) -> (r: Result<Pool, HandlerError>)
    ensures
        create_pool_clocked(ctx.pool_keys(), question, outcome_names, close_ts, resolve_ts, r),
        r matches Ok(p) ==> {
            &&& p.token_mint is None
            &&& p.vault_token_account == Pubkey::spec_zero()
            &&& p.vault_token_bump == 0
            &&& p.creator == ctx.creator
            &&& p.admin == ctx.admin
            &&& p.vault_authority == ctx.vault_authority
            &&& p.bump == ctx.pool_bump
            &&& p.vault_bump == ctx.vault_bump
            &&& p.question == question
            &&& p.outcome_names == outcome_names
            &&& p.close_ts == close_ts
            &&& p.resolve_ts == resolve_ts
            &&& p.status == PoolStatus::Open
            &&& p.total_staked == 0
            &&& p.stake_per_outcome == [0u64, 0u64]
            &&& p.winning_outcome is None
            &&& p.fee_taken == 0
            &&& !p.fees_collected
        },
{
    let keys = PoolKeys {
        creator: ctx.creator,
        admin: ctx.admin,
        token_mint: None,
        vault_authority: ctx.vault_authority,
        vault_token_account: Pubkey::zero(),
        bump: ctx.pool_bump,
        vault_bump: ctx.vault_bump,
        vault_token_bump: 0,
    };
    create_pool(keys, question, outcome_names, close_ts, resolve_ts)
}

} // verus!
