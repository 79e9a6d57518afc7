use vstd::prelude::*;

use crate::errors::HandlerError;
use crate::state::{Pool, Pubkey};
use crate::timed::{resolve_pool, resolve_pool_clocked};

verus! {

/// What resolution reads and writes of its accounts: the signing admin and
/// the pool.
#[derive(Clone, Debug)]
pub struct ResolvePool {
    pub admin: Pubkey,
    pub pool: Pool,
}

/// The pool's admin sets the winning outcome once `resolve_ts` has passed,
/// at the time the cluster clock gives. Moves no funds. A refused resolution
/// leaves the pool as it was.
pub fn handler(ctx: &mut ResolvePool, winning_outcome: u8) -> (r: Result<(), HandlerError>)
    ensures
        final(ctx).admin == old(ctx).admin,
        resolve_pool_clocked(old(ctx).pool, old(ctx).admin, winning_outcome, final(ctx).pool, r),
{
    let admin = ctx.admin;
    resolve_pool(&mut ctx.pool, &admin, winning_outcome)
}

} // verus!
