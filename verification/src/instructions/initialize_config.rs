use vstd::prelude::*;

use crate::state::{Config, Pubkey};

verus! {

/// What one-time setup reads of its accounts.
#[derive(Clone, Copy, Debug)]
pub struct InitializeConfig {
    /// The signer that sets the config up.
    pub authority: Pubkey,
    /// Bump of the config PDA.
    pub config_bump: u8,
}

/// Sets up the config with the platform treasury wallet that receives the
/// platform fee of every resolved pool.
pub fn handler(ctx: InitializeConfig, platform_treasury: Pubkey) -> (config: Config)
    ensures
        config == (Config { authority: ctx.authority, platform_treasury, bump: ctx.config_bump }),
{
    Config { authority: ctx.authority, platform_treasury, bump: ctx.config_bump }
}

} // verus!
