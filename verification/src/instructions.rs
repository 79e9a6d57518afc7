pub mod claim_payout_native;
pub mod claim_payout_spl;
pub mod collect_fees_native;
pub mod collect_fees_spl;
pub mod create_pool_native;
pub mod create_pool_spl;
pub mod initialize_config;
pub mod place_stake_native;
pub mod place_stake_spl;
pub mod resolve_pool;
