use vstd::prelude::*;

use crate::constants::NUM_OUTCOMES;

verus! {

/// A 32 byte account address.
#[derive(Clone, Copy, Debug)]
pub struct Pubkey {
    pub bytes: [u8; 32],
}

impl Pubkey {
    /// The address made of the given bytes.
    pub fn new_from_array(bytes: [u8; 32]) -> (key: Pubkey)
        ensures
            key.bytes == bytes,
    {
        Pubkey { bytes }
    }

    /// The bytes of the address.
    pub fn to_bytes(&self) -> (bytes: [u8; 32])
        ensures
            bytes == self.bytes,
    {
        self.bytes
    }

    /// The all-zero address, which stands for "no account".
    pub open spec fn spec_zero() -> Pubkey {
        Pubkey { bytes: vstd::array::spec_array_fill_for_copy_type::<u8, 32>(0u8) }
    }

    /// The all-zero address, which stands for "no account".
    pub fn zero() -> (key: Pubkey)
        ensures
            key == Pubkey::spec_zero(),
    {
        Pubkey { bytes: [0u8; 32] }
    }
}

impl PartialEq for Pubkey {
    fn eq(&self, other: &Pubkey) -> (r: bool) {
        let mut i: usize = 0;
        while i < 32
            invariant
                i <= 32,
                forall|j: int| 0 <= j < i ==> self.bytes[j] == other.bytes[j],
            decreases 32 - i,
        {
            if self.bytes[i] != other.bytes[i] {
                return false;
            }
            i = i + 1;
        }
        proof {
            broadcast use vstd::array::axiom_array_ext_equal;

            assert(self.bytes =~= other.bytes);
        }
        true
    }
}

impl vstd::std_specs::cmp::PartialEqSpecImpl for Pubkey {
    open spec fn obeys_eq_spec() -> bool {
        true
    }

    open spec fn eq_spec(&self, other: &Pubkey) -> bool {
        *self == *other
    }
}

impl Eq for Pubkey {}

/// Singleton config holding the platform treasury wallet.
#[derive(Clone, Copy, Debug)]
pub struct Config {
    pub authority: Pubkey,
    pub platform_treasury: Pubkey,
    pub bump: u8,
}

/// Life cycle of a pool.
#[derive(Clone, Copy, Debug, PartialEq, Eq, Structural)]
pub enum PoolStatus {
    Open,
    Closed,
    Resolved,
    Cancelled,
}

/// A prediction pool: the question, its two outcomes, the ledger of stakes
/// and the resolution.
#[derive(Clone, Debug)]
pub struct Pool {
    /// Wallet that created the pool and receives the creator fee.
    pub creator: Pubkey,
    /// Wallet authorized to resolve this pool.
    pub admin: Pubkey,
    /// The question being predicted.
    pub question: String,
    /// Human readable labels for each outcome.
    pub outcome_names: [String; NUM_OUTCOMES],
    /// None: the pool is denominated in native SOL; Some(mint): in that SPL token.
    pub token_mint: Option<Pubkey>,
    /// PDA that holds custody of staked funds and signs outgoing transfers.
    pub vault_authority: Pubkey,
    /// For SPL pools only: the token account holding staked tokens
    /// (the all-zero address for native SOL pools).
    pub vault_token_account: Pubkey,
    /// Total amount staked across all outcomes.
    pub total_staked: u64,
    /// Amount staked per outcome index.
    pub stake_per_outcome: [u64; NUM_OUTCOMES],
    /// Unix timestamp from which no more stakes are accepted.
    pub close_ts: i64,
    /// Earliest unix timestamp at which the admin may resolve the pool.
    pub resolve_ts: i64,
    pub status: PoolStatus,
    /// Set once the pool is resolved.
    pub winning_outcome: Option<u8>,
    /// Total fee (platform plus creator) paid out by fee collection.
    pub fee_taken: u64,
    /// True once the platform and creator fees have been paid out.
    pub fees_collected: bool,
    pub bump: u8,
    pub vault_bump: u8,
    pub vault_token_bump: u8,
}

impl Pool {
    /// Whether the pool is denominated in native SOL.
    pub fn is_native_sol(&self) -> (b: bool)
        ensures
            b == (self.token_mint is None),
    {
        self.token_mint.is_none()
    }

    /// The amounts staked on the two outcomes add up to the pool total.
    pub open spec fn ledger_balanced(self) -> bool {
        self.stake_per_outcome[0] + self.stake_per_outcome[1] == self.total_staked
    }
}

/// One user's stake on one outcome of one pool.
#[derive(Clone, Copy, Debug)]
pub struct Stake {
    pub pool: Pubkey,
    pub user: Pubkey,
    pub outcome: u8,
    pub amount: u64,
    pub claimed: bool,
    pub bump: u8,
}

/// What the market reads of an SPL token account: its mint and its owner.
#[derive(Clone, Copy, Debug)]
pub struct TokenAccountKeys {
    pub mint: Pubkey,
    pub owner: Pubkey,
}

} // verus!
