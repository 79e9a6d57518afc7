use vstd::prelude::*;

use anchor_lang::solana_program::program_error::ProgramError;

verus! {

/// The reasons for which the market refuses an instruction.
#[derive(Clone, Copy, Debug, PartialEq, Eq, Structural)]
pub enum PredictionMarketError {
    QuestionTooLong,
    OutcomeLabelTooLong,
    CloseTimeInPast,
    ResolveTimeTooSoon,
    ZeroStakeAmount,
    InvalidOutcomeIndex,
    PoolNotOpen,
    BettingClosed,
    TooEarlyToResolve,
    PoolAlreadyResolved,
    PoolNotResolvable,
    UnauthorizedResolver,
    PoolNotResolved,
    AlreadyClaimed,
    NotAWinningStake,
    MintMismatch,
    ExpectedNativeSol,
    ExpectedSplToken,
    NoWinningStakes,
    MathOverflow,
    InvalidPlatformTreasury,
    InvalidCreatorWallet,
}

/// Error of an instruction that reads the cluster clock: either a rule of the
/// market refused it, or the clock sysvar could not be read.
#[derive(Debug)]
pub enum HandlerError {
    Market(PredictionMarketError),
    Clock(ProgramError),
}

} // verus!
