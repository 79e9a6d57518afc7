use vstd::prelude::*;

use anchor_lang::solana_program::clock::Clock;
use anchor_lang::solana_program::program_error::ProgramError;
use anchor_lang::solana_program::sysvar::Sysvar;

verus! {

/// The error type of Solana programs and sysvar reads, carried through as it is.
#[verifier::external_type_specification]
#[verifier::external_body]
pub struct ExProgramError(ProgramError);

/// Reads the cluster clock with `Clock::get()` (solana_program's `Sysvar::get`)
/// and hands back its `unix_timestamp` field, or the `ProgramError` that the
/// sysvar read failed with. The time depends on the cluster, so nothing is
/// stated of the value: callers are verified for every timestamp.
#[verifier::external_body]
pub(crate) fn clock_unix_timestamp() -> (r: Result<i64, ProgramError>) {
    Clock::get().map(|clock| clock.unix_timestamp)
}

} // verus!
