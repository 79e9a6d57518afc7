use vstd::prelude::*;

verus! {

/// Platform share of every resolved pool, in basis points (0.5%).
pub const PLATFORM_FEE_BPS: u64 = 50;

/// Pool creator share of every resolved pool, in basis points (0.5%).
pub const CREATOR_FEE_BPS: u64 = 50;

/// Basis points in one whole.
pub const FEE_DENOMINATOR: u64 = 10_000;

/// Longest question, in UTF-8 bytes.
pub const MAX_QUESTION_LEN: usize = 200;

/// Longest outcome label, in UTF-8 bytes.
pub const MAX_OUTCOME_LEN: usize = 32;

/// Every pool has exactly this many outcomes.
pub const NUM_OUTCOMES: usize = 2;

/// Minimum gap, in seconds, between `close_ts` and `resolve_ts`, so that
/// there is always a window between betting closing and resolution.
pub const MIN_CLOSE_TO_RESOLVE_GAP: i64 = 60;

} // verus!
