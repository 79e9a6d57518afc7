use vstd::prelude::*;

use crate::constants::{CREATOR_FEE_BPS, FEE_DENOMINATOR, PLATFORM_FEE_BPS};

verus! {

/// `total * bps / FEE_DENOMINATOR`, rounded down: the share of `total` of
/// `bps` basis points.
pub open spec fn fee_share(total: u64, bps: u64) -> u64 {
    (total * bps / (FEE_DENOMINATOR as int)) as u64
}

/// The part of the pool that goes to the winners: the total less both fees,
/// that is `total * (FEE_DENOMINATOR - PLATFORM_FEE_BPS - CREATOR_FEE_BPS) / FEE_DENOMINATOR`.
pub open spec fn distributable(total: u64) -> u64 {
    fee_share(total, (FEE_DENOMINATOR - (PLATFORM_FEE_BPS + CREATOR_FEE_BPS)) as u64)
}

/// A winner's payout: `amount / winning_total` of `distributable`, rounded
/// down and computed in 128 bits, then truncated to 64 bits; None where
/// nobody staked on the winning side.
pub open spec fn payout_share(amount: u64, distributable: u64, winning_total: u64) -> Option<u64> {
    if winning_total == 0 {
        None
    } else {
        Some((amount * distributable / (winning_total as int)) as u64)
    }
}

/// Computes `total * bps / FEE_DENOMINATOR` in 128-bit arithmetic, so that
/// every u64 total has its share.
pub fn fee_share_of(total: u64, bps: u64) -> (r: u64)
    requires
        bps <= FEE_DENOMINATOR,
    ensures
        r == fee_share(total, bps),
        r as int == total * bps / (FEE_DENOMINATOR as int),
        r <= total,
{
    let t = total as u128;
    let b = bps as u128;
    assert(t * b <= t * 10_000 && t * 10_000 <= u128::MAX) by (nonlinear_arith)
        requires
            t <= u64::MAX,
            b <= 10_000,
    ;
    let q = t * b / (FEE_DENOMINATOR as u128);
    assert(q <= t) by (nonlinear_arith)
        requires
            q == t * b / 10_000,
            b <= 10_000,
            t >= 0,
    ;
    q as u64
}

/// Computes the amount distributable to the winners of a pool of `total`.
pub fn distributable_of(total: u64) -> (r: u64)
    ensures
        r == distributable(total),
        r as int == total * (FEE_DENOMINATOR - PLATFORM_FEE_BPS - CREATOR_FEE_BPS) / (
        FEE_DENOMINATOR as int),
        r <= total,
{
    let total_fee_bps = PLATFORM_FEE_BPS + CREATOR_FEE_BPS;
    fee_share_of(total, FEE_DENOMINATOR - total_fee_bps)
}

/// Computes a winner's payout in 128-bit arithmetic.
pub fn payout_of(amount: u64, distributable: u64, winning_total: u64) -> (r: Option<u64>)
    ensures
        r == payout_share(amount, distributable, winning_total),
{
    let a = amount as u128;
    let d = distributable as u128;
    assert(a * d <= u128::MAX) by (nonlinear_arith)
        requires
            a <= u64::MAX,
            d <= u64::MAX,
    ;
    match a.checked_mul(d) {
        Some(v) => match v.checked_div(winning_total as u128) {
            Some(q) => Some(q as u64),
            None => None,
        },
        None => None,
    }
}

} // verus!
