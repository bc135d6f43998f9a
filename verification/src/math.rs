use vstd::prelude::*;

use crate::errors::GameError;

verus! {

/// Fee rates are expressed in basis points; 10000 of them make 100%.
pub const BPS_DENOMINATOR: u64 = 10000;

/// Overflow-checked addition over unsigned 64-bit values; overflow is
/// reported, never wrapped.
pub fn checked_add_u64(a: u64, b: u64) -> (r: Result<u64, GameError>)
    ensures
        a + b <= u64::MAX ==> r == Ok::<u64, GameError>((a + b) as u64),
        a + b > u64::MAX ==> r == Err::<u64, GameError>(GameError::MathOverflow),
{
    match a.checked_add(b) {
        Some(v) => Ok(v),
        None => Err(GameError::MathOverflow),
    }
}

/// Overflow-checked multiplication over unsigned 64-bit values.
pub fn checked_mul_u64(a: u64, b: u64) -> (r: Result<u64, GameError>)
    ensures
        a * b <= u64::MAX ==> r == Ok::<u64, GameError>((a * b) as u64),
        a * b > u64::MAX ==> r == Err::<u64, GameError>(GameError::MathOverflow),
{
    match a.checked_mul(b) {
        Some(v) => Ok(v),
        None => Err(GameError::MathOverflow),
    }
}

/// Checked subtraction; underflow below zero is reported as overflow of the
/// unsigned domain.
pub fn checked_sub_u64(a: u64, b: u64) -> (r: Result<u64, GameError>)
    ensures
        b <= a ==> r == Ok::<u64, GameError>((a - b) as u64),
        b > a ==> r == Err::<u64, GameError>(GameError::MathOverflow),
{
    match a.checked_sub(b) {
        Some(v) => Ok(v),
        None => Err(GameError::MathOverflow),
    }
}

/// Checked division; division by zero is the only failure.
pub fn checked_div_u64(a: u64, b: u64) -> (r: Result<u64, GameError>)
    ensures
        b != 0 ==> r == Ok::<u64, GameError>((a / b) as u64),
        b == 0 ==> r == Err::<u64, GameError>(GameError::MathOverflow),
{
    match a.checked_div(b) {
        Some(v) => Ok(v),
        None => Err(GameError::MathOverflow),
    }
}

/// The pooled stake of a game: both sides stake the wager once.
pub open spec fn total_wager_of(wager: u64) -> int {
    2 * wager
}

/// The house fee withheld at settlement: the pooled stake times the fee rate
/// in basis points, rounded down.
pub open spec fn house_fee_of(wager: u64, edge_bps: u16) -> int {
    (2 * wager * edge_bps) / (BPS_DENOMINATOR as int)
}

/// What is left of the pooled stake for the winner once the fee is withheld.
pub open spec fn prize_pool_of(wager: u64, edge_bps: u16) -> int {
    2 * wager - house_fee_of(wager, edge_bps)
}

/// The fee never exceeds the pooled stake as long as the rate is at most
/// 100%; settlement relies on this to subtract without underflow.
pub proof fn lemma_fee_le_total(wager: u64, edge_bps: u16)
    requires
        edge_bps <= BPS_DENOMINATOR,
    ensures
        0 <= house_fee_of(wager, edge_bps) <= total_wager_of(wager),
{
    let tw = 2 * (wager as int);
    let e = edge_bps as int;
    let d = BPS_DENOMINATOR as int;
    vstd::arithmetic::mul::lemma_mul_inequality(e, d, tw);
    vstd::arithmetic::mul::lemma_mul_is_commutative(e, tw);
    vstd::arithmetic::mul::lemma_mul_is_commutative(d, tw);
    vstd::arithmetic::div_mod::lemma_div_is_ordered(tw * e, tw * d, d);
    vstd::arithmetic::div_mod::lemma_div_multiples_vanish(tw, d);
    vstd::arithmetic::mul::lemma_mul_nonnegative(tw, e);
    vstd::arithmetic::div_mod::lemma_div_pos_is_pos(tw * e, d);
}

/// The split is exact: fee plus prize pool reassemble the pooled stake, with
/// no rounding loss beyond the floor division inside the fee itself, and the
/// fee is exactly the floored basis-point share.
pub proof fn lemma_fee_split(wager: u64, edge_bps: u16)
    requires
        edge_bps <= BPS_DENOMINATOR,
    ensures
        house_fee_of(wager, edge_bps) + prize_pool_of(wager, edge_bps) == total_wager_of(wager),
        house_fee_of(wager, edge_bps) == (2 * wager * edge_bps) / 10000,
        0 <= prize_pool_of(wager, edge_bps) <= total_wager_of(wager),
{
    lemma_fee_le_total(wager, edge_bps);
}

} // verus!
