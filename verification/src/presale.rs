use vstd::prelude::*;

use crate::errors::GameError;
use crate::math::checked_add_u64;
use crate::math::checked_mul_u64;

verus! {

/// The singleton record of the fixed-price, capped, time-boxed token sale.
#[derive(Clone, Copy, Debug, PartialEq, Eq, Structural)]
pub struct Presale {
    /// Identity that created the sale.
    pub authority: u64,
    /// Identity of the token being sold.
    pub mint: u64,
    /// Base-currency units charged per token.
    pub presale_price: u64,
    /// Hard cap on tokens ever sold.
    pub max_supply: u64,
    /// Monotonic count of tokens sold so far; never exceeds the cap.
    pub total_sold: u64,
    /// First epoch second at which buying is allowed (inclusive).
    pub start_time: i64,
    /// Last epoch second at which buying is allowed (inclusive).
    pub end_time: i64,
    /// A deactivated sale rejects every purchase.
    pub is_active: bool,
}

/// The record invariant: sales never exceed the cap.
pub open spec fn presale_wf(p: Presale) -> bool {
    p.total_sold <= p.max_supply
}

/// What a successful purchase settles: the host must collect `total_cost`
/// in base currency from the buyer and mint `amount` tokens to the buyer,
/// atomically with the record update that produced this receipt.
#[derive(Clone, Copy, Debug, PartialEq, Eq, Structural)]
pub struct PurchaseReceipt {
    pub amount: u64,
    pub total_cost: u64,
}

/// Builds the one-time presale record; the sale starts active with nothing
/// sold.
pub fn initialize_presale(
    authority: u64,
    mint: u64,
    presale_price: u64,
    max_supply: u64,
    start_time: i64,
    end_time: i64,
) -> (p: Presale)
    ensures
        p.authority == authority,
        p.mint == mint,
        p.presale_price == presale_price,
        p.max_supply == max_supply,
        p.total_sold == 0,
        p.start_time == start_time,
        p.end_time == end_time,
        p.is_active,
        presale_wf(p),
{
    Presale {
        authority,
        mint,
        presale_price,
        max_supply,
        total_sold: 0,
        start_time,
        end_time,
        is_active: true,
    }
}

/// Sells `amount` tokens at the fixed price, at time `now`. On success the
/// sold counter advances and the receipt names the payment and mint the
/// host owes; on any failure the record is untouched. Checks run in a fixed
/// order: active, window start, window end, cap (a sum that overflows also
/// fails here), then the cost multiplication.
pub fn buy_ship_tokens(presale: &mut Presale, amount: u64, now: i64) -> (r: Result<
    PurchaseReceipt,
    GameError,
>)
    ensures
        r is Err ==> *final(presale) == *old(presale),
        !old(presale).is_active ==> r == Err::<PurchaseReceipt, GameError>(
            GameError::PresaleNotActive,
        ),
        old(presale).is_active && now < old(presale).start_time ==> r == Err::<
            PurchaseReceipt,
            GameError,
        >(GameError::PresaleNotStarted),
        old(presale).is_active && now >= old(presale).start_time && now > old(
            presale,
        ).end_time ==> r == Err::<PurchaseReceipt, GameError>(GameError::PresaleEnded),
        old(presale).is_active && old(presale).start_time <= now <= old(presale).end_time && old(
            presale,
        ).total_sold + amount > u64::MAX ==> r == Err::<PurchaseReceipt, GameError>(
            GameError::MathOverflow,
        ),
        old(presale).is_active && old(presale).start_time <= now <= old(presale).end_time && old(
            presale,
        ).total_sold + amount <= u64::MAX && old(presale).total_sold + amount > old(
            presale,
        ).max_supply ==> r == Err::<PurchaseReceipt, GameError>(GameError::ExceedsMaxSupply),
        old(presale).is_active && old(presale).start_time <= now <= old(presale).end_time && old(
            presale,
        ).total_sold + amount <= old(presale).max_supply && amount * old(
            presale,
        ).presale_price > u64::MAX ==> r == Err::<PurchaseReceipt, GameError>(
            GameError::MathOverflow,
        ),
        old(presale).is_active && old(presale).start_time <= now <= old(presale).end_time && old(
            presale,
        ).total_sold + amount <= old(presale).max_supply && amount * old(
            presale,
        ).presale_price <= u64::MAX ==> {
            &&& r == Ok::<PurchaseReceipt, GameError>(
                PurchaseReceipt {
                    amount,
                    total_cost: (amount * old(presale).presale_price) as u64,
                },
            )
            &&& final(presale).total_sold == old(presale).total_sold + amount
            &&& final(presale).authority == old(presale).authority
            &&& final(presale).mint == old(presale).mint
            &&& final(presale).presale_price == old(presale).presale_price
            &&& final(presale).max_supply == old(presale).max_supply
            &&& final(presale).start_time == old(presale).start_time
            &&& final(presale).end_time == old(presale).end_time
            &&& final(presale).is_active == old(presale).is_active
        },
        presale_wf(*old(presale)) ==> presale_wf(*final(presale)),
{
    if !presale.is_active {
        return Err(GameError::PresaleNotActive);
    }
    if now < presale.start_time {
        return Err(GameError::PresaleNotStarted);
    }
    if now > presale.end_time {
        return Err(GameError::PresaleEnded);
    }
    let new_total = match checked_add_u64(presale.total_sold, amount) {
        Ok(v) => v,
        Err(e) => {
            return Err(e);
        },
    };
    if new_total > presale.max_supply {
        return Err(GameError::ExceedsMaxSupply);
    }
    let total_cost = match checked_mul_u64(amount, presale.presale_price) {
        Ok(v) => v,
        Err(e) => {
            return Err(e);
        },
    };
    presale.total_sold = new_total;
    Ok(PurchaseReceipt { amount, total_cost })
}

} // verus!
