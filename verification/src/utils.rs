//! Checked movement of native funds and basis-point arithmetic.

use vstd::prelude::*;
use crate::errors::PromoError;
use crate::states::BPS_DENOMINATOR;

verus! {

/// The share of `amount` that `bps` basis points stand for, rounded down.
pub open spec fn bps_share(amount: int, bps: int) -> int {
    amount * bps / 10_000
}

/// A share is never negative, and a share of at most 10,000 basis points is
/// at most the amount it is taken of.
pub proof fn lemma_bps_share_bounds(amount: int, bps: int)
    requires
        amount >= 0,
        bps >= 0,
    ensures
        0 <= bps_share(amount, bps),
        bps <= 10_000 ==> bps_share(amount, bps) <= amount,
{
    assert(amount * bps >= 0) by (nonlinear_arith)
        requires
            amount >= 0,
            bps >= 0,
    ;
    if bps <= 10_000 {
        assert(amount * bps <= amount * 10_000) by (nonlinear_arith)
            requires
                amount >= 0,
                0 <= bps <= 10_000,
        ;
    }
}

/// Computes `bps` basis points of `amount`, rounded down.
///
/// The product is formed in 64 bits before it is divided; where it does
/// not fit the result is `Overflow`.
pub fn checked_bps_share(amount: u64, bps: u16) -> (r: Result<u64, PromoError>)
    ensures
        amount * bps <= u64::MAX ==> r == Ok::<u64, PromoError>(bps_share(amount as int, bps as int) as u64),
        amount * bps > u64::MAX ==> r == Err::<u64, PromoError>(PromoError::Overflow),
        r is Ok ==> r->Ok_0 == bps_share(amount as int, bps as int),
{
    match amount.checked_mul(bps as u64) {
        Some(product) => Ok(product / BPS_DENOMINATOR),
        None => Err(PromoError::Overflow),
    }
}

/// Moves `amount` out of a custody balance into another balance.
///
/// The source does not sign: it is a balance the engine itself holds. The
/// move happens in full or not at all.
pub fn transfer_lamports(from: &mut u64, to: &mut u64, amount: u64) -> (r: Result<(), PromoError>)
    ensures
        *old(from) < amount ==> r == Err::<(), PromoError>(PromoError::InsufficientVaultBalance),
        *old(from) >= amount && *old(to) + amount > u64::MAX ==> r == Err::<(), PromoError>(
            PromoError::Overflow,
        ),
        *old(from) >= amount && *old(to) + amount <= u64::MAX ==> r is Ok,
        r is Ok ==> *final(from) == *old(from) - amount && *final(to) == *old(to) + amount,
        r is Err ==> *final(from) == *old(from) && *final(to) == *old(to),
{
    if *from < amount {
        return Err(PromoError::InsufficientVaultBalance);
    }
    let new_from: u64 = *from - amount;
    match (*to).checked_add(amount) {
        Some(new_to) => {
            *from = new_from;
            *to = new_to;
            Ok(())
        },
        None => Err(PromoError::Overflow),
    }
}

/// Moves `amount` from one wallet's balance to another's, on the payer's
/// own authority.
///
/// Both the debit and the credit are checked; where either leaves the
/// range of a balance the result is `Overflow` and nothing moves.
pub fn transfer_between_wallets(from: &mut u64, to: &mut u64, amount: u64) -> (r: Result<
    (),
    PromoError,
>)
    ensures
        *old(from) >= amount && *old(to) + amount <= u64::MAX ==> r is Ok,
        !(*old(from) >= amount && *old(to) + amount <= u64::MAX) ==> r == Err::<(), PromoError>(
            PromoError::Overflow,
        ),
        r is Ok ==> *final(from) == *old(from) - amount && *final(to) == *old(to) + amount,
        r is Err ==> *final(from) == *old(from) && *final(to) == *old(to),
{
    match ((*from).checked_sub(amount), (*to).checked_add(amount)) {
        (Some(new_from), Some(new_to)) => {
            *from = new_from;
            *to = new_to;
            Ok(())
        },
        _ => Err(PromoError::Overflow),
    }
}

/// Empties a closed record's balance into the balance of whoever closes it.
pub fn sweep_lamports(from: &mut u64, to: &mut u64) -> (r: Result<(), PromoError>)
    ensures
        *old(to) + *old(from) <= u64::MAX ==> r is Ok,
        *old(to) + *old(from) > u64::MAX ==> r == Err::<(), PromoError>(PromoError::Overflow),
        r is Ok ==> *final(from) == 0 && *final(to) == *old(to) + *old(from),
        r is Err ==> *final(from) == *old(from) && *final(to) == *old(to),
{
    match (*to).checked_add(*from) {
        Some(new_to) => {
            *from = 0;
            *to = new_to;
            Ok(())
        },
        None => Err(PromoError::Overflow),
    }
}

} // verus!
