//! Handing a coupon to another owner.

use vstd::prelude::*;
use crate::address::Address;
use crate::errors::PromoError;
use crate::states::{Account, Coupon};

verus! {

/// The accounts a transfer of ownership touches.
pub struct TransferCoupon {
    /// The coupon that changes hands.
    pub coupon: Account<Coupon>,
    /// The caller, who must own the coupon.
    pub current_owner: Address,
    /// The wallet that receives the coupon.
    pub new_owner: Address,
}

/// The accounts after an accepted transfer.
pub open spec fn transfer_effect(ctx: TransferCoupon) -> TransferCoupon {
    TransferCoupon {
        coupon: Account {
            data: Coupon {
                owner: ctx.new_owner,
                listed: false,
                sale_price_lamports: 0,
                ..ctx.coupon.data
            },
            ..ctx.coupon
        },
        ..ctx
    }
}

/// Hands the caller's coupon to `new_owner`.
///
/// Nothing but ownership is asked of the coupon: a used or a listed coupon
/// changes hands too. Any listing is cleared. A refused transfer changes
/// nothing.
pub fn transfer_coupon(ctx: &mut TransferCoupon) -> (r: Result<(), PromoError>)
    ensures
        old(ctx).coupon.data.owner != old(ctx).current_owner ==> r == Err::<(), PromoError>(
            PromoError::NotCouponOwner,
        ) && *final(ctx) == *old(ctx),
        old(ctx).coupon.data.owner == old(ctx).current_owner ==> r is Ok && *final(ctx)
            == transfer_effect(*old(ctx)),
        r is Ok ==> final(ctx).coupon.data.wf(),
{
    if !ctx.coupon.data.owner.same(&ctx.current_owner) {
        return Err(PromoError::NotCouponOwner);
    }
    ctx.coupon.data.owner = ctx.new_owner;
    ctx.coupon.data.listed = false;
    ctx.coupon.data.sale_price_lamports = 0;
    Ok(())
}

} // verus!
