//! Retiring a coupon of an expired campaign.

use vstd::prelude::*;
use crate::errors::PromoError;
use crate::states::{Account, Campaign, Coupon, Wallet};
use crate::utils::sweep_lamports;

verus! {

/// The accounts the retiring of a coupon touches.
pub struct ExpireCoupon {
    /// The campaign the coupon belongs to.
    pub campaign: Account<Campaign>,
    /// The coupon, used or not. It is destroyed: its funds go to `merchant`.
    pub coupon: Account<Coupon>,
    /// The caller, who must be the campaign's merchant.
    pub merchant: Wallet,
}

/// Why the retiring of a coupon is refused, if it is: the first condition
/// that fails.
pub open spec fn expire_rejection(ctx: ExpireCoupon, now: i64) -> Option<PromoError> {
    if ctx.campaign.data.merchant != ctx.merchant.key {
        Some(PromoError::NotMerchant)
    } else if ctx.coupon.data.campaign != ctx.campaign.key {
        Some(PromoError::InvalidCouponCampaign)
    } else if now <= ctx.campaign.data.expiration_timestamp {
        Some(PromoError::CampaignNotExpired)
    } else if ctx.coupon.data.listed {
        Some(PromoError::CouponListed)
    } else if ctx.merchant.lamports + ctx.coupon.lamports > u64::MAX {
        Some(PromoError::Overflow)
    } else {
        None
    }
}

/// The accounts after an accepted retiring.
pub open spec fn expire_effect(ctx: ExpireCoupon) -> ExpireCoupon {
    ExpireCoupon {
        coupon: Account { lamports: 0, ..ctx.coupon },
        merchant: Wallet {
            lamports: (ctx.merchant.lamports + ctx.coupon.lamports) as u64,
            ..ctx.merchant
        },
        ..ctx
    }
}

/// Retires a coupon of a campaign that has expired by time `now` and hands
/// the funds held in it to the merchant.
///
/// The coupon may be used or unused, but not listed. A refused retiring
/// changes nothing.
pub fn expire_coupon(ctx: &mut ExpireCoupon, now: i64) -> (r: Result<(), PromoError>)
    ensures
        match expire_rejection(*old(ctx), now) {
            Some(e) => r == Err::<(), PromoError>(e) && *final(ctx) == *old(ctx),
            None => r is Ok && *final(ctx) == expire_effect(*old(ctx)),
        },
{
    if !ctx.campaign.data.merchant.same(&ctx.merchant.key) {
        return Err(PromoError::NotMerchant);
    }
    if !ctx.coupon.data.campaign.same(&ctx.campaign.key) {
        return Err(PromoError::InvalidCouponCampaign);
    }
    if now <= ctx.campaign.data.expiration_timestamp {
        return Err(PromoError::CampaignNotExpired);
    }
    if ctx.coupon.data.listed {
        return Err(PromoError::CouponListed);
    }
    let mut coupon_lamports: u64 = ctx.coupon.lamports;
    let mut merchant_lamports: u64 = ctx.merchant.lamports;
    match sweep_lamports(&mut coupon_lamports, &mut merchant_lamports) {
        Ok(()) => {},
        Err(e) => { return Err(e); },
    }
    ctx.coupon.lamports = coupon_lamports;
    ctx.merchant.lamports = merchant_lamports;
    Ok(())
}

} // verus!
