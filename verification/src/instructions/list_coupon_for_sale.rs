//! Offering a coupon for sale.

use vstd::prelude::*;
use crate::address::Address;
use crate::errors::PromoError;
use crate::states::{Account, Campaign, Coupon};

verus! {

/// The accounts a listing touches.
pub struct ListCouponForSale {
    /// The campaign the coupon belongs to, whose terms bound the price.
    pub campaign: Account<Campaign>,
    /// The coupon offered for sale.
    pub coupon: Account<Coupon>,
    /// The caller, who must own the coupon.
    pub owner: Address,
}

/// Why a listing is refused, if it is: the first condition that fails.
pub open spec fn list_rejection(ctx: ListCouponForSale, sale_price_lamports: u64) -> Option<
    PromoError,
> {
    if ctx.coupon.data.campaign != ctx.campaign.key {
        Some(PromoError::InvalidCouponCampaign)
    } else if ctx.coupon.data.owner != ctx.owner {
        Some(PromoError::NotCouponOwner)
    } else if ctx.coupon.data.used {
        Some(PromoError::CouponAlreadyUsed)
    } else if ctx.coupon.data.listed {
        Some(PromoError::CouponAlreadyListed)
    } else {
        ctx.campaign.data.resale_price_rejection(sale_price_lamports)
    }
}

/// The accounts after an accepted listing.
pub open spec fn list_effect(ctx: ListCouponForSale, sale_price_lamports: u64) -> ListCouponForSale {
    ListCouponForSale {
        coupon: Account {
            data: Coupon { listed: true, sale_price_lamports, ..ctx.coupon.data },
            ..ctx.coupon
        },
        ..ctx
    }
}

/// A listing cannot be repeated: on the accounts that an accepted listing
/// leaves, the coupon is already listed, whatever price is asked.
pub proof fn lemma_list_not_repeatable(ctx: ListCouponForSale, price: u64, other_price: u64)
    requires
        list_rejection(ctx, price) is None,
    ensures
        list_rejection(list_effect(ctx, price), other_price) == Some(
            PromoError::CouponAlreadyListed,
        ),
{
}

/// Lists the caller's coupon for sale at `sale_price_lamports`.
///
/// The price must be positive, at most the campaign's maximum discount,
/// and at most the campaign's resale share of that maximum. A refused
/// listing changes nothing.
pub fn list_coupon_for_sale(ctx: &mut ListCouponForSale, sale_price_lamports: u64) -> (r: Result<
    (),
    PromoError,
>)
    ensures
        match list_rejection(*old(ctx), sale_price_lamports) {
            Some(e) => r == Err::<(), PromoError>(e) && *final(ctx) == *old(ctx),
            None => r is Ok && *final(ctx) == list_effect(*old(ctx), sale_price_lamports),
        },
        r is Ok ==> old(ctx).campaign.data.price_allowed(sale_price_lamports),
        r is Ok ==> final(ctx).coupon.data.wf(),
{
    if !ctx.coupon.data.campaign.same(&ctx.campaign.key) {
        return Err(PromoError::InvalidCouponCampaign);
    }
    if !ctx.coupon.data.owner.same(&ctx.owner) {
        return Err(PromoError::NotCouponOwner);
    }
    if ctx.coupon.data.used {
        return Err(PromoError::CouponAlreadyUsed);
    }
    if ctx.coupon.data.listed {
        return Err(PromoError::CouponAlreadyListed);
    }
    match ctx.campaign.data.check_resale_price(sale_price_lamports) {
        Ok(()) => {},
        Err(e) => { return Err(e); },
    }
    ctx.coupon.data.listed = true;
    ctx.coupon.data.sale_price_lamports = sale_price_lamports;
    Ok(())
}

} // verus!
