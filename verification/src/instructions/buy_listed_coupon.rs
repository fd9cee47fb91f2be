//! Buying a coupon that is listed for sale.

use vstd::prelude::*;
use crate::errors::PromoError;
use crate::states::{Account, Campaign, Coupon, Wallet};
use crate::utils::transfer_between_wallets;

verus! {

/// The accounts a purchase touches.
pub struct BuyListedCoupon {
    /// The campaign the coupon is presented with.
    pub campaign: Account<Campaign>,
    /// The coupon being bought.
    pub coupon: Account<Coupon>,
    /// The seller, who must own the coupon and receives the price.
    pub seller: Wallet,
    /// The caller, who pays the price and receives the coupon.
    pub buyer: Wallet,
}

/// Why a purchase is refused, if it is: the first condition that fails.
pub open spec fn buy_rejection(ctx: BuyListedCoupon) -> Option<PromoError> {
    let price = ctx.coupon.data.sale_price_lamports;
    if ctx.coupon.data.campaign != ctx.campaign.key {
        Some(PromoError::InvalidCouponCampaign)
    } else if !ctx.coupon.data.listed {
        Some(PromoError::CouponNotListed)
    } else if ctx.coupon.data.owner != ctx.seller.key {
        Some(PromoError::NotCouponOwner)
    } else if ctx.buyer.key == ctx.seller.key {
        Some(PromoError::InvalidBuyer)
    } else if ctx.campaign.data.resale_price_rejection(price) is Some {
        ctx.campaign.data.resale_price_rejection(price)
    } else if ctx.buyer.lamports < price || ctx.seller.lamports + price > u64::MAX {
        Some(PromoError::Overflow)
    } else {
        None
    }
}

/// The accounts after an accepted purchase.
pub open spec fn buy_effect(ctx: BuyListedCoupon) -> BuyListedCoupon {
    let price = ctx.coupon.data.sale_price_lamports;
    BuyListedCoupon {
        coupon: Account {
            data: Coupon {
                owner: ctx.buyer.key,
                listed: false,
                sale_price_lamports: 0,
                ..ctx.coupon.data
            },
            ..ctx.coupon
        },
        seller: Wallet { lamports: (ctx.seller.lamports + price) as u64, ..ctx.seller },
        buyer: Wallet { lamports: (ctx.buyer.lamports - price) as u64, ..ctx.buyer },
        ..ctx
    }
}

/// A purchase cannot be repeated: on the accounts that an accepted purchase
/// leaves, the coupon is no longer listed.
pub proof fn lemma_buy_not_repeatable(ctx: BuyListedCoupon)
    requires
        buy_rejection(ctx) is None,
    ensures
        buy_rejection(buy_effect(ctx)) == Some(PromoError::CouponNotListed),
{
}

/// Sells the listed coupon to the caller at its listed price.
///
/// The price is checked against the campaign's bounds as they stand now,
/// then paid by the buyer to the seller; the buyer becomes the owner and
/// the listing is cleared. A refused purchase changes nothing.
pub fn buy_listed_coupon(ctx: &mut BuyListedCoupon) -> (r: Result<(), PromoError>)
    ensures
        match buy_rejection(*old(ctx)) {
            Some(e) => r == Err::<(), PromoError>(e) && *final(ctx) == *old(ctx),
            None => r is Ok && *final(ctx) == buy_effect(*old(ctx)),
        },
        r is Ok ==> old(ctx).campaign.data.price_allowed(old(ctx).coupon.data.sale_price_lamports),
        r is Ok ==> final(ctx).coupon.data.wf(),
        final(ctx).seller.lamports + final(ctx).buyer.lamports == old(ctx).seller.lamports + old(
            ctx,
        ).buyer.lamports,
{
    if !ctx.coupon.data.campaign.same(&ctx.campaign.key) {
        return Err(PromoError::InvalidCouponCampaign);
    }
    if !ctx.coupon.data.listed {
        return Err(PromoError::CouponNotListed);
    }
    if !ctx.coupon.data.owner.same(&ctx.seller.key) {
        return Err(PromoError::NotCouponOwner);
    }
    if ctx.buyer.key.same(&ctx.seller.key) {
        return Err(PromoError::InvalidBuyer);
    }
    let sale_price: u64 = ctx.coupon.data.sale_price_lamports;
    match ctx.campaign.data.check_resale_price(sale_price) {
        Ok(()) => {},
        Err(e) => { return Err(e); },
    }
    let mut buyer_lamports: u64 = ctx.buyer.lamports;
    let mut seller_lamports: u64 = ctx.seller.lamports;
    match transfer_between_wallets(&mut buyer_lamports, &mut seller_lamports, sale_price) {
        Ok(()) => {},
        Err(e) => { return Err(e); },
    }
    ctx.buyer.lamports = buyer_lamports;
    ctx.seller.lamports = seller_lamports;
    ctx.coupon.data.owner = ctx.buyer.key;
    ctx.coupon.data.listed = false;
    ctx.coupon.data.sale_price_lamports = 0;
    Ok(())
}

} // verus!
