//! Redeeming a coupon against a purchase.

use vstd::prelude::*;
use crate::address::Address;
use crate::errors::PromoError;
use crate::states::{vault_backed, Account, Campaign, Coupon, Vault, Wallet};
use crate::utils::{
    bps_share, checked_bps_share, lemma_bps_share_bounds, sweep_lamports, transfer_lamports,
};

verus! {

/// The accounts a redemption touches.
pub struct RedeemCoupon {
    /// The campaign the coupon belongs to.
    pub campaign: Account<Campaign>,
    /// The campaign's vault, out of which the service fee is paid.
    pub vault: Account<Vault>,
    /// The coupon being redeemed. It is destroyed: its funds go to `user`.
    pub coupon: Account<Coupon>,
    /// The caller, who must own the coupon.
    pub user: Wallet,
    /// The account that collects the service fee.
    pub platform_treasury: Wallet,
}

/// Summary of one redemption, for observers. It is not ledger state.
#[derive(Clone, Copy, Debug, PartialEq, Eq)]
pub struct CouponRedeemed {
    pub merchant: Address,
    pub campaign: Address,
    pub campaign_id: u64,
    pub category_code: u16,
    pub product_code: u16,
    pub coupon_index: u64,
    pub purchase_amount: u64,
    pub discount_value: u64,
    pub service_fee_value: u64,
}

/// The discount a purchase earns: the campaign's share of the purchase,
/// capped at the campaign's maximum discount.
pub open spec fn discount_value(campaign: Campaign, purchase_amount: u64) -> int {
    let raw = bps_share(purchase_amount as int, campaign.discount_bps as int);
    if raw > campaign.max_discount_lamports {
        campaign.max_discount_lamports as int
    } else {
        raw
    }
}

/// The fee the platform takes on a redemption: its share of the discount.
pub open spec fn service_fee_value(campaign: Campaign, purchase_amount: u64) -> int {
    bps_share(discount_value(campaign, purchase_amount), campaign.service_fee_bps as int)
}

/// The discount never exceeds the campaign's maximum nor the campaign's share
/// of the purchase; the fee is the platform's share of the discount, rounded
/// down, and under a fee of at most 10,000 basis points it never exceeds the
/// discount.
pub proof fn lemma_discount_and_fee(campaign: Campaign, purchase_amount: u64)
    ensures
        0 <= discount_value(campaign, purchase_amount) <= campaign.max_discount_lamports,
        discount_value(campaign, purchase_amount) <= bps_share(
            purchase_amount as int,
            campaign.discount_bps as int,
        ),
        service_fee_value(campaign, purchase_amount) == discount_value(campaign, purchase_amount)
            * campaign.service_fee_bps / 10_000,
        0 <= service_fee_value(campaign, purchase_amount),
        campaign.service_fee_bps <= 10_000 ==> service_fee_value(campaign, purchase_amount)
            <= discount_value(campaign, purchase_amount),
{
    lemma_bps_share_bounds(purchase_amount as int, campaign.discount_bps as int);
    lemma_bps_share_bounds(
        discount_value(campaign, purchase_amount),
        campaign.service_fee_bps as int,
    );
}

/// Why a redemption is refused, if it is: the first condition that fails.
pub open spec fn redeem_rejection(
    ctx: RedeemCoupon,
    now: i64,
    purchase_amount: u64,
    product_code: u16,
) -> Option<PromoError> {
    let campaign = ctx.campaign.data;
    let coupon = ctx.coupon.data;
    let discount = discount_value(campaign, purchase_amount);
    let fee = service_fee_value(campaign, purchase_amount);
    if coupon.campaign != ctx.campaign.key {
        Some(PromoError::InvalidCouponCampaign)
    } else if coupon.owner != ctx.user.key {
        Some(PromoError::NotCouponOwner)
    } else if now > campaign.expiration_timestamp {
        Some(PromoError::CampaignExpired)
    } else if product_code != campaign.product_code {
        Some(PromoError::InvalidProductForCoupon)
    } else if campaign.used_coupons >= campaign.total_coupons {
        Some(PromoError::NoCouponsLeft)
    } else if coupon.used {
        Some(PromoError::CouponAlreadyUsed)
    } else if coupon.listed {
        Some(PromoError::CouponListed)
    } else if purchase_amount * campaign.discount_bps > u64::MAX {
        Some(PromoError::Overflow)
    } else if discount * campaign.service_fee_bps > u64::MAX {
        Some(PromoError::Overflow)
    } else if fee > ctx.vault.lamports {
        Some(PromoError::InsufficientVaultBalance)
    } else if ctx.platform_treasury.lamports + fee > u64::MAX {
        Some(PromoError::Overflow)
    } else if ctx.vault.data.total_service_spent + fee > u64::MAX {
        Some(PromoError::Overflow)
    } else if campaign.total_purchase_amount + purchase_amount > u64::MAX {
        Some(PromoError::Overflow)
    } else if campaign.total_discount_lamports + discount > u64::MAX {
        Some(PromoError::Overflow)
    } else if ctx.user.lamports + ctx.coupon.lamports > u64::MAX {
        Some(PromoError::Overflow)
    } else {
        None
    }
}

/// The accounts after an accepted redemption.
pub open spec fn redeem_effect(ctx: RedeemCoupon, now: i64, purchase_amount: u64) -> RedeemCoupon {
    let discount = discount_value(ctx.campaign.data, purchase_amount);
    let fee = service_fee_value(ctx.campaign.data, purchase_amount);
    RedeemCoupon {
        campaign: Account {
            data: Campaign {
                used_coupons: (ctx.campaign.data.used_coupons + 1) as u32,
                total_purchase_amount: (ctx.campaign.data.total_purchase_amount
                    + purchase_amount) as u64,
                total_discount_lamports: (ctx.campaign.data.total_discount_lamports
                    + discount) as u64,
                last_redeem_timestamp: now,
                ..ctx.campaign.data
            },
            ..ctx.campaign
        },
        vault: Account {
            lamports: (ctx.vault.lamports - fee) as u64,
            data: Vault {
                total_service_spent: (ctx.vault.data.total_service_spent + fee) as u64,
                ..ctx.vault.data
            },
            ..ctx.vault
        },
        coupon: Account {
            lamports: 0,
            data: Coupon { used: true, listed: false, sale_price_lamports: 0, ..ctx.coupon.data },
            ..ctx.coupon
        },
        user: Wallet { lamports: (ctx.user.lamports + ctx.coupon.lamports) as u64, ..ctx.user },
        platform_treasury: Wallet {
            lamports: (ctx.platform_treasury.lamports + fee) as u64,
            ..ctx.platform_treasury
        },
    }
}

/// The summary an accepted redemption reports.
pub open spec fn redeem_event(ctx: RedeemCoupon, purchase_amount: u64) -> CouponRedeemed {
    CouponRedeemed {
        merchant: ctx.campaign.data.merchant,
        campaign: ctx.campaign.key,
        campaign_id: ctx.campaign.data.campaign_id,
        category_code: ctx.campaign.data.category_code,
        product_code: ctx.campaign.data.product_code,
        coupon_index: ctx.coupon.data.coupon_index,
        purchase_amount,
        discount_value: discount_value(ctx.campaign.data, purchase_amount) as u64,
        service_fee_value: service_fee_value(ctx.campaign.data, purchase_amount) as u64,
    }
}

/// A redemption cannot be repeated: on the accounts that an accepted
/// redemption leaves, every further redemption is refused, and one with the
/// same arguments is refused because the coupon is used or no coupon is left.
pub proof fn lemma_redeem_not_repeatable(
    ctx: RedeemCoupon,
    now: i64,
    purchase_amount: u64,
    product_code: u16,
    later: i64,
    other_amount: u64,
    other_code: u16,
)
    requires
        redeem_rejection(ctx, now, purchase_amount, product_code) is None,
    ensures
        redeem_rejection(
            redeem_effect(ctx, now, purchase_amount),
            later,
            other_amount,
            other_code,
        ) is Some,
        redeem_rejection(redeem_effect(ctx, now, purchase_amount), now, purchase_amount, product_code)
            == Some(PromoError::CouponAlreadyUsed) || redeem_rejection(
            redeem_effect(ctx, now, purchase_amount),
            now,
            purchase_amount,
            product_code,
        ) == Some(PromoError::NoCouponsLeft),
{
}

/// Redeems the caller's coupon for a purchase of `purchase_amount` made at
/// time `now`.
///
/// The discount is the campaign's share of the purchase, capped at the
/// campaign's maximum; the service fee is the platform's share of that
/// discount and is paid out of the vault to the treasury. The coupon is
/// marked used and destroyed, its funds going to the caller, and the
/// campaign's counters and totals are brought up to date. A refused
/// redemption changes nothing.
pub fn redeem_coupon(
    ctx: &mut RedeemCoupon,
    now: i64,
    purchase_amount: u64,
    product_code: u16,
) -> (r: Result<CouponRedeemed, PromoError>)
    ensures
        match redeem_rejection(*old(ctx), now, purchase_amount, product_code) {
            Some(e) => r == Err::<CouponRedeemed, PromoError>(e) && *final(ctx) == *old(ctx),
            None => r == Ok::<CouponRedeemed, PromoError>(redeem_event(*old(ctx), purchase_amount))
                && *final(ctx) == redeem_effect(*old(ctx), now, purchase_amount),
        },
        r is Ok ==> r->Ok_0.discount_value <= old(ctx).campaign.data.max_discount_lamports,
        r is Ok ==> r->Ok_0.service_fee_value == bps_share(
            r->Ok_0.discount_value as int,
            old(ctx).campaign.data.service_fee_bps as int,
        ),
        old(ctx).campaign.data.counters_bounded() ==> final(ctx).campaign.data.counters_bounded(),
        final(ctx).vault.lamports + final(ctx).vault.data.spent() == old(ctx).vault.lamports + old(
            ctx,
        ).vault.data.spent(),
        vault_backed(old(ctx).vault) ==> vault_backed(final(ctx).vault),
{
    if !ctx.coupon.data.campaign.same(&ctx.campaign.key) {
        return Err(PromoError::InvalidCouponCampaign);
    }
    if !ctx.coupon.data.owner.same(&ctx.user.key) {
        return Err(PromoError::NotCouponOwner);
    }
    if now > ctx.campaign.data.expiration_timestamp {
        return Err(PromoError::CampaignExpired);
    }
    if product_code != ctx.campaign.data.product_code {
        return Err(PromoError::InvalidProductForCoupon);
    }
    if ctx.campaign.data.used_coupons >= ctx.campaign.data.total_coupons {
        return Err(PromoError::NoCouponsLeft);
    }
    if ctx.coupon.data.used {
        return Err(PromoError::CouponAlreadyUsed);
    }
    if ctx.coupon.data.listed {
        return Err(PromoError::CouponListed);
    }
    let raw: u64 = match checked_bps_share(purchase_amount, ctx.campaign.data.discount_bps) {
        Ok(v) => v,
        Err(e) => { return Err(e); },
    };
    let discount: u64 = if raw > ctx.campaign.data.max_discount_lamports {
        ctx.campaign.data.max_discount_lamports
    } else {
        raw
    };
    let fee: u64 = match checked_bps_share(discount, ctx.campaign.data.service_fee_bps) {
        Ok(v) => v,
        Err(e) => { return Err(e); },
    };
    let mut vault_lamports: u64 = ctx.vault.lamports;
    let mut treasury_lamports: u64 = ctx.platform_treasury.lamports;
    let mut service_spent: u64 = ctx.vault.data.total_service_spent;
    if fee > 0 {
        match transfer_lamports(&mut vault_lamports, &mut treasury_lamports, fee) {
            Ok(()) => {},
            Err(e) => { return Err(e); },
        }
        service_spent = match service_spent.checked_add(fee) {
            Some(v) => v,
            None => { return Err(PromoError::Overflow); },
        };
    }
    let used_coupons: u32 = ctx.campaign.data.used_coupons + 1;
    let total_purchase: u64 = match ctx.campaign.data.total_purchase_amount.checked_add(
        purchase_amount,
    ) {
        Some(v) => v,
        None => { return Err(PromoError::Overflow); },
    };
    let total_discount: u64 = match ctx.campaign.data.total_discount_lamports.checked_add(discount) {
        Some(v) => v,
        None => { return Err(PromoError::Overflow); },
    };
    let mut coupon_lamports: u64 = ctx.coupon.lamports;
    let mut user_lamports: u64 = ctx.user.lamports;
    match sweep_lamports(&mut coupon_lamports, &mut user_lamports) {
        Ok(()) => {},
        Err(e) => { return Err(e); },
    }
    let event = CouponRedeemed {
        merchant: ctx.campaign.data.merchant,
        campaign: ctx.campaign.key,
        campaign_id: ctx.campaign.data.campaign_id,
        category_code: ctx.campaign.data.category_code,
        product_code: ctx.campaign.data.product_code,
        coupon_index: ctx.coupon.data.coupon_index,
        purchase_amount,
        discount_value: discount,
        service_fee_value: fee,
    };

    ctx.vault.lamports = vault_lamports;
    ctx.vault.data.total_service_spent = service_spent;
    ctx.platform_treasury.lamports = treasury_lamports;
    ctx.coupon.data.used = true;
    ctx.coupon.data.listed = false;
    ctx.coupon.data.sale_price_lamports = 0;
    ctx.coupon.lamports = coupon_lamports;
    ctx.user.lamports = user_lamports;
    ctx.campaign.data.used_coupons = used_coupons;
    ctx.campaign.data.total_purchase_amount = total_purchase;
    ctx.campaign.data.total_discount_lamports = total_discount;
    ctx.campaign.data.last_redeem_timestamp = now;
    Ok(event)
}

} // verus!
