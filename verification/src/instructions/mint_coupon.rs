//! Issuing a coupon.

use vstd::prelude::*;
use crate::address::Address;
use crate::errors::PromoError;
use crate::states::{vault_backed, Account, Campaign, Coupon, Vault, Wallet};
use crate::utils::transfer_lamports;

verus! {

/// The accounts the issue of a coupon touches.
pub struct MintCoupon {
    /// The campaign the coupon is issued under.
    pub campaign: Account<Campaign>,
    /// The campaign's vault, out of which the mint cost is paid.
    pub vault: Account<Vault>,
    /// The fresh account that receives the coupon record.
    pub coupon: Account<Coupon>,
    /// The wallet that will own the coupon.
    pub recipient: Address,
    /// The account that collects the mint cost.
    pub platform_treasury: Wallet,
}

/// Why the issue of a coupon is refused, if it is: the first condition
/// that fails.
pub open spec fn mint_rejection(ctx: MintCoupon, campaign_id: u64) -> Option<PromoError> {
    let campaign = ctx.campaign.data;
    let cost = campaign.mint_cost_lamports;
    if campaign.campaign_id != campaign_id {
        Some(PromoError::InvalidCampaignId)
    } else if campaign.minted_coupons >= campaign.total_coupons {
        Some(PromoError::NoCouponsLeft)
    } else if cost == 0 {
        Some(PromoError::InvalidMintCost)
    } else if campaign.requires_wallet && ctx.recipient != campaign.target_wallet {
        Some(PromoError::NotEligibleForCampaign)
    } else if ctx.vault.lamports < cost {
        Some(PromoError::InsufficientVaultBalance)
    } else if ctx.platform_treasury.lamports + cost > u64::MAX {
        Some(PromoError::Overflow)
    } else if ctx.vault.data.total_mint_spent + cost > u64::MAX {
        Some(PromoError::Overflow)
    } else {
        None
    }
}

/// The accounts after an accepted issue.
pub open spec fn mint_effect(ctx: MintCoupon, coupon_index: u64) -> MintCoupon {
    let cost = ctx.campaign.data.mint_cost_lamports;
    MintCoupon {
        campaign: Account {
            data: Campaign {
                minted_coupons: (ctx.campaign.data.minted_coupons + 1) as u32,
                ..ctx.campaign.data
            },
            ..ctx.campaign
        },
        vault: Account {
            lamports: (ctx.vault.lamports - cost) as u64,
            data: Vault {
                total_mint_spent: (ctx.vault.data.total_mint_spent + cost) as u64,
                ..ctx.vault.data
            },
            ..ctx.vault
        },
        coupon: Account {
            data: Coupon {
                campaign: ctx.campaign.key,
                coupon_index,
                owner: ctx.recipient,
                used: false,
                listed: false,
                sale_price_lamports: 0,
            },
            ..ctx.coupon
        },
        platform_treasury: Wallet {
            lamports: (ctx.platform_treasury.lamports + cost) as u64,
            ..ctx.platform_treasury
        },
        ..ctx
    }
}

/// Issues coupon number `coupon_index` of the campaign to the recipient.
///
/// The campaign must have coupons left to issue, and a targeted campaign
/// issues only to its target wallet. The mint cost is paid out of the vault
/// to the treasury. The new coupon is unused and not listed. A refused
/// issue changes nothing.
pub fn mint_coupon(ctx: &mut MintCoupon, campaign_id: u64, coupon_index: u64) -> (r: Result<
    (),
    PromoError,
>)
    ensures
        match mint_rejection(*old(ctx), campaign_id) {
            Some(e) => r == Err::<(), PromoError>(e) && *final(ctx) == *old(ctx),
            None => r is Ok && *final(ctx) == mint_effect(*old(ctx), coupon_index),
        },
        old(ctx).campaign.data.counters_bounded() ==> final(ctx).campaign.data.counters_bounded(),
        r is Ok ==> final(ctx).campaign.data.minted_coupons
            <= final(ctx).campaign.data.total_coupons,
        final(ctx).vault.lamports + final(ctx).vault.data.spent() == old(ctx).vault.lamports + old(
            ctx,
        ).vault.data.spent(),
        vault_backed(old(ctx).vault) ==> vault_backed(final(ctx).vault),
        r is Ok ==> final(ctx).coupon.data.wf(),
{
    if ctx.campaign.data.campaign_id != campaign_id {
        return Err(PromoError::InvalidCampaignId);
    }
    if ctx.campaign.data.minted_coupons >= ctx.campaign.data.total_coupons {
        return Err(PromoError::NoCouponsLeft);
    }
    let mint_cost: u64 = ctx.campaign.data.mint_cost_lamports;
    if mint_cost == 0 {
        return Err(PromoError::InvalidMintCost);
    }
    if ctx.campaign.data.requires_wallet && !ctx.recipient.same(&ctx.campaign.data.target_wallet) {
        return Err(PromoError::NotEligibleForCampaign);
    }
    let mut vault_lamports: u64 = ctx.vault.lamports;
    let mut treasury_lamports: u64 = ctx.platform_treasury.lamports;
    match transfer_lamports(&mut vault_lamports, &mut treasury_lamports, mint_cost) {
        Ok(()) => {},
        Err(e) => { return Err(e); },
    }
    let mint_spent: u64 = match ctx.vault.data.total_mint_spent.checked_add(mint_cost) {
        Some(v) => v,
        None => { return Err(PromoError::Overflow); },
    };
    ctx.vault.lamports = vault_lamports;
    ctx.platform_treasury.lamports = treasury_lamports;
    ctx.vault.data.total_mint_spent = mint_spent;
    ctx.coupon.data = Coupon {
        campaign: ctx.campaign.key,
        coupon_index,
        owner: ctx.recipient,
        used: false,
        listed: false,
        sale_price_lamports: 0,
    };
    ctx.campaign.data.minted_coupons = ctx.campaign.data.minted_coupons + 1;
    Ok(())
}

} // verus!
