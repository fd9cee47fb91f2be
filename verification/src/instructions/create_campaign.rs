//! Creating a campaign and funding its vault.

use vstd::prelude::*;
use crate::address::{zero_address, Address};
use crate::errors::PromoError;
use crate::states::{
    name_len, vault_backed, Account, Campaign, GlobalConfig, Vault, Wallet, BPS_DENOMINATOR,
};
use crate::utils::transfer_between_wallets;

verus! {

/// The accounts the creation of a campaign touches.
pub struct CreateCampaign {
    /// The protocol policy, which bounds the resale share and sets the fee.
    pub config: Account<GlobalConfig>,
    /// The fresh account that receives the campaign record.
    pub campaign: Account<Campaign>,
    /// The fresh account that receives the vault record and the deposit.
    pub vault: Account<Vault>,
    /// The merchant, who pays the deposit.
    pub merchant: Wallet,
    /// The bump of the vault's address, kept in the vault record.
    pub vault_bump: u8,
}

/// Why the creation of a campaign is refused, if it is: the first condition
/// that fails. `max_resale_bps` is the policy's bound on the resale share;
/// `merchant_lamports` and `vault_lamports` are what the merchant and the
/// vault account hold before the deposit.
pub open spec fn create_campaign_rejection(
    max_resale_bps: u16,
    merchant_lamports: u64,
    vault_lamports: u64,
    discount_bps: u16,
    resale_bps: u16,
    total_coupons: u32,
    mint_cost_lamports: u64,
    max_discount_lamports: u64,
    campaign_name: Seq<char>,
    deposit_amount: u64,
    requires_wallet: bool,
    target_wallet: Address,
) -> Option<PromoError> {
    if discount_bps > BPS_DENOMINATOR || resale_bps > BPS_DENOMINATOR {
        Some(PromoError::InvalidBps)
    } else if total_coupons == 0 {
        Some(PromoError::InvalidTotalCoupons)
    } else if mint_cost_lamports == 0 {
        Some(PromoError::InvalidMintCost)
    } else if max_discount_lamports == 0 {
        Some(PromoError::InvalidMaxDiscount)
    } else if deposit_amount == 0 {
        Some(PromoError::InvalidDepositAmount)
    } else if resale_bps > max_resale_bps {
        Some(PromoError::InvalidResalePrice)
    } else if requires_wallet && target_wallet == zero_address() {
        Some(PromoError::TargetWalletRequired)
    } else if name_len(campaign_name) > 64 {
        Some(PromoError::NameTooLong)
    } else if merchant_lamports < deposit_amount || vault_lamports + deposit_amount > u64::MAX {
        Some(PromoError::Overflow)
    } else {
        None
    }
}

/// The record of a campaign as it is created: the terms given, the service
/// fee of the policy, and counters and totals at zero. A campaign that is
/// not targeted keeps the zero identifier as its target.
pub open spec fn new_campaign(
    merchant: Address,
    service_fee_bps: u16,
    campaign_id: u64,
    discount_bps: u16,
    resale_bps: u16,
    expiration_timestamp: i64,
    total_coupons: u32,
    mint_cost_lamports: u64,
    max_discount_lamports: u64,
    category_code: u16,
    product_code: u16,
    campaign_name: String,
    requires_wallet: bool,
    target_wallet: Address,
) -> Campaign {
    Campaign {
        merchant,
        campaign_id,
        discount_bps,
        service_fee_bps,
        resale_bps,
        expiration_timestamp,
        total_coupons,
        used_coupons: 0,
        minted_coupons: 0,
        mint_cost_lamports,
        max_discount_lamports,
        category_code,
        product_code,
        campaign_name,
        requires_wallet,
        target_wallet: if requires_wallet {
            target_wallet
        } else {
            zero_address()
        },
        total_purchase_amount: 0,
        total_discount_lamports: 0,
        last_redeem_timestamp: 0,
    }
}

/// The record of a vault as it is created: the deposit, and nothing paid
/// out yet.
pub open spec fn new_vault(campaign: Address, merchant: Address, bump: u8, deposit_amount: u64) -> Vault {
    Vault {
        campaign,
        merchant,
        bump,
        total_deposit: deposit_amount,
        total_mint_spent: 0,
        total_service_spent: 0,
    }
}

/// Creates a campaign for the merchant and moves `deposit_amount` from the
/// merchant into its vault.
///
/// The campaign takes its service fee from the policy as it stands now and
/// keeps it. Its counters and totals start at zero. A campaign that is not
/// targeted keeps the zero identifier as its target, whatever was given. A
/// refused creation changes nothing.
pub fn create_campaign(
    ctx: &mut CreateCampaign,
    campaign_id: u64,
    discount_bps: u16,
    resale_bps: u16,
    expiration_timestamp: i64,
    total_coupons: u32,
    mint_cost_lamports: u64,
    max_discount_lamports: u64,
    category_code: u16,
    product_code: u16,
    campaign_name: String,
    deposit_amount: u64,
    requires_wallet: bool,
    target_wallet: Address,
) -> (r: Result<(), PromoError>)
    ensures
        match create_campaign_rejection(
            old(ctx).config.data.max_resale_bps,
            old(ctx).merchant.lamports,
            old(ctx).vault.lamports,
            discount_bps,
            resale_bps,
            total_coupons,
            mint_cost_lamports,
            max_discount_lamports,
            campaign_name@,
            deposit_amount,
            requires_wallet,
            target_wallet,
        ) {
            Some(e) => r == Err::<(), PromoError>(e) && *final(ctx) == *old(ctx),
            None => r is Ok && *final(ctx) == (CreateCampaign {
                campaign: Account {
                    data: new_campaign(
                        old(ctx).merchant.key,
                        old(ctx).config.data.service_fee_bps,
                        campaign_id,
                        discount_bps,
                        resale_bps,
                        expiration_timestamp,
                        total_coupons,
                        mint_cost_lamports,
                        max_discount_lamports,
                        category_code,
                        product_code,
                        campaign_name,
                        requires_wallet,
                        target_wallet,
                    ),
                    ..old(ctx).campaign
                },
                vault: Account {
                    lamports: (old(ctx).vault.lamports + deposit_amount) as u64,
                    data: new_vault(
                        old(ctx).campaign.key,
                        old(ctx).merchant.key,
                        old(ctx).vault_bump,
                        deposit_amount,
                    ),
                    ..old(ctx).vault
                },
                merchant: Wallet {
                    lamports: (old(ctx).merchant.lamports - deposit_amount) as u64,
                    ..old(ctx).merchant
                },
                ..*old(ctx)
            }),
        },
        r is Ok ==> final(ctx).campaign.data.counters_bounded(),
        r is Ok && old(ctx).config.data.wf() ==> final(ctx).campaign.data.wf(),
        r is Ok && old(ctx).vault.lamports == 0 ==> vault_backed(final(ctx).vault),
{
    if discount_bps as u64 > BPS_DENOMINATOR {
        return Err(PromoError::InvalidBps);
    }
    if resale_bps as u64 > BPS_DENOMINATOR {
        return Err(PromoError::InvalidBps);
    }
    if total_coupons == 0 {
        return Err(PromoError::InvalidTotalCoupons);
    }
    if mint_cost_lamports == 0 {
        return Err(PromoError::InvalidMintCost);
    }
    if max_discount_lamports == 0 {
        return Err(PromoError::InvalidMaxDiscount);
    }
    if deposit_amount == 0 {
        return Err(PromoError::InvalidDepositAmount);
    }
    if resale_bps > ctx.config.data.max_resale_bps {
        return Err(PromoError::InvalidResalePrice);
    }
    if requires_wallet && target_wallet.is_zero() {
        return Err(PromoError::TargetWalletRequired);
    }
    if campaign_name.as_str().as_bytes().len() > Campaign::MAX_NAME_LEN {
        return Err(PromoError::NameTooLong);
    }
    let mut merchant_lamports: u64 = ctx.merchant.lamports;
    let mut vault_lamports: u64 = ctx.vault.lamports;
    match transfer_between_wallets(&mut merchant_lamports, &mut vault_lamports, deposit_amount) {
        Ok(()) => {},
        Err(e) => { return Err(e); },
    }
    let target: Address = if requires_wallet {
        target_wallet
    } else {
        Address::zero()
    };
    ctx.campaign.data = Campaign {
        merchant: ctx.merchant.key,
        campaign_id,
        discount_bps,
        service_fee_bps: ctx.config.data.service_fee_bps,
        resale_bps,
        expiration_timestamp,
        total_coupons,
        used_coupons: 0,
        minted_coupons: 0,
        mint_cost_lamports,
        max_discount_lamports,
        category_code,
        product_code,
        campaign_name,
        requires_wallet,
        target_wallet: target,
        total_purchase_amount: 0,
        total_discount_lamports: 0,
        last_redeem_timestamp: 0,
    };
    ctx.vault.data = Vault {
        campaign: ctx.campaign.key,
        merchant: ctx.merchant.key,
        bump: ctx.vault_bump,
        total_deposit: deposit_amount,
        total_mint_spent: 0,
        total_service_spent: 0,
    };
    ctx.merchant.lamports = merchant_lamports;
    ctx.vault.lamports = vault_lamports;
    Ok(())
}

} // verus!
