//! Closing the vault of an expired campaign.

use vstd::prelude::*;
use crate::errors::PromoError;
use crate::states::{Account, Campaign, Vault, Wallet};
use crate::utils::sweep_lamports;

verus! {

/// The accounts the closing of a vault touches.
pub struct CloseCampaignVault {
    /// The campaign, which stays as it is.
    pub campaign: Account<Campaign>,
    /// The campaign's vault. It is destroyed: its funds go to `merchant`.
    pub vault: Account<Vault>,
    /// The caller, who must be the campaign's merchant.
    pub merchant: Wallet,
}

/// Why the closing of a vault is refused, if it is: the first condition
/// that fails.
pub open spec fn close_vault_rejection(ctx: CloseCampaignVault, now: i64) -> Option<PromoError> {
    if ctx.campaign.data.merchant != ctx.merchant.key {
        Some(PromoError::NotMerchant)
    } else if now <= ctx.campaign.data.expiration_timestamp {
        Some(PromoError::CampaignNotExpired)
    } else if ctx.merchant.lamports + ctx.vault.lamports > u64::MAX {
        Some(PromoError::Overflow)
    } else {
        None
    }
}

/// The accounts after an accepted closing.
pub open spec fn close_vault_effect(ctx: CloseCampaignVault) -> CloseCampaignVault {
    CloseCampaignVault {
        vault: Account { lamports: 0, ..ctx.vault },
        merchant: Wallet {
            lamports: (ctx.merchant.lamports + ctx.vault.lamports) as u64,
            ..ctx.merchant
        },
        ..ctx
    }
}

/// Closes the vault of a campaign that has expired by time `now` and hands
/// what is left in it to the merchant.
///
/// The campaign record is kept. A refused closing changes nothing.
pub fn close_campaign_vault(ctx: &mut CloseCampaignVault, now: i64) -> (r: Result<(), PromoError>)
    ensures
        match close_vault_rejection(*old(ctx), now) {
            Some(e) => r == Err::<(), PromoError>(e) && *final(ctx) == *old(ctx),
            None => r is Ok && *final(ctx) == close_vault_effect(*old(ctx)),
        },
{
    if !ctx.campaign.data.merchant.same(&ctx.merchant.key) {
        return Err(PromoError::NotMerchant);
    }
    if now <= ctx.campaign.data.expiration_timestamp {
        return Err(PromoError::CampaignNotExpired);
    }
    let mut vault_lamports: u64 = ctx.vault.lamports;
    let mut merchant_lamports: u64 = ctx.merchant.lamports;
    match sweep_lamports(&mut vault_lamports, &mut merchant_lamports) {
        Ok(()) => {},
        Err(e) => { return Err(e); },
    }
    ctx.vault.lamports = vault_lamports;
    ctx.merchant.lamports = merchant_lamports;
    Ok(())
}

} // verus!
