//! The records the engine keeps: policy, campaign, vault and coupon.

use vstd::prelude::*;
use crate::address::{zero_address, Address};
use crate::errors::PromoError;
use crate::utils::{bps_share, checked_bps_share, lemma_bps_share_bounds};

verus! {

/// Denominator of basis-point values: 10,000 basis points are the whole.
pub const BPS_DENOMINATOR: u64 = 10_000;

/// An account as the host presents it: an identifier, the native funds it
/// holds, and the record stored in it.
#[derive(Clone, Debug, PartialEq, Eq)]
pub struct Account<T> {
    pub key: Address,
    pub lamports: u64,
    pub data: T,
}

/// An account that is known only by its identifier and its funds: a
/// merchant, an owner, a buyer, the treasury.
#[derive(Clone, Copy, Debug, PartialEq, Eq)]
pub struct Wallet {
    pub key: Address,
    pub lamports: u64,
}

/// Protocol-wide policy: who administers it and the two bounds it sets.
#[derive(Clone, Copy, Debug, PartialEq, Eq)]
pub struct GlobalConfig {
    pub admin: Address,
    pub max_resale_bps: u16,
    pub service_fee_bps: u16,
}

impl GlobalConfig {
    /// Bytes of the stored record after its tag.
    pub const SIZE: usize = 32 + 2 + 2;

    /// Both bounds are at most 10,000 basis points.
    pub open spec fn wf(&self) -> bool {
        &&& self.max_resale_bps <= BPS_DENOMINATOR
        &&& self.service_fee_bps <= BPS_DENOMINATOR
    }

    /// The record a fresh account holds before it is written: no admin and
    /// zero bounds.
    pub fn blank() -> (r: GlobalConfig)
        ensures
            r == (GlobalConfig { admin: zero_address(), max_resale_bps: 0, service_fee_bps: 0 }),
    {
        GlobalConfig { admin: Address::zero(), max_resale_bps: 0, service_fee_bps: 0 }
    }
}

/// A campaign: its terms, its counters and its running totals.
#[derive(Clone, Debug, PartialEq, Eq)]
pub struct Campaign {
    pub merchant: Address,
    pub campaign_id: u64,
    pub discount_bps: u16,
    pub service_fee_bps: u16,
    pub resale_bps: u16,
    pub expiration_timestamp: i64,
    pub total_coupons: u32,
    pub used_coupons: u32,
    pub minted_coupons: u32,
    pub mint_cost_lamports: u64,
    pub max_discount_lamports: u64,
    pub category_code: u16,
    pub product_code: u16,
    pub campaign_name: String,
    pub requires_wallet: bool,
    pub target_wallet: Address,
    pub total_purchase_amount: u64,
    pub total_discount_lamports: u64,
    pub last_redeem_timestamp: i64,
}

/// Length in bytes of a name as it is stored.
pub open spec fn name_len(name: Seq<char>) -> nat {
    vstd::utf8::encode_utf8(name).len()
}

impl Campaign {
    /// Longest campaign name, in bytes.
    pub const MAX_NAME_LEN: usize = 64;

    /// Bytes of the stored record after its tag.
    pub const SIZE: usize = 32 + 8 + 2 + 2 + 2 + 8 + 4 + 4 + 4 + 8 + 8 + 2 + 2 + 4 + 64 + 1 + 32
        + 8 + 8 + 8;

    /// The counters never pass the cap.
    pub open spec fn counters_bounded(&self) -> bool {
        &&& self.minted_coupons <= self.total_coupons
        &&& self.used_coupons <= self.total_coupons
    }

    /// The terms are those a campaign can be created with.
    pub open spec fn terms_valid(&self) -> bool {
        &&& self.discount_bps <= BPS_DENOMINATOR
        &&& self.service_fee_bps <= BPS_DENOMINATOR
        &&& self.resale_bps <= BPS_DENOMINATOR
        &&& self.total_coupons > 0
        &&& self.mint_cost_lamports > 0
        &&& self.max_discount_lamports > 0
        &&& name_len(self.campaign_name@) <= 64
        &&& (self.target_wallet == zero_address() <==> !self.requires_wallet)
    }

    /// Valid terms and bounded counters.
    pub open spec fn wf(&self) -> bool {
        self.terms_valid() && self.counters_bounded()
    }

    /// Every number is zero, every identifier is the zero identifier, the
    /// name is empty and the campaign is not targeted.
    pub open spec fn is_blank(&self) -> bool {
        &&& self.merchant == zero_address()
        &&& self.campaign_id == 0
        &&& self.discount_bps == 0
        &&& self.service_fee_bps == 0
        &&& self.resale_bps == 0
        &&& self.expiration_timestamp == 0
        &&& self.total_coupons == 0
        &&& self.used_coupons == 0
        &&& self.minted_coupons == 0
        &&& self.mint_cost_lamports == 0
        &&& self.max_discount_lamports == 0
        &&& self.category_code == 0
        &&& self.product_code == 0
        &&& self.campaign_name@ == Seq::<char>::empty()
        &&& !self.requires_wallet
        &&& self.target_wallet == zero_address()
        &&& self.total_purchase_amount == 0
        &&& self.total_discount_lamports == 0
        &&& self.last_redeem_timestamp == 0
    }

    /// The record a fresh account holds before it is written.
    pub fn blank() -> (r: Campaign)
        ensures
            r.is_blank(),
    {
        Campaign {
            merchant: Address::zero(),
            campaign_id: 0,
            discount_bps: 0,
            service_fee_bps: 0,
            resale_bps: 0,
            expiration_timestamp: 0,
            total_coupons: 0,
            used_coupons: 0,
            minted_coupons: 0,
            mint_cost_lamports: 0,
            max_discount_lamports: 0,
            category_code: 0,
            product_code: 0,
            campaign_name: String::new(),
            requires_wallet: false,
            target_wallet: Address::zero(),
            total_purchase_amount: 0,
            total_discount_lamports: 0,
            last_redeem_timestamp: 0,
        }
    }

    /// The highest price a coupon of this campaign may be resold for by the
    /// campaign's resale share: that share of the maximum discount.
    pub open spec fn resale_cap(&self) -> int {
        bps_share(self.max_discount_lamports as int, self.resale_bps as int)
    }

    /// Whether `price` is a price a coupon of this campaign may be sold at.
    pub open spec fn price_allowed(&self, price: u64) -> bool {
        &&& 0 < price
        &&& price <= self.max_discount_lamports
        &&& price <= self.resale_cap()
    }

    /// Why `price` is refused as a resale price, if it is.
    ///
    /// The resale cap is computed in 64 bits: where the product of the
    /// maximum discount and the resale share does not fit, no price under
    /// the maximum discount can be judged and the result is `Overflow`.
    pub open spec fn resale_price_rejection(&self, price: u64) -> Option<PromoError> {
        if price == 0 || price > self.max_discount_lamports {
            Some(PromoError::InvalidResalePrice)
        } else if self.max_discount_lamports * self.resale_bps > u64::MAX {
            Some(PromoError::Overflow)
        } else if price > self.resale_cap() {
            Some(PromoError::InvalidResalePrice)
        } else {
            None
        }
    }

    /// Checks `price` against the campaign's bounds on resale prices.
    pub fn check_resale_price(&self, price: u64) -> (r: Result<(), PromoError>)
        ensures
            match self.resale_price_rejection(price) {
                Some(e) => r == Err::<(), PromoError>(e),
                None => r is Ok,
            },
            r is Ok <==> self.price_allowed(price) && self.max_discount_lamports * self.resale_bps
                <= u64::MAX,
    {
        if price == 0 || price > self.max_discount_lamports {
            return Err(PromoError::InvalidResalePrice);
        }
        let cap: u64 = match checked_bps_share(self.max_discount_lamports, self.resale_bps) {
            Ok(v) => v,
            Err(e) => { return Err(e); },
        };
        if price > cap {
            return Err(PromoError::InvalidResalePrice);
        }
        Ok(())
    }
}

/// An allowed resale price is positive and at most the smaller of the
/// campaign's maximum discount and its resale cap; under a resale share of at
/// most 10,000 basis points the cap is the smaller of the two.
pub proof fn lemma_allowed_price_bounds(campaign: Campaign, price: u64)
    requires
        campaign.price_allowed(price),
    ensures
        0 < price,
        price <= vstd::math::min(campaign.max_discount_lamports as int, campaign.resale_cap()),
        campaign.resale_bps <= BPS_DENOMINATOR ==> campaign.resale_cap()
            <= campaign.max_discount_lamports && price <= campaign.resale_cap(),
{
    lemma_bps_share_bounds(campaign.max_discount_lamports as int, campaign.resale_bps as int);
}

/// The escrow of one campaign and what has been paid out of it.
#[derive(Clone, Copy, Debug, PartialEq, Eq)]
pub struct Vault {
    pub campaign: Address,
    pub merchant: Address,
    pub bump: u8,
    pub total_deposit: u64,
    pub total_mint_spent: u64,
    pub total_service_spent: u64,
}

impl Vault {
    /// Bytes of the stored record after its tag.
    pub const SIZE: usize = 32 + 32 + 1 + 8 + 8 + 8;

    /// Everything paid out of the vault so far.
    pub open spec fn spent(&self) -> int {
        self.total_mint_spent + self.total_service_spent
    }

    /// The record a fresh account holds before it is written: zero
    /// identifiers and zero amounts.
    pub fn blank() -> (r: Vault)
        ensures
            r == (Vault {
                campaign: zero_address(),
                merchant: zero_address(),
                bump: 0,
                total_deposit: 0,
                total_mint_spent: 0,
                total_service_spent: 0,
            }),
    {
        Vault {
            campaign: Address::zero(),
            merchant: Address::zero(),
            bump: 0,
            total_deposit: 0,
            total_mint_spent: 0,
            total_service_spent: 0,
        }
    }
}

/// A vault whose funds are exactly its deposit less what was paid out of it
/// has paid out no more than was deposited.
pub proof fn lemma_backed_vault_spends_within_deposit(vault: Account<Vault>)
    requires
        vault_backed(vault),
    ensures
        vault.data.total_mint_spent + vault.data.total_service_spent <= vault.data.total_deposit,
        vault.lamports == vault.data.total_deposit - vault.data.total_mint_spent
            - vault.data.total_service_spent,
        vault.lamports >= 0,
{
}

/// The funds a vault account holds are exactly its deposit less what was
/// paid out of it.
pub open spec fn vault_backed(vault: Account<Vault>) -> bool {
    vault.lamports + vault.data.spent() == vault.data.total_deposit
}

/// One coupon: where it belongs, who owns it, and whether it is used or
/// listed for sale.
#[derive(Clone, Copy, Debug, PartialEq, Eq)]
pub struct Coupon {
    pub campaign: Address,
    pub coupon_index: u64,
    pub owner: Address,
    pub used: bool,
    pub listed: bool,
    pub sale_price_lamports: u64,
}

impl Coupon {
    /// Bytes of the stored record after its tag.
    pub const SIZE: usize = 32 + 8 + 32 + 1 + 1 + 8;

    /// A coupon that is not listed carries no price.
    pub open spec fn wf(&self) -> bool {
        !self.listed ==> self.sale_price_lamports == 0
    }

    /// The record a fresh account holds before it is written: zero
    /// identifiers, index and price, neither used nor listed.
    pub fn blank() -> (r: Coupon)
        ensures
            r == (Coupon {
                campaign: zero_address(),
                coupon_index: 0,
                owner: zero_address(),
                used: false,
                listed: false,
                sale_price_lamports: 0,
            }),
    {
        Coupon {
            campaign: Address::zero(),
            coupon_index: 0,
            owner: Address::zero(),
            used: false,
            listed: false,
            sale_price_lamports: 0,
        }
    }
}

} // verus!
