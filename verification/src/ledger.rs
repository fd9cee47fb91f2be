//! The ledger: every record of the engine, found by its derived address.
//!
//! A record is created at the address derived from what it belongs to, and
//! creation is refused where a record already lives there. That is what
//! keeps a merchant's campaign numbers, and a campaign's coupon numbers,
//! from being used twice.

use vstd::prelude::*;
use crate::address::{lemma_address_by_bytes, zero_address, Address};
use crate::derivation::{
    campaign_address, campaign_address_of, config_address, config_address_of, coupon_address,
    coupon_address_of, vault_address, vault_address_of,
};
use crate::errors::PromoError;
use crate::instructions::buy_listed_coupon::{
    buy_effect, buy_listed_coupon, buy_rejection, BuyListedCoupon,
};
use crate::instructions::check_treasury_balance::{
    check_treasury_balance, CheckTreasuryBalance, TreasuryBalance,
};
use crate::instructions::close_campaign_vault::{
    close_campaign_vault, close_vault_effect, close_vault_rejection, CloseCampaignVault,
};
use crate::instructions::create_campaign::{
    create_campaign, create_campaign_rejection, new_campaign, new_vault, CreateCampaign,
};
use crate::instructions::expire_coupon::{
    expire_coupon, expire_effect, expire_rejection, ExpireCoupon,
};
use crate::instructions::initialize_config::{initialize_config, InitializeConfig};
use crate::instructions::list_coupon_for_sale::{
    list_coupon_for_sale, list_effect, list_rejection, ListCouponForSale,
};
use crate::instructions::mint_coupon::{mint_coupon, mint_effect, mint_rejection, MintCoupon};
use crate::instructions::redeem_coupon::{
    redeem_coupon, redeem_effect, redeem_event, redeem_rejection, CouponRedeemed, RedeemCoupon,
};
use crate::instructions::transfer_coupon::{transfer_coupon, transfer_effect, TransferCoupon};
use crate::instructions::upgrade_config::{
    lemma_config_round_trip, read_config, upgrade_config, write_config, UpgradeConfig,
};
use crate::states::{
    vault_backed, Account, Campaign, Coupon, GlobalConfig, Vault, Wallet, BPS_DENOMINATOR,
};
use crate::table::Table;

verus! {

/// Why the ledger refuses an operation.
#[derive(Clone, Copy, Debug, PartialEq, Eq, Structural)]
pub enum LedgerError {
    /// The engine's rules refuse the operation, for the reason given.
    Rejected(PromoError),
    /// No address can be derived for a record the operation needs.
    NoAddress,
    /// A record already lives at the address of the record to be created.
    AddressInUse,
    /// No record lives at an address the operation names or derives.
    NoSuchRecord,
}

/// Every record of the engine under one program.
pub struct Ledger {
    program: Address,
    config: Option<Account<GlobalConfig>>,
    campaigns: Table<Campaign>,
    vaults: Table<Vault>,
    coupons: Table<Coupon>,
}

/// What a ledger holds: the policy, if it is set up, and the campaigns,
/// vaults and coupons by their addresses.
pub ghost struct LedgerView {
    pub program: Address,
    pub config: Option<Account<GlobalConfig>>,
    pub campaigns: Map<Address, Account<Campaign>>,
    pub vaults: Map<Address, Account<Vault>>,
    pub coupons: Map<Address, Account<Coupon>>,
}

impl View for Ledger {
    type V = LedgerView;

    closed spec fn view(&self) -> LedgerView {
        LedgerView {
            program: self.program,
            config: self.config,
            campaigns: self.campaigns@,
            vaults: self.vaults@,
            coupons: self.coupons@,
        }
    }
}

/// `after` keeps what must never be lost from `before`: the program, the
/// policy once it is set up, and every campaign.
pub open spec fn extends(before: LedgerView, after: LedgerView) -> bool {
    &&& after.program == before.program
    &&& before.config is Some ==> after.config is Some
    &&& forall|k: Address| before.campaigns.contains_key(k) ==> after.campaigns.contains_key(k)
}

/// What holds of a ledger at all times: the policy's bounds are at most
/// 10,000 basis points, every campaign has valid terms and has issued and
/// redeemed no more coupons than its cap, every vault holds exactly its
/// deposit less what was paid out of it, and no coupon carries a price
/// without being listed.
pub open spec fn sound(ledger: LedgerView) -> bool {
    &&& ledger.config is Some ==> ledger.config->Some_0.data.wf()
    &&& forall|k: Address|
        ledger.campaigns.contains_key(k) ==> (#[trigger] ledger.campaigns[k]).data.wf()
    &&& forall|k: Address| ledger.vaults.contains_key(k) ==> vault_backed(#[trigger] ledger.vaults[k])
    &&& forall|k: Address| ledger.coupons.contains_key(k) ==> (#[trigger] ledger.coupons[k]).data.wf()
}

/// In a sound ledger no vault has paid out more than was deposited into it,
/// and every campaign's counters are within its cap.
pub proof fn lemma_sound_ledger_bounds(ledger: LedgerView, campaign: Address, vault: Address)
    requires
        sound(ledger),
    ensures
        ledger.campaigns.contains_key(campaign) ==> ledger.campaigns[campaign].data.minted_coupons
            <= ledger.campaigns[campaign].data.total_coupons
            && ledger.campaigns[campaign].data.used_coupons
            <= ledger.campaigns[campaign].data.total_coupons,
        ledger.vaults.contains_key(vault) ==> ledger.vaults[vault].data.total_mint_spent
            + ledger.vaults[vault].data.total_service_spent
            <= ledger.vaults[vault].data.total_deposit,
{
    if ledger.vaults.contains_key(vault) {
        assert(vault_backed(ledger.vaults[vault]));
    }
    if ledger.campaigns.contains_key(campaign) {
        assert(ledger.campaigns[campaign].data.wf());
    }
}

/// Why the ledger cannot set up the policy, if it cannot.
pub open spec fn initialize_failure(ledger: LedgerView) -> Option<LedgerError> {
    if config_address_of(ledger.program) is None {
        Some(LedgerError::NoAddress)
    } else if ledger.config is Some {
        Some(LedgerError::AddressInUse)
    } else {
        None
    }
}

/// Why the ledger cannot place a new campaign numbered `campaign_id` for
/// `merchant`, if it cannot.
pub open spec fn create_campaign_failure(
    ledger: LedgerView,
    merchant: Address,
    campaign_id: u64,
) -> Option<LedgerError> {
    if ledger.config is None {
        Some(LedgerError::NoSuchRecord)
    } else {
        match campaign_address_of(ledger.program, merchant, campaign_id) {
            None => Some(LedgerError::NoAddress),
            Some((campaign, _)) => if ledger.campaigns.contains_key(campaign) {
                Some(LedgerError::AddressInUse)
            } else {
                match vault_address_of(ledger.program, campaign) {
                    None => Some(LedgerError::NoAddress),
                    Some((vault, _)) => if ledger.vaults.contains_key(vault) {
                        Some(LedgerError::AddressInUse)
                    } else {
                        None
                    },
                }
            },
        }
    }
}

/// A ledger that holds the campaign numbered `campaign_id` of `merchant`
/// refuses to create it again.
pub proof fn lemma_recorded_campaign_blocks_creation(
    ledger: LedgerView,
    merchant: Address,
    campaign_id: u64,
)
    requires
        ledger.config is Some,
        campaign_address_of(ledger.program, merchant, campaign_id) is Some,
        ledger.campaigns.contains_key(
            campaign_address_of(ledger.program, merchant, campaign_id)->Some_0.0,
        ),
    ensures
        create_campaign_failure(ledger, merchant, campaign_id) == Some(LedgerError::AddressInUse),
{
}

/// Of two creations of a campaign under the same merchant and number, the
/// second is refused: once the first has placed the campaign in `created`,
/// every ledger `later` that keeps the campaigns of `created` has its
/// address in use.
pub proof fn lemma_duplicate_campaign_rejected(
    created: LedgerView,
    later: LedgerView,
    merchant: Address,
    campaign_id: u64,
)
    requires
        created.config is Some,
        campaign_address_of(created.program, merchant, campaign_id) is Some,
        created.campaigns.contains_key(
            campaign_address_of(created.program, merchant, campaign_id)->Some_0.0,
        ),
        extends(created, later),
    ensures
        create_campaign_failure(later, merchant, campaign_id) == Some(LedgerError::AddressInUse),
{
    lemma_recorded_campaign_blocks_creation(later, merchant, campaign_id);
}

/// Keeping what must never be lost carries over any number of steps.
pub proof fn lemma_extends_transitive(a: LedgerView, b: LedgerView, c: LedgerView)
    requires
        extends(a, b),
        extends(b, c),
    ensures
        extends(a, c),
        extends(a, a),
{
}

/// Why the ledger cannot find what the issue of coupon number
/// `coupon_index` under the campaign numbered `campaign_id` of `merchant`
/// needs, if it cannot.
pub open spec fn mint_failure(
    ledger: LedgerView,
    merchant: Address,
    campaign_id: u64,
    coupon_index: u64,
) -> Option<LedgerError> {
    match campaign_address_of(ledger.program, merchant, campaign_id) {
        None => Some(LedgerError::NoAddress),
        Some((campaign, _)) => if !ledger.campaigns.contains_key(campaign) {
            Some(LedgerError::NoSuchRecord)
        } else {
            match vault_address_of(ledger.program, campaign) {
                None => Some(LedgerError::NoAddress),
                Some((vault, _)) => if !ledger.vaults.contains_key(vault) {
                    Some(LedgerError::NoSuchRecord)
                } else {
                    match coupon_address_of(ledger.program, campaign, coupon_index) {
                        None => Some(LedgerError::NoAddress),
                        Some((coupon, _)) => if ledger.coupons.contains_key(coupon) {
                            Some(LedgerError::AddressInUse)
                        } else {
                            None
                        },
                    }
                },
            }
        },
    }
}

/// A coupon number is not issued twice: once the coupon lives at its
/// address, and while the campaign and its vault last, a further issue under
/// the same number finds the address in use.
pub proof fn lemma_issued_coupon_blocks_issue(
    ledger: LedgerView,
    merchant: Address,
    campaign_id: u64,
    coupon_index: u64,
)
    requires
        campaign_address_of(ledger.program, merchant, campaign_id) is Some,
        ledger.campaigns.contains_key(
            campaign_address_of(ledger.program, merchant, campaign_id)->Some_0.0,
        ),
        vault_address_of(
            ledger.program,
            campaign_address_of(ledger.program, merchant, campaign_id)->Some_0.0,
        ) is Some,
        ledger.vaults.contains_key(
            vault_address_of(
                ledger.program,
                campaign_address_of(ledger.program, merchant, campaign_id)->Some_0.0,
            )->Some_0.0,
        ),
        coupon_address_of(
            ledger.program,
            campaign_address_of(ledger.program, merchant, campaign_id)->Some_0.0,
            coupon_index,
        ) is Some,
        ledger.coupons.contains_key(
            coupon_address_of(
                ledger.program,
                campaign_address_of(ledger.program, merchant, campaign_id)->Some_0.0,
                coupon_index,
            )->Some_0.0,
        ),
    ensures
        mint_failure(ledger, merchant, campaign_id, coupon_index) == Some(
            LedgerError::AddressInUse,
        ),
{
}

/// The accounts the ledger presents for the issue of a coupon.
pub open spec fn mint_accounts(
    ledger: LedgerView,
    merchant: Address,
    campaign_id: u64,
    coupon_index: u64,
    recipient: Address,
    platform_treasury: Wallet,
) -> MintCoupon {
    let campaign = campaign_address_of(ledger.program, merchant, campaign_id)->Some_0.0;
    let vault = vault_address_of(ledger.program, campaign)->Some_0.0;
    let coupon = coupon_address_of(ledger.program, campaign, coupon_index)->Some_0.0;
    MintCoupon {
        campaign: ledger.campaigns[campaign],
        vault: ledger.vaults[vault],
        coupon: Account {
            key: coupon,
            lamports: 0,
            data: Coupon {
                campaign: zero_address(),
                coupon_index: 0,
                owner: zero_address(),
                used: false,
                listed: false,
                sale_price_lamports: 0,
            },
        },
        recipient,
        platform_treasury,
    }
}

/// Why the ledger cannot find what a redemption needs, if it cannot.
pub open spec fn redeem_failure(ledger: LedgerView, campaign: Address, coupon: Address) -> Option<
    LedgerError,
> {
    if !ledger.campaigns.contains_key(campaign) {
        Some(LedgerError::NoSuchRecord)
    } else {
        match vault_address_of(ledger.program, campaign) {
            None => Some(LedgerError::NoAddress),
            Some((vault, _)) => if !ledger.vaults.contains_key(vault) {
                Some(LedgerError::NoSuchRecord)
            } else if !ledger.coupons.contains_key(coupon) {
                Some(LedgerError::NoSuchRecord)
            } else {
                None
            },
        }
    }
}

/// The accounts the ledger presents for a redemption.
pub open spec fn redeem_accounts(
    ledger: LedgerView,
    campaign: Address,
    coupon: Address,
    user: Wallet,
    platform_treasury: Wallet,
) -> RedeemCoupon {
    RedeemCoupon {
        campaign: ledger.campaigns[campaign],
        vault: ledger.vaults[vault_address_of(ledger.program, campaign)->Some_0.0],
        coupon: ledger.coupons[coupon],
        user,
        platform_treasury,
    }
}

/// Why the ledger cannot find the campaign and the coupon an operation on a
/// coupon names, if it cannot.
pub open spec fn coupon_failure(ledger: LedgerView, campaign: Address, coupon: Address) -> Option<
    LedgerError,
> {
    if !ledger.campaigns.contains_key(campaign) || !ledger.coupons.contains_key(coupon) {
        Some(LedgerError::NoSuchRecord)
    } else {
        None
    }
}

/// Why the ledger cannot find the campaign whose vault is to be closed, or
/// the vault, if it cannot.
pub open spec fn close_vault_failure(ledger: LedgerView, campaign: Address) -> Option<LedgerError> {
    if !ledger.campaigns.contains_key(campaign) {
        Some(LedgerError::NoSuchRecord)
    } else {
        match vault_address_of(ledger.program, campaign) {
            None => Some(LedgerError::NoAddress),
            Some((vault, _)) => if !ledger.vaults.contains_key(vault) {
                Some(LedgerError::NoSuchRecord)
            } else {
                None
            },
        }
    }
}

impl Ledger {
    /// A ledger for `program` without any record.
    pub fn new(program: Address) -> (r: Ledger)
        ensures
            r@ == (LedgerView {
                program,
                config: None,
                campaigns: Map::empty(),
                vaults: Map::empty(),
                coupons: Map::empty(),
            }),
            sound(r@),
    {
        Ledger {
            program,
            config: None,
            campaigns: Table::new(),
            vaults: Table::new(),
            coupons: Table::new(),
        }
    }

    /// The program the ledger belongs to.
    pub fn program(&self) -> (r: Address)
        ensures
            r == self@.program,
    {
        self.program
    }

    /// The policy, if it is set up.
    pub fn config(&self) -> (r: Option<&Account<GlobalConfig>>)
        ensures
            match r {
                Some(a) => self@.config == Some(*a),
                None => self@.config is None,
            },
    {
        self.config.as_ref()
    }

    /// The campaign that lives at `key`, if there is one.
    pub fn campaign(&self, key: &Address) -> (r: Option<&Account<Campaign>>)
        ensures
            match r {
                Some(a) => self@.campaigns.contains_key(*key) && *a == self@.campaigns[*key],
                None => !self@.campaigns.contains_key(*key),
            },
    {
        self.campaigns.get(key)
    }

    /// The vault that lives at `key`, if there is one.
    pub fn vault(&self, key: &Address) -> (r: Option<&Account<Vault>>)
        ensures
            match r {
                Some(a) => self@.vaults.contains_key(*key) && *a == self@.vaults[*key],
                None => !self@.vaults.contains_key(*key),
            },
    {
        self.vaults.get(key)
    }

    /// The coupon that lives at `key`, if there is one.
    pub fn coupon(&self, key: &Address) -> (r: Option<&Account<Coupon>>)
        ensures
            match r {
                Some(a) => self@.coupons.contains_key(*key) && *a == self@.coupons[*key],
                None => !self@.coupons.contains_key(*key),
            },
    {
        self.coupons.get(key)
    }

    /// Sets up the policy at its address, with `admin` as its admin.
    ///
    /// The policy is set up once: a second call finds its address in use.
    /// A refused call changes nothing.
    pub fn initialize_config(&mut self, admin: Address, max_resale_bps: u16, service_fee_bps: u16) -> (r:
        Result<Address, LedgerError>)
        ensures
            match initialize_failure(old(self)@) {
                Some(e) => r == Err::<Address, LedgerError>(e) && final(self)@ == old(self)@,
                None => if max_resale_bps > BPS_DENOMINATOR || service_fee_bps > BPS_DENOMINATOR {
                    r == Err::<Address, LedgerError>(
                        LedgerError::Rejected(PromoError::InvalidBps),
                    ) && final(self)@ == old(self)@
                } else {
                    let key = config_address_of(old(self)@.program)->Some_0.0;
                    r == Ok::<Address, LedgerError>(key) && final(self)@ == (LedgerView {
                        config: Some(
                            Account {
                                key,
                                lamports: 0,
                                data: GlobalConfig { admin, max_resale_bps, service_fee_bps },
                            },
                        ),
                        ..old(self)@
                    })
                },
            },
            extends(old(self)@, final(self)@),
            sound(old(self)@) ==> sound(final(self)@),
    {
        let key: Address = match config_address(&self.program) {
            Some((key, _)) => key,
            None => { return Err(LedgerError::NoAddress); },
        };
        if self.config.is_some() {
            return Err(LedgerError::AddressInUse);
        }
        let mut ctx = InitializeConfig {
            config: Account { key, lamports: 0, data: GlobalConfig::blank() },
            admin,
        };
        match initialize_config(&mut ctx, max_resale_bps, service_fee_bps) {
            Ok(()) => {},
            Err(e) => { return Err(LedgerError::Rejected(e)); },
        }
        self.config = Some(ctx.config);
        Ok(key)
    }

    /// Creates the campaign numbered `campaign_id` of `merchant` and its
    /// vault, each at its derived address, and moves the deposit from the
    /// merchant into the vault.
    ///
    /// A merchant's campaign number is used once: a second creation under
    /// it finds the campaign's address in use. A refused creation changes
    /// nothing.
    pub fn create_campaign(
        &mut self,
        merchant: &mut Wallet,
        campaign_id: u64,
        discount_bps: u16,
        resale_bps: u16,
        expiration_timestamp: i64,
        total_coupons: u32,
        mint_cost_lamports: u64,
        max_discount_lamports: u64,
        category_code: u16,
        product_code: u16,
        campaign_name: String,
        deposit_amount: u64,
        requires_wallet: bool,
        target_wallet: Address,
    ) -> (r: Result<Address, LedgerError>)
        ensures
            match create_campaign_failure(old(self)@, old(merchant).key, campaign_id) {
                Some(e) => r == Err::<Address, LedgerError>(e) && final(self)@ == old(self)@
                    && *final(merchant) == *old(merchant),
                None => match create_campaign_rejection(
                    old(self)@.config->Some_0.data.max_resale_bps,
                    old(merchant).lamports,
                    0,
                    discount_bps,
                    resale_bps,
                    total_coupons,
                    mint_cost_lamports,
                    max_discount_lamports,
                    campaign_name@,
                    deposit_amount,
                    requires_wallet,
                    target_wallet,
                ) {
                    Some(e) => r == Err::<Address, LedgerError>(LedgerError::Rejected(e))
                        && final(self)@ == old(self)@ && *final(merchant) == *old(merchant),
                    None => {
                        let campaign = campaign_address_of(
                            old(self)@.program,
                            old(merchant).key,
                            campaign_id,
                        )->Some_0.0;
                        let vault = vault_address_of(old(self)@.program, campaign)->Some_0;
                        &&& r == Ok::<Address, LedgerError>(campaign)
                        &&& final(self)@ == (LedgerView {
                            campaigns: old(self)@.campaigns.insert(
                                campaign,
                                Account {
                                    key: campaign,
                                    lamports: 0,
                                    data: new_campaign(
                                        old(merchant).key,
                                        old(self)@.config->Some_0.data.service_fee_bps,
                                        campaign_id,
                                        discount_bps,
                                        resale_bps,
                                        expiration_timestamp,
                                        total_coupons,
                                        mint_cost_lamports,
                                        max_discount_lamports,
                                        category_code,
                                        product_code,
                                        campaign_name,
                                        requires_wallet,
                                        target_wallet,
                                    ),
                                },
                            ),
                            vaults: old(self)@.vaults.insert(
                                vault.0,
                                Account {
                                    key: vault.0,
                                    lamports: deposit_amount,
                                    data: new_vault(
                                        campaign,
                                        old(merchant).key,
                                        vault.1,
                                        deposit_amount,
                                    ),
                                },
                            ),
                            ..old(self)@
                        })
                        &&& *final(merchant) == (Wallet {
                            lamports: (old(merchant).lamports - deposit_amount) as u64,
                            ..*old(merchant)
                        })
                    },
                },
            },
            r is Ok ==> final(self)@.campaigns.contains_key(r->Ok_0) && campaign_address_of(
                old(self)@.program,
                old(merchant).key,
                campaign_id,
            ) is Some && campaign_address_of(
                old(self)@.program,
                old(merchant).key,
                campaign_id,
            )->Some_0.0 == r->Ok_0,
            extends(old(self)@, final(self)@),
            sound(old(self)@) ==> sound(final(self)@),
    {
        let config: Account<GlobalConfig> = match &self.config {
            Some(c) => Account { key: c.key, lamports: c.lamports, data: c.data },
            None => { return Err(LedgerError::NoSuchRecord); },
        };
        let campaign_key: Address = match campaign_address(
            &self.program,
            &merchant.key,
            campaign_id,
        ) {
            Some((key, _)) => key,
            None => { return Err(LedgerError::NoAddress); },
        };
        if self.campaigns.contains(&campaign_key) {
            return Err(LedgerError::AddressInUse);
        }
        let (vault_key, vault_bump) = match vault_address(&self.program, &campaign_key) {
            Some(found) => found,
            None => { return Err(LedgerError::NoAddress); },
        };
        if self.vaults.contains(&vault_key) {
            return Err(LedgerError::AddressInUse);
        }
        let mut ctx = CreateCampaign {
            config,
            campaign: Account { key: campaign_key, lamports: 0, data: Campaign::blank() },
            vault: Account { key: vault_key, lamports: 0, data: Vault::blank() },
            merchant: *merchant,
            vault_bump,
        };
        match create_campaign(
            &mut ctx,
            campaign_id,
            discount_bps,
            resale_bps,
            expiration_timestamp,
            total_coupons,
            mint_cost_lamports,
            max_discount_lamports,
            category_code,
            product_code,
            campaign_name,
            deposit_amount,
            requires_wallet,
            target_wallet,
        ) {
            Ok(()) => {},
            Err(e) => { return Err(LedgerError::Rejected(e)); },
        }
        *merchant = ctx.merchant;
        self.campaigns.put(ctx.campaign);
        self.vaults.put(ctx.vault);
        Ok(campaign_key)
    }
    /// Issues coupon number `coupon_index` of the campaign numbered
    /// `campaign_id` of `merchant` to `recipient`, at the coupon's derived
    /// address, and pays the mint cost out of the campaign's vault to the
    /// treasury.
    ///
    /// A campaign's coupon number is used once at a time: while a coupon
    /// lives at its address, a second issue under it finds the address in
    /// use. A refused issue changes nothing.
    pub fn mint_coupon(
        &mut self,
        merchant: Address,
        campaign_id: u64,
        coupon_index: u64,
        recipient: Address,
        platform_treasury: &mut Wallet,
    ) -> (r: Result<Address, LedgerError>)
        ensures
            match mint_failure(old(self)@, merchant, campaign_id, coupon_index) {
                Some(e) => r == Err::<Address, LedgerError>(e) && final(self)@ == old(self)@
                    && *final(platform_treasury) == *old(platform_treasury),
                None => {
                    let ctx = mint_accounts(
                        old(self)@,
                        merchant,
                        campaign_id,
                        coupon_index,
                        recipient,
                        *old(platform_treasury),
                    );
                    match mint_rejection(ctx, campaign_id) {
                        Some(e) => r == Err::<Address, LedgerError>(LedgerError::Rejected(e))
                            && final(self)@ == old(self)@ && *final(platform_treasury) == *old(platform_treasury),
                        None => {
                            let after = mint_effect(ctx, coupon_index);
                            &&& r == Ok::<Address, LedgerError>(ctx.coupon.key)
                            &&& final(self)@ == (LedgerView {
                                campaigns: old(self)@.campaigns.insert(
                                    ctx.campaign.key,
                                    after.campaign,
                                ),
                                vaults: old(self)@.vaults.insert(ctx.vault.key, after.vault),
                                coupons: old(self)@.coupons.insert(ctx.coupon.key, after.coupon),
                                ..old(self)@
                            })
                            &&& *final(platform_treasury) == after.platform_treasury
                        },
                    }
                },
            },
            extends(old(self)@, final(self)@),
            sound(old(self)@) ==> sound(final(self)@),
    {
        let campaign_key: Address = match campaign_address(&self.program, &merchant, campaign_id) {
            Some((key, _)) => key,
            None => { return Err(LedgerError::NoAddress); },
        };
        if !self.campaigns.contains(&campaign_key) {
            return Err(LedgerError::NoSuchRecord);
        }
        let vault_key: Address = match vault_address(&self.program, &campaign_key) {
            Some((key, _)) => key,
            None => { return Err(LedgerError::NoAddress); },
        };
        if !self.vaults.contains(&vault_key) {
            return Err(LedgerError::NoSuchRecord);
        }
        let coupon_key: Address = match coupon_address(&self.program, &campaign_key, coupon_index) {
            Some((key, _)) => key,
            None => { return Err(LedgerError::NoAddress); },
        };
        if self.coupons.contains(&coupon_key) {
            return Err(LedgerError::AddressInUse);
        }
        let ghost before = self@;
        let campaign = self.campaigns.take(&campaign_key).unwrap();
        let vault = self.vaults.take(&vault_key).unwrap();
        let mut ctx = MintCoupon {
            campaign,
            vault,
            coupon: Account { key: coupon_key, lamports: 0, data: Coupon::blank() },
            recipient,
            platform_treasury: *platform_treasury,
        };
        let outcome = mint_coupon(&mut ctx, campaign_id, coupon_index);
        self.campaigns.put(ctx.campaign);
        self.vaults.put(ctx.vault);
        match outcome {
            Ok(()) => {
                self.coupons.put(ctx.coupon);
                *platform_treasury = ctx.platform_treasury;
                proof {
                    assert(self@.campaigns =~= before.campaigns.insert(
                        campaign_key,
                        ctx.campaign,
                    ));
                    assert(self@.vaults =~= before.vaults.insert(vault_key, ctx.vault));
                }
                Ok(coupon_key)
            },
            Err(e) => {
                proof {
                    assert(self@.campaigns =~= before.campaigns);
                    assert(self@.vaults =~= before.vaults);
                }
                Err(LedgerError::Rejected(e))
            },
        }
    }

    /// Redeems the coupon at `coupon` under the campaign at `campaign` for a
    /// purchase of `purchase_amount` made by `user` at time `now`.
    ///
    /// The service fee is paid out of the campaign's vault, which the ledger
    /// finds at its derived address. The coupon is destroyed: its record
    /// leaves the ledger and its funds go to the user. A refused redemption
    /// changes nothing.
    pub fn redeem_coupon(
        &mut self,
        campaign: Address,
        coupon: Address,
        user: &mut Wallet,
        platform_treasury: &mut Wallet,
        now: i64,
        purchase_amount: u64,
        product_code: u16,
    ) -> (r: Result<CouponRedeemed, LedgerError>)
        ensures
            match redeem_failure(old(self)@, campaign, coupon) {
                Some(e) => r == Err::<CouponRedeemed, LedgerError>(e) && final(self)@ == old(self)@
                    && *final(user) == *old(user) && *final(platform_treasury) == *old(platform_treasury),
                None => {
                    let ctx = redeem_accounts(
                        old(self)@,
                        campaign,
                        coupon,
                        *old(user),
                        *old(platform_treasury),
                    );
                    match redeem_rejection(ctx, now, purchase_amount, product_code) {
                        Some(e) => r == Err::<CouponRedeemed, LedgerError>(
                            LedgerError::Rejected(e),
                        ) && final(self)@ == old(self)@ && *final(user) == *old(user) && *final(platform_treasury) == *old(platform_treasury),
                        None => {
                            let after = redeem_effect(ctx, now, purchase_amount);
                            &&& r == Ok::<CouponRedeemed, LedgerError>(
                                redeem_event(ctx, purchase_amount),
                            )
                            &&& final(self)@ == (LedgerView {
                                campaigns: old(self)@.campaigns.insert(campaign, after.campaign),
                                vaults: old(self)@.vaults.insert(ctx.vault.key, after.vault),
                                coupons: old(self)@.coupons.remove(coupon),
                                ..old(self)@
                            })
                            &&& *final(user) == after.user
                            &&& *final(platform_treasury) == after.platform_treasury
                        },
                    }
                },
            },
            extends(old(self)@, final(self)@),
            sound(old(self)@) ==> sound(final(self)@),
    {
        if !self.campaigns.contains(&campaign) {
            return Err(LedgerError::NoSuchRecord);
        }
        let vault_key: Address = match vault_address(&self.program, &campaign) {
            Some((key, _)) => key,
            None => { return Err(LedgerError::NoAddress); },
        };
        if !self.vaults.contains(&vault_key) {
            return Err(LedgerError::NoSuchRecord);
        }
        if !self.coupons.contains(&coupon) {
            return Err(LedgerError::NoSuchRecord);
        }
        let ghost before = self@;
        let campaign_account = self.campaigns.take(&campaign).unwrap();
        let vault_account = self.vaults.take(&vault_key).unwrap();
        let coupon_account = self.coupons.take(&coupon).unwrap();
        let mut ctx = RedeemCoupon {
            campaign: campaign_account,
            vault: vault_account,
            coupon: coupon_account,
            user: *user,
            platform_treasury: *platform_treasury,
        };
        let outcome = redeem_coupon(&mut ctx, now, purchase_amount, product_code);
        self.campaigns.put(ctx.campaign);
        self.vaults.put(ctx.vault);
        match outcome {
            Ok(event) => {
                *user = ctx.user;
                *platform_treasury = ctx.platform_treasury;
                proof {
                    assert(self@.campaigns =~= before.campaigns.insert(campaign, ctx.campaign));
                    assert(self@.vaults =~= before.vaults.insert(vault_key, ctx.vault));
                }
                Ok(event)
            },
            Err(e) => {
                self.coupons.put(ctx.coupon);
                proof {
                    assert(self@.campaigns =~= before.campaigns);
                    assert(self@.vaults =~= before.vaults);
                    assert(self@.coupons =~= before.coupons);
                }
                Err(LedgerError::Rejected(e))
            },
        }
    }
    /// Hands the coupon at `coupon` from `current_owner` to `new_owner`.
    ///
    /// A refused transfer changes nothing.
    pub fn transfer_coupon(&mut self, coupon: Address, current_owner: Address, new_owner: Address) -> (r:
        Result<(), LedgerError>)
        ensures
            !old(self)@.coupons.contains_key(coupon) ==> r == Err::<(), LedgerError>(
                LedgerError::NoSuchRecord,
            ) && final(self)@ == old(self)@,
            old(self)@.coupons.contains_key(coupon) ==> {
                let ctx = TransferCoupon {
                    coupon: old(self)@.coupons[coupon],
                    current_owner,
                    new_owner,
                };
                if ctx.coupon.data.owner != current_owner {
                    r == Err::<(), LedgerError>(LedgerError::Rejected(PromoError::NotCouponOwner))
                        && final(self)@ == old(self)@
                } else {
                    r is Ok && final(self)@ == (LedgerView {
                        coupons: old(self)@.coupons.insert(coupon, transfer_effect(ctx).coupon),
                        ..old(self)@
                    })
                }
            },
            extends(old(self)@, final(self)@),
            sound(old(self)@) ==> sound(final(self)@),
    {
        let ghost before = self@;
        let coupon_account = match self.coupons.take(&coupon) {
            Some(a) => a,
            None => { return Err(LedgerError::NoSuchRecord); },
        };
        let mut ctx = TransferCoupon { coupon: coupon_account, current_owner, new_owner };
        let outcome = transfer_coupon(&mut ctx);
        self.coupons.put(ctx.coupon);
        match outcome {
            Ok(()) => {
                proof {
                    assert(self@.coupons =~= before.coupons.insert(coupon, ctx.coupon));
                }
                Ok(())
            },
            Err(e) => {
                proof {
                    assert(self@.coupons =~= before.coupons);
                }
                Err(LedgerError::Rejected(e))
            },
        }
    }

    /// Lists the coupon at `coupon`, of the campaign at `campaign`, for sale
    /// by `owner` at `sale_price_lamports`.
    ///
    /// A refused listing changes nothing.
    pub fn list_coupon_for_sale(
        &mut self,
        campaign: Address,
        coupon: Address,
        owner: Address,
        sale_price_lamports: u64,
    ) -> (r: Result<(), LedgerError>)
        ensures
            match coupon_failure(old(self)@, campaign, coupon) {
                Some(e) => r == Err::<(), LedgerError>(e) && final(self)@ == old(self)@,
                None => {
                    let ctx = ListCouponForSale {
                        campaign: old(self)@.campaigns[campaign],
                        coupon: old(self)@.coupons[coupon],
                        owner,
                    };
                    match list_rejection(ctx, sale_price_lamports) {
                        Some(e) => r == Err::<(), LedgerError>(LedgerError::Rejected(e)) && final(self)@ == old(self)@,
                        None => r is Ok && final(self)@ == (LedgerView {
                            coupons: old(self)@.coupons.insert(
                                coupon,
                                list_effect(ctx, sale_price_lamports).coupon,
                            ),
                            ..old(self)@
                        }),
                    }
                },
            },
            extends(old(self)@, final(self)@),
            sound(old(self)@) ==> sound(final(self)@),
    {
        if !self.campaigns.contains(&campaign) || !self.coupons.contains(&coupon) {
            return Err(LedgerError::NoSuchRecord);
        }
        let ghost before = self@;
        let campaign_account = self.campaigns.take(&campaign).unwrap();
        let coupon_account = self.coupons.take(&coupon).unwrap();
        let mut ctx = ListCouponForSale {
            campaign: campaign_account,
            coupon: coupon_account,
            owner,
        };
        let outcome = list_coupon_for_sale(&mut ctx, sale_price_lamports);
        self.campaigns.put(ctx.campaign);
        self.coupons.put(ctx.coupon);
        proof {
            assert(self@.campaigns =~= before.campaigns);
        }
        match outcome {
            Ok(()) => {
                proof {
                    assert(self@.coupons =~= before.coupons.insert(coupon, ctx.coupon));
                }
                Ok(())
            },
            Err(e) => {
                proof {
                    assert(self@.coupons =~= before.coupons);
                }
                Err(LedgerError::Rejected(e))
            },
        }
    }

    /// Sells the listed coupon at `coupon`, of the campaign at `campaign`,
    /// from `seller` to `buyer` at its listed price.
    ///
    /// A refused purchase changes nothing.
    pub fn buy_listed_coupon(
        &mut self,
        campaign: Address,
        coupon: Address,
        seller: &mut Wallet,
        buyer: &mut Wallet,
    ) -> (r: Result<(), LedgerError>)
        ensures
            match coupon_failure(old(self)@, campaign, coupon) {
                Some(e) => r == Err::<(), LedgerError>(e) && final(self)@ == old(self)@ && *final(seller) == *old(seller) && *final(buyer) == *old(buyer),
                None => {
                    let ctx = BuyListedCoupon {
                        campaign: old(self)@.campaigns[campaign],
                        coupon: old(self)@.coupons[coupon],
                        seller: *old(seller),
                        buyer: *old(buyer),
                    };
                    match buy_rejection(ctx) {
                        Some(e) => r == Err::<(), LedgerError>(LedgerError::Rejected(e)) && final(self)@ == old(self)@ && *final(seller) == *old(seller) && *final(buyer)
                            == *old(buyer),
                        None => {
                            let after = buy_effect(ctx);
                            &&& r is Ok
                            &&& final(self)@ == (LedgerView {
                                coupons: old(self)@.coupons.insert(coupon, after.coupon),
                                ..old(self)@
                            })
                            &&& *final(seller) == after.seller
                            &&& *final(buyer) == after.buyer
                        },
                    }
                },
            },
            extends(old(self)@, final(self)@),
            sound(old(self)@) ==> sound(final(self)@),
    {
        if !self.campaigns.contains(&campaign) || !self.coupons.contains(&coupon) {
            return Err(LedgerError::NoSuchRecord);
        }
        let ghost before = self@;
        let campaign_account = self.campaigns.take(&campaign).unwrap();
        let coupon_account = self.coupons.take(&coupon).unwrap();
        let mut ctx = BuyListedCoupon {
            campaign: campaign_account,
            coupon: coupon_account,
            seller: *seller,
            buyer: *buyer,
        };
        let outcome = buy_listed_coupon(&mut ctx);
        self.campaigns.put(ctx.campaign);
        self.coupons.put(ctx.coupon);
        proof {
            assert(self@.campaigns =~= before.campaigns);
        }
        match outcome {
            Ok(()) => {
                *seller = ctx.seller;
                *buyer = ctx.buyer;
                proof {
                    assert(self@.coupons =~= before.coupons.insert(coupon, ctx.coupon));
                }
                Ok(())
            },
            Err(e) => {
                proof {
                    assert(self@.coupons =~= before.coupons);
                }
                Err(LedgerError::Rejected(e))
            },
        }
    }

    /// Closes the vault of the campaign at `campaign`, which has expired by
    /// time `now`, and hands what is left in it to `merchant`.
    ///
    /// The vault's record leaves the ledger; the campaign stays. A refused
    /// closing changes nothing.
    pub fn close_campaign_vault(&mut self, campaign: Address, merchant: &mut Wallet, now: i64) -> (r:
        Result<(), LedgerError>)
        ensures
            match close_vault_failure(old(self)@, campaign) {
                Some(e) => r == Err::<(), LedgerError>(e) && final(self)@ == old(self)@ && *final(merchant) == *old(merchant),
                None => {
                    let vault = vault_address_of(old(self)@.program, campaign)->Some_0.0;
                    let ctx = CloseCampaignVault {
                        campaign: old(self)@.campaigns[campaign],
                        vault: old(self)@.vaults[vault],
                        merchant: *old(merchant),
                    };
                    match close_vault_rejection(ctx, now) {
                        Some(e) => r == Err::<(), LedgerError>(LedgerError::Rejected(e)) && final(self)@ == old(self)@ && *final(merchant) == *old(merchant),
                        None => {
                            &&& r is Ok
                            &&& final(self)@ == (LedgerView {
                                vaults: old(self)@.vaults.remove(vault),
                                ..old(self)@
                            })
                            &&& *final(merchant) == close_vault_effect(ctx).merchant
                        },
                    }
                },
            },
            extends(old(self)@, final(self)@),
            sound(old(self)@) ==> sound(final(self)@),
    {
        if !self.campaigns.contains(&campaign) {
            return Err(LedgerError::NoSuchRecord);
        }
        let vault_key: Address = match vault_address(&self.program, &campaign) {
            Some((key, _)) => key,
            None => { return Err(LedgerError::NoAddress); },
        };
        if !self.vaults.contains(&vault_key) {
            return Err(LedgerError::NoSuchRecord);
        }
        let ghost before = self@;
        let campaign_account = self.campaigns.take(&campaign).unwrap();
        let vault_account = self.vaults.take(&vault_key).unwrap();
        let mut ctx = CloseCampaignVault {
            campaign: campaign_account,
            vault: vault_account,
            merchant: *merchant,
        };
        let outcome = close_campaign_vault(&mut ctx, now);
        self.campaigns.put(ctx.campaign);
        proof {
            assert(self@.campaigns =~= before.campaigns);
        }
        match outcome {
            Ok(()) => {
                *merchant = ctx.merchant;
                Ok(())
            },
            Err(e) => {
                self.vaults.put(ctx.vault);
                proof {
                    assert(self@.vaults =~= before.vaults);
                }
                Err(LedgerError::Rejected(e))
            },
        }
    }

    /// Retires the coupon at `coupon` of the campaign at `campaign`, which
    /// has expired by time `now`, and hands the funds held in it to
    /// `merchant`.
    ///
    /// The coupon's record leaves the ledger. A refused retiring changes
    /// nothing.
    pub fn expire_coupon(
        &mut self,
        campaign: Address,
        coupon: Address,
        merchant: &mut Wallet,
        now: i64,
    ) -> (r: Result<(), LedgerError>)
        ensures
            match coupon_failure(old(self)@, campaign, coupon) {
                Some(e) => r == Err::<(), LedgerError>(e) && final(self)@ == old(self)@ && *final(merchant) == *old(merchant),
                None => {
                    let ctx = ExpireCoupon {
                        campaign: old(self)@.campaigns[campaign],
                        coupon: old(self)@.coupons[coupon],
                        merchant: *old(merchant),
                    };
                    match expire_rejection(ctx, now) {
                        Some(e) => r == Err::<(), LedgerError>(LedgerError::Rejected(e)) && final(self)@ == old(self)@ && *final(merchant) == *old(merchant),
                        None => {
                            &&& r is Ok
                            &&& final(self)@ == (LedgerView {
                                coupons: old(self)@.coupons.remove(coupon),
                                ..old(self)@
                            })
                            &&& *final(merchant) == expire_effect(ctx).merchant
                        },
                    }
                },
            },
            extends(old(self)@, final(self)@),
            sound(old(self)@) ==> sound(final(self)@),
    {
        if !self.campaigns.contains(&campaign) || !self.coupons.contains(&coupon) {
            return Err(LedgerError::NoSuchRecord);
        }
        let ghost before = self@;
        let campaign_account = self.campaigns.take(&campaign).unwrap();
        let coupon_account = self.coupons.take(&coupon).unwrap();
        let mut ctx = ExpireCoupon {
            campaign: campaign_account,
            coupon: coupon_account,
            merchant: *merchant,
        };
        let outcome = expire_coupon(&mut ctx, now);
        self.campaigns.put(ctx.campaign);
        proof {
            assert(self@.campaigns =~= before.campaigns);
        }
        match outcome {
            Ok(()) => {
                *merchant = ctx.merchant;
                Ok(())
            },
            Err(e) => {
                self.coupons.put(ctx.coupon);
                proof {
                    assert(self@.coupons =~= before.coupons);
                }
                Err(LedgerError::Rejected(e))
            },
        }
    }

    /// Reports the balance of `platform_treasury` to `admin`, who must be
    /// the admin the policy names. Nothing is changed.
    pub fn check_treasury_balance(&self, admin: Address, platform_treasury: Wallet) -> (r: Result<
        TreasuryBalance,
        LedgerError,
    >)
        ensures
            match self@.config {
                None => r == Err::<TreasuryBalance, LedgerError>(LedgerError::NoSuchRecord),
                Some(config) => if config.data.admin != admin {
                    r == Err::<TreasuryBalance, LedgerError>(
                        LedgerError::Rejected(PromoError::NotAdmin),
                    )
                } else {
                    r == Ok::<TreasuryBalance, LedgerError>(
                        TreasuryBalance {
                            platform_treasury: platform_treasury.key,
                            lamports: platform_treasury.lamports,
                        },
                    )
                },
            },
    {
        let config: Account<GlobalConfig> = match &self.config {
            Some(c) => Account { key: c.key, lamports: c.lamports, data: c.data },
            None => { return Err(LedgerError::NoSuchRecord); },
        };
        let ctx = CheckTreasuryBalance { config, admin, platform_treasury };
        match check_treasury_balance(&ctx) {
            Ok(report) => Ok(report),
            Err(e) => Err(LedgerError::Rejected(e)),
        }
    }
    /// Sets the two bounds of the policy on the authority of `admin`, who
    /// must be the admin the policy names.
    ///
    /// The update goes through the policy's stored form, which the ledger
    /// always keeps in the current layout, so nothing is owed for growth. A
    /// refused update changes nothing.
    pub fn upgrade_config(&mut self, admin: Wallet, max_resale_bps: u16, service_fee_bps: u16) -> (r:
        Result<(), LedgerError>)
        ensures
            match old(self)@.config {
                None => r == Err::<(), LedgerError>(LedgerError::NoSuchRecord) && final(self)@
                    == old(self)@,
                Some(config) => if max_resale_bps > BPS_DENOMINATOR || service_fee_bps
                    > BPS_DENOMINATOR {
                    r == Err::<(), LedgerError>(LedgerError::Rejected(PromoError::InvalidBps))
                        && final(self)@ == old(self)@
                } else if config.data.admin != admin.key {
                    r == Err::<(), LedgerError>(LedgerError::Rejected(PromoError::NotAdmin))
                        && final(self)@ == old(self)@
                } else {
                    r is Ok && final(self)@ == (LedgerView {
                        config: Some(
                            Account {
                                data: GlobalConfig {
                                    admin: config.data.admin,
                                    max_resale_bps,
                                    service_fee_bps,
                                },
                                ..config
                            },
                        ),
                        ..old(self)@
                    })
                },
            },
            extends(old(self)@, final(self)@),
            sound(old(self)@) ==> sound(final(self)@),
    {
        let (key, lamports, stored) = match &self.config {
            Some(c) => (c.key, c.lamports, c.data),
            None => { return Err(LedgerError::NoSuchRecord); },
        };
        let tag: [u8; 8] = [0u8; 8];
        let image: Vec<u8> = write_config(&tag, &stored);
        proof {
            lemma_config_round_trip(tag@, stored);
            lemma_address_by_bytes(stored.admin, admin.key);
            assert(image@.subrange(8, 40) =~= stored.admin@);
        }
        let mut ctx = UpgradeConfig { config: Account { key, lamports, data: image }, admin };
        match upgrade_config(&mut ctx, 0, max_resale_bps, service_fee_bps) {
            Ok(()) => {},
            Err(e) => { return Err(LedgerError::Rejected(e)); },
        }
        proof {
            lemma_config_round_trip(
                image@.subrange(0, 8),
                GlobalConfig { admin: admin.key, max_resale_bps, service_fee_bps },
            );
        }
        match read_config(&ctx.config.data) {
            Some(updated) => {
                self.config = Some(Account { key, lamports, data: updated });
                Ok(())
            },
            None => Err(LedgerError::NoSuchRecord),
        }
    }
}

} // verus!
