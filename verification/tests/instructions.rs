use promo_targeting::address::Address;
use promo_targeting::errors::PromoError;
use promo_targeting::instructions::{
    buy_listed_coupon, check_treasury_balance, close_campaign_vault, create_campaign,
    expire_coupon, initialize_config, list_coupon_for_sale, mint_coupon, read_config,
    redeem_coupon, transfer_coupon, upgrade_config, write_config, BuyListedCoupon,
    CheckTreasuryBalance, CloseCampaignVault, CreateCampaign, ExpireCoupon, InitializeConfig,
    ListCouponForSale, MintCoupon, RedeemCoupon, TransferCoupon, TreasuryBalance, UpgradeConfig,
};
use promo_targeting::states::{Account, Campaign, Coupon, GlobalConfig, Vault, Wallet};

fn key(tag: u8) -> Address {
    Address::new([tag; 32])
}

const MERCHANT: u8 = 3;
const OWNER: u8 = 5;
const TREASURY: u8 = 6;
const CAMPAIGN: u8 = 10;
const VAULT: u8 = 11;
const COUPON: u8 = 12;

fn campaign() -> Account<Campaign> {
    let mut data = Campaign::blank();
    data.merchant = key(MERCHANT);
    data.campaign_id = 7;
    data.discount_bps = 1000;
    data.service_fee_bps = 200;
    data.resale_bps = 5000;
    data.expiration_timestamp = 1_000;
    data.total_coupons = 3;
    data.minted_coupons = 1;
    data.mint_cost_lamports = 100;
    data.max_discount_lamports = 5000;
    data.category_code = 4;
    data.product_code = 9;
    data.campaign_name = String::from("spring");
    Account { key: key(CAMPAIGN), lamports: 0, data }
}

fn vault() -> Account<Vault> {
    Account {
        key: key(VAULT),
        lamports: 900,
        data: Vault {
            campaign: key(CAMPAIGN),
            merchant: key(MERCHANT),
            bump: 254,
            total_deposit: 1000,
            total_mint_spent: 100,
            total_service_spent: 0,
        },
    }
}

fn coupon() -> Account<Coupon> {
    Account {
        key: key(COUPON),
        lamports: 30,
        data: Coupon {
            campaign: key(CAMPAIGN),
            coupon_index: 0,
            owner: key(OWNER),
            used: false,
            listed: false,
            sale_price_lamports: 0,
        },
    }
}

fn redeem_ctx() -> RedeemCoupon {
    RedeemCoupon {
        campaign: campaign(),
        vault: vault(),
        coupon: coupon(),
        user: Wallet { key: key(OWNER), lamports: 5 },
        platform_treasury: Wallet { key: key(TREASURY), lamports: 100 },
    }
}

fn same_redeem(a: &RedeemCoupon, b: &RedeemCoupon) -> bool {
    a.campaign == b.campaign
        && a.vault == b.vault
        && a.coupon == b.coupon
        && a.user == b.user
        && a.platform_treasury == b.platform_treasury
}

fn refused_redeem(ctx: &mut RedeemCoupon, now: i64, amount: u64, product: u16) -> PromoError {
    let before = RedeemCoupon {
        campaign: ctx.campaign.clone(),
        vault: ctx.vault.clone(),
        coupon: ctx.coupon.clone(),
        user: ctx.user,
        platform_treasury: ctx.platform_treasury,
    };
    let e = redeem_coupon(ctx, now, amount, product).unwrap_err();
    assert!(same_redeem(ctx, &before));
    e
}

#[test]
fn redeem_below_the_cap_takes_the_plain_share() {
    let mut ctx = redeem_ctx();
    let event = redeem_coupon(&mut ctx, 1_000, 12_345, 9).unwrap();
    assert_eq!(event.discount_value, 1234);
    assert_eq!(event.service_fee_value, 24);
    assert_eq!(event.merchant, key(MERCHANT));
    assert_eq!(event.campaign, key(CAMPAIGN));
    assert_eq!(event.category_code, 4);
    assert_eq!(event.product_code, 9);
    assert_eq!(ctx.vault.lamports, 876);
    assert_eq!(ctx.vault.data.total_service_spent, 24);
    assert_eq!(ctx.vault.data.total_mint_spent, 100);
    assert_eq!(ctx.platform_treasury.lamports, 124);
    assert_eq!(ctx.campaign.data.used_coupons, 1);
    assert_eq!(ctx.campaign.data.minted_coupons, 1);
    assert_eq!(ctx.campaign.data.total_purchase_amount, 12_345);
    assert_eq!(ctx.campaign.data.total_discount_lamports, 1234);
    assert_eq!(ctx.campaign.data.last_redeem_timestamp, 1_000);
    assert_eq!(ctx.campaign.data.campaign_name, "spring");
    assert!(ctx.coupon.data.used && !ctx.coupon.data.listed);
    assert_eq!(ctx.coupon.lamports, 0);
    assert_eq!(ctx.user.lamports, 35);
}

#[test]
fn redeem_without_fee_leaves_the_vault_alone() {
    let mut ctx = redeem_ctx();
    ctx.vault.lamports = 0;
    let event = redeem_coupon(&mut ctx, 0, 490, 9).unwrap();
    assert_eq!(event.discount_value, 49);
    assert_eq!(event.service_fee_value, 0);
    assert_eq!(ctx.vault.lamports, 0);
    assert_eq!(ctx.vault.data.total_service_spent, 0);
    assert_eq!(ctx.platform_treasury.lamports, 100);
    assert_eq!(ctx.campaign.data.used_coupons, 1);
}

#[test]
fn redeem_rejections_come_in_order() {
    let mut ctx = redeem_ctx();
    ctx.coupon.data.campaign = key(99);
    ctx.coupon.data.owner = key(98);
    assert_eq!(refused_redeem(&mut ctx, 2_000, 1, 8), PromoError::InvalidCouponCampaign);
    ctx.coupon.data.campaign = key(CAMPAIGN);
    assert_eq!(refused_redeem(&mut ctx, 2_000, 1, 8), PromoError::NotCouponOwner);
    ctx.coupon.data.owner = key(OWNER);
    ctx.campaign.data.used_coupons = 3;
    ctx.coupon.data.used = true;
    ctx.coupon.data.listed = true;
    assert_eq!(refused_redeem(&mut ctx, 1_001, 1, 8), PromoError::CampaignExpired);
    assert_eq!(refused_redeem(&mut ctx, 1_000, 1, 8), PromoError::InvalidProductForCoupon);
    assert_eq!(refused_redeem(&mut ctx, 1_000, 1, 9), PromoError::NoCouponsLeft);
    ctx.campaign.data.used_coupons = 2;
    assert_eq!(refused_redeem(&mut ctx, 1_000, 1, 9), PromoError::CouponAlreadyUsed);
    ctx.coupon.data.used = false;
    assert_eq!(refused_redeem(&mut ctx, 1_000, 1, 9), PromoError::CouponListed);
    ctx.coupon.data.listed = false;
    assert_eq!(refused_redeem(&mut ctx, 1_000, u64::MAX, 9), PromoError::Overflow);
    ctx.vault.lamports = 99;
    assert_eq!(
        refused_redeem(&mut ctx, 1_000, 100_000, 9),
        PromoError::InsufficientVaultBalance
    );
    ctx.vault.lamports = 100;
    ctx.platform_treasury.lamports = u64::MAX - 99;
    assert_eq!(refused_redeem(&mut ctx, 1_000, 100_000, 9), PromoError::Overflow);
    ctx.platform_treasury.lamports = 0;
    ctx.vault.data.total_service_spent = u64::MAX - 99;
    assert_eq!(refused_redeem(&mut ctx, 1_000, 100_000, 9), PromoError::Overflow);
    ctx.vault.data.total_service_spent = 0;
    ctx.campaign.data.total_purchase_amount = u64::MAX - 99_999;
    assert_eq!(refused_redeem(&mut ctx, 1_000, 100_000, 9), PromoError::Overflow);
    ctx.campaign.data.total_purchase_amount = 0;
    ctx.campaign.data.total_discount_lamports = u64::MAX - 4_999;
    assert_eq!(refused_redeem(&mut ctx, 1_000, 100_000, 9), PromoError::Overflow);
    ctx.campaign.data.total_discount_lamports = 0;
    ctx.user.lamports = u64::MAX - 29;
    assert_eq!(refused_redeem(&mut ctx, 1_000, 100_000, 9), PromoError::Overflow);
    ctx.user.lamports = u64::MAX - 30;
    assert!(redeem_coupon(&mut ctx, 1_000, 100_000, 9).is_ok());
    assert_eq!(ctx.user.lamports, u64::MAX);
    assert_eq!(ctx.vault.lamports, 0);
}

#[test]
fn redeem_fee_product_can_overflow() {
    let mut ctx = redeem_ctx();
    ctx.campaign.data.max_discount_lamports = u64::MAX;
    ctx.campaign.data.discount_bps = 10_000;
    ctx.campaign.data.service_fee_bps = 10_001;
    assert_eq!(
        refused_redeem(&mut ctx, 0, u64::MAX / 10_000, 9),
        PromoError::Overflow
    );
    ctx.campaign.data.service_fee_bps = 10_000;
    assert_eq!(
        refused_redeem(&mut ctx, 0, u64::MAX / 10_000, 9),
        PromoError::InsufficientVaultBalance
    );
}

fn create_ctx() -> CreateCampaign {
    CreateCampaign {
        config: Account {
            key: key(1),
            lamports: 0,
            data: GlobalConfig { admin: key(2), max_resale_bps: 5000, service_fee_bps: 200 },
        },
        campaign: Account { key: key(CAMPAIGN), lamports: 7, data: Campaign::blank() },
        vault: Account { key: key(VAULT), lamports: 0, data: Vault::blank() },
        merchant: Wallet { key: key(MERCHANT), lamports: 10_000 },
        vault_bump: 253,
    }
}

#[derive(Clone)]
struct Terms {
    discount_bps: u16,
    resale_bps: u16,
    total_coupons: u32,
    mint_cost: u64,
    max_discount: u64,
    name: String,
    deposit: u64,
    requires_wallet: bool,
    target: Address,
}

fn terms() -> Terms {
    Terms {
        discount_bps: 1000,
        resale_bps: 5000,
        total_coupons: 1,
        mint_cost: 100,
        max_discount: 5000,
        name: String::from("spring"),
        deposit: 1000,
        requires_wallet: false,
        target: key(77),
    }
}

fn create(ctx: &mut CreateCampaign, t: &Terms) -> Result<(), PromoError> {
    create_campaign(
        ctx,
        7,
        t.discount_bps,
        t.resale_bps,
        1_000,
        t.total_coupons,
        t.mint_cost,
        t.max_discount,
        4,
        9,
        t.name.clone(),
        t.deposit,
        t.requires_wallet,
        t.target,
    )
}

fn refused_create(t: &Terms) -> PromoError {
    let mut ctx = create_ctx();
    let e = create(&mut ctx, t).unwrap_err();
    let fresh = create_ctx();
    assert_eq!(ctx.campaign, fresh.campaign);
    assert_eq!(ctx.vault, fresh.vault);
    assert_eq!(ctx.merchant, fresh.merchant);
    e
}

#[test]
fn create_campaign_fills_campaign_and_vault() {
    let mut ctx = create_ctx();
    assert_eq!(create(&mut ctx, &terms()), Ok(()));
    let c = &ctx.campaign.data;
    assert_eq!(c.merchant, key(MERCHANT));
    assert_eq!(c.campaign_id, 7);
    assert_eq!((c.discount_bps, c.service_fee_bps, c.resale_bps), (1000, 200, 5000));
    assert_eq!(c.expiration_timestamp, 1_000);
    assert_eq!((c.total_coupons, c.used_coupons, c.minted_coupons), (1, 0, 0));
    assert_eq!((c.mint_cost_lamports, c.max_discount_lamports), (100, 5000));
    assert_eq!((c.category_code, c.product_code), (4, 9));
    assert_eq!(c.campaign_name, "spring");
    assert!(!c.requires_wallet);
    assert!(c.target_wallet.is_zero());
    assert_eq!((c.total_purchase_amount, c.total_discount_lamports), (0, 0));
    assert_eq!(c.last_redeem_timestamp, 0);
    assert_eq!(ctx.campaign.lamports, 7);
    let v = &ctx.vault;
    assert_eq!(v.lamports, 1000);
    assert_eq!(v.data.campaign, key(CAMPAIGN));
    assert_eq!(v.data.merchant, key(MERCHANT));
    assert_eq!(v.data.bump, 253);
    assert_eq!(v.data.total_deposit, 1000);
    assert_eq!((v.data.total_mint_spent, v.data.total_service_spent), (0, 0));
    assert_eq!(ctx.merchant.lamports, 9_000);
}

#[test]
fn create_campaign_keeps_the_target_of_a_targeted_campaign() {
    let mut ctx = create_ctx();
    let mut t = terms();
    t.requires_wallet = true;
    assert_eq!(create(&mut ctx, &t), Ok(()));
    assert!(ctx.campaign.data.requires_wallet);
    assert_eq!(ctx.campaign.data.target_wallet, key(77));
}

#[test]
fn create_campaign_keeps_the_fee_it_was_created_with() {
    let mut ctx = create_ctx();
    assert_eq!(create(&mut ctx, &terms()), Ok(()));
    ctx.config.data.service_fee_bps = 9_000;
    assert_eq!(ctx.campaign.data.service_fee_bps, 200);
}

#[test]
fn create_campaign_rejections_come_in_order() {
    let mut t = terms();
    t.discount_bps = 10_001;
    t.resale_bps = 10_001;
    t.total_coupons = 0;
    t.mint_cost = 0;
    t.max_discount = 0;
    t.deposit = 0;
    t.requires_wallet = true;
    t.target = Address::zero();
    t.name = "x".repeat(65);
    assert_eq!(refused_create(&t), PromoError::InvalidBps);
    t.discount_bps = 10_000;
    assert_eq!(refused_create(&t), PromoError::InvalidBps);
    t.resale_bps = 10_000;
    assert_eq!(refused_create(&t), PromoError::InvalidTotalCoupons);
    t.total_coupons = 1;
    assert_eq!(refused_create(&t), PromoError::InvalidMintCost);
    t.mint_cost = 1;
    assert_eq!(refused_create(&t), PromoError::InvalidMaxDiscount);
    t.max_discount = 1;
    assert_eq!(refused_create(&t), PromoError::InvalidDepositAmount);
    t.deposit = 10_001;
    assert_eq!(refused_create(&t), PromoError::InvalidResalePrice);
    t.resale_bps = 5000;
    assert_eq!(refused_create(&t), PromoError::TargetWalletRequired);
    t.target = key(77);
    assert_eq!(refused_create(&t), PromoError::NameTooLong);
    t.name = "x".repeat(64);
    assert_eq!(refused_create(&t), PromoError::Overflow);
    t.deposit = 10_000;
    let mut ctx = create_ctx();
    assert_eq!(create(&mut ctx, &t), Ok(()));
    assert_eq!(ctx.merchant.lamports, 0);
}

#[test]
fn create_campaign_counts_name_bytes_not_characters() {
    let mut t = terms();
    t.name = "é".repeat(32);
    let mut ctx = create_ctx();
    assert_eq!(create(&mut ctx, &t), Ok(()));
    t.name = "é".repeat(33);
    assert_eq!(refused_create(&t), PromoError::NameTooLong);
}

fn mint_ctx() -> MintCoupon {
    MintCoupon {
        campaign: campaign(),
        vault: vault(),
        coupon: Account { key: key(COUPON), lamports: 30, data: Coupon::blank() },
        recipient: key(OWNER),
        platform_treasury: Wallet { key: key(TREASURY), lamports: 100 },
    }
}

fn refused_mint(ctx: &mut MintCoupon, id: u64) -> PromoError {
    let (c, v, k, t) =
        (ctx.campaign.clone(), ctx.vault.clone(), ctx.coupon.clone(), ctx.platform_treasury);
    let e = mint_coupon(ctx, id, 4).unwrap_err();
    assert!(ctx.campaign == c && ctx.vault == v && ctx.coupon == k);
    assert_eq!(ctx.platform_treasury, t);
    e
}

#[test]
fn mint_issues_an_unused_unlisted_coupon() {
    let mut ctx = mint_ctx();
    assert_eq!(mint_coupon(&mut ctx, 7, 4), Ok(()));
    assert_eq!(
        ctx.coupon.data,
        Coupon {
            campaign: key(CAMPAIGN),
            coupon_index: 4,
            owner: key(OWNER),
            used: false,
            listed: false,
            sale_price_lamports: 0,
        }
    );
    assert_eq!(ctx.coupon.lamports, 30);
    assert_eq!(ctx.campaign.data.minted_coupons, 2);
    assert_eq!(ctx.vault.lamports, 800);
    assert_eq!(ctx.vault.data.total_mint_spent, 200);
    assert_eq!(ctx.platform_treasury.lamports, 200);
}

#[test]
fn mint_rejections_come_in_order() {
    let mut ctx = mint_ctx();
    ctx.campaign.data.minted_coupons = 3;
    ctx.campaign.data.mint_cost_lamports = 0;
    ctx.campaign.data.requires_wallet = true;
    ctx.campaign.data.target_wallet = key(44);
    assert_eq!(refused_mint(&mut ctx, 8), PromoError::InvalidCampaignId);
    assert_eq!(refused_mint(&mut ctx, 7), PromoError::NoCouponsLeft);
    ctx.campaign.data.minted_coupons = 2;
    assert_eq!(refused_mint(&mut ctx, 7), PromoError::InvalidMintCost);
    ctx.campaign.data.mint_cost_lamports = 901;
    assert_eq!(refused_mint(&mut ctx, 7), PromoError::NotEligibleForCampaign);
    ctx.recipient = key(44);
    assert_eq!(refused_mint(&mut ctx, 7), PromoError::InsufficientVaultBalance);
    ctx.campaign.data.mint_cost_lamports = 900;
    ctx.platform_treasury.lamports = u64::MAX - 899;
    assert_eq!(refused_mint(&mut ctx, 7), PromoError::Overflow);
    ctx.platform_treasury.lamports = 0;
    ctx.vault.data.total_mint_spent = u64::MAX - 899;
    assert_eq!(refused_mint(&mut ctx, 7), PromoError::Overflow);
    ctx.vault.data.total_mint_spent = 100;
    assert_eq!(mint_coupon(&mut ctx, 7, 4), Ok(()));
    assert_eq!(ctx.campaign.data.minted_coupons, 3);
    assert_eq!(ctx.coupon.data.owner, key(44));
    assert_eq!(ctx.vault.lamports, 0);
}

#[test]
fn list_rejections_come_in_order() {
    let mut ctx = ListCouponForSale { campaign: campaign(), coupon: coupon(), owner: key(OWNER) };
    ctx.coupon.data.campaign = key(99);
    ctx.coupon.data.owner = key(98);
    ctx.coupon.data.used = true;
    ctx.coupon.data.listed = true;
    assert_eq!(list_coupon_for_sale(&mut ctx, 0), Err(PromoError::InvalidCouponCampaign));
    ctx.coupon.data.campaign = key(CAMPAIGN);
    assert_eq!(list_coupon_for_sale(&mut ctx, 0), Err(PromoError::NotCouponOwner));
    ctx.coupon.data.owner = key(OWNER);
    assert_eq!(list_coupon_for_sale(&mut ctx, 0), Err(PromoError::CouponAlreadyUsed));
    ctx.coupon.data.used = false;
    assert_eq!(list_coupon_for_sale(&mut ctx, 0), Err(PromoError::CouponAlreadyListed));
    ctx.coupon.data.listed = false;
    assert_eq!(list_coupon_for_sale(&mut ctx, 0), Err(PromoError::InvalidResalePrice));
    assert_eq!(list_coupon_for_sale(&mut ctx, 5001), Err(PromoError::InvalidResalePrice));
    assert_eq!(list_coupon_for_sale(&mut ctx, 2501), Err(PromoError::InvalidResalePrice));
    assert_eq!(ctx.coupon, coupon());
    assert_eq!(list_coupon_for_sale(&mut ctx, 1), Ok(()));
    assert!(ctx.coupon.data.listed);
    assert_eq!(ctx.coupon.data.sale_price_lamports, 1);
    assert_eq!(ctx.coupon.data.owner, key(OWNER));
}

fn buy_ctx() -> BuyListedCoupon {
    let mut listed = coupon();
    listed.data.listed = true;
    listed.data.sale_price_lamports = 2000;
    BuyListedCoupon {
        campaign: campaign(),
        coupon: listed,
        seller: Wallet { key: key(OWNER), lamports: 10 },
        buyer: Wallet { key: key(20), lamports: 2500 },
    }
}

#[test]
fn buy_pays_the_seller_and_clears_the_listing() {
    let mut ctx = buy_ctx();
    assert_eq!(buy_listed_coupon(&mut ctx), Ok(()));
    assert_eq!(ctx.seller.lamports, 2010);
    assert_eq!(ctx.buyer.lamports, 500);
    assert_eq!(ctx.coupon.data.owner, key(20));
    assert!(!ctx.coupon.data.listed);
    assert_eq!(ctx.coupon.data.sale_price_lamports, 0);
    assert_eq!(ctx.coupon.lamports, 30);
}

#[test]
fn buy_rejections_come_in_order() {
    let mut ctx = buy_ctx();
    ctx.coupon.data.campaign = key(99);
    ctx.coupon.data.listed = false;
    ctx.seller.key = key(21);
    ctx.buyer.key = key(21);
    assert_eq!(buy_listed_coupon(&mut ctx), Err(PromoError::InvalidCouponCampaign));
    ctx.coupon.data.campaign = key(CAMPAIGN);
    assert_eq!(buy_listed_coupon(&mut ctx), Err(PromoError::CouponNotListed));
    ctx.coupon.data.listed = true;
    assert_eq!(buy_listed_coupon(&mut ctx), Err(PromoError::NotCouponOwner));
    ctx.seller.key = key(OWNER);
    ctx.buyer.key = key(OWNER);
    assert_eq!(buy_listed_coupon(&mut ctx), Err(PromoError::InvalidBuyer));
    ctx.buyer.key = key(20);
    ctx.campaign.data.resale_bps = 3999;
    assert_eq!(buy_listed_coupon(&mut ctx), Err(PromoError::InvalidResalePrice));
    ctx.campaign.data.resale_bps = 4000;
    ctx.buyer.lamports = 1999;
    assert_eq!(buy_listed_coupon(&mut ctx), Err(PromoError::Overflow));
    ctx.buyer.lamports = 2000;
    ctx.seller.lamports = u64::MAX - 1999;
    assert_eq!(buy_listed_coupon(&mut ctx), Err(PromoError::Overflow));
    assert!(ctx.coupon.data.listed);
    assert_eq!(ctx.coupon.data.owner, key(OWNER));
    ctx.seller.lamports = u64::MAX - 2000;
    assert_eq!(buy_listed_coupon(&mut ctx), Ok(()));
    assert_eq!(ctx.seller.lamports, u64::MAX);
    assert_eq!(ctx.buyer.lamports, 0);
}

#[test]
fn buy_checks_the_price_against_the_terms_as_they_stand() {
    let mut ctx = buy_ctx();
    ctx.campaign.data.max_discount_lamports = 1999;
    assert_eq!(buy_listed_coupon(&mut ctx), Err(PromoError::InvalidResalePrice));
    ctx.coupon.data.sale_price_lamports = 0;
    assert_eq!(buy_listed_coupon(&mut ctx), Err(PromoError::InvalidResalePrice));
}

#[test]
fn transfer_changes_the_owner_and_clears_any_listing() {
    let mut listed = coupon();
    listed.data.listed = true;
    listed.data.sale_price_lamports = 2000;
    listed.data.used = true;
    let mut ctx =
        TransferCoupon { coupon: listed, current_owner: key(OWNER), new_owner: key(20) };
    assert_eq!(transfer_coupon(&mut ctx), Ok(()));
    assert_eq!(ctx.coupon.data.owner, key(20));
    assert!(!ctx.coupon.data.listed);
    assert_eq!(ctx.coupon.data.sale_price_lamports, 0);
    assert!(ctx.coupon.data.used);
    assert_eq!(transfer_coupon(&mut ctx), Err(PromoError::NotCouponOwner));
    assert_eq!(ctx.coupon.data.owner, key(20));
}

#[test]
fn close_vault_sweeps_the_balance_to_the_merchant() {
    let mut ctx = CloseCampaignVault {
        campaign: campaign(),
        vault: vault(),
        merchant: Wallet { key: key(MERCHANT), lamports: 50 },
    };
    assert_eq!(close_campaign_vault(&mut ctx, 1_000), Err(PromoError::CampaignNotExpired));
    assert_eq!(ctx.vault, vault());
    assert_eq!(close_campaign_vault(&mut ctx, 1_001), Ok(()));
    assert_eq!(ctx.vault.lamports, 0);
    assert_eq!(ctx.merchant.lamports, 950);
    assert_eq!(ctx.campaign, campaign());
}

#[test]
fn close_vault_rejections_come_in_order() {
    let mut ctx = CloseCampaignVault {
        campaign: campaign(),
        vault: vault(),
        merchant: Wallet { key: key(40), lamports: u64::MAX },
    };
    assert_eq!(close_campaign_vault(&mut ctx, 0), Err(PromoError::NotMerchant));
    ctx.merchant.key = key(MERCHANT);
    assert_eq!(close_campaign_vault(&mut ctx, 0), Err(PromoError::CampaignNotExpired));
    assert_eq!(close_campaign_vault(&mut ctx, 5_000), Err(PromoError::Overflow));
    assert_eq!(ctx.vault.lamports, 900);
    assert_eq!(ctx.merchant.lamports, u64::MAX);
}

#[test]
fn expire_rejections_come_in_order() {
    let mut ctx = ExpireCoupon {
        campaign: campaign(),
        coupon: coupon(),
        merchant: Wallet { key: key(40), lamports: u64::MAX },
    };
    ctx.coupon.data.campaign = key(99);
    ctx.coupon.data.listed = true;
    assert_eq!(expire_coupon(&mut ctx, 0), Err(PromoError::NotMerchant));
    ctx.merchant.key = key(MERCHANT);
    assert_eq!(expire_coupon(&mut ctx, 0), Err(PromoError::InvalidCouponCampaign));
    ctx.coupon.data.campaign = key(CAMPAIGN);
    assert_eq!(expire_coupon(&mut ctx, 0), Err(PromoError::CampaignNotExpired));
    assert_eq!(expire_coupon(&mut ctx, 1_001), Err(PromoError::CouponListed));
    ctx.coupon.data.listed = false;
    assert_eq!(expire_coupon(&mut ctx, 1_001), Err(PromoError::Overflow));
    ctx.merchant.lamports = 1;
    ctx.coupon.data.used = true;
    assert_eq!(expire_coupon(&mut ctx, 1_001), Ok(()));
    assert_eq!(ctx.merchant.lamports, 31);
    assert_eq!(ctx.coupon.lamports, 0);
}

#[test]
fn treasury_balance_is_reported_to_the_admin_only() {
    let mut ctx = CheckTreasuryBalance {
        config: create_ctx().config,
        admin: key(2),
        platform_treasury: Wallet { key: key(TREASURY), lamports: 4242 },
    };
    assert_eq!(
        check_treasury_balance(&ctx),
        Ok(TreasuryBalance { platform_treasury: key(TREASURY), lamports: 4242 })
    );
    ctx.admin = key(3);
    assert_eq!(check_treasury_balance(&ctx), Err(PromoError::NotAdmin));
}

#[test]
fn initialize_config_validates_both_bounds() {
    let mut ctx = InitializeConfig {
        config: Account { key: key(1), lamports: 9, data: GlobalConfig::blank() },
        admin: key(2),
    };
    assert_eq!(initialize_config(&mut ctx, 10_001, 0), Err(PromoError::InvalidBps));
    assert_eq!(initialize_config(&mut ctx, 0, 10_001), Err(PromoError::InvalidBps));
    assert_eq!(ctx.config.data, GlobalConfig::blank());
    assert_eq!(initialize_config(&mut ctx, 10_000, 10_000), Ok(()));
    assert_eq!(
        ctx.config.data,
        GlobalConfig { admin: key(2), max_resale_bps: 10_000, service_fee_bps: 10_000 }
    );
    assert_eq!(ctx.config.lamports, 9);
}

fn stored(len: usize) -> Vec<u8> {
    let mut data = vec![0xAAu8; len];
    for (i, b) in data.iter_mut().enumerate().take(8) {
        *b = i as u8 + 1;
    }
    for b in data.iter_mut().skip(8).take(32) {
        *b = 2;
    }
    data
}

fn expected_image(max_resale_bps: u16, service_fee_bps: u16) -> Vec<u8> {
    let mut data = vec![1u8, 2, 3, 4, 5, 6, 7, 8];
    data.extend_from_slice(&[2u8; 32]);
    data.extend_from_slice(&max_resale_bps.to_le_bytes());
    data.extend_from_slice(&service_fee_bps.to_le_bytes());
    data
}

fn upgrade_ctx(len: usize, lamports: u64) -> UpgradeConfig {
    UpgradeConfig {
        config: Account { key: key(1), lamports, data: stored(len) },
        admin: Wallet { key: key(2), lamports: 1_000 },
    }
}

#[test]
fn upgrade_rewrites_a_record_of_the_current_size() {
    let mut ctx = upgrade_ctx(44, 10);
    assert_eq!(upgrade_config(&mut ctx, 500, 5000, 258), Ok(()));
    assert_eq!(ctx.config.data, expected_image(5000, 258));
    assert_eq!(ctx.config.data[40..], [0x88, 0x13, 0x02, 0x01]);
    assert_eq!(ctx.config.lamports, 10);
    assert_eq!(ctx.admin.lamports, 1_000);
}

#[test]
fn upgrade_grows_a_legacy_record_and_tops_it_up() {
    let mut ctx = upgrade_ctx(42, 100);
    assert_eq!(upgrade_config(&mut ctx, 500, 300, 200), Ok(()));
    assert_eq!(ctx.config.data, expected_image(300, 200));
    assert_eq!(ctx.config.data.len(), 44);
    assert_eq!(ctx.config.lamports, 500);
    assert_eq!(ctx.admin.lamports, 600);
}

#[test]
fn upgrade_shrinks_an_overlong_record_without_refund() {
    let mut ctx = upgrade_ctx(60, 900);
    assert_eq!(upgrade_config(&mut ctx, 500, 1, 2), Ok(()));
    assert_eq!(ctx.config.data, expected_image(1, 2));
    assert_eq!(ctx.config.lamports, 900);
    assert_eq!(ctx.admin.lamports, 1_000);
}

#[test]
fn upgrade_accepts_a_record_that_holds_just_the_admin() {
    let mut ctx = upgrade_ctx(40, 0);
    assert_eq!(upgrade_config(&mut ctx, 1_000, 7, 8), Ok(()));
    assert_eq!(ctx.config.data, expected_image(7, 8));
    assert_eq!(ctx.config.lamports, 1_000);
    assert_eq!(ctx.admin.lamports, 0);
}

#[test]
fn upgrade_rejections_come_in_order() {
    let mut ctx = upgrade_ctx(39, 0);
    ctx.admin.key = key(9);
    assert_eq!(upgrade_config(&mut ctx, 0, 10_001, 0), Err(PromoError::InvalidBps));
    assert_eq!(upgrade_config(&mut ctx, 0, 0, 10_001), Err(PromoError::InvalidBps));
    assert_eq!(upgrade_config(&mut ctx, 0, 0, 0), Err(PromoError::InvalidConfigAccount));
    assert_eq!(ctx.config.data, stored(39));
    let mut ctx = upgrade_ctx(42, 0);
    ctx.admin.key = key(9);
    assert_eq!(upgrade_config(&mut ctx, 1_001, 0, 0), Err(PromoError::NotAdmin));
    ctx.admin.key = key(2);
    assert_eq!(upgrade_config(&mut ctx, 1_001, 0, 0), Err(PromoError::Overflow));
    assert_eq!(ctx.config.data, stored(42));
    assert_eq!(ctx.config.lamports, 0);
    assert_eq!(ctx.admin.lamports, 1_000);
}

#[test]
fn stored_config_reads_back_as_written() {
    let config = GlobalConfig { admin: key(2), max_resale_bps: 5000, service_fee_bps: 258 };
    let image = write_config(&[1u8, 2, 3, 4, 5, 6, 7, 8], &config);
    assert_eq!(image, expected_image(5000, 258));
    assert_eq!(read_config(&image), Some(config));
    assert_eq!(read_config(&stored(43)), None);
    assert_eq!(read_config(&stored(45)), None);
    let max = GlobalConfig { admin: key(2), max_resale_bps: 65_535, service_fee_bps: 255 };
    assert_eq!(read_config(&write_config(&[0u8; 8], &max)), Some(max));
}
