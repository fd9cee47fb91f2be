//! The operations of the engine, one module each.

pub mod buy_listed_coupon;
pub mod check_treasury_balance;
pub mod close_campaign_vault;
pub mod create_campaign;
pub mod expire_coupon;
pub mod initialize_config;
pub mod list_coupon_for_sale;
pub mod mint_coupon;
pub mod redeem_coupon;
pub mod transfer_coupon;
pub mod upgrade_config;

pub use buy_listed_coupon::{buy_listed_coupon, BuyListedCoupon};
pub use check_treasury_balance::{check_treasury_balance, CheckTreasuryBalance, TreasuryBalance};
pub use close_campaign_vault::{close_campaign_vault, CloseCampaignVault};
pub use create_campaign::{create_campaign, CreateCampaign};
pub use expire_coupon::{expire_coupon, ExpireCoupon};
pub use initialize_config::{initialize_config, InitializeConfig};
pub use list_coupon_for_sale::{list_coupon_for_sale, ListCouponForSale};
pub use mint_coupon::{mint_coupon, MintCoupon};
pub use redeem_coupon::{redeem_coupon, CouponRedeemed, RedeemCoupon};
pub use transfer_coupon::{transfer_coupon, TransferCoupon};
pub use upgrade_config::{read_config, upgrade_config, write_config, UpgradeConfig};
