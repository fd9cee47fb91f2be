use promo_targeting::address::Address;
use promo_targeting::errors::PromoError;
use promo_targeting::states::{Campaign, Coupon, GlobalConfig, Vault};
use promo_targeting::utils::{
    checked_bps_share, sweep_lamports, transfer_between_wallets, transfer_lamports,
};

#[test]
fn bps_share_rounds_down() {
    assert_eq!(checked_bps_share(100_000, 1000), Ok(10_000));
    assert_eq!(checked_bps_share(5000, 200), Ok(100));
    assert_eq!(checked_bps_share(9_999, 1), Ok(0));
    assert_eq!(checked_bps_share(10_000, 1), Ok(1));
    assert_eq!(checked_bps_share(19_999, 1), Ok(1));
    assert_eq!(checked_bps_share(12_345, 10_000), Ok(12_345));
    assert_eq!(checked_bps_share(0, 65_535), Ok(0));
    assert_eq!(checked_bps_share(77, 0), Ok(0));
}

#[test]
fn bps_share_overflows_where_the_product_leaves_64_bits() {
    assert_eq!(checked_bps_share(u64::MAX, 2), Err(PromoError::Overflow));
    assert_eq!(checked_bps_share(u64::MAX, 1), Ok(u64::MAX / 10_000));
    assert_eq!(checked_bps_share(u64::MAX / 10_000, 10_000), Ok(u64::MAX / 10_000));
    assert_eq!(checked_bps_share(u64::MAX / 10_000 + 1, 10_000), Err(PromoError::Overflow));
}

#[test]
fn custody_transfer_moves_the_amount() {
    let mut from = 1000u64;
    let mut to = 5u64;
    assert_eq!(transfer_lamports(&mut from, &mut to, 400), Ok(()));
    assert_eq!((from, to), (600, 405));
    assert_eq!(transfer_lamports(&mut from, &mut to, 600), Ok(()));
    assert_eq!((from, to), (0, 1005));
    assert_eq!(transfer_lamports(&mut from, &mut to, 0), Ok(()));
    assert_eq!((from, to), (0, 1005));
}

#[test]
fn custody_transfer_refuses_more_than_the_source_holds() {
    let mut from = 99u64;
    let mut to = 5u64;
    assert_eq!(
        transfer_lamports(&mut from, &mut to, 100),
        Err(PromoError::InsufficientVaultBalance)
    );
    assert_eq!((from, to), (99, 5));
}

#[test]
fn custody_transfer_refuses_to_overflow_the_target() {
    let mut from = 10u64;
    let mut to = u64::MAX - 5;
    assert_eq!(transfer_lamports(&mut from, &mut to, 6), Err(PromoError::Overflow));
    assert_eq!((from, to), (10, u64::MAX - 5));
    assert_eq!(transfer_lamports(&mut from, &mut to, 5), Ok(()));
    assert_eq!((from, to), (5, u64::MAX));
}

#[test]
fn custody_transfer_reports_the_short_source_before_the_full_target() {
    let mut from = 1u64;
    let mut to = u64::MAX;
    assert_eq!(
        transfer_lamports(&mut from, &mut to, 2),
        Err(PromoError::InsufficientVaultBalance)
    );
}

#[test]
fn wallet_transfer_is_checked_on_both_sides() {
    let mut from = 50u64;
    let mut to = 1u64;
    assert_eq!(transfer_between_wallets(&mut from, &mut to, 51), Err(PromoError::Overflow));
    assert_eq!((from, to), (50, 1));
    assert_eq!(transfer_between_wallets(&mut from, &mut to, 50), Ok(()));
    assert_eq!((from, to), (0, 51));
    let mut rich = u64::MAX;
    let mut payer = 10u64;
    assert_eq!(transfer_between_wallets(&mut payer, &mut rich, 1), Err(PromoError::Overflow));
    assert_eq!((payer, rich), (10, u64::MAX));
}

#[test]
fn sweep_empties_the_source() {
    let mut from = 30u64;
    let mut to = 12u64;
    assert_eq!(sweep_lamports(&mut from, &mut to), Ok(()));
    assert_eq!((from, to), (0, 42));
    let mut from = 2u64;
    let mut to = u64::MAX - 1;
    assert_eq!(sweep_lamports(&mut from, &mut to), Err(PromoError::Overflow));
    assert_eq!((from, to), (2, u64::MAX - 1));
}

#[test]
fn addresses_compare_by_their_bytes() {
    let a = Address::new([1u8; 32]);
    let mut other = [1u8; 32];
    other[31] = 2;
    let b = Address::new(other);
    assert!(a.same(&Address::new([1u8; 32])));
    assert!(!a.same(&b));
    assert!(Address::zero().is_zero());
    assert!(!a.is_zero());
    assert_eq!(Address::zero(), Address::new([0u8; 32]));
    assert_eq!(a.bytes, [1u8; 32]);
}

#[test]
fn record_sizes_match_the_stored_layouts() {
    assert_eq!(GlobalConfig::SIZE, 36);
    assert_eq!(Campaign::SIZE, 211);
    assert_eq!(Campaign::MAX_NAME_LEN, 64);
    assert_eq!(Vault::SIZE, 89);
    assert_eq!(Coupon::SIZE, 82);
}

#[test]
fn blank_records_are_all_zero() {
    let c = Campaign::blank();
    assert_eq!(c.total_coupons, 0);
    assert_eq!(c.campaign_name, "");
    assert!(!c.requires_wallet);
    assert!(c.target_wallet.is_zero());
    let v = Vault::blank();
    assert_eq!((v.total_deposit, v.total_mint_spent, v.total_service_spent), (0, 0, 0));
    let k = Coupon::blank();
    assert!(!k.used && !k.listed);
    assert_eq!(k.sale_price_lamports, 0);
    let g = GlobalConfig::blank();
    assert_eq!((g.max_resale_bps, g.service_fee_bps), (0, 0));
    assert!(g.admin.is_zero());
}

#[test]
fn resale_price_is_bounded_by_cap_and_maximum() {
    let mut c = Campaign::blank();
    c.max_discount_lamports = 5000;
    c.resale_bps = 5000;
    assert_eq!(c.check_resale_price(0), Err(PromoError::InvalidResalePrice));
    assert_eq!(c.check_resale_price(1), Ok(()));
    assert_eq!(c.check_resale_price(2500), Ok(()));
    assert_eq!(c.check_resale_price(2501), Err(PromoError::InvalidResalePrice));
    assert_eq!(c.check_resale_price(5001), Err(PromoError::InvalidResalePrice));
    c.resale_bps = 20_000;
    assert_eq!(c.check_resale_price(5000), Ok(()));
    assert_eq!(c.check_resale_price(5001), Err(PromoError::InvalidResalePrice));
    c.resale_bps = 0;
    assert_eq!(c.check_resale_price(1), Err(PromoError::InvalidResalePrice));
    c.max_discount_lamports = u64::MAX;
    c.resale_bps = 2;
    assert_eq!(c.check_resale_price(1), Err(PromoError::Overflow));
    assert_eq!(c.check_resale_price(0), Err(PromoError::InvalidResalePrice));
}
