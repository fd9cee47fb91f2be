//! Reasons for which an operation is rejected.

use vstd::prelude::*;

verus! {

/// Why an operation was rejected. A rejected operation changes nothing.
#[derive(Clone, Copy, Debug, PartialEq, Eq, Structural)]
pub enum PromoError {
    /// The campaign is in no state for the operation. No operation of the
    /// engine gives this reason; it keeps its place among the reasons.
    InvalidCampaignState,
    /// The coupon is in no state for the operation. No operation of the
    /// engine gives this reason; it keeps its place among the reasons.
    InvalidCouponState,
    /// The coupon has already been redeemed.
    CouponAlreadyUsed,
    /// The coupon does not belong to the campaign it was presented with.
    InvalidCouponCampaign,
    /// The caller does not own the coupon.
    NotCouponOwner,
    /// The campaign id given does not match the campaign record.
    InvalidCampaignId,
    /// The vault holds less than the amount to be paid out of it.
    InsufficientVaultBalance,
    /// The caller is not the campaign's merchant.
    NotMerchant,
    /// The campaign's expiration time has not passed yet.
    CampaignNotExpired,
    /// The caller is not the protocol admin.
    NotAdmin,
    /// The stored policy record is too short to hold an admin.
    InvalidConfigAccount,
    /// The coupon is listed for sale.
    CouponListed,
    /// The coupon is already listed for sale.
    CouponAlreadyListed,
    /// The coupon is not listed for sale.
    CouponNotListed,
    /// The resale price or resale share is outside its bounds.
    InvalidResalePrice,
    /// The buyer is the seller.
    InvalidBuyer,
    /// A targeted campaign was given no target wallet.
    TargetWalletRequired,
    /// The recipient is not the wallet a targeted campaign is meant for.
    NotEligibleForCampaign,
    /// The product does not match the campaign's product.
    InvalidProductForCoupon,
    /// A basis-point value exceeds 10,000.
    InvalidBps,
    /// A balance or counter would leave the range of its type.
    Overflow,
    /// The campaign would have no coupons.
    InvalidTotalCoupons,
    /// The mint cost is zero.
    InvalidMintCost,
    /// The maximum discount is zero.
    InvalidMaxDiscount,
    /// The deposit is zero.
    InvalidDepositAmount,
    /// The campaign name is longer than 64 bytes.
    NameTooLong,
    /// Every coupon of the campaign has been issued or used.
    NoCouponsLeft,
    /// The campaign's expiration time has passed.
    CampaignExpired,
}

} // verus!
