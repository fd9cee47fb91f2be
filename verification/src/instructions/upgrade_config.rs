//! Updating the protocol policy, whatever layout it is stored in.

use vstd::prelude::*;
use crate::address::{address_of, lemma_address_by_bytes, Address};
use crate::errors::PromoError;
use crate::states::{Account, GlobalConfig, Wallet, BPS_DENOMINATOR};
use crate::utils::transfer_between_wallets;

verus! {

/// Bytes of the tag that precedes every stored record.
pub const DISCRIMINATOR_LEN: usize = 8;

/// Bytes of a stored policy record in the current layout, tag included.
pub const CONFIG_ACCOUNT_LEN: usize = 8 + 32 + 2 + 2;

/// Bytes of the shortest stored policy record an admin can be read from:
/// the tag and the admin's identifier.
pub const ADMIN_PREFIX_LEN: usize = 8 + 32;

/// The accounts an update of the policy touches.
pub struct UpgradeConfig {
    /// The policy account with its stored bytes, in whatever layout.
    pub config: Account<Vec<u8>>,
    /// The caller, who must be the stored admin and pays for any growth of
    /// the record.
    pub admin: Wallet,
}

/// A 16-bit value as it is stored: low byte first.
pub open spec fn u16_le(x: u16) -> Seq<u8> {
    seq![(x % 256) as u8, (x / 256) as u8]
}

/// The stored bytes of a policy record in the current layout, after `tag`.
pub open spec fn config_image(tag: Seq<u8>, config: GlobalConfig) -> Seq<u8> {
    tag + config.admin@ + u16_le(config.max_resale_bps) + u16_le(config.service_fee_bps)
}

/// What the caller has to add to the policy account so that it holds the
/// minimum a record of the current size must hold. Nothing is owed while
/// the record already has that size.
pub open spec fn top_up(ctx: UpgradeConfig, min_balance: u64) -> int {
    if ctx.config.data@.len() != CONFIG_ACCOUNT_LEN && ctx.config.lamports < min_balance {
        min_balance - ctx.config.lamports
    } else {
        0
    }
}

/// Why an update of the policy is refused, if it is: the first condition
/// that fails.
pub open spec fn upgrade_rejection(
    ctx: UpgradeConfig,
    min_balance: u64,
    max_resale_bps: u16,
    service_fee_bps: u16,
) -> Option<PromoError> {
    if max_resale_bps > BPS_DENOMINATOR || service_fee_bps > BPS_DENOMINATOR {
        Some(PromoError::InvalidBps)
    } else if ctx.config.data@.len() < ADMIN_PREFIX_LEN {
        Some(PromoError::InvalidConfigAccount)
    } else if ctx.config.data@.subrange(8, 40) != ctx.admin.key@ {
        Some(PromoError::NotAdmin)
    } else if ctx.admin.lamports < top_up(ctx, min_balance) {
        Some(PromoError::Overflow)
    } else {
        None
    }
}

/// Reads the admin out of a stored policy record.
fn stored_admin(data: &Vec<u8>) -> (r: Address)
    requires
        data@.len() >= ADMIN_PREFIX_LEN,
    ensures
        r@ == data@.subrange(8, 40),
{
    let mut bytes: [u8; 32] = [0u8; 32];
    let mut i: usize = 0;
    while i < 32
        invariant
            i <= 32,
            data@.len() >= 40,
            forall|j: int| 0 <= j < i ==> bytes@[j] == data@[8 + j],
        decreases 32 - i,
    {
        bytes[i] = data[8 + i];
        i += 1;
    }
    let r = Address::new(bytes);
    assert(r@ =~= data@.subrange(8, 40));
    r
}

/// The 16-bit value stored as `bytes`, low byte first.
pub open spec fn u16_from_le(bytes: Seq<u8>) -> u16 {
    (bytes[0] + bytes[1] * 256) as u16
}

/// The policy that `data` stores in the current layout.
pub open spec fn stored_config(data: Seq<u8>) -> GlobalConfig {
    GlobalConfig {
        admin: address_of(data.subrange(8, 40)),
        max_resale_bps: u16_from_le(data.subrange(40, 42)),
        service_fee_bps: u16_from_le(data.subrange(42, 44)),
    }
}

/// What is read back from a stored policy is the policy that was written.
pub proof fn lemma_config_round_trip(tag: Seq<u8>, config: GlobalConfig)
    requires
        tag.len() == DISCRIMINATOR_LEN,
    ensures
        config_image(tag, config).len() == CONFIG_ACCOUNT_LEN,
        config_image(tag, config).subrange(0, 8) == tag,
        stored_config(config_image(tag, config)) == config,
{
    let data = config_image(tag, config);
    assert(data.subrange(0, 8) =~= tag);
    assert(data.subrange(8, 40) =~= config.admin@);
    assert(data.subrange(40, 42) =~= u16_le(config.max_resale_bps));
    assert(data.subrange(42, 44) =~= u16_le(config.service_fee_bps));
    lemma_address_by_bytes(address_of(config.admin@), config.admin);
}

/// Reads the policy out of a record stored in the current layout, or
/// nothing where the record does not have that layout's size.
pub fn read_config(data: &Vec<u8>) -> (r: Option<GlobalConfig>)
    ensures
        data@.len() != CONFIG_ACCOUNT_LEN ==> r is None,
        data@.len() == CONFIG_ACCOUNT_LEN ==> r == Some(stored_config(data@)),
{
    if data.len() != CONFIG_ACCOUNT_LEN {
        return None;
    }
    let admin: Address = stored_admin(data);
    let max_resale_bps: u16 = data[40] as u16 + (data[41] as u16) * 256;
    let service_fee_bps: u16 = data[42] as u16 + (data[43] as u16) * 256;
    proof {
        lemma_address_by_bytes(admin, address_of(data@.subrange(8, 40)));
    }
    Some(GlobalConfig { admin, max_resale_bps, service_fee_bps })
}

/// Reads the tag out of a stored record.
fn stored_tag(data: &Vec<u8>) -> (r: [u8; 8])
    requires
        data@.len() >= DISCRIMINATOR_LEN,
    ensures
        r@ == data@.subrange(0, 8),
{
    let mut tag: [u8; 8] = [0u8; 8];
    let mut i: usize = 0;
    while i < 8
        invariant
            i <= 8,
            data@.len() >= 8,
            forall|j: int| 0 <= j < i ==> tag@[j] == data@[j],
        decreases 8 - i,
    {
        tag[i] = data[i];
        i += 1;
    }
    assert(tag@ =~= data@.subrange(0, 8));
    tag
}

/// Writes a policy record in the current layout after `tag`.
pub fn write_config(tag: &[u8; 8], config: &GlobalConfig) -> (r: Vec<u8>)
    ensures
        r@ == config_image(tag@, *config),
        r@.len() == CONFIG_ACCOUNT_LEN,
{
    let mut out: Vec<u8> = Vec::new();
    let mut i: usize = 0;
    while i < 8
        invariant
            i <= 8,
            out@ == tag@.subrange(0, i as int),
        decreases 8 - i,
    {
        out.push(tag[i]);
        assert(out@ =~= tag@.subrange(0, i + 1));
        i += 1;
    }
    assert(tag@.subrange(0, 8) =~= tag@);
    let mut k: usize = 0;
    while k < 32
        invariant
            k <= 32,
            out@ == tag@ + config.admin@.subrange(0, k as int),
        decreases 32 - k,
    {
        out.push(config.admin.bytes[k]);
        assert(out@ =~= tag@ + config.admin@.subrange(0, k + 1));
        k += 1;
    }
    assert(config.admin@.subrange(0, 32) =~= config.admin@);
    out.push((config.max_resale_bps % 256) as u8);
    out.push((config.max_resale_bps / 256) as u8);
    out.push((config.service_fee_bps % 256) as u8);
    out.push((config.service_fee_bps / 256) as u8);
    assert(out@ =~= config_image(tag@, *config));
    out
}

/// Sets the two bounds of the policy and brings its stored record to the
/// current layout.
///
/// The admin is read from the stored bytes, so a record written in an
/// earlier, shorter layout is accepted. Where the record does not have the
/// current size, the caller first tops its account up to `min_balance`, the
/// least a record of the current size must hold. The record is then
/// rewritten in full after its tag. A refused update changes nothing.
pub fn upgrade_config(
    ctx: &mut UpgradeConfig,
    min_balance: u64,
    max_resale_bps: u16,
    service_fee_bps: u16,
) -> (r: Result<(), PromoError>)
    ensures
        match upgrade_rejection(*old(ctx), min_balance, max_resale_bps, service_fee_bps) {
            Some(e) => r == Err::<(), PromoError>(e) && *final(ctx) == *old(ctx),
            None => {
                &&& r is Ok
                &&& final(ctx).config.key == old(ctx).config.key
                &&& final(ctx).admin.key == old(ctx).admin.key
                &&& final(ctx).config.data@ == config_image(
                    old(ctx).config.data@.subrange(0, 8),
                    GlobalConfig { admin: old(ctx).admin.key, max_resale_bps, service_fee_bps },
                )
                &&& final(ctx).config.lamports == old(ctx).config.lamports + top_up(
                    *old(ctx),
                    min_balance,
                )
                &&& final(ctx).admin.lamports == old(ctx).admin.lamports - top_up(
                    *old(ctx),
                    min_balance,
                )
            },
        },
        r is Ok ==> final(ctx).config.data@.len() == CONFIG_ACCOUNT_LEN,
{
    if max_resale_bps as u64 > BPS_DENOMINATOR {
        return Err(PromoError::InvalidBps);
    }
    if service_fee_bps as u64 > BPS_DENOMINATOR {
        return Err(PromoError::InvalidBps);
    }
    if ctx.config.data.len() < ADMIN_PREFIX_LEN {
        return Err(PromoError::InvalidConfigAccount);
    }
    let existing_admin: Address = stored_admin(&ctx.config.data);
    proof {
        lemma_address_by_bytes(existing_admin, ctx.admin.key);
    }
    if !existing_admin.same(&ctx.admin.key) {
        return Err(PromoError::NotAdmin);
    }
    let mut admin_lamports: u64 = ctx.admin.lamports;
    let mut config_lamports: u64 = ctx.config.lamports;
    if ctx.config.data.len() != CONFIG_ACCOUNT_LEN && config_lamports < min_balance {
        let diff: u64 = min_balance - config_lamports;
        match transfer_between_wallets(&mut admin_lamports, &mut config_lamports, diff) {
            Ok(()) => {},
            Err(e) => { return Err(e); },
        }
    }
    let updated = GlobalConfig { admin: existing_admin, max_resale_bps, service_fee_bps };
    let tag: [u8; 8] = stored_tag(&ctx.config.data);
    let data: Vec<u8> = write_config(&tag, &updated);
    ctx.config.data = data;
    ctx.config.lamports = config_lamports;
    ctx.admin.lamports = admin_lamports;
    Ok(())
}

} // verus!
