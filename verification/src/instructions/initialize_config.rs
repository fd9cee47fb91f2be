//! Setting up the protocol policy.

use vstd::prelude::*;
use crate::address::Address;
use crate::errors::PromoError;
use crate::states::{Account, GlobalConfig, BPS_DENOMINATOR};

verus! {

/// The accounts the setting up of the policy touches.
pub struct InitializeConfig {
    /// The fresh account that receives the policy record.
    pub config: Account<GlobalConfig>,
    /// The caller, who becomes the admin.
    pub admin: Address,
}

/// Sets up the protocol policy with the caller as its admin.
///
/// Both bounds must be at most 10,000 basis points. A refused call changes
/// nothing.
pub fn initialize_config(ctx: &mut InitializeConfig, max_resale_bps: u16, service_fee_bps: u16) -> (r:
    Result<(), PromoError>)
    ensures
        max_resale_bps > BPS_DENOMINATOR || service_fee_bps > BPS_DENOMINATOR ==> r == Err::<
            (),
            PromoError,
        >(PromoError::InvalidBps) && *final(ctx) == *old(ctx),
        max_resale_bps <= BPS_DENOMINATOR && service_fee_bps <= BPS_DENOMINATOR ==> r is Ok
            && *final(ctx) == (InitializeConfig {
            config: Account {
                data: GlobalConfig { admin: old(ctx).admin, max_resale_bps, service_fee_bps },
                ..old(ctx).config
            },
            ..*old(ctx)
        }),
        r is Ok ==> final(ctx).config.data.wf(),
{
    if max_resale_bps as u64 > BPS_DENOMINATOR {
        return Err(PromoError::InvalidBps);
    }
    if service_fee_bps as u64 > BPS_DENOMINATOR {
        return Err(PromoError::InvalidBps);
    }
    ctx.config.data = GlobalConfig { admin: ctx.admin, max_resale_bps, service_fee_bps };
    Ok(())
}

} // verus!
