//! Reporting what the treasury holds.

use vstd::prelude::*;
use crate::address::Address;
use crate::errors::PromoError;
use crate::states::{Account, GlobalConfig, Wallet};

verus! {

/// The accounts a balance report reads.
pub struct CheckTreasuryBalance {
    /// The protocol policy, which names the admin.
    pub config: Account<GlobalConfig>,
    /// The caller, who must be the admin.
    pub admin: Address,
    /// The account whose balance is reported.
    pub platform_treasury: Wallet,
}

/// Report of an account's balance, for observers. It is not ledger state.
#[derive(Clone, Copy, Debug, PartialEq, Eq)]
pub struct TreasuryBalance {
    pub platform_treasury: Address,
    pub lamports: u64,
}

/// Reports the treasury's balance to the admin. Nothing is changed.
pub fn check_treasury_balance(ctx: &CheckTreasuryBalance) -> (r: Result<
    TreasuryBalance,
    PromoError,
>)
    ensures
        ctx.config.data.admin != ctx.admin ==> r == Err::<TreasuryBalance, PromoError>(
            PromoError::NotAdmin,
        ),
        ctx.config.data.admin == ctx.admin ==> r == Ok::<TreasuryBalance, PromoError>(
            TreasuryBalance {
                platform_treasury: ctx.platform_treasury.key,
                lamports: ctx.platform_treasury.lamports,
            },
        ),
{
    if !ctx.config.data.admin.same(&ctx.admin) {
        return Err(PromoError::NotAdmin);
    }
    Ok(
        TreasuryBalance {
            platform_treasury: ctx.platform_treasury.key,
            lamports: ctx.platform_treasury.lamports,
        },
    )
}

} // verus!
