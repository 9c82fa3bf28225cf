//! Changes of the exchange's configuration.
use vstd::prelude::*;

use crate::account::{AccountInfo, Context};
use crate::address::Address;
use crate::error::{DexError, ProgramError};
use crate::native_dex::constants::DexParams;
use crate::native_dex::events::DexConfigUpdated;
use crate::native_dex::state::DexConfig;

verus! {

/// The accounts of a configuration change.
pub struct UpdateDexConfig {
    pub authority: AccountInfo,
    pub dex_config: AccountInfo,
}

/// What a configuration change does, or why it is refused. The pause authority and the fee
/// account stay as they are.
pub open spec fn update_config_result(
    params: DexParams,
    config: DexConfig,
    base_fee_bps: u16,
    lp_fee_share_bps: u16,
    rebalancer: Address,
    is_active: bool,
    now: i64,
) -> Result<(DexConfig, DexConfigUpdated), ProgramError> {
    if base_fee_bps > params.max_fee_bps {
        Err(ProgramError::Dex(DexError::InvalidFee))
    } else if lp_fee_share_bps > 10_000 {
        Err(ProgramError::Dex(DexError::InvalidFeeShare))
    } else {
        Ok(
            (
                DexConfig { base_fee_bps, lp_fee_share_bps, rebalancer, is_active, ..config },
                DexConfigUpdated {
                    base_fee_bps,
                    lp_fee_share_bps,
                    rebalancer,
                    is_active,
                    timestamp: now,
                },
            ),
        )
    }
}

/// Changes the fees of pools yet to be created, the rebalancer and the global switch.
pub fn handler(
    ctx: &Context<'_, UpdateDexConfig>,
    params: &DexParams,
    config: &DexConfig,
    base_fee_bps: u16,
    lp_fee_share_bps: u16,
    rebalancer: Address,
    is_active: bool,
) -> (r: Result<(DexConfig, DexConfigUpdated), ProgramError>)
    ensures
        r == update_config_result(
            *params,
            *config,
            base_fee_bps,
            lp_fee_share_bps,
            rebalancer,
            is_active,
            ctx.now,
        ),
{
    if base_fee_bps > params.max_fee_bps {
        return Err(ProgramError::Dex(DexError::InvalidFee));
    }
    if lp_fee_share_bps > 10_000 {
        return Err(ProgramError::Dex(DexError::InvalidFeeShare));
    }
    let mut updated = *config;
    updated.base_fee_bps = base_fee_bps;
    updated.lp_fee_share_bps = lp_fee_share_bps;
    updated.rebalancer = rebalancer;
    updated.is_active = is_active;
    Ok(
        (
            updated,
            DexConfigUpdated {
                base_fee_bps,
                lp_fee_share_bps,
                rebalancer,
                is_active,
                timestamp: ctx.now,
            },
        ),
    )
}

} // verus!
