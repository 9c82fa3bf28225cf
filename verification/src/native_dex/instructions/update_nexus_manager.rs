//! Change of the nexus's manager.
use vstd::prelude::*;

use crate::account::{AccountInfo, Context};
use crate::address::Address;
use crate::error::ProgramError;
use crate::native_dex::events::NexusManagerUpdated;
use crate::native_dex::state::LiquidityNexus;

verus! {

/// The accounts of a change of manager.
pub struct UpdateNexusManager {
    pub authority: AccountInfo,
    pub dex_config: AccountInfo,
    pub liquidity_nexus: AccountInfo,
}

/// What a change of manager does. Any address is taken; the zero address switches trading off.
pub open spec fn manager_updated(nexus: LiquidityNexus, new_manager: Address, now: i64) -> (
    LiquidityNexus,
    NexusManagerUpdated,
) {
    (
        LiquidityNexus { manager: new_manager, ..nexus },
        NexusManagerUpdated { old_manager: nexus.manager, new_manager, timestamp: now },
    )
}

/// Sets the nexus's manager.
pub fn handler(
    ctx: &Context<'_, UpdateNexusManager>,
    nexus: &LiquidityNexus,
    new_manager: Address,
) -> (r: Result<(LiquidityNexus, NexusManagerUpdated), ProgramError>)
    ensures
        r == Ok::<(LiquidityNexus, NexusManagerUpdated), ProgramError>(
            manager_updated(*nexus, new_manager, ctx.now),
        ),
{
    let mut updated = *nexus;
    updated.manager = new_manager;
    Ok(
        (
            updated,
            NexusManagerUpdated { old_manager: nexus.manager, new_manager, timestamp: ctx.now },
        ),
    )
}

/// Of two changes the later one stands, so a switched-off nexus can be handed to a manager again.
pub proof fn last_manager_stands(nexus: LiquidityNexus, first: Address, second: Address, now: i64)
    ensures
        manager_updated(manager_updated(nexus, first, now).0, second, now).0 == manager_updated(
            nexus,
            second,
            now,
        ).0,
{
}

} // verus!
