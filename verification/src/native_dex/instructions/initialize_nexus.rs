//! Creation of the nexus.
use vstd::prelude::*;

use crate::account::{AccountInfo, Context};
use crate::address::{derived_address, find_address_1, Address};
use crate::error::ProgramError;
use crate::native_dex::events::NexusInitialized;
use crate::native_dex::state::LiquidityNexus;
use crate::seeds::liquidity_nexus_seed;

verus! {

/// The accounts of the nexus's creation.
pub struct InitializeNexus {
    pub authority: AccountInfo,
    pub dex_config: AccountInfo,
    pub liquidity_nexus: AccountInfo,
    pub system_program: AccountInfo,
}

/// What the creation of the nexus does: an active nexus without deposits. Any manager is taken,
/// the zero address too.
pub open spec fn initialize_nexus_result(program_id: Address, manager: Address, now: i64) -> Result<
    (LiquidityNexus, NexusInitialized),
    ProgramError,
> {
    match derived_address(seq![liquidity_nexus_seed()@], program_id@) {
        None => Err(ProgramError::InvalidSeeds),
        Some((_, bump)) => Ok(
            (
                LiquidityNexus {
                    manager,
                    total_deposited_usdc: 0,
                    total_deposited_rwt: 0,
                    is_active: true,
                    bump,
                },
                NexusInitialized { manager, timestamp: now },
            ),
        ),
    }
}

/// Creates the nexus.
pub fn handler(ctx: &Context<'_, InitializeNexus>, manager: Address) -> (r: Result<
    (LiquidityNexus, NexusInitialized),
    ProgramError,
>)
    ensures
        r == initialize_nexus_result(*ctx.program_id, manager, ctx.now),
{
    let seed = liquidity_nexus_seed();
    match find_address_1(seed.as_slice(), ctx.program_id) {
        None => Err(ProgramError::InvalidSeeds),
        Some((_, bump)) => Ok(
            (
                LiquidityNexus {
                    manager,
                    total_deposited_usdc: 0,
                    total_deposited_rwt: 0,
                    is_active: true,
                    bump,
                },
                NexusInitialized { manager, timestamp: ctx.now },
            ),
        ),
    }
}

} // verus!
