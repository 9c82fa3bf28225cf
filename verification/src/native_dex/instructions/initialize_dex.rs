//! Creation of the exchange.
use vstd::prelude::*;

use crate::account::{AccountInfo, Context};
use crate::address::{derived_address, find_address_1, is_zero_address, zero_address, Address};
use crate::error::{DexError, ProgramError};
use crate::native_dex::constants::DexParams;
use crate::native_dex::events::DexInitialized;
use crate::native_dex::state::{DexConfig, PoolCreators};
use crate::seeds::{dex_config_seed, pool_creators_seed};

verus! {

/// The accounts of the exchange's creation.
pub struct InitializeDex {
    pub deployer: AccountInfo,
    pub dex_config: AccountInfo,
    pub pool_creators: AccountInfo,
    pub system_program: AccountInfo,
}

/// The accepted creation of an exchange.
#[derive(Clone, Copy, Debug, PartialEq, Eq)]
pub struct InitializeDexOutcome {
    pub config: DexConfig,
    pub creators: PoolCreators,
    pub event: DexInitialized,
}

/// Whether an exchange may be created, and the bumps of its two accounts.
pub open spec fn initialize_bumps(
    program_id: Address,
    areal_fee_destination: Address,
    pause_authority: Address,
) -> Result<(u8, u8), ProgramError> {
    if pause_authority == zero_address() {
        Err(ProgramError::Dex(DexError::InvalidPauseAuthority))
    } else if areal_fee_destination == zero_address() {
        Err(ProgramError::Dex(DexError::InvalidFeeDestination))
    } else {
        match (
            derived_address(seq![dex_config_seed()@], program_id@),
            derived_address(seq![pool_creators_seed()@], program_id@),
        ) {
            (Some(config), Some(creators)) => Ok((config.1, creators.1)),
            _ => Err(ProgramError::InvalidSeeds),
        }
    }
}

/// The configuration of a new exchange.
pub open spec fn new_config(
    params: DexParams,
    deployer: Address,
    areal_fee_destination: Address,
    pause_authority: Address,
    rebalancer: Address,
    bump: u8,
) -> DexConfig {
    DexConfig {
        authority: deployer,
        pending_authority: zero_address(),
        has_pending: false,
        pause_authority,
        base_fee_bps: params.default_base_fee_bps,
        lp_fee_share_bps: params.default_lp_fee_share_bps,
        areal_fee_destination,
        rebalancer,
        is_active: true,
        bump,
    }
}

/// Creates the exchange's configuration and its creator list, on which the deployer stands first.
pub fn handler(
    ctx: &Context<'_, InitializeDex>,
    params: &DexParams,
    areal_fee_destination: Address,
    pause_authority: Address,
    rebalancer: Address,
) -> (r: Result<InitializeDexOutcome, ProgramError>)
    ensures
        match (
            r,
            initialize_bumps(*ctx.program_id, areal_fee_destination, pause_authority),
        ) {
            (Err(e), Err(expected)) => e == expected,
            (Ok(o), Ok((config_bump, creators_bump))) => {
                &&& o.config == new_config(
                    *params,
                    ctx.accounts.deployer.address,
                    areal_fee_destination,
                    pause_authority,
                    rebalancer,
                    config_bump,
                )
                &&& o.creators.wf()
                &&& o.creators.authority == ctx.accounts.deployer.address
                &&& o.creators.listed() == seq![ctx.accounts.deployer.address]
                &&& forall|i: int| 1 <= i < 10 ==> o.creators.creators[i] == zero_address()
                &&& o.creators.bump == creators_bump
                &&& o.event == (DexInitialized {
                    authority: ctx.accounts.deployer.address,
                    base_fee_bps: params.default_base_fee_bps,
                    timestamp: ctx.now,
                })
            },
            _ => false,
        },
{
    if is_zero_address(&pause_authority) {
        return Err(ProgramError::Dex(DexError::InvalidPauseAuthority));
    }
    if is_zero_address(&areal_fee_destination) {
        return Err(ProgramError::Dex(DexError::InvalidFeeDestination));
    }
    let config_seed = dex_config_seed();
    let creators_seed = pool_creators_seed();
    let (config_bump, creators_bump): (u8, u8) = match (
        find_address_1(config_seed.as_slice(), ctx.program_id),
        find_address_1(creators_seed.as_slice(), ctx.program_id),
    ) {
        (Some((_, config_bump)), Some((_, creators_bump))) => (config_bump, creators_bump),
        _ => {
            return Err(ProgramError::InvalidSeeds);
        },
    };
    let deployer = ctx.accounts.deployer.address;
    let zero = zero_address();
    let mut list: [[u8; 32]; 10] = [zero;10];
    list[0] = deployer;
    let creators = PoolCreators {
        authority: deployer,
        creators: list,
        active_count: 1,
        bump: creators_bump,
    };
    assert(creators.listed() =~= seq![deployer]);
    Ok(
        InitializeDexOutcome {
            config: DexConfig {
                authority: deployer,
                pending_authority: zero,
                has_pending: false,
                pause_authority,
                base_fee_bps: params.default_base_fee_bps,
                lp_fee_share_bps: params.default_lp_fee_share_bps,
                areal_fee_destination,
                rebalancer,
                is_active: true,
                bump: config_bump,
            },
            creators,
            event: DexInitialized {
                authority: deployer,
                base_fee_bps: params.default_base_fee_bps,
                timestamp: ctx.now,
            },
        },
    )
}

} // verus!
