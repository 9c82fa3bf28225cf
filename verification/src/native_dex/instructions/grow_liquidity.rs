//! Growth of a ladder pool: the bid zone moves up with the net asset value.
use vstd::prelude::*;

use crate::account::{read_token_account_amount, AccountInfo, Context};
use crate::actions::TokenTransfer;
use crate::address::address_eq;
use crate::error::{DexError, ProgramError};
use crate::native_dex::concentrated::{grow_zone, grown_zone};
use crate::native_dex::constants::{DexParams, POOL_TYPE_CONCENTRATED};
use crate::native_dex::cpi::{read_rwt_vault_nav, vault_nav};
use crate::native_dex::events::LiquidityGrew;
use crate::native_dex::state::{BinArray, DexConfig, LiquidityNexus, PoolState};
use crate::native_dex::validation::{read_token_account_mint, read_token_account_owner};
use crate::seeds::SignedBy;

verus! {

/// The accounts of a growth.
pub struct GrowLiquidity {
    pub rebalancer: AccountInfo,
    pub dex_config: AccountInfo,
    pub pool_state: AccountInfo,
    pub bin_array: AccountInfo,
    pub liquidity_nexus: AccountInfo,
    pub nexus_usdc_ata: AccountInfo,
    pub pool_vault_b: AccountInfo,
    pub rwt_vault: AccountInfo,
    pub token_program: AccountInfo,
}

/// The order to the bin ledger: gather the bid zone that ends at the old bin, and the fresh
/// dollars, into the zone that ends at the new one.
#[derive(Clone, Copy, Debug, PartialEq, Eq)]
pub struct BinGrowth {
    pub left_anchor_bin: i32,
    pub permanent_tail_floor_bin: i32,
    pub last_rebalance_nav_bin: i32,
    pub new_nav_bin: i32,
    pub active_zone_width: u16,
    pub fresh_usdc: u64,
}

/// An accepted growth.
#[derive(Clone, Copy, Debug, PartialEq, Eq)]
pub struct GrowOutcome {
    pub pool: PoolState,
    pub bins: BinGrowth,
    pub transfer: TokenTransfer,
    pub event: LiquidityGrew,
}

/// Whether a rebalancer may move the bid zone of a pool now.
pub open spec fn rebalance_gate(rebalancer: AccountInfo, config: DexConfig, pool: PoolState) -> Result<
    (),
    ProgramError,
> {
    if rebalancer.address != config.rebalancer {
        Err(ProgramError::Dex(DexError::InvalidRebalancer))
    } else if pool.pool_type != POOL_TYPE_CONCENTRATED {
        Err(ProgramError::Dex(DexError::InvalidPoolType))
    } else if !pool.is_active {
        Err(ProgramError::Dex(DexError::PoolNotActive))
    } else {
        Ok(())
    }
}

/// Lets the rebalancer move the bid zone of an active ladder pool.
pub fn pass_rebalance_gate(rebalancer: &AccountInfo, config: &DexConfig, pool: &PoolState) -> (r:
    Result<(), ProgramError>)
    ensures
        r == rebalance_gate(*rebalancer, *config, *pool),
{
    if !address_eq(&rebalancer.address, &config.rebalancer) {
        return Err(ProgramError::Dex(DexError::InvalidRebalancer));
    }
    if pool.pool_type != POOL_TYPE_CONCENTRATED {
        return Err(ProgramError::Dex(DexError::InvalidPoolType));
    }
    if !pool.is_active {
        return Err(ProgramError::Dex(DexError::PoolNotActive));
    }
    Ok(())
}

/// The dollars that the nexus can put in: all that its dollar account holds, which must be some.
pub open spec fn fresh_dollars(params: DexParams, accounts: GrowLiquidity, nexus: LiquidityNexus) -> Result<
    u64,
    ProgramError,
> {
    match accounts.nexus_usdc_ata.token_owner() {
        Err(e) => Err(e),
        Ok(owner) => if owner != accounts.liquidity_nexus.address {
            Err(ProgramError::Dex(DexError::InvalidTokenAccount))
        } else {
            match accounts.nexus_usdc_ata.token_mint() {
                Err(e) => Err(e),
                Ok(mint) => if mint != params.usdc_mint {
                    Err(ProgramError::Dex(DexError::InvalidNexusToken))
                } else if !nexus.is_active {
                    Err(ProgramError::Dex(DexError::NexusNotActive))
                } else {
                    match accounts.nexus_usdc_ata.token_amount() {
                        Err(e) => Err(e),
                        Ok(balance) => if balance == 0 {
                            Err(ProgramError::Dex(DexError::NexusAccumulatorEmpty))
                        } else {
                            Ok(balance)
                        },
                    }
                },
            }
        },
    }
}

/// The dollars that the nexus can put in.
pub fn nexus_accumulator(params: &DexParams, accounts: &GrowLiquidity, nexus: &LiquidityNexus) -> (r:
    Result<u64, ProgramError>)
    ensures
        r == fresh_dollars(*params, *accounts, *nexus),
{
    match read_token_account_owner(&accounts.nexus_usdc_ata) {
        Err(e) => {
            return Err(e);
        },
        Ok(owner) => {
            if !address_eq(&owner, &accounts.liquidity_nexus.address) {
                return Err(ProgramError::Dex(DexError::InvalidTokenAccount));
            }
        },
    }
    match read_token_account_mint(&accounts.nexus_usdc_ata) {
        Err(e) => {
            return Err(e);
        },
        Ok(mint) => {
            if !address_eq(&mint, &params.usdc_mint) {
                return Err(ProgramError::Dex(DexError::InvalidNexusToken));
            }
        },
    }
    if !nexus.is_active {
        return Err(ProgramError::Dex(DexError::NexusNotActive));
    }
    match read_token_account_amount(&accounts.nexus_usdc_ata) {
        Err(e) => Err(e),
        Ok(balance) => {
            if balance == 0 {
                return Err(ProgramError::Dex(DexError::NexusAccumulatorEmpty));
            }
            Ok(balance)
        },
    }
}

/// The outcome of a growth to `new_nav_bin` with `fresh` dollars and the zone's new lower edge.
pub open spec fn growth(
    accounts: GrowLiquidity,
    nexus: LiquidityNexus,
    pool: PoolState,
    fresh: u64,
    lower: i32,
    new_nav_bin: i32,
    active_zone_width: u16,
    now: i64,
) -> GrowOutcome {
    GrowOutcome {
        pool: PoolState {
            last_rebalance_nav_bin: new_nav_bin,
            active_zone_lower: lower,
            reserve_b: (pool.reserve_b + fresh) as u64,
            ..pool
        },
        bins: BinGrowth {
            left_anchor_bin: pool.left_anchor_bin,
            permanent_tail_floor_bin: pool.permanent_tail_floor_bin,
            last_rebalance_nav_bin: pool.last_rebalance_nav_bin,
            new_nav_bin,
            active_zone_width,
            fresh_usdc: fresh,
        },
        transfer: TokenTransfer {
            from: accounts.nexus_usdc_ata.address,
            to: accounts.pool_vault_b.address,
            authority: accounts.liquidity_nexus.address,
            amount: fresh,
            signed_by: SignedBy::Nexus { bump: nexus.bump },
        },
        event: LiquidityGrew {
            pool: accounts.pool_state.address,
            new_nav_bin,
            fresh_usdc: fresh,
            new_active_zone_lower: lower,
            timestamp: now,
        },
    }
}

/// What a growth does, or why it is refused.
pub open spec fn grow_result(
    params: DexParams,
    accounts: GrowLiquidity,
    config: DexConfig,
    pool: PoolState,
    bins: BinArray,
    nexus: LiquidityNexus,
    new_nav_bin: i32,
    active_zone_width: u16,
    now: i64,
) -> Result<GrowOutcome, ProgramError> {
    match rebalance_gate(accounts.rebalancer, config, pool) {
        Err(e) => Err(e),
        Ok(_) => if accounts.pool_vault_b.address != pool.vault_b {
            Err(ProgramError::Dex(DexError::InvalidVault))
        } else {
            match vault_nav(accounts.rwt_vault, params) {
                Err(e) => Err(e),
                Ok(_) => match fresh_dollars(params, accounts, nexus) {
                    Err(e) => Err(e),
                    Ok(fresh) => match grown_zone(
                        bins.lower_bin_id,
                        pool.left_anchor_bin,
                        pool.last_rebalance_nav_bin,
                        new_nav_bin,
                        active_zone_width,
                    ) {
                        Err(e) => Err(e),
                        Ok(lower) => if pool.reserve_b + fresh > u64::MAX {
                            Err(ProgramError::Dex(DexError::MathOverflow))
                        } else {
                            Ok(
                                growth(
                                    accounts,
                                    nexus,
                                    pool,
                                    fresh,
                                    lower,
                                    new_nav_bin,
                                    active_zone_width,
                                    now,
                                ),
                            )
                        },
                    },
                },
            }
        },
    }
}

/// Moves the bid zone up to the net asset value and fills it with all dollars of the nexus.
pub fn handler(
    ctx: &Context<'_, GrowLiquidity>,
    params: &DexParams,
    config: &DexConfig,
    pool: &PoolState,
    bins: &BinArray,
    nexus: &LiquidityNexus,
    new_nav_bin: i32,
    active_zone_width: u16,
) -> (r: Result<GrowOutcome, ProgramError>)
    requires
        rebalance_gate(ctx.accounts.rebalancer, *config, *pool) is Ok ==> bins.wf(),
    ensures
        r == grow_result(
            *params,
            *ctx.accounts,
            *config,
            *pool,
            *bins,
            *nexus,
            new_nav_bin,
            active_zone_width,
            ctx.now,
        ),
{
    let a = ctx.accounts;
    if let Err(e) = pass_rebalance_gate(&a.rebalancer, config, pool) {
        return Err(e);
    }
    if !a.pool_vault_b.is_at(&pool.vault_b) {
        return Err(ProgramError::Dex(DexError::InvalidVault));
    }
    if let Err(e) = read_rwt_vault_nav(&a.rwt_vault, params) {
        return Err(e);
    }
    let fresh: u64 = match nexus_accumulator(params, a, nexus) {
        Err(e) => {
            return Err(e);
        },
        Ok(fresh) => fresh,
    };
    let lower: i32 = match grow_zone(
        bins.lower_bin_id,
        pool.left_anchor_bin,
        pool.last_rebalance_nav_bin,
        new_nav_bin,
        active_zone_width,
    ) {
        Err(e) => {
            return Err(e);
        },
        Ok(lower) => lower,
    };
    let mut grown = *pool;
    grown.last_rebalance_nav_bin = new_nav_bin;
    grown.active_zone_lower = lower;
    grown.reserve_b =
    match pool.reserve_b.checked_add(fresh) {
        None => {
            return Err(ProgramError::Dex(DexError::MathOverflow));
        },
        Some(reserve) => reserve,
    };
    Ok(
        GrowOutcome {
            pool: grown,
            bins: BinGrowth {
                left_anchor_bin: pool.left_anchor_bin,
                permanent_tail_floor_bin: pool.permanent_tail_floor_bin,
                last_rebalance_nav_bin: pool.last_rebalance_nav_bin,
                new_nav_bin,
                active_zone_width,
                fresh_usdc: fresh,
            },
            transfer: TokenTransfer {
                from: a.nexus_usdc_ata.address,
                to: a.pool_vault_b.address,
                authority: a.liquidity_nexus.address,
                amount: fresh,
                signed_by: SignedBy::Nexus { bump: nexus.bump },
            },
            event: LiquidityGrew {
                pool: a.pool_state.address,
                new_nav_bin,
                fresh_usdc: fresh,
                new_active_zone_lower: lower,
                timestamp: ctx.now,
            },
        },
    )
}

/// Growth brings in as many dollars as the dollar reserve rises by, and leaves the active bin,
/// the reward reserve, the shares and the anchors of the ladder alone. The rebalance bin rises.
pub proof fn growth_is_backed(
    params: DexParams,
    accounts: GrowLiquidity,
    config: DexConfig,
    pool: PoolState,
    bins: BinArray,
    nexus: LiquidityNexus,
    new_nav_bin: i32,
    active_zone_width: u16,
    now: i64,
)
    ensures
        grow_result(
            params,
            accounts,
            config,
            pool,
            bins,
            nexus,
            new_nav_bin,
            active_zone_width,
            now,
        ) matches Ok(o) ==> {
            &&& o.pool.reserve_b == pool.reserve_b + o.transfer.amount
            &&& o.transfer.amount == o.bins.fresh_usdc
            &&& o.transfer.amount > 0
            &&& o.pool.reserve_a == pool.reserve_a
            &&& o.pool.active_bin_id == pool.active_bin_id
            &&& o.pool.total_lp_shares == pool.total_lp_shares
            &&& o.pool.left_anchor_bin == pool.left_anchor_bin
            &&& o.pool.permanent_tail_floor_bin == pool.permanent_tail_floor_bin
            &&& o.pool.last_rebalance_nav_bin > pool.last_rebalance_nav_bin
        },
{
}

} // verus!
