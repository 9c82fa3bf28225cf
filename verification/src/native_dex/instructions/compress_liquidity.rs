//! Compression of a ladder pool: the bid zone moves down after a writedown.
use vstd::prelude::*;

use crate::account::{AccountInfo, Context};
use crate::error::{DexError, ProgramError};
use crate::native_dex::concentrated::{compress_zone, compressed_zone};
use crate::native_dex::constants::DexParams;
use crate::native_dex::cpi::{read_rwt_vault_nav, vault_nav};
use crate::native_dex::events::LiquidityCompressed;
use crate::native_dex::instructions::grow_liquidity::{pass_rebalance_gate, rebalance_gate};
use crate::native_dex::state::{DexConfig, PoolState};

verus! {

/// The accounts of a compression.
pub struct CompressLiquidity {
    pub rebalancer: AccountInfo,
    pub dex_config: AccountInfo,
    pub pool_state: AccountInfo,
    pub bin_array: AccountInfo,
    pub rwt_vault: AccountInfo,
}

/// The order to the bin ledger: gather the dollars of the bid zone that ends at the old bin into
/// the zone that ends at the new one. Reward tokens stay in their bins.
#[derive(Clone, Copy, Debug, PartialEq, Eq)]
pub struct BinCompression {
    pub left_anchor_bin: i32,
    pub last_rebalance_nav_bin: i32,
    pub new_nav_bin: i32,
    pub active_zone_width: u16,
}

/// An accepted compression.
#[derive(Clone, Copy, Debug, PartialEq, Eq)]
pub struct CompressOutcome {
    pub pool: PoolState,
    pub bins: BinCompression,
    pub event: LiquidityCompressed,
}

/// What is asked of the bin ledger before a compression: whether the price of `nav_bin` is
/// within two bin steps of `nav`.
#[derive(Clone, Copy, Debug, PartialEq, Eq)]
pub struct NavQuestion {
    pub nav_bin: i32,
    pub nav: u64,
    pub bin_step_bps: u16,
}

/// The question that a compression puts to the bin ledger, or why it is refused before that.
pub open spec fn nav_question(
    params: DexParams,
    accounts: CompressLiquidity,
    config: DexConfig,
    pool: PoolState,
    new_nav_bin: i32,
) -> Result<NavQuestion, ProgramError> {
    match rebalance_gate(accounts.rebalancer, config, pool) {
        Err(e) => Err(e),
        Ok(_) => match vault_nav(accounts.rwt_vault, params) {
            Err(e) => Err(e),
            Ok(nav) => Ok(
                NavQuestion { nav_bin: new_nav_bin, nav, bin_step_bps: pool.bin_step_bps },
            ),
        },
    }
}

/// The question that a compression puts to the bin ledger.
pub fn ask_nav_bin(
    params: &DexParams,
    accounts: &CompressLiquidity,
    config: &DexConfig,
    pool: &PoolState,
    new_nav_bin: i32,
) -> (r: Result<NavQuestion, ProgramError>)
    ensures
        r == nav_question(*params, *accounts, *config, *pool, new_nav_bin),
{
    if let Err(e) = pass_rebalance_gate(&accounts.rebalancer, config, pool) {
        return Err(e);
    }
    match read_rwt_vault_nav(&accounts.rwt_vault, params) {
        Err(e) => Err(e),
        Ok(nav) => Ok(NavQuestion { nav_bin: new_nav_bin, nav, bin_step_bps: pool.bin_step_bps }),
    }
}

/// What a compression does, or why it is refused; `within_tolerance` is the bin ledger's answer
/// to [`nav_question`].
pub open spec fn compress_result(
    params: DexParams,
    accounts: CompressLiquidity,
    config: DexConfig,
    pool: PoolState,
    within_tolerance: Result<bool, ProgramError>,
    new_nav_bin: i32,
    active_zone_width: u16,
    now: i64,
) -> Result<CompressOutcome, ProgramError> {
    match (nav_question(params, accounts, config, pool, new_nav_bin), within_tolerance) {
        (Err(e), _) => Err(e),
        (_, Err(e)) => Err(e),
        (_, Ok(false)) => Err(ProgramError::Dex(DexError::NavBinMismatch)),
        (_, Ok(true)) => match compressed_zone(
            pool.left_anchor_bin,
            pool.last_rebalance_nav_bin,
            new_nav_bin,
            active_zone_width,
        ) {
            Err(e) => Err(e),
            Ok(lower) => Ok(
                CompressOutcome {
                    pool: PoolState {
                        last_rebalance_nav_bin: new_nav_bin,
                        active_zone_lower: lower,
                        ..pool
                    },
                    bins: BinCompression {
                        left_anchor_bin: pool.left_anchor_bin,
                        last_rebalance_nav_bin: pool.last_rebalance_nav_bin,
                        new_nav_bin,
                        active_zone_width,
                    },
                    event: LiquidityCompressed {
                        pool: accounts.pool_state.address,
                        new_nav_bin,
                        new_active_zone_lower: lower,
                        timestamp: now,
                    },
                },
            ),
        },
    }
}

/// Moves the bid zone down to the net asset value. No tokens move.
pub fn handler(
    ctx: &Context<'_, CompressLiquidity>,
    params: &DexParams,
    config: &DexConfig,
    pool: &PoolState,
    within_tolerance: &Result<bool, ProgramError>,
    new_nav_bin: i32,
    active_zone_width: u16,
) -> (r: Result<CompressOutcome, ProgramError>)
    ensures
        r == compress_result(
            *params,
            *ctx.accounts,
            *config,
            *pool,
            *within_tolerance,
            new_nav_bin,
            active_zone_width,
            ctx.now,
        ),
{
    if let Err(e) = ask_nav_bin(params, ctx.accounts, config, pool, new_nav_bin) {
        return Err(e);
    }
    match within_tolerance {
        Err(e) => {
            return Err(*e);
        },
        Ok(within) => {
            if !*within {
                return Err(ProgramError::Dex(DexError::NavBinMismatch));
            }
        },
    }
    let lower: i32 = match compress_zone(
        pool.left_anchor_bin,
        pool.last_rebalance_nav_bin,
        new_nav_bin,
        active_zone_width,
    ) {
        Err(e) => {
            return Err(e);
        },
        Ok(lower) => lower,
    };
    let mut compressed = *pool;
    compressed.last_rebalance_nav_bin = new_nav_bin;
    compressed.active_zone_lower = lower;
    Ok(
        CompressOutcome {
            pool: compressed,
            bins: BinCompression {
                left_anchor_bin: pool.left_anchor_bin,
                last_rebalance_nav_bin: pool.last_rebalance_nav_bin,
                new_nav_bin,
                active_zone_width,
            },
            event: LiquidityCompressed {
                pool: ctx.accounts.pool_state.address,
                new_nav_bin,
                new_active_zone_lower: lower,
                timestamp: ctx.now,
            },
        },
    )
}

/// Compression is capital-neutral: reserves, shares, fees, the active bin and the anchors of the
/// ladder stay. The rebalance bin falls.
pub proof fn compression_is_neutral(
    params: DexParams,
    accounts: CompressLiquidity,
    config: DexConfig,
    pool: PoolState,
    within_tolerance: Result<bool, ProgramError>,
    new_nav_bin: i32,
    active_zone_width: u16,
    now: i64,
)
    ensures
        compress_result(
            params,
            accounts,
            config,
            pool,
            within_tolerance,
            new_nav_bin,
            active_zone_width,
            now,
        ) matches Ok(o) ==> {
            &&& o.pool.reserve_a == pool.reserve_a
            &&& o.pool.reserve_b == pool.reserve_b
            &&& o.pool.total_lp_shares == pool.total_lp_shares
            &&& o.pool.cumulative_fees_per_share_a == pool.cumulative_fees_per_share_a
            &&& o.pool.cumulative_fees_per_share_b == pool.cumulative_fees_per_share_b
            &&& o.pool.active_bin_id == pool.active_bin_id
            &&& o.pool.left_anchor_bin == pool.left_anchor_bin
            &&& o.pool.permanent_tail_floor_bin == pool.permanent_tail_floor_bin
            &&& o.pool.last_rebalance_nav_bin < pool.last_rebalance_nav_bin
        },
{
}

} // verus!
