//! What the rebalancer's instructions do to a ladder pool, in the terms of their inputs.
use vstd::prelude::*;

use crate::account::AccountInfo;
use crate::actions::TokenTransfer;
use crate::address::{derived_address, Address};
use crate::bytes::{le_value, le_value_bound};
use crate::error::{DexError, ProgramError};
use crate::native_dex::constants::DexParams;
use crate::native_dex::cpi::vault_nav;
use crate::native_dex::instructions::compress_liquidity::{
    compress_result, nav_question, CompressLiquidity, CompressOutcome,
};
use crate::native_dex::instructions::grow_liquidity::{grow_result, GrowLiquidity, GrowOutcome};
use crate::native_dex::instructions::shift_liquidity::{
    activated, shift_fits, shift_result, BinShift, ShiftLiquidity, ShiftOutcome,
};
use crate::native_dex::state::{BinArray, DexConfig, LiquidityNexus, PoolState};
use crate::programs::rwt_engine_program_id;
use crate::seeds::{bins_seed, SignedBy};

verus! {

/// An accepted growth orders the zone that it records: the order's width is the requested one, and
/// the recorded lower edge lies that many bins, the upper one included, below the new rebalance
/// bin. The order starts from the recorded anchors and rebalance bin, and brings in every dollar
/// that the nexus's dollar account holds; the same dollars move into the pool's dollar vault under
/// the nexus's signature, and raise the dollar reserve. Nothing else of the pool changes.
pub proof fn growth_orders_the_zone_it_records(
    params: DexParams,
    accounts: GrowLiquidity,
    config: DexConfig,
    pool: PoolState,
    bins: BinArray,
    nexus: LiquidityNexus,
    new_nav_bin: i32,
    active_zone_width: u16,
    now: i64,
)
    requires
        bins.lower_bin_id + 999 <= i32::MAX,
    ensures
        grow_result(
            params,
            accounts,
            config,
            pool,
            bins,
            nexus,
            new_nav_bin,
            active_zone_width,
            now,
        ) matches Ok(o) ==> {
            let fresh = accounts.nexus_usdc_ata.token_amount();
            &&& o.bins.active_zone_width == active_zone_width
            &&& o.bins.active_zone_width == o.bins.new_nav_bin - o.pool.active_zone_lower + 1
            &&& o.bins.new_nav_bin == new_nav_bin
            &&& o.bins.left_anchor_bin == pool.left_anchor_bin
            &&& o.bins.permanent_tail_floor_bin == pool.permanent_tail_floor_bin
            &&& o.bins.last_rebalance_nav_bin == pool.last_rebalance_nav_bin
            &&& fresh == Ok::<u64, ProgramError>(o.bins.fresh_usdc)
            &&& o.transfer == (TokenTransfer {
                from: accounts.nexus_usdc_ata.address,
                to: pool.vault_b,
                authority: accounts.liquidity_nexus.address,
                amount: o.bins.fresh_usdc,
                signed_by: SignedBy::Nexus { bump: nexus.bump },
            })
            &&& o.pool.reserve_b == pool.reserve_b + o.transfer.amount
            &&& o.pool.last_rebalance_nav_bin == new_nav_bin
            &&& o.pool == (PoolState {
                reserve_b: o.pool.reserve_b,
                last_rebalance_nav_bin: o.pool.last_rebalance_nav_bin,
                active_zone_lower: o.pool.active_zone_lower,
                ..pool
            })
            &&& o.event.pool == accounts.pool_state.address
            &&& o.event.new_nav_bin == new_nav_bin
            &&& o.event.fresh_usdc == o.transfer.amount
            &&& o.event.new_active_zone_lower == o.pool.active_zone_lower
            &&& o.event.timestamp == now
        },
{
}

/// When a growth is owed: to the rebalancer, of a running ladder pool, with the pool's dollar
/// vault, a readable vault of the reward-token engine, and dollars in the running nexus's own
/// dollar account; upwards, to a zone at or above the left anchor that leaves ten bins free at the
/// top.
pub proof fn growth_is_owed(
    params: DexParams,
    accounts: GrowLiquidity,
    config: DexConfig,
    pool: PoolState,
    bins: BinArray,
    nexus: LiquidityNexus,
    new_nav_bin: i32,
    active_zone_width: u16,
    now: i64,
)
    requires
        bins.lower_bin_id + 999 <= i32::MAX,
    ensures
        ({
            let accepted = {
                &&& accounts.rebalancer.address == config.rebalancer
                &&& pool.pool_type == 1
                &&& pool.is_active
                &&& accounts.pool_vault_b.address == pool.vault_b
                &&& vault_nav(accounts.rwt_vault, params) is Ok
                &&& accounts.nexus_usdc_ata.token_owner() == Ok::<Address, ProgramError>(
                    accounts.liquidity_nexus.address,
                )
                &&& accounts.nexus_usdc_ata.token_mint() == Ok::<Address, ProgramError>(
                    params.usdc_mint,
                )
                &&& nexus.is_active
                &&& (accounts.nexus_usdc_ata.token_amount() matches Ok(fresh) && fresh > 0
                    && pool.reserve_b + fresh <= u64::MAX)
                &&& new_nav_bin > pool.last_rebalance_nav_bin
                &&& new_nav_bin - active_zone_width + 1 >= pool.left_anchor_bin
                &&& bins.lower_bin_id + 999 - new_nav_bin >= 10
            };
            grow_result(
                params,
                accounts,
                config,
                pool,
                bins,
                nexus,
                new_nav_bin,
                active_zone_width,
                now,
            ) is Ok <==> accepted
        }),
{
}

/// Why a growth is refused.
pub proof fn growth_refusals_are_told(
    params: DexParams,
    accounts: GrowLiquidity,
    config: DexConfig,
    pool: PoolState,
    bins: BinArray,
    nexus: LiquidityNexus,
    new_nav_bin: i32,
    active_zone_width: u16,
    now: i64,
)
    ensures
        ({
            let r = grow_result(
                params,
                accounts,
                config,
                pool,
                bins,
                nexus,
                new_nav_bin,
                active_zone_width,
                now,
            );
            let told = |e: DexError| r == Err::<GrowOutcome, ProgramError>(ProgramError::Dex(e));
            let named = accounts.rebalancer.address == config.rebalancer;
            let gate = named && pool.pool_type == 1 && pool.is_active;
            let placed = accounts.pool_vault_b.address == pool.vault_b;
            let priced = vault_nav(accounts.rwt_vault, params) is Ok;
            let owned = accounts.nexus_usdc_ata.token_owner() == Ok::<Address, ProgramError>(
                accounts.liquidity_nexus.address,
            );
            let dollars = accounts.nexus_usdc_ata.token_mint() == Ok::<Address, ProgramError>(
                params.usdc_mint,
            );
            let held = accounts.nexus_usdc_ata.token_amount();
            let ready = gate && placed && priced && owned && dollars && nexus.is_active;
            let filled = ready && (held matches Ok(fresh) && fresh > 0);
            &&& told(DexError::InvalidRebalancer) <==> !named
            &&& told(DexError::InvalidPoolType) <==> named && pool.pool_type != 1
            &&& told(DexError::PoolNotActive) <==> named && pool.pool_type == 1 && !pool.is_active
            &&& told(DexError::InvalidVault) <==> gate && !placed
            &&& told(DexError::InvalidRwtVault) <==> gate && placed && !priced
            &&& gate && placed && priced && (accounts.nexus_usdc_ata.token_owner() matches Ok(o)
                && o != accounts.liquidity_nexus.address) ==> told(DexError::InvalidTokenAccount)
            &&& gate && placed && priced && owned
                && (accounts.nexus_usdc_ata.token_mint() matches Ok(
                m,
            ) && m != params.usdc_mint) ==> told(DexError::InvalidNexusToken)
            &&& told(DexError::NexusNotActive) <==> gate && placed && priced && owned && dollars
                && !nexus.is_active
            &&& told(DexError::MathOverflow) <==> filled && new_nav_bin
                > pool.last_rebalance_nav_bin && new_nav_bin - active_zone_width + 1
                >= pool.left_anchor_bin && bins.lower_bin_id + 999 - new_nav_bin >= 10
                && pool.reserve_b + held->Ok_0 > u64::MAX
            &&& told(DexError::NexusAccumulatorEmpty) <==> ready && held == Ok::<u64, ProgramError>(
                0u64,
            )
            &&& told(DexError::NotGrowthDirection) <==> filled && new_nav_bin
                <= pool.last_rebalance_nav_bin
            &&& told(DexError::ActiveZoneOverlapsTail) <==> filled && new_nav_bin
                > pool.last_rebalance_nav_bin && new_nav_bin - active_zone_width + 1
                < pool.left_anchor_bin
            &&& told(DexError::ExceedsRightEdgeBuffer) <==> filled && new_nav_bin
                > pool.last_rebalance_nav_bin && new_nav_bin - active_zone_width + 1
                >= pool.left_anchor_bin && bins.lower_bin_id + 999 - new_nav_bin < 10
        }),
{
}

/// An accepted compression orders the zone that it records, as a growth does, and moves no tokens:
/// of the pool only the rebalance bin and the zone's lower edge change.
pub proof fn compression_orders_the_zone_it_records(
    params: DexParams,
    accounts: CompressLiquidity,
    config: DexConfig,
    pool: PoolState,
    within_tolerance: Result<bool, ProgramError>,
    new_nav_bin: i32,
    active_zone_width: u16,
    now: i64,
)
    ensures
        compress_result(
            params,
            accounts,
            config,
            pool,
            within_tolerance,
            new_nav_bin,
            active_zone_width,
            now,
        ) matches Ok(o) ==> {
            &&& o.bins.active_zone_width == active_zone_width
            &&& o.bins.active_zone_width == o.bins.new_nav_bin - o.pool.active_zone_lower + 1
            &&& o.bins.new_nav_bin == new_nav_bin
            &&& o.bins.left_anchor_bin == pool.left_anchor_bin
            &&& o.bins.last_rebalance_nav_bin == pool.last_rebalance_nav_bin
            &&& o.pool.last_rebalance_nav_bin == new_nav_bin
            &&& o.pool == (PoolState {
                last_rebalance_nav_bin: o.pool.last_rebalance_nav_bin,
                active_zone_lower: o.pool.active_zone_lower,
                ..pool
            })
            &&& o.event.pool == accounts.pool_state.address
            &&& o.event.new_nav_bin == new_nav_bin
            &&& o.event.new_active_zone_lower == o.pool.active_zone_lower
            &&& o.event.timestamp == now
        },
{
}

/// When a compression is owed, and how it is refused: to the rebalancer, of a running ladder pool,
/// with a readable vault of the reward-token engine, to a bin that the ledger finds within
/// tolerance of the net asset value; downwards, to a zone at or above the left anchor.
pub proof fn compression_is_owed(
    params: DexParams,
    accounts: CompressLiquidity,
    config: DexConfig,
    pool: PoolState,
    within_tolerance: Result<bool, ProgramError>,
    new_nav_bin: i32,
    active_zone_width: u16,
    now: i64,
)
    ensures
        ({
            let r = compress_result(
                params,
                accounts,
                config,
                pool,
                within_tolerance,
                new_nav_bin,
                active_zone_width,
                now,
            );
            let told = |e: DexError| r == Err::<CompressOutcome, ProgramError>(ProgramError::Dex(e));
            let named = accounts.rebalancer.address == config.rebalancer;
            let gate = named && pool.pool_type == 1 && pool.is_active;
            let priced = vault_nav(accounts.rwt_vault, params) is Ok;
            let near = gate && priced && within_tolerance == Ok::<bool, ProgramError>(true);
            let down = new_nav_bin < pool.last_rebalance_nav_bin;
            let above = new_nav_bin - active_zone_width + 1 >= pool.left_anchor_bin;
            &&& r is Ok <==> near && down && above
            &&& !named ==> told(DexError::InvalidRebalancer)
            &&& named && pool.pool_type != 1 ==> told(DexError::InvalidPoolType)
            &&& named && pool.pool_type == 1 && !pool.is_active ==> told(DexError::PoolNotActive)
            &&& gate && !priced ==> told(DexError::InvalidRwtVault)
            &&& gate && priced && within_tolerance == Ok::<bool, ProgramError>(false) ==> told(
                DexError::NavBinMismatch,
            )
            &&& gate && priced ==> (within_tolerance matches Err(e) ==> r == Err::<
                CompressOutcome,
                ProgramError,
            >(e))
            &&& near && !down ==> told(DexError::NotCompressionDirection)
            &&& near && down && !above ==> told(DexError::ActiveZoneOverlapsTail)
        }),
{
}

/// What a compression asks the ledger: about the requested bin, the engine's net asset value and
/// the pool's step.
pub proof fn compression_asks_about_its_bin(
    params: DexParams,
    accounts: CompressLiquidity,
    config: DexConfig,
    pool: PoolState,
    new_nav_bin: i32,
)
    ensures
        nav_question(params, accounts, config, pool, new_nav_bin) matches Ok(q) ==> {
            &&& q.nav_bin == new_nav_bin
            &&& vault_nav(accounts.rwt_vault, params) == Ok::<u64, ProgramError>(q.nav)
            &&& q.bin_step_bps == pool.bin_step_bps
        },
        nav_question(params, accounts, config, pool, new_nav_bin) is Ok
            <==> accounts.rebalancer.address == config.rebalancer && pool.pool_type == 1
            && pool.is_active && vault_nav(accounts.rwt_vault, params) is Ok,
{
}

/// What a shift orders and changes: a spread of the requested number of bins with half of them,
/// rounded down, below the requested bin; that bin becomes the active one of the pool and of its
/// bins, and nothing else of either changes.
pub proof fn shift_centres_the_spread(
    params: DexParams,
    accounts: ShiftLiquidity,
    program_id: Address,
    config: DexConfig,
    pool: PoolState,
    bins: BinArray,
    nav_bin: i32,
    target_bin_count: u16,
    now: i64,
    spread: BinArray,
)
    requires
        shift_fits(params, bins, nav_bin, target_bin_count),
    ensures
        shift_result(
            params,
            accounts,
            program_id,
            config,
            pool,
            bins,
            nav_bin,
            target_bin_count,
            now,
        ) matches Ok(o) ==> {
            &&& o.bins.nav_bin == nav_bin
            &&& o.bins.target_bin_count == target_bin_count
            &&& o.pool == (PoolState { active_bin_id: nav_bin, ..pool })
            &&& activated(spread, o.bins) == (BinArray { active_bin_id: nav_bin, ..spread })
            &&& nav_bin - o.event.new_lower == target_bin_count as int / 2
            &&& o.event.new_upper - o.event.new_lower + 1 == target_bin_count
            &&& o.event.old_lower == bins.lower_bin_id
            &&& o.event.old_upper == bins.lower_bin_id + 999
            &&& o.event.pool == accounts.pool_state.address
            &&& o.event.rebalancer == accounts.rebalancer.address
            &&& o.event.timestamp == now
        },
{
}

/// Once a shift is carried out its bin is the active one; of the bins' account nothing else
/// changes.
pub proof fn shift_makes_its_bin_active(bins: BinArray, order: BinShift)
    ensures
        ({
            let after = activated(bins, order);
            &&& after.active_bin_id == order.nav_bin
            &&& after.pool == bins.pool
            &&& after.bins == bins.bins
            &&& after.lower_bin_id == bins.lower_bin_id
            &&& after.bin_step_bps == bins.bin_step_bps
            &&& after.bump == bins.bump
        }),
{
}

/// When a shift is owed, and how it is refused: to the rebalancer, of a ladder pool with its own
/// bins, of one to a thousand bins, no further than a shift may go, within the pool's bins, and to
/// another bin than the active one. A paused pool may be shifted.
pub proof fn shift_is_owed(
    params: DexParams,
    accounts: ShiftLiquidity,
    program_id: Address,
    config: DexConfig,
    pool: PoolState,
    bins: BinArray,
    nav_bin: i32,
    target_bin_count: u16,
    now: i64,
)
    ensures
        ({
            let r = shift_result(
                params,
                accounts,
                program_id,
                config,
                pool,
                bins,
                nav_bin,
                target_bin_count,
                now,
            );
            let told = |e: DexError| r == Err::<ShiftOutcome, ProgramError>(ProgramError::Dex(e));
            let named = accounts.rebalancer.address == config.rebalancer;
            let counted = 0 < target_bin_count <= 1000;
            let own = bins.pool == accounts.pool_state.address;
            let gate = named && pool.pool_type == 1 && counted && own;
            let up = nav_bin - bins.active_bin_id;
            let near = up <= params.max_shift_distance && -up <= params.max_shift_distance;
            let lower = nav_bin - target_bin_count as int / 2;
            let within = bins.lower_bin_id <= lower && lower + target_bin_count - 1
                <= bins.lower_bin_id + 999;
            let found = derived_address(
                seq![bins_seed()@, accounts.pool_state.address@],
                program_id@,
            );
            let derived = found matches Some(at) && at.0 == accounts.bin_array.address;
            &&& r is Ok <==> gate && near && within && derived && nav_bin != bins.active_bin_id
            &&& told(DexError::Unauthorized) <==> !named
            &&& told(DexError::InvalidPoolType) <==> named && pool.pool_type != 1
            &&& told(DexError::InvalidBinRange) <==> (named && pool.pool_type == 1 && !counted) || (
            gate && near && !within)
            &&& told(DexError::InvalidVault) <==> named && pool.pool_type == 1 && counted && !own
            &&& told(DexError::ShiftTooLarge) <==> gate && !near
            &&& r == Err::<ShiftOutcome, ProgramError>(ProgramError::InvalidSeeds) <==> gate && near
                && within && !derived
            &&& told(DexError::ShiftNoOp) <==> gate && near && within && derived && nav_bin
                == bins.active_bin_id
        }),
{
}

/// Where the reward-token engine's vault keeps its net asset value: in the eight bytes after the
/// marker and 24 others, least significant first, of an account that the engine owns and that
/// carries the deployment's marker. Any other account is refused.
pub proof fn net_asset_value_is_read_from_the_vault(account: AccountInfo, params: DexParams)
    ensures
        ({
            let readable = account.owner == rwt_engine_program_id() && account.data@.len() >= 40
                && account.data@.subrange(0, 8) == params.rwt_vault_discriminator@;
            &&& readable ==> (vault_nav(account, params) matches Ok(nav) && nav == le_value(
                account.data@.subrange(32, 40),
            ))
            &&& !readable ==> vault_nav(account, params) == Err::<u64, ProgramError>(
                ProgramError::Dex(DexError::InvalidRwtVault),
            )
        }),
{
    if account.data@.len() >= 40 {
        le_value_bound(account.data@.subrange(32, 40));
    }
}

} // verus!
