//! The instructions of the exchange as they are called: each checks its accounts first.
use vstd::prelude::*;

use crate::account::Context;
use crate::actions::TokenTransfer;
use crate::address::{zero_address, Address};
use crate::calls::{is_claim_call, Instruction};
use crate::error::ProgramError;
use crate::native_dex::constants::DexParams;
use crate::native_dex::events::{
    ArealFeeDestinationUpdated, AuthorityTransferProposed, DexConfigUpdated, DexInitialized,
    NexusDeposited, NexusInitialized, NexusManagerUpdated, NexusProfitsWithdrawn,
    PoolCreatorsUpdated, PoolPaused, PoolUnpaused,
};
use crate::native_dex::instructions::{
    add_liquidity, authority_transfer, claim_lp_fees, compound_yield, compress_liquidity,
    create_concentrated_pool, create_pool, grow_liquidity, initialize_dex, initialize_nexus,
    nexus_add_liquidity, nexus_claim_rewards, nexus_deposit, nexus_record_deposit,
    nexus_remove_liquidity, nexus_swap, nexus_withdraw_profits, pause, remove_liquidity,
    shift_liquidity, swap, update_areal_fee_destination, update_dex_config, update_nexus_manager,
    update_pool_creators, zap_liquidity,
};
use crate::native_dex::instructions::add_liquidity::{
    balanced_is_part_of_the_offer, user_add_result, AddLiquidity, AddOutcome,
};
use crate::native_dex::instructions::authority_transfer::{
    accept_result, propose_result, AcceptAuthorityTransfer, AcceptOutcome, ProposeAuthorityTransfer,
};
use crate::native_dex::instructions::claim_lp_fees::{claim_result, ClaimLpFees, ClaimOutcome};
use crate::native_dex::instructions::compound_yield::{compound_plan, CompoundPlan, CompoundYield};
use crate::native_dex::instructions::compress_liquidity::{
    compress_result, CompressLiquidity, CompressOutcome,
};
use crate::native_dex::instructions::create_concentrated_pool::{
    create_ladder_result, ladder_fits, CreateConcentratedPool, CreateConcentratedPoolOutcome,
};
use crate::native_dex::instructions::create_pool::{
    create_pool_result, CreatePool, CreatePoolOutcome,
};
use crate::native_dex::instructions::grow_liquidity::{
    grow_result, rebalance_gate, GrowLiquidity, GrowOutcome,
};
use crate::native_dex::instructions::initialize_dex::{
    initialize_bumps, new_config, InitializeDex, InitializeDexOutcome,
};
use crate::native_dex::instructions::initialize_nexus::{initialize_nexus_result, InitializeNexus};
use crate::native_dex::instructions::nexus_add_liquidity::{nexus_add_result, NexusAddLiquidity};
use crate::native_dex::instructions::nexus_claim_rewards::{nexus_claim_result, NexusClaimRewards};
use crate::native_dex::instructions::nexus_deposit::{
    nexus_deposit_result, NexusDeposit, NexusDepositOutcome,
};
use crate::native_dex::instructions::nexus_record_deposit::{
    record_deposit_result, NexusRecordDeposit,
};
use crate::native_dex::instructions::nexus_remove_liquidity::{
    nexus_remove_result, NexusRemoveLiquidity,
};
use crate::native_dex::instructions::nexus_swap::{nexus_swap_result, NexusSwap};
use crate::native_dex::instructions::nexus_withdraw_profits::{
    withdraw_profits_result, NexusWithdrawProfits,
};
use crate::native_dex::instructions::pause::{pause_result, unpause_result, PausePool, UnpausePool};
use crate::native_dex::instructions::remove_liquidity::{
    remove_result, RemoveLiquidity, RemoveOutcome,
};
use crate::native_dex::instructions::shift_liquidity::{
    shift_fits, shift_gate, shift_result, ShiftLiquidity, ShiftOutcome,
};
use crate::native_dex::instructions::swap::{swap_result, BinLedgerReply, Swap, SwapOutcome};
use crate::native_dex::instructions::update_areal_fee_destination::{
    update_destination_result, UpdateArealFeeDestination,
};
use crate::native_dex::instructions::update_dex_config::{update_config_result, UpdateDexConfig};
use crate::native_dex::instructions::update_nexus_manager::{manager_updated, UpdateNexusManager};
use crate::native_dex::instructions::update_pool_creators::{
    list_change_refusal, list_changed, rest_kept, UpdatePoolCreators,
};
use crate::native_dex::instructions::zap_liquidity::{user_zap_result, ZapLiquidity, ZapOutcome};
use crate::native_dex::state::{
    BinArray, DexConfig, LiquidityNexus, LpPosition, PoolCreators, PoolState,
};
use crate::seeds::SignedBy;

verus! {

/// Creates the exchange.
pub fn initialize_dex(
    ctx: &Context<'_, InitializeDex>,
    params: &DexParams,
    areal_fee_destination: Address,
    pause_authority: Address,
    rebalancer: Address,
) -> (r: Result<InitializeDexOutcome, ProgramError>)
    ensures
        !ctx.accounts.valid(*ctx.program_id)
            ==> (r matches Err(e) && e == ProgramError::AccountConstraint),
        ctx.accounts.valid(*ctx.program_id) ==> match (
            r,
            initialize_bumps(*ctx.program_id, areal_fee_destination, pause_authority),
        ) {
            (Err(e), Err(expected)) => e == expected,
            (Ok(o), Ok((config_bump, creators_bump))) => {
                &&& o.config == new_config(
                    *params,
                    ctx.accounts.deployer.address,
                    areal_fee_destination,
                    pause_authority,
                    rebalancer,
                    config_bump,
                )
                &&& o.creators.wf()
                &&& o.creators.authority == ctx.accounts.deployer.address
                &&& o.creators.listed() == seq![ctx.accounts.deployer.address]
                &&& forall|i: int| 1 <= i < 10 ==> o.creators.creators[i] == zero_address()
                &&& o.creators.bump == creators_bump
                &&& o.event == (DexInitialized {
                    authority: ctx.accounts.deployer.address,
                    base_fee_bps: params.default_base_fee_bps,
                    timestamp: ctx.now,
                })
            },
            _ => false,
        },
        r matches Ok(o) ==> {
            &&& ctx.accounts.deployer.is_signer
            &&& o.config.authority == ctx.accounts.deployer.address
            &&& o.config.areal_fee_destination == areal_fee_destination
            &&& o.config.pause_authority == pause_authority
            &&& o.config.rebalancer == rebalancer
            &&& o.creators.authority == ctx.accounts.deployer.address
            &&& o.event.timestamp == ctx.now
        },
{
    if !ctx.accounts.check(ctx.program_id) {
        return Err(ProgramError::AccountConstraint);
    }
    initialize_dex::handler(ctx, params, areal_fee_destination, pause_authority, rebalancer)
}

/// Creates a constant-product pool.
pub fn create_pool(
    ctx: &Context<'_, CreatePool>,
    params: &DexParams,
    config: &DexConfig,
    creators: &PoolCreators,
) -> (r: Result<CreatePoolOutcome, ProgramError>)
    requires
        creators.wf(),
    ensures
        r == if ctx.accounts.valid(*ctx.program_id) {
            create_pool_result(
            *params,
            *ctx.accounts,
            ctx.remaining_accounts@,
            *ctx.program_id,
            *config,
            *creators,
            ctx.now,
        )
        } else {
            Err(ProgramError::AccountConstraint)
        },
        r matches Ok(o) ==> {
            &&& ctx.accounts.creator.is_signer
            &&& o.event.creator == ctx.accounts.creator.address
            &&& o.event.pool == ctx.accounts.pool_state.address
            &&& o.event.timestamp == ctx.now
            &&& o.pool.token_a_mint == ctx.accounts.token_a_mint.address
            &&& o.pool.token_b_mint == ctx.accounts.token_b_mint.address
            &&& o.pool.vault_a == ctx.accounts.vault_a.address
            &&& o.pool.vault_b == ctx.accounts.vault_b.address
        },
{
    if !ctx.accounts.check(ctx.program_id) {
        return Err(ProgramError::AccountConstraint);
    }
    create_pool::handler(ctx, params, config, creators)
}

/// Creates a ladder pool.
pub fn create_concentrated_pool(
    ctx: &Context<'_, CreateConcentratedPool>,
    params: &DexParams,
    config: &DexConfig,
    creators: &PoolCreators,
    bin_step_bps: u16,
    initial_active_bin: i32,
    permanent_tail_offset_bps: i32,
) -> (r: Result<CreateConcentratedPoolOutcome, ProgramError>)
    requires
        creators.wf(),
        ctx.accounts.valid(*ctx.program_id) ==> ladder_fits(
            *params,
            *ctx.accounts,
            ctx.remaining_accounts@,
            *config,
            *creators,
            bin_step_bps,
            initial_active_bin,
            permanent_tail_offset_bps,
        ),
    ensures
        r == if ctx.accounts.valid(*ctx.program_id) {
            create_ladder_result(
            *params,
            *ctx.accounts,
            ctx.remaining_accounts@,
            *ctx.program_id,
            *config,
            *creators,
            bin_step_bps,
            initial_active_bin,
            permanent_tail_offset_bps,
            ctx.now,
        )
        } else {
            Err(ProgramError::AccountConstraint)
        },
        r matches Ok(o) ==> {
            &&& ctx.accounts.creator.is_signer
            &&& o.event.creator == ctx.accounts.creator.address
            &&& o.event.pool == ctx.accounts.pool_state.address
            &&& o.event.timestamp == ctx.now
            &&& o.pool.token_a_mint == ctx.accounts.token_a_mint.address
            &&& o.pool.token_b_mint == ctx.accounts.token_b_mint.address
            &&& o.pool.vault_a == ctx.accounts.vault_a.address
            &&& o.pool.vault_b == ctx.accounts.vault_b.address
            &&& o.pool.bin_step_bps == bin_step_bps
            &&& o.pool.active_bin_id == initial_active_bin
            &&& o.pool.permanent_tail_offset_bps == permanent_tail_offset_bps
        },
{
    if !ctx.accounts.check(ctx.program_id) {
        return Err(ProgramError::AccountConstraint);
    }
    create_concentrated_pool::handler(ctx, params, config, creators, bin_step_bps, initial_active_bin, permanent_tail_offset_bps)
}

/// A provider deposits into a pool.
pub fn add_liquidity(
    ctx: &Context<'_, AddLiquidity>,
    params: &DexParams,
    config: &DexConfig,
    pool: &PoolState,
    existing: &Option<LpPosition>,
    amount_a: u64,
    amount_b: u64,
    min_shares: u128,
) -> (r: Result<AddOutcome, ProgramError>)
    ensures
        r == if ctx.accounts.valid(*ctx.program_id) {
            user_add_result(
            *params,
            ctx.accounts.as_view(),
            *ctx.program_id,
            *config,
            *pool,
            *existing,
            amount_a,
            amount_b,
            min_shares,
            ctx.now,
        )
        } else {
            Err(ProgramError::AccountConstraint)
        },
        r matches Ok(o) ==> {
            &&& ctx.accounts.provider.is_signer
            &&& o.event.provider == ctx.accounts.provider.address
            &&& o.event.pool == ctx.accounts.pool_state.address
            &&& o.event.shares_minted >= min_shares
            &&& o.event.amount_a <= amount_a
            &&& o.event.amount_b <= amount_b
            &&& o.event.timestamp == ctx.now
            &&& o.position.owner == ctx.accounts.provider.address
            &&& o.position.pool == ctx.accounts.pool_state.address
        },
{
    if !ctx.accounts.check(ctx.program_id) {
        return Err(ProgramError::AccountConstraint);
    }
    proof {
        balanced_is_part_of_the_offer(amount_a, amount_b, pool.reserve_a, pool.reserve_b);
    }
    add_liquidity::handler(ctx, params, config, pool, existing, amount_a, amount_b, min_shares)
}

/// A provider deposits any mix of the two tokens; the excess is traded first.
pub fn zap_liquidity(
    ctx: &Context<'_, ZapLiquidity>,
    params: &DexParams,
    config: &DexConfig,
    pool: &PoolState,
    existing: &Option<LpPosition>,
    amount_a: u64,
    amount_b: u64,
    min_shares: u128,
) -> (r: Result<ZapOutcome, ProgramError>)
    ensures
        r == if ctx.accounts.valid(*ctx.program_id) {
            user_zap_result(
            *params,
            ctx.accounts.as_view(),
            ctx.remaining_accounts@,
            *ctx.program_id,
            *config,
            *pool,
            *existing,
            amount_a,
            amount_b,
            min_shares,
            ctx.now,
        )
        } else {
            Err(ProgramError::AccountConstraint)
        },
        r matches Ok(o) ==> {
            &&& ctx.accounts.provider.is_signer
            &&& o.event.provider == ctx.accounts.provider.address
            &&& o.event.pool == ctx.accounts.pool_state.address
            &&& o.event.shares_minted >= min_shares
            &&& o.event.input_a == amount_a
            &&& o.event.input_b == amount_b
            &&& o.event.timestamp == ctx.now
            &&& o.position.owner == ctx.accounts.provider.address
            &&& o.position.pool == ctx.accounts.pool_state.address
        },
{
    if !ctx.accounts.check(ctx.program_id) {
        return Err(ProgramError::AccountConstraint);
    }
    zap_liquidity::handler(ctx, params, config, pool, existing, amount_a, amount_b, min_shares)
}

/// A provider withdraws from a pool, paused or not.
pub fn remove_liquidity(
    ctx: &Context<'_, RemoveLiquidity>,
    pool: &PoolState,
    position: &LpPosition,
    shares_to_burn: u128,
) -> (r: Result<RemoveOutcome, ProgramError>)
    ensures
        r == if ctx.accounts.valid() {
            remove_result(
            ctx.accounts.as_view(),
            ctx.remaining_accounts@,
            *ctx.program_id,
            *pool,
            *position,
            shares_to_burn,
            ctx.now,
        )
        } else {
            Err(ProgramError::AccountConstraint)
        },
        r matches Ok(o) ==> {
            &&& ctx.accounts.provider.is_signer
            &&& position.owner == ctx.accounts.provider.address
            &&& o.event.provider == ctx.accounts.provider.address
            &&& o.event.pool == ctx.accounts.pool_state.address
            &&& o.event.shares_burned == shares_to_burn
            &&& o.position.shares == position.shares - shares_to_burn
            &&& o.event.timestamp == ctx.now
        },
{
    if !ctx.accounts.check() {
        return Err(ProgramError::AccountConstraint);
    }
    remove_liquidity::handler(ctx, pool, position, shares_to_burn)
}

/// A user trades against a pool.
pub fn swap(
    ctx: &Context<'_, Swap>,
    params: &DexParams,
    config: &DexConfig,
    pool: &PoolState,
    ledger: &BinLedgerReply,
    amount_in: u64,
    min_amount_out: u64,
    a_to_b: bool,
) -> (r: Result<SwapOutcome, ProgramError>)
    ensures
        r == if ctx.accounts.valid(*ctx.program_id) {
            swap_result(
            *params,
            ctx.accounts.as_view(),
            ctx.remaining_accounts@,
            *ctx.program_id,
            *config,
            *pool,
            *ledger,
            amount_in,
            min_amount_out,
            a_to_b,
            SignedBy::Transaction,
            ctx.now,
        )
        } else {
            Err(ProgramError::AccountConstraint)
        },
        r matches Ok(SwapOutcome::Traded(t)) ==> {
            &&& ctx.accounts.user.is_signer
            &&& t.event.user == ctx.accounts.user.address
            &&& t.event.pool == ctx.accounts.pool_state.address
            &&& t.event.amount_in == amount_in
            &&& t.event.amount_out >= min_amount_out
            &&& t.event.a_to_b == a_to_b
            &&& t.event.timestamp == ctx.now
            &&& t.transfer_in.from == ctx.accounts.user_token_in.address
            &&& t.transfer_in.signed_by == SignedBy::Transaction
            &&& t.transfer_out.to == ctx.accounts.user_token_out.address
            &&& t.transfer_out.amount == t.event.amount_out
        },
        r matches Ok(SwapOutcome::RoutedToMint(m)) ==> {
            &&& ctx.accounts.user.is_signer
            &&& m.mint.user == ctx.accounts.user.address
            &&& m.mint.amount_in == amount_in
            &&& m.mint.min_rwt_out == min_amount_out
            &&& m.event.timestamp == ctx.now
        },
{
    if !ctx.accounts.check(ctx.program_id) {
        return Err(ProgramError::AccountConstraint);
    }
    swap::handler(ctx, params, config, pool, ledger, amount_in, min_amount_out, a_to_b)
}

/// The rebalancer centres a ladder pool on the net asset value.
pub fn shift_liquidity(
    ctx: &Context<'_, ShiftLiquidity>,
    params: &DexParams,
    config: &DexConfig,
    pool: &PoolState,
    bins: &BinArray,
    nav_bin: i32,
    target_bin_count: u16,
) -> (r: Result<ShiftOutcome, ProgramError>)
    requires
        ctx.accounts.valid(*ctx.program_id) && shift_gate(
            *ctx.accounts,
            *config,
            *pool,
            *bins,
            target_bin_count,
        ) is Ok ==> shift_fits(*params, *bins, nav_bin, target_bin_count),
    ensures
        r == if ctx.accounts.valid(*ctx.program_id) {
            shift_result(
            *params,
            *ctx.accounts,
            *ctx.program_id,
            *config,
            *pool,
            *bins,
            nav_bin,
            target_bin_count,
            ctx.now,
        )
        } else {
            Err(ProgramError::AccountConstraint)
        },
        r matches Ok(o) ==> {
            &&& ctx.accounts.rebalancer.is_signer
            &&& ctx.accounts.rebalancer.address == config.rebalancer
            &&& o.event.rebalancer == config.rebalancer
            &&& o.event.pool == ctx.accounts.pool_state.address
            &&& o.event.new_upper - o.event.new_lower + 1 == target_bin_count
            &&& o.event.new_lower == nav_bin - target_bin_count as int / 2
            &&& o.event.timestamp == ctx.now
        },
{
    if !ctx.accounts.check(ctx.program_id) {
        return Err(ProgramError::AccountConstraint);
    }
    shift_liquidity::handler(ctx, params, config, pool, bins, nav_bin, target_bin_count)
}

/// The rebalancer moves the bid zone of a ladder pool up.
pub fn grow_liquidity(
    ctx: &Context<'_, GrowLiquidity>,
    params: &DexParams,
    config: &DexConfig,
    pool: &PoolState,
    bins: &BinArray,
    nexus: &LiquidityNexus,
    new_nav_bin: i32,
    active_zone_width: u16,
) -> (r: Result<GrowOutcome, ProgramError>)
    requires
        ctx.accounts.valid(*ctx.program_id) && rebalance_gate(
            ctx.accounts.rebalancer,
            *config,
            *pool,
        ) is Ok ==> bins.wf(),
    ensures
        r == if ctx.accounts.valid(*ctx.program_id) {
            grow_result(
            *params,
            *ctx.accounts,
            *config,
            *pool,
            *bins,
            *nexus,
            new_nav_bin,
            active_zone_width,
            ctx.now,
        )
        } else {
            Err(ProgramError::AccountConstraint)
        },
        r matches Ok(o) ==> {
            &&& ctx.accounts.rebalancer.is_signer
            &&& ctx.accounts.rebalancer.address == config.rebalancer
            &&& o.event.pool == ctx.accounts.pool_state.address
            &&& o.event.new_nav_bin == new_nav_bin
            &&& o.bins.new_nav_bin == new_nav_bin
            &&& o.bins.active_zone_width == active_zone_width
            &&& new_nav_bin - o.pool.active_zone_lower + 1 == active_zone_width
            &&& o.event.timestamp == ctx.now
        },
{
    if !ctx.accounts.check(ctx.program_id) {
        return Err(ProgramError::AccountConstraint);
    }
    grow_liquidity::handler(ctx, params, config, pool, bins, nexus, new_nav_bin, active_zone_width)
}

/// The rebalancer moves the bid zone of a ladder pool down.
pub fn compress_liquidity(
    ctx: &Context<'_, CompressLiquidity>,
    params: &DexParams,
    config: &DexConfig,
    pool: &PoolState,
    within_tolerance: &Result<bool, ProgramError>,
    new_nav_bin: i32,
    active_zone_width: u16,
) -> (r: Result<CompressOutcome, ProgramError>)
    ensures
        r == if ctx.accounts.valid(*ctx.program_id) {
            compress_result(
            *params,
            *ctx.accounts,
            *config,
            *pool,
            *within_tolerance,
            new_nav_bin,
            active_zone_width,
            ctx.now,
        )
        } else {
            Err(ProgramError::AccountConstraint)
        },
        r matches Ok(o) ==> {
            &&& ctx.accounts.rebalancer.is_signer
            &&& ctx.accounts.rebalancer.address == config.rebalancer
            &&& o.event.pool == ctx.accounts.pool_state.address
            &&& o.event.new_nav_bin == new_nav_bin
            &&& o.bins.new_nav_bin == new_nav_bin
            &&& o.bins.active_zone_width == active_zone_width
            &&& new_nav_bin - o.pool.active_zone_lower + 1 == active_zone_width
            &&& o.event.timestamp == ctx.now
        },
{
    if !ctx.accounts.check(ctx.program_id) {
        return Err(ProgramError::AccountConstraint);
    }
    compress_liquidity::handler(ctx, params, config, pool, within_tolerance, new_nav_bin, active_zone_width)
}

/// The authority changes the configuration.
pub fn update_dex_config(
    ctx: &Context<'_, UpdateDexConfig>,
    params: &DexParams,
    config: &DexConfig,
    base_fee_bps: u16,
    lp_fee_share_bps: u16,
    rebalancer: Address,
    is_active: bool,
) -> (r: Result<(DexConfig, DexConfigUpdated), ProgramError>)
    ensures
        r == if ctx.accounts.valid(*ctx.program_id, config.authority) {
            update_config_result(
            *params,
            *config,
            base_fee_bps,
            lp_fee_share_bps,
            rebalancer,
            is_active,
            ctx.now,
        )
        } else {
            Err(ProgramError::AccountConstraint)
        },
        r matches Ok((after, event)) ==> {
            &&& ctx.accounts.authority.is_signer
            &&& ctx.accounts.authority.address == config.authority
            &&& after.base_fee_bps == base_fee_bps
            &&& after.lp_fee_share_bps == lp_fee_share_bps
            &&& after.rebalancer == rebalancer
            &&& after.is_active == is_active
            &&& event.timestamp == ctx.now
        },
{
    if !ctx.accounts.check(ctx.program_id, &config.authority) {
        return Err(ProgramError::AccountConstraint);
    }
    update_dex_config::handler(ctx, params, config, base_fee_bps, lp_fee_share_bps, rebalancer, is_active)
}

/// The authority changes the protocol's fee account.
pub fn update_areal_fee_destination(
    ctx: &Context<'_, UpdateArealFeeDestination>,
    params: &DexParams,
    config: &DexConfig,
) -> (r: Result<(DexConfig, Option<ArealFeeDestinationUpdated>), ProgramError>)
    ensures
        r == if ctx.accounts.valid(*ctx.program_id, config.authority) {
            update_destination_result(
            *params,
            *config,
            ctx.accounts.new_areal_fee_account,
            ctx.now,
        )
        } else {
            Err(ProgramError::AccountConstraint)
        },
        r matches Ok((after, _)) ==> {
            &&& ctx.accounts.authority.is_signer
            &&& ctx.accounts.authority.address == config.authority
            &&& after.areal_fee_destination == ctx.accounts.new_areal_fee_account.address
        },
{
    if !ctx.accounts.check(ctx.program_id, &config.authority) {
        return Err(ProgramError::AccountConstraint);
    }
    update_areal_fee_destination::handler(ctx, params, config)
}

/// The authority changes the creator list.
pub fn update_pool_creators(
    ctx: &Context<'_, UpdatePoolCreators>,
    config: &DexConfig,
    creators: &PoolCreators,
    wallet: Address,
    action: u8,
) -> (r: Result<(PoolCreators, PoolCreatorsUpdated), ProgramError>)
    requires
        creators.wf(),
    ensures
        !ctx.accounts.valid(*ctx.program_id, config.authority)
            ==> (r matches Err(e) && e == ProgramError::AccountConstraint),
        ctx.accounts.valid(*ctx.program_id, config.authority)
            ==> match (r, list_change_refusal(*creators, wallet, action)) {
            (Err(e), Some(refusal)) => e == refusal,
            (Ok((after, event)), None) => {
                &&& after.wf()
                &&& list_changed(creators.listed(), after.listed(), wallet, action)
                &&& rest_kept(*creators, after, action)
                &&& after.authority == creators.authority
                &&& after.bump == creators.bump
                &&& event == (PoolCreatorsUpdated {
                    wallet,
                    action,
                    active_count: after.active_count,
                    timestamp: ctx.now,
                })
            },
            _ => false,
        },
        r matches Ok((after, event)) ==> {
            &&& ctx.accounts.authority.is_signer
            &&& ctx.accounts.authority.address == config.authority
            &&& action == 0 ==> after.listed() == creators.listed().push(wallet)
            &&& action == 1 ==> after.listed().len() == creators.listed().len() - 1
            &&& event.wallet == wallet
            &&& event.action == action
            &&& event.timestamp == ctx.now
        },
{
    if !ctx.accounts.check(ctx.program_id, &config.authority) {
        return Err(ProgramError::AccountConstraint);
    }
    update_pool_creators::handler(ctx, creators, wallet, action)
}

/// The pause authority pauses a pool.
pub fn pause_pool(
    ctx: &Context<'_, PausePool>,
    config: &DexConfig,
    pool: &PoolState,
) -> (r: Result<(PoolState, PoolPaused), ProgramError>)
    ensures
        r == if ctx.accounts.valid(*ctx.program_id) {
            pause_result(*ctx.accounts, *config, *pool, ctx.now)
        } else {
            Err(ProgramError::AccountConstraint)
        },
        r matches Ok((after, event)) ==> {
            &&& ctx.accounts.pause_authority.is_signer
            &&& ctx.accounts.pause_authority.address == config.pause_authority
            &&& !after.is_active
            &&& event.pool == ctx.accounts.pool_state.address
            &&& event.timestamp == ctx.now
        },
{
    if !ctx.accounts.check(ctx.program_id) {
        return Err(ProgramError::AccountConstraint);
    }
    pause::pause_handler(ctx, config, pool)
}

/// The pause authority resumes a pool.
pub fn unpause_pool(
    ctx: &Context<'_, UnpausePool>,
    config: &DexConfig,
    pool: &PoolState,
) -> (r: Result<(PoolState, PoolUnpaused), ProgramError>)
    ensures
        r == if ctx.accounts.valid(*ctx.program_id) {
            unpause_result(*ctx.accounts, *config, *pool, ctx.now)
        } else {
            Err(ProgramError::AccountConstraint)
        },
        r matches Ok((after, event)) ==> {
            &&& ctx.accounts.pause_authority.is_signer
            &&& ctx.accounts.pause_authority.address == config.pause_authority
            &&& after.is_active
            &&& event.pool == ctx.accounts.pool_state.address
            &&& event.timestamp == ctx.now
        },
{
    if !ctx.accounts.check(ctx.program_id) {
        return Err(ProgramError::AccountConstraint);
    }
    pause::unpause_handler(ctx, config, pool)
}

/// The authority proposes its successor.
pub fn propose_authority_transfer(
    ctx: &Context<'_, ProposeAuthorityTransfer>,
    config: &DexConfig,
    new_authority: Address,
) -> (r: Result<(DexConfig, AuthorityTransferProposed), ProgramError>)
    ensures
        r == if ctx.accounts.valid(*ctx.program_id, config.authority) {
            propose_result(*config, new_authority, ctx.now)
        } else {
            Err(ProgramError::AccountConstraint)
        },
        r matches Ok((after, event)) ==> {
            &&& ctx.accounts.authority.is_signer
            &&& ctx.accounts.authority.address == config.authority
            &&& after.pending_authority == new_authority
            &&& after.has_pending
            &&& after.authority == config.authority
            &&& event.timestamp == ctx.now
        },
{
    if !ctx.accounts.check(ctx.program_id, &config.authority) {
        return Err(ProgramError::AccountConstraint);
    }
    authority_transfer::propose_handler(ctx, config, new_authority)
}

/// The proposed successor takes over.
pub fn accept_authority_transfer(
    ctx: &Context<'_, AcceptAuthorityTransfer>,
    config: &DexConfig,
    creators: &PoolCreators,
) -> (r: Result<AcceptOutcome, ProgramError>)
    ensures
        r == if ctx.accounts.valid(*ctx.program_id) {
            accept_result(*config, *creators, ctx.accounts.new_authority.address, ctx.now)
        } else {
            Err(ProgramError::AccountConstraint)
        },
        r matches Ok(o) ==> {
            &&& ctx.accounts.new_authority.is_signer
            &&& ctx.accounts.new_authority.address == config.pending_authority
            &&& o.config.authority == ctx.accounts.new_authority.address
            &&& o.creators.authority == ctx.accounts.new_authority.address
            &&& o.event.timestamp == ctx.now
        },
{
    if !ctx.accounts.check(ctx.program_id) {
        return Err(ProgramError::AccountConstraint);
    }
    authority_transfer::accept_handler(ctx, config, creators)
}

/// Anyone lets a pool claim its yield. `compound_yield::finish` completes it.
pub fn compound_yield(
    ctx: &Context<'_, CompoundYield>,
    params: &DexParams,
    pool: &PoolState,
    cumulative_amount: u64,
    merkle_proof: &Vec<Address>,
) -> (r: Result<(CompoundPlan, Instruction), ProgramError>)
    requires
        merkle_proof@.len() <= u32::MAX,
    ensures
        !ctx.accounts.valid() ==> (r matches Err(e) && e == ProgramError::AccountConstraint),
        ctx.accounts.valid()
            ==> match (r, compound_plan(*params, *ctx.accounts, *ctx.program_id, *pool)) {
            (Ok((plan, call)), Ok(expected)) => plan == expected && is_claim_call(
                call,
                expected.claim,
                cumulative_amount,
                merkle_proof@,
            ),
            (Err(e), Err(expected)) => e == expected,
            _ => false,
        },
        r matches Ok((plan, call)) ==> {
            &&& ctx.accounts.crank.is_signer
            &&& plan.claim.claimant_token == ctx.accounts.target_vault.address
            &&& plan.claim.ot_mint == ctx.accounts.ot_mint.address
            &&& plan.claim.claimant == ctx.accounts.pool_state.address
            &&& plan.claim.payer == ctx.accounts.crank.address
            &&& is_claim_call(call, plan.claim, cumulative_amount, merkle_proof@)
        },
{
    if !ctx.accounts.check() {
        return Err(ProgramError::AccountConstraint);
    }
    compound_yield::handler(ctx, params, pool, cumulative_amount, merkle_proof)
}

/// The authority creates the nexus.
pub fn initialize_nexus(
    ctx: &Context<'_, InitializeNexus>,
    config: &DexConfig,
    manager: Address,
) -> (r: Result<(LiquidityNexus, NexusInitialized), ProgramError>)
    ensures
        r == if ctx.accounts.valid(*ctx.program_id, config.authority) {
            initialize_nexus_result(*ctx.program_id, manager, ctx.now)
        } else {
            Err(ProgramError::AccountConstraint)
        },
        r matches Ok((nexus, event)) ==> {
            &&& ctx.accounts.authority.is_signer
            &&& ctx.accounts.authority.address == config.authority
            &&& nexus.manager == manager
            &&& event.manager == manager
            &&& event.timestamp == ctx.now
        },
{
    if !ctx.accounts.check(ctx.program_id, &config.authority) {
        return Err(ProgramError::AccountConstraint);
    }
    initialize_nexus::handler(ctx, manager)
}

/// The authority changes the nexus's manager.
pub fn update_nexus_manager(
    ctx: &Context<'_, UpdateNexusManager>,
    config: &DexConfig,
    nexus: &LiquidityNexus,
    new_manager: Address,
) -> (r: Result<(LiquidityNexus, NexusManagerUpdated), ProgramError>)
    ensures
        r == if ctx.accounts.valid(*ctx.program_id, config.authority) {
            Ok::<(LiquidityNexus, NexusManagerUpdated), ProgramError>(
            manager_updated(*nexus, new_manager, ctx.now),
        )
        } else {
            Err(ProgramError::AccountConstraint)
        },
        r matches Ok((after, event)) ==> {
            &&& ctx.accounts.authority.is_signer
            &&& ctx.accounts.authority.address == config.authority
            &&& after.manager == new_manager
            &&& event.old_manager == nexus.manager
            &&& event.new_manager == new_manager
            &&& event.timestamp == ctx.now
        },
{
    if !ctx.accounts.check(ctx.program_id, &config.authority) {
        return Err(ProgramError::AccountConstraint);
    }
    update_nexus_manager::handler(ctx, nexus, new_manager)
}

/// The manager lets the nexus trade.
pub fn nexus_swap(
    ctx: &Context<'_, NexusSwap>,
    params: &DexParams,
    nexus: &LiquidityNexus,
    config: &DexConfig,
    pool: &PoolState,
    ledger: &BinLedgerReply,
    amount_in: u64,
    min_amount_out: u64,
    a_to_b: bool,
) -> (r: Result<SwapOutcome, ProgramError>)
    ensures
        r == if ctx.accounts.valid(*ctx.program_id) {
            nexus_swap_result(
            *params,
            *ctx.accounts,
            ctx.remaining_accounts@,
            *ctx.program_id,
            *nexus,
            *config,
            *pool,
            *ledger,
            amount_in,
            min_amount_out,
            a_to_b,
            ctx.now,
        )
        } else {
            Err(ProgramError::AccountConstraint)
        },
        r matches Ok(SwapOutcome::Traded(t)) ==> {
            &&& ctx.accounts.manager.is_signer
            &&& ctx.accounts.manager.address == nexus.manager
            &&& t.event.user == ctx.accounts.liquidity_nexus.address
            &&& t.event.amount_in == amount_in
            &&& t.event.amount_out >= min_amount_out
            &&& t.event.a_to_b == a_to_b
            &&& t.event.timestamp == ctx.now
            &&& t.transfer_in.from == ctx.accounts.nexus_token_in.address
            &&& t.transfer_in.signed_by == (SignedBy::Nexus { bump: nexus.bump })
            &&& t.transfer_out.to == ctx.accounts.nexus_token_out.address
        },
{
    if !ctx.accounts.check(ctx.program_id) {
        return Err(ProgramError::AccountConstraint);
    }
    nexus_swap::handler(ctx, params, nexus, config, pool, ledger, amount_in, min_amount_out, a_to_b)
}

/// The manager lets the nexus deposit into a pool.
pub fn nexus_add_liquidity(
    ctx: &Context<'_, NexusAddLiquidity>,
    params: &DexParams,
    nexus: &LiquidityNexus,
    config: &DexConfig,
    pool: &PoolState,
    existing: &Option<LpPosition>,
    amount_a: u64,
    amount_b: u64,
    min_shares: u128,
) -> (r: Result<AddOutcome, ProgramError>)
    ensures
        r == if ctx.accounts.valid(*ctx.program_id) {
            nexus_add_result(
            *params,
            *ctx.accounts,
            *ctx.program_id,
            *nexus,
            *config,
            *pool,
            *existing,
            amount_a,
            amount_b,
            min_shares,
            ctx.now,
        )
        } else {
            Err(ProgramError::AccountConstraint)
        },
        r matches Ok(o) ==> {
            &&& ctx.accounts.manager.is_signer
            &&& ctx.accounts.manager.address == nexus.manager
            &&& o.event.provider == ctx.accounts.liquidity_nexus.address
            &&& o.event.pool == ctx.accounts.pool_state.address
            &&& o.event.shares_minted >= min_shares
            &&& o.event.amount_a <= amount_a
            &&& o.event.amount_b <= amount_b
            &&& o.event.timestamp == ctx.now
            &&& o.position.owner == ctx.accounts.liquidity_nexus.address
        },
{
    if !ctx.accounts.check(ctx.program_id) {
        return Err(ProgramError::AccountConstraint);
    }
    proof {
        balanced_is_part_of_the_offer(amount_a, amount_b, pool.reserve_a, pool.reserve_b);
    }
    nexus_add_liquidity::handler(ctx, params, nexus, config, pool, existing, amount_a, amount_b, min_shares)
}

/// The manager lets the nexus withdraw from a pool.
pub fn nexus_remove_liquidity(
    ctx: &Context<'_, NexusRemoveLiquidity>,
    nexus: &LiquidityNexus,
    pool: &PoolState,
    position: &LpPosition,
    shares_to_burn: u128,
) -> (r: Result<RemoveOutcome, ProgramError>)
    ensures
        r == if ctx.accounts.valid(*ctx.program_id) {
            nexus_remove_result(
            *ctx.accounts,
            ctx.remaining_accounts@,
            *ctx.program_id,
            *nexus,
            *pool,
            *position,
            shares_to_burn,
            ctx.now,
        )
        } else {
            Err(ProgramError::AccountConstraint)
        },
        r matches Ok(o) ==> {
            &&& ctx.accounts.manager.is_signer
            &&& ctx.accounts.manager.address == nexus.manager
            &&& position.owner == ctx.accounts.liquidity_nexus.address
            &&& o.event.shares_burned == shares_to_burn
            &&& o.position.shares == position.shares - shares_to_burn
            &&& o.event.timestamp == ctx.now
        },
{
    if !ctx.accounts.check(ctx.program_id) {
        return Err(ProgramError::AccountConstraint);
    }
    nexus_remove_liquidity::handler(ctx, nexus, pool, position, shares_to_burn)
}

/// Anyone deposits into the nexus.
pub fn nexus_deposit(
    ctx: &Context<'_, NexusDeposit>,
    params: &DexParams,
    nexus: &LiquidityNexus,
    amount: u64,
    token_kind: u8,
) -> (r: Result<NexusDepositOutcome, ProgramError>)
    ensures
        r == if ctx.accounts.valid(*ctx.program_id) {
            nexus_deposit_result(*params, *ctx.accounts, *nexus, amount, token_kind, ctx.now)
        } else {
            Err(ProgramError::AccountConstraint)
        },
        r matches Ok(o) ==> {
            &&& ctx.accounts.depositor.is_signer
            &&& o.transfer.amount == amount
            &&& o.transfer.from == ctx.accounts.depositor_token_ata.address
            &&& o.transfer.to == ctx.accounts.nexus_token_ata.address
            &&& o.transfer.authority == ctx.accounts.depositor.address
            &&& o.event.amount == amount
            &&& o.event.timestamp == ctx.now
        },
{
    if !ctx.accounts.check(ctx.program_id) {
        return Err(ProgramError::AccountConstraint);
    }
    nexus_deposit::handler(ctx, params, nexus, amount, token_kind)
}

/// The yield program reports a deposit into the nexus.
pub fn nexus_record_deposit(
    ctx: &Context<'_, NexusRecordDeposit>,
    params: &DexParams,
    nexus: &LiquidityNexus,
    amount: u64,
    token_kind: u8,
) -> (r: Result<(LiquidityNexus, NexusDeposited), ProgramError>)
    ensures
        r == if ctx.accounts.valid(*ctx.program_id) {
            record_deposit_result(*params, *ctx.accounts, *nexus, amount, token_kind, ctx.now)
        } else {
            Err(ProgramError::AccountConstraint)
        },
        r matches Ok((after, event)) ==> {
            &&& ctx.accounts.liquidity_holding.is_signer
            &&& event.amount == amount
            &&& token_kind == 0 ==> after.total_deposited_usdc == nexus.total_deposited_usdc + amount
            &&& token_kind == 1 ==> after.total_deposited_rwt == nexus.total_deposited_rwt + amount
            &&& event.timestamp == ctx.now
        },
{
    if !ctx.accounts.check(ctx.program_id) {
        return Err(ProgramError::AccountConstraint);
    }
    nexus_record_deposit::handler(ctx, params, nexus, amount, token_kind)
}

/// The authority pays out profit of the nexus.
pub fn nexus_withdraw_profits(
    ctx: &Context<'_, NexusWithdrawProfits>,
    config: &DexConfig,
    params: &DexParams,
    nexus: &LiquidityNexus,
    amount: u64,
    token_kind: u8,
) -> (r: Result<(TokenTransfer, NexusProfitsWithdrawn), ProgramError>)
    ensures
        r == if ctx.accounts.valid(*ctx.program_id, config.authority) {
            withdraw_profits_result(*params, *ctx.accounts, *nexus, amount, token_kind, ctx.now)
        } else {
            Err(ProgramError::AccountConstraint)
        },
        r matches Ok((transfer, event)) ==> {
            &&& ctx.accounts.authority.is_signer
            &&& ctx.accounts.authority.address == config.authority
            &&& transfer.amount == amount
            &&& transfer.from == ctx.accounts.nexus_token_ata.address
            &&& transfer.to == ctx.accounts.recipient_token_ata.address
            &&& event.amount == amount
            &&& event.timestamp == ctx.now
        },
{
    if !ctx.accounts.check(ctx.program_id, &config.authority) {
        return Err(ProgramError::AccountConstraint);
    }
    nexus_withdraw_profits::handler(ctx, params, nexus, amount, token_kind)
}

/// The authority collects the nexus's accrued fees.
pub fn nexus_claim_rewards(
    ctx: &Context<'_, NexusClaimRewards>,
    config: &DexConfig,
    nexus: &LiquidityNexus,
    pool: &PoolState,
    position: &LpPosition,
) -> (r: Result<ClaimOutcome, ProgramError>)
    ensures
        r == if ctx.accounts.valid(*ctx.program_id, config.authority) {
            nexus_claim_result(*ctx.accounts, *nexus, *pool, *position, ctx.now)
        } else {
            Err(ProgramError::AccountConstraint)
        },
        r matches Ok(o) ==> {
            &&& ctx.accounts.authority.is_signer
            &&& ctx.accounts.authority.address == config.authority
            &&& position.owner == ctx.accounts.liquidity_nexus.address
            &&& o.event.pool == ctx.accounts.pool_state.address
            &&& o.event.timestamp == ctx.now
        },
{
    if !ctx.accounts.check(ctx.program_id, &config.authority) {
        return Err(ProgramError::AccountConstraint);
    }
    nexus_claim_rewards::handler(ctx, nexus, pool, position)
}

/// A provider collects accrued fees.
pub fn claim_lp_fees(
    ctx: &Context<'_, ClaimLpFees>,
    pool: &PoolState,
    position: &LpPosition,
) -> (r: Result<ClaimOutcome, ProgramError>)
    ensures
        r == if ctx.accounts.valid() {
            claim_result(ctx.accounts.as_view(), *pool, *position, ctx.now)
        } else {
            Err(ProgramError::AccountConstraint)
        },
        r matches Ok(o) ==> {
            &&& ctx.accounts.recipient.is_signer
            &&& position.owner == ctx.accounts.recipient.address
            &&& o.event.recipient == ctx.accounts.recipient.address
            &&& o.event.pool == ctx.accounts.pool_state.address
            &&& o.event.timestamp == ctx.now
        },
{
    if !ctx.accounts.check() {
        return Err(ProgramError::AccountConstraint);
    }
    claim_lp_fees::handler(ctx, pool, position)
}

} // verus!
