//! What the exchange reports of each accepted instruction.
use vstd::prelude::*;

use crate::address::Address;

verus! {

/// A trade against a pool.
#[derive(Clone, Copy, Debug, PartialEq, Eq)]
pub struct SwapExecuted {
    pub pool: Address,
    pub user: Address,
    pub a_to_b: bool,
    pub amount_in: u64,
    pub amount_out: u64,
    pub fee_lp: u64,
    pub fee_protocol: u64,
    pub fee_ot_treasury: u64,
    pub timestamp: i64,
}

/// A purchase of reward tokens that was minted instead of traded.
#[derive(Clone, Copy, Debug, PartialEq, Eq)]
pub struct SwapRoutedToMint {
    pub pool: Address,
    pub user: Address,
    pub amount_in: u64,
    pub nav_at_route: u64,
    pub best_ask_price_q: u128,
    pub timestamp: i64,
}

/// A deposit into a pool.
#[derive(Clone, Copy, Debug, PartialEq, Eq)]
pub struct LiquidityAdded {
    pub pool: Address,
    pub provider: Address,
    pub amount_a: u64,
    pub amount_b: u64,
    pub shares_minted: u128,
    pub timestamp: i64,
}

/// A withdrawal from a pool.
#[derive(Clone, Copy, Debug, PartialEq, Eq)]
pub struct LiquidityRemoved {
    pub pool: Address,
    pub provider: Address,
    pub amount_a: u64,
    pub amount_b: u64,
    pub shares_burned: u128,
    pub timestamp: i64,
}

/// A payout of accrued fees.
#[derive(Clone, Copy, Debug, PartialEq, Eq)]
pub struct LpFeesClaimed {
    pub recipient: Address,
    pub pool: Address,
    pub claimable_a: u64,
    pub claimable_b: u64,
    pub timestamp: i64,
}

/// A deposit that traded its excess first.
#[derive(Clone, Copy, Debug, PartialEq, Eq)]
pub struct ZapLiquidityExecuted {
    pub pool: Address,
    pub provider: Address,
    pub input_a: u64,
    pub input_b: u64,
    pub swapped_amount: u64,
    pub shares_minted: u128,
    pub timestamp: i64,
}

/// A new pool.
#[derive(Clone, Copy, Debug, PartialEq, Eq)]
pub struct PoolCreated {
    pub pool: Address,
    pub token_a_mint: Address,
    pub token_b_mint: Address,
    pub pool_type: u8,
    pub creator: Address,
    pub ot_treasury_fee_destination: Address,
    pub timestamp: i64,
}

/// A new exchange.
#[derive(Clone, Copy, Debug, PartialEq, Eq)]
pub struct DexInitialized {
    pub authority: Address,
    pub base_fee_bps: u16,
    pub timestamp: i64,
}

/// A change of the configuration.
#[derive(Clone, Copy, Debug, PartialEq, Eq)]
pub struct DexConfigUpdated {
    pub base_fee_bps: u16,
    pub lp_fee_share_bps: u16,
    pub rebalancer: Address,
    pub is_active: bool,
    pub timestamp: i64,
}

/// A change of the protocol's fee account.
#[derive(Clone, Copy, Debug, PartialEq, Eq)]
pub struct ArealFeeDestinationUpdated {
    pub old_destination: Address,
    pub new_destination: Address,
    pub timestamp: i64,
}

/// A change of the creator whitelist.
#[derive(Clone, Copy, Debug, PartialEq, Eq)]
pub struct PoolCreatorsUpdated {
    pub wallet: Address,
    pub action: u8,
    pub active_count: u8,
    pub timestamp: i64,
}

/// A pool was paused.
#[derive(Clone, Copy, Debug, PartialEq, Eq)]
pub struct PoolPaused {
    pub pool: Address,
    pub timestamp: i64,
}

/// A pool was resumed.
#[derive(Clone, Copy, Debug, PartialEq, Eq)]
pub struct PoolUnpaused {
    pub pool: Address,
    pub timestamp: i64,
}

/// A new authority was proposed.
#[derive(Clone, Copy, Debug, PartialEq, Eq)]
pub struct AuthorityTransferProposed {
    pub current_authority: Address,
    pub pending_authority: Address,
    pub timestamp: i64,
}

/// A proposed authority took over.
#[derive(Clone, Copy, Debug, PartialEq, Eq)]
pub struct AuthorityTransferAccepted {
    pub old_authority: Address,
    pub new_authority: Address,
    pub timestamp: i64,
}

/// Yield was added to a pool's reserve.
#[derive(Clone, Copy, Debug, PartialEq, Eq)]
pub struct CompoundYieldExecuted {
    pub pool: Address,
    pub ot_mint: Address,
    pub rwt_claimed: u64,
    pub rwt_side: u8,
    pub reserve_after: u64,
    pub timestamp: i64,
}

/// The nexus was created.
#[derive(Clone, Copy, Debug, PartialEq, Eq)]
pub struct NexusInitialized {
    pub manager: Address,
    pub timestamp: i64,
}

/// The nexus has a new manager.
#[derive(Clone, Copy, Debug, PartialEq, Eq)]
pub struct NexusManagerUpdated {
    pub old_manager: Address,
    pub new_manager: Address,
    pub timestamp: i64,
}

/// A deposit into the nexus.
#[derive(Clone, Copy, Debug, PartialEq, Eq)]
pub struct NexusDeposited {
    pub token_mint: Address,
    pub amount: u64,
    pub new_total_deposited: u64,
    pub source_kind: u8,
    pub timestamp: i64,
}

/// A payout of nexus profit.
#[derive(Clone, Copy, Debug, PartialEq, Eq)]
pub struct NexusProfitsWithdrawn {
    pub token_mint: Address,
    pub amount: u64,
    pub remaining_profit: u64,
    pub treasury_destination: Address,
    pub timestamp: i64,
}

/// A ladder's bid zone moved up.
#[derive(Clone, Copy, Debug, PartialEq, Eq)]
pub struct LiquidityGrew {
    pub pool: Address,
    pub new_nav_bin: i32,
    pub fresh_usdc: u64,
    pub new_active_zone_lower: i32,
    pub timestamp: i64,
}

/// A ladder's bid zone moved down.
#[derive(Clone, Copy, Debug, PartialEq, Eq)]
pub struct LiquidityCompressed {
    pub pool: Address,
    pub new_nav_bin: i32,
    pub new_active_zone_lower: i32,
    pub timestamp: i64,
}

/// A pool's bin liquidity was redistributed.
#[derive(Clone, Copy, Debug, PartialEq, Eq)]
pub struct LiquidityShifted {
    pub pool: Address,
    pub rebalancer: Address,
    pub old_lower: i32,
    pub old_upper: i32,
    pub new_lower: i32,
    pub new_upper: i32,
    pub timestamp: i64,
}

} // verus!
