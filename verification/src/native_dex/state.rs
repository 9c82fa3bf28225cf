//! The accounts of the exchange.
use vstd::prelude::*;

use crate::address::Address;
use crate::native_dex::constants::{MAX_BINS, MAX_POOL_CREATORS};

verus! {

/// Global configuration, one per exchange.
#[derive(Clone, Copy, Debug, PartialEq, Eq)]
pub struct DexConfig {
    pub authority: Address,
    /// The proposed next authority; all zero where none is proposed.
    pub pending_authority: Address,
    pub has_pending: bool,
    pub pause_authority: Address,
    pub base_fee_bps: u16,
    pub lp_fee_share_bps: u16,
    pub areal_fee_destination: Address,
    pub rebalancer: Address,
    pub is_active: bool,
    pub bump: u8,
}

impl DexConfig {
    /// Bytes of the fields.
    pub const SIZE: usize = 167;

    /// Bytes of the account, marker included.
    pub const SPACE: usize = 175;
}

/// One pool.
#[derive(Clone, Copy, Debug, PartialEq, Eq)]
pub struct PoolState {
    pub pool_type: u8,
    pub token_a_mint: Address,
    pub token_b_mint: Address,
    pub vault_a: Address,
    pub vault_b: Address,
    pub reserve_a: u64,
    pub reserve_b: u64,
    pub total_lp_shares: u128,
    /// Trading fee, fixed when the pool is created.
    pub fee_bps: u16,
    pub is_active: bool,
    pub total_fees_accumulated: u64,
    /// Zero for a constant-product pool.
    pub bin_step_bps: u16,
    /// Zero for a constant-product pool.
    pub active_bin_id: i32,
    /// All zero where the pool pays no treasury fee.
    pub ot_treasury_fee_destination: Address,
    pub has_ot_treasury: bool,
    pub bump: u8,
    /// Fees per share that side A has accrued since the pool was made, scaled by `Q64`.
    pub cumulative_fees_per_share_a: u128,
    /// Fees per share that side B has accrued since the pool was made, scaled by `Q64`.
    pub cumulative_fees_per_share_b: u128,
    /// Leftmost bin of the ladder.
    pub left_anchor_bin: i32,
    /// Lower end of the permanent tail.
    pub permanent_tail_floor_bin: i32,
    /// Net-asset-value bin of the latest rebalance.
    pub last_rebalance_nav_bin: i32,
    /// Lower edge of the dense bid zone.
    pub active_zone_lower: i32,
    pub permanent_tail_offset_bps: u16,
    pub _pad_monotonic: [u8; 2],
}

impl PoolState {
    /// Bytes of the fields.
    pub const SIZE: usize = 264;

    /// Bytes of the account, marker included.
    pub const SPACE: usize = 272;
}

/// The wallets that may create pools.
#[derive(Clone, Copy, Debug, PartialEq, Eq)]
pub struct PoolCreators {
    pub authority: Address,
    pub creators: [[u8; 32]; 10],
    pub active_count: u8,
    pub bump: u8,
}

impl PoolCreators {
    /// Bytes of the fields.
    pub const SIZE: usize = 354;

    /// Bytes of the account, marker included.
    pub const SPACE: usize = 362;

    /// The count of listed wallets fits the list.
    pub open spec fn wf(&self) -> bool {
        self.active_count <= MAX_POOL_CREATORS
    }

    /// Whether the count of listed wallets fits the list.
    pub fn is_wf(&self) -> (yes: bool)
        ensures
            yes == self.wf(),
    {
        self.active_count as usize <= MAX_POOL_CREATORS
    }

    /// The listed wallets, in order.
    pub open spec fn listed(&self) -> Seq<Address> {
        self.creators@.take(self.active_count as int)
    }
}

/// One provider's share of one pool.
#[derive(Clone, Copy, Debug, PartialEq, Eq)]
pub struct LpPosition {
    pub pool: Address,
    pub owner: Address,
    pub shares: u128,
    pub last_update_ts: i64,
    pub bump: u8,
    /// The pool's side-A accumulator when this position was last settled.
    pub fees_claimed_per_share_a: u128,
    /// The pool's side-B accumulator when this position was last settled.
    pub fees_claimed_per_share_b: u128,
}

impl LpPosition {
    /// Bytes of the fields.
    pub const SIZE: usize = 121;

    /// Bytes of the account, marker included.
    pub const SPACE: usize = 129;
}

/// Liquidity of one price bin.
#[derive(Clone, Copy, Debug, PartialEq, Eq)]
pub struct Bin {
    /// Reward tokens: the ask side.
    pub liquidity_a: u64,
    /// Dollars: the bid side.
    pub liquidity_b: u64,
}

/// The price bins of one ladder pool.
#[derive(Clone, Copy, Debug, PartialEq, Eq)]
pub struct BinArray {
    pub pool: Address,
    pub bins: [Bin; 1000],
    pub lower_bin_id: i32,
    pub bin_step_bps: u16,
    pub active_bin_id: i32,
    pub bump: u8,
}

impl BinArray {
    /// Bytes of the fields.
    pub const SIZE: usize = 16_043;

    /// Bytes of the account, marker included.
    pub const SPACE: usize = 16_051;

    /// Whether every bin has a number.
    pub open spec fn wf(&self) -> bool {
        self.lower_bin_id + MAX_BINS - 1 <= i32::MAX
    }

    /// Whether every bin has a number.
    pub fn is_wf(&self) -> (yes: bool)
        ensures
            yes == self.wf(),
    {
        self.lower_bin_id as i64 + MAX_BINS as i64 - 1 <= i32::MAX as i64
    }
}

/// The protocol's own liquidity manager, one per exchange.
#[derive(Clone, Copy, Debug, PartialEq, Eq)]
pub struct LiquidityNexus {
    /// The wallet that trades for the nexus; all zero switches trading off.
    pub manager: Address,
    /// Dollars deposited so far. Never falls.
    pub total_deposited_usdc: u64,
    /// Reward tokens deposited so far. Never falls.
    pub total_deposited_rwt: u64,
    pub is_active: bool,
    pub bump: u8,
}

impl LiquidityNexus {
    /// Bytes of the fields.
    pub const SIZE: usize = 50;

    /// Bytes of the account, marker included.
    pub const SPACE: usize = 58;
}

} // verus!
