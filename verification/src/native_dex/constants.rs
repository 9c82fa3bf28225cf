//! Fixed numbers of the exchange, and the values each deployment pins.
use vstd::prelude::*;

use crate::address::Address;

verus! {

/// Pool type of a constant-product pool.
pub const POOL_TYPE_STANDARD: u8 = 0;

/// Pool type of a ladder (concentrated) pool.
pub const POOL_TYPE_CONCENTRATED: u8 = 1;

/// Basis points in a whole.
pub const BPS_DENOMINATOR: u64 = 10_000;

/// Fixed-point one of bin prices.
pub const CONCENTRATED_SCALE: u128 = 1_000_000_000_000;

/// Fixed-point one of the net asset value.
pub const NAV_SCALE: u128 = 1_000_000;

/// How far above net asset value an ask may be priced before a purchase is minted instead.
pub const MINT_ROUTE_PRICE_OFFSET_BPS: u64 = 50;

/// Number of price bins of a ladder pool.
pub const MAX_BINS: usize = 1000;

/// Width of the dense bid zone of a ladder pool, in bins.
pub const ACTIVE_ZONE_WIDTH: u16 = 40;

/// Free bins that must remain above the net-asset-value bin after growth.
pub const RIGHT_EDGE_BUFFER_BINS: i32 = 10;

/// Length of the permanent tail of a ladder pool, in bins.
pub const PERMANENT_TAIL_BIN_COUNT: i32 = 70;

/// Least distance of the permanent tail below the initial price.
pub const MIN_PERMANENT_TAIL_OFFSET_BPS: i32 = 30;

/// Greatest distance of the permanent tail below the initial price, and the usual one.
pub const DEFAULT_PERMANENT_TAIL_OFFSET_BPS: i32 = 100;

/// Length of the creator whitelist.
pub const MAX_POOL_CREATORS: usize = 10;

/// Tag of a deposit of dollars into the nexus.
pub const TOKEN_KIND_USDC: u8 = 0;

/// Tag of a deposit of reward tokens into the nexus.
pub const TOKEN_KIND_RWT: u8 = 1;

/// A nexus deposit made by a wallet.
pub const NEXUS_DEPOSIT_SOURCE_DIRECT: u8 = 0;

/// A nexus deposit drained from the yield program's holding account.
pub const NEXUS_DEPOSIT_SOURCE_LIQUIDITY_HOLDING: u8 = 1;

/// Length of the marker in front of the reward vault's fields.
pub const RWT_VAULT_DISC_LEN: usize = 8;

/// Where the net asset value stands among the reward vault's fields.
pub const RWT_VAULT_NAV_OFFSET: usize = 24;

/// Size of a token account.
pub const SPL_TOKEN_ACCOUNT_SIZE: u64 = 165;

/// `2` to the power of `64`: the fixed-point one of the fee accumulators.
pub const Q64: u128 = 0x1_0000_0000_0000_0000;

/// Addresses, limits and rates that a deployment pins.
#[derive(Clone, Copy, Debug, PartialEq, Eq)]
pub struct DexParams {
    /// Mint of the reward token, one side of every pool.
    pub rwt_mint: Address,
    /// Mint of the dollar token; all zero while unpinned.
    pub usdc_mint: Address,
    /// Mint of the yield-bearing dollar token; all zero while unpinned.
    pub usdy_mint: Address,
    /// Marker of the reward vault's account data.
    pub rwt_vault_discriminator: [u8; 8],
    /// Shares burned by the first deposit.
    pub min_liquidity: u64,
    /// Rate of the ownership-token treasury's fee.
    pub ot_treasury_fee_bps: u16,
    /// Trading fee of a new exchange.
    pub default_base_fee_bps: u16,
    /// Liquidity providers' part of the trading fee of a new exchange.
    pub default_lp_fee_share_bps: u16,
    /// Highest trading fee.
    pub max_fee_bps: u16,
    /// Widest bin step.
    pub max_bin_step_bps: u16,
    /// Largest distance of the first active bin from bin zero.
    pub max_initial_active_bin: i32,
    /// Largest distance of one liquidity shift.
    pub max_shift_distance: i32,
}

} // verus!
