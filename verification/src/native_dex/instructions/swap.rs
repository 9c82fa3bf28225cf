//! Trades against a pool.
//!
//! Fees are always taken in the reward token. A seller of reward tokens pays them on top of the
//! traded amount; a buyer gets them deducted from what the pool gives. A purchase from a ladder
//! pool is handed to the reward-token engine instead where the pool has nothing to sell, or sells
//! too far above net asset value.
use vstd::prelude::*;

use crate::account::{AccountInfo, Context};
use crate::actions::{transfer_if_any, transfer_unless_zero, TokenTransfer};
use crate::address::{address_eq, Address};
use crate::error::{DexError, ProgramError};
use crate::native_dex::amm::{
    calculate_fees, constant_product_output, curve_trade, fees_of, FeeBreakdown,
};
use crate::native_dex::constants::{
    BPS_DENOMINATOR, CONCENTRATED_SCALE, DexParams, MINT_ROUTE_PRICE_OFFSET_BPS, NAV_SCALE,
    POOL_TYPE_CONCENTRATED, POOL_TYPE_STANDARD, Q64,
};
use crate::native_dex::cpi::{read_rwt_vault_nav, vault_nav, MintRwt};
use crate::native_dex::events::{SwapExecuted, SwapRoutedToMint};
use crate::native_dex::state::{DexConfig, PoolState};
use crate::native_dex::validation::{is_rwt_mint, read_token_account_mint, validate_vault};
use crate::programs::rwt_engine_program_id;
use crate::seeds::{bins_seed, SignedBy};

verus! {

/// The accounts of a trade.
pub struct Swap {
    pub user: AccountInfo,
    pub dex_config: AccountInfo,
    pub pool_state: AccountInfo,
    pub user_token_in: AccountInfo,
    pub user_token_out: AccountInfo,
    pub vault_in: AccountInfo,
    pub vault_out: AccountInfo,
    pub areal_fee_account: AccountInfo,
    pub token_program: AccountInfo,
}

/// The accounts of a trade, whoever makes it.
pub struct SwapAccountsView<'a> {
    pub authority: &'a AccountInfo,
    pub dex_config: &'a AccountInfo,
    pub pool_state: &'a AccountInfo,
    pub user_token_in: &'a AccountInfo,
    pub user_token_out: &'a AccountInfo,
    pub vault_in: &'a AccountInfo,
    pub vault_out: &'a AccountInfo,
    pub areal_fee_account: &'a AccountInfo,
    pub token_program: &'a AccountInfo,
}

impl Swap {
    /// The user makes the trade.
    pub open spec fn as_view(&self) -> SwapAccountsView<'_> {
        SwapAccountsView {
            authority: &self.user,
            dex_config: &self.dex_config,
            pool_state: &self.pool_state,
            user_token_in: &self.user_token_in,
            user_token_out: &self.user_token_out,
            vault_in: &self.vault_in,
            vault_out: &self.vault_out,
            areal_fee_account: &self.areal_fee_account,
            token_program: &self.token_program,
        }
    }

    /// The user makes the trade.
    pub fn view(&self) -> (v: SwapAccountsView<'_>)
        ensures
            v == self.as_view(),
    {
        SwapAccountsView {
            authority: &self.user,
            dex_config: &self.dex_config,
            pool_state: &self.pool_state,
            user_token_in: &self.user_token_in,
            user_token_out: &self.user_token_out,
            vault_in: &self.vault_in,
            vault_out: &self.vault_out,
            areal_fee_account: &self.areal_fee_account,
            token_program: &self.token_program,
        }
    }
}

/// What the price bins of a ladder pool answer to a trade.
#[derive(Clone, Copy, Debug, PartialEq, Eq)]
pub struct BinLedgerReply {
    /// Why the bins could not be read, where they could not.
    pub unreadable: Option<ProgramError>,
    /// Whether any bin above the active one has reward tokens to sell.
    pub has_organic_ask: bool,
    /// Price of the bin after the active one, or nothing where it cannot be held.
    pub best_ask_price_q: Option<u128>,
    /// The walk of the traded amount through the bins.
    pub walk: Result<BinWalk, ProgramError>,
}

/// A walk through the bins.
#[derive(Clone, Copy, Debug, PartialEq, Eq)]
pub struct BinWalk {
    /// What the bins give.
    pub amount_out: u64,
    /// The active bin after the walk.
    pub active_bin_id: i32,
}

/// What a trade gives and costs.
#[derive(Clone, Copy, Debug, PartialEq, Eq)]
pub struct SwapQuote {
    pub amount_out: u64,
    pub fee_lp: u64,
    pub fee_protocol: u64,
    pub fee_ot_treasury: u64,
    /// The pool's active bin after the trade.
    pub active_bin_id: i32,
}

/// An accepted trade.
#[derive(Clone, Copy, Debug, PartialEq, Eq)]
pub struct SwapTrade {
    /// The pool after the trade.
    pub pool: PoolState,
    pub transfer_in: TokenTransfer,
    pub transfer_out: TokenTransfer,
    pub protocol_fee: Option<TokenTransfer>,
    pub ot_treasury_fee: Option<TokenTransfer>,
    pub event: SwapExecuted,
}

/// A purchase handed to the reward-token engine. The pool is left as it is.
#[derive(Clone, Copy, Debug, PartialEq, Eq)]
pub struct MintRoute {
    pub mint: MintRwt,
    pub event: SwapRoutedToMint,
}

/// What an accepted swap does.
#[derive(Clone, Copy, Debug, PartialEq, Eq)]
pub enum SwapOutcome {
    Traded(SwapTrade),
    RoutedToMint(MintRoute),
}

/// The conditions of any trade, in the order in which they are reported.
pub open spec fn swap_checks(
    params: DexParams,
    accounts: SwapAccountsView<'_>,
    remaining: Seq<AccountInfo>,
    config: DexConfig,
    pool: PoolState,
    amount_in: u64,
    a_to_b: bool,
) -> Result<(), ProgramError> {
    let expected_in = if a_to_b { pool.vault_a } else { pool.vault_b };
    let expected_out = if a_to_b { pool.vault_b } else { pool.vault_a };
    if !config.is_active {
        Err(ProgramError::Dex(DexError::DexPaused))
    } else if !pool.is_active {
        Err(ProgramError::Dex(DexError::PoolNotActive))
    } else if amount_in == 0 {
        Err(ProgramError::Dex(DexError::ZeroAmount))
    } else if pool.pool_type == POOL_TYPE_STANDARD && (pool.reserve_a == 0 || pool.reserve_b == 0) {
        Err(ProgramError::Dex(DexError::EmptyReserves))
    } else if accounts.vault_in.address != expected_in || accounts.vault_out.address
        != expected_out {
        Err(ProgramError::Dex(DexError::InvalidVault))
    } else if accounts.areal_fee_account.address != config.areal_fee_destination {
        Err(ProgramError::Dex(DexError::InvalidTokenAccount))
    } else if pool.has_ot_treasury && remaining.len() == 0 {
        Err(ProgramError::Dex(DexError::MissingOtTreasuryAccount))
    } else if pool.has_ot_treasury && remaining[0].address != pool.ot_treasury_fee_destination {
        Err(ProgramError::Dex(DexError::OtTreasuryAccountMismatch))
    } else {
        match accounts.areal_fee_account.token_mint() {
            Err(e) => Err(e),
            Ok(mint) => if mint != params.rwt_mint {
                Err(ProgramError::Dex(DexError::InvalidProtocolFeeDestination))
            } else {
                Ok(())
            },
        }
    }
}

/// Checks the conditions of any trade.
fn check_swap(
    params: &DexParams,
    accounts: &SwapAccountsView<'_>,
    remaining: &Vec<AccountInfo>,
    config: &DexConfig,
    pool: &PoolState,
    amount_in: u64,
    a_to_b: bool,
) -> (r: Result<(), ProgramError>)
    ensures
        r == swap_checks(*params, *accounts, remaining@, *config, *pool, amount_in, a_to_b),
{
    if !config.is_active {
        return Err(ProgramError::Dex(DexError::DexPaused));
    }
    if !pool.is_active {
        return Err(ProgramError::Dex(DexError::PoolNotActive));
    }
    if amount_in == 0 {
        return Err(ProgramError::Dex(DexError::ZeroAmount));
    }
    if pool.pool_type == POOL_TYPE_STANDARD && (pool.reserve_a == 0 || pool.reserve_b == 0) {
        return Err(ProgramError::Dex(DexError::EmptyReserves));
    }
    let (expected_in, expected_out) = if a_to_b {
        (&pool.vault_a, &pool.vault_b)
    } else {
        (&pool.vault_b, &pool.vault_a)
    };
    if let Err(e) = validate_vault(accounts.vault_in, expected_in) {
        return Err(e);
    }
    if let Err(e) = validate_vault(accounts.vault_out, expected_out) {
        return Err(e);
    }
    if !accounts.areal_fee_account.is_at(&config.areal_fee_destination) {
        return Err(ProgramError::Dex(DexError::InvalidTokenAccount));
    }
    if pool.has_ot_treasury {
        if remaining.len() == 0 {
            return Err(ProgramError::Dex(DexError::MissingOtTreasuryAccount));
        }
        if !remaining[0].is_at(&pool.ot_treasury_fee_destination) {
            return Err(ProgramError::Dex(DexError::OtTreasuryAccountMismatch));
        }
    }
    match read_token_account_mint(accounts.areal_fee_account) {
        Err(e) => Err(e),
        Ok(mint) => {
            if is_rwt_mint(&mint, params) {
                Ok(())
            } else {
                Err(ProgramError::Dex(DexError::InvalidProtocolFeeDestination))
            }
        },
    }
}

/// The mint that the trader brings.
pub open spec fn input_mint(pool: PoolState, a_to_b: bool) -> Address {
    if a_to_b {
        pool.token_a_mint
    } else {
        pool.token_b_mint
    }
}

/// Whether the trader brings reward tokens.
pub open spec fn input_is_rwt(params: DexParams, pool: PoolState, a_to_b: bool) -> bool {
    input_mint(pool, a_to_b) == params.rwt_mint
}

/// Whether a trade buys reward tokens with dollars from a ladder pool.
pub open spec fn is_master_purchase(params: DexParams, pool: PoolState, a_to_b: bool) -> bool {
    pool.pool_type == POOL_TYPE_CONCENTRATED && !input_is_rwt(params, pool, a_to_b) && (input_mint(
        pool,
        a_to_b,
    ) == params.usdc_mint || input_mint(pool, a_to_b) == params.usdy_mint)
}

/// Whether a trade buys reward tokens with dollars from a ladder pool.
pub fn is_master_pool_usdc_to_rwt(params: &DexParams, pool: &PoolState, a_to_b: bool) -> (yes: bool)
    ensures
        yes == is_master_purchase(*params, *pool, a_to_b),
{
    let mint = if a_to_b {
        &pool.token_a_mint
    } else {
        &pool.token_b_mint
    };
    pool.pool_type == POOL_TYPE_CONCENTRATED && !is_rwt_mint(mint, params) && (address_eq(
        mint,
        &params.usdc_mint,
    ) || address_eq(mint, &params.usdy_mint))
}

/// The highest ask price that is still traded, in bin-price units: net asset value and half a
/// percent.
pub open spec fn route_threshold(nav: u64) -> int {
    nav * (CONCENTRATED_SCALE / NAV_SCALE) * (BPS_DENOMINATOR + MINT_ROUTE_PRICE_OFFSET_BPS)
        / BPS_DENOMINATOR as int
}

/// Whether a purchase goes to the reward-token engine: the pool has nothing to sell, or its best
/// price is above the threshold.
pub fn should_route_to_mint(
    has_organic_ask: bool,
    nav: u64,
    best_ask_price_q: u128,
    _bin_step_bps: u16,
) -> (route: bool)
    ensures
        route == (!has_organic_ask || best_ask_price_q > route_threshold(nav)),
{
    if !has_organic_ask {
        return true;
    }
    let scale: u128 = CONCENTRATED_SCALE / NAV_SCALE;
    assert(scale == 1_000_000);
    let nav_q: u128 = (nav as u128) * scale;
    let percentage: u128 = BPS_DENOMINATOR as u128 + MINT_ROUTE_PRICE_OFFSET_BPS as u128;
    assert(percentage == 10_050);
    let threshold_q: u128 = nav_q * percentage / (BPS_DENOMINATOR as u128);
    best_ask_price_q > threshold_q
}

/// What a trade asks of the price bins of a ladder pool.
#[derive(Clone, Copy, Debug, PartialEq, Eq)]
pub struct SwapQuestion {
    /// Place of the bins' account among those passed after the named ones.
    pub bins_index: usize,
    /// The bin above which reward tokens for sale are looked for.
    pub active_bin_id: i32,
    /// The bin whose price is the best ask.
    pub next_bin_id: i32,
    pub bin_step_bps: u16,
    /// What is walked through the bins: the whole amount, fees not deducted.
    pub amount_in: u64,
    pub a_to_b: bool,
}

/// What a trade asks of the price bins; nothing where the pool has none.
pub open spec fn bins_question(pool: PoolState, amount_in: u64, a_to_b: bool) -> Option<
    SwapQuestion,
> {
    if pool.pool_type != POOL_TYPE_CONCENTRATED {
        None
    } else {
        Some(
            SwapQuestion {
                bins_index: if pool.has_ot_treasury {
                    1
                } else {
                    0
                },
                active_bin_id: pool.active_bin_id,
                next_bin_id: if pool.active_bin_id == i32::MAX {
                    i32::MAX
                } else {
                    (pool.active_bin_id + 1) as i32
                },
                bin_step_bps: pool.bin_step_bps,
                amount_in,
                a_to_b,
            },
        )
    }
}

/// What a trade asks of the price bins.
pub fn ask_bins(pool: &PoolState, amount_in: u64, a_to_b: bool) -> (q: Option<SwapQuestion>)
    ensures
        q == bins_question(*pool, amount_in, a_to_b),
{
    if pool.pool_type != POOL_TYPE_CONCENTRATED {
        return None;
    }
    let bins_index: usize = if pool.has_ot_treasury {
        1
    } else {
        0
    };
    let next_bin_id: i32 = if pool.active_bin_id == i32::MAX {
        i32::MAX
    } else {
        pool.active_bin_id + 1
    };
    Some(
        SwapQuestion {
            bins_index,
            active_bin_id: pool.active_bin_id,
            next_bin_id,
            bin_step_bps: pool.bin_step_bps,
            amount_in,
            a_to_b,
        },
    )
}

/// Whether the account after `index` others holds the pool's price bins.
pub open spec fn bins_at(
    remaining: Seq<AccountInfo>,
    index: int,
    pool_key: Address,
    program_id: Address,
) -> Result<(), ProgramError> {
    if remaining.len() <= index {
        Err(ProgramError::Dex(DexError::InvalidBinRange))
    } else if !remaining[index].derives_from_2(bins_seed()@, pool_key@, program_id) {
        Err(ProgramError::InvalidSeeds)
    } else {
        Ok(())
    }
}

/// Checks that the account after `index` others holds the pool's price bins.
pub fn check_bins(
    remaining: &Vec<AccountInfo>,
    index: usize,
    pool_key: &Address,
    program_id: &Address,
) -> (r: Result<(), ProgramError>)
    ensures
        r == bins_at(remaining@, index as int, *pool_key, *program_id),
{
    if remaining.len() <= index {
        return Err(ProgramError::Dex(DexError::InvalidBinRange));
    }
    let seed = bins_seed();
    if !remaining[index].is_derived_2(seed.as_slice(), pool_key.as_slice(), program_id) {
        return Err(ProgramError::InvalidSeeds);
    }
    Ok(())
}

/// The decision on a purchase from a ladder pool: nothing where it is traded, the mint call where
/// it is handed to the reward-token engine.
pub open spec fn route(
    params: DexParams,
    accounts: SwapAccountsView<'_>,
    remaining: Seq<AccountInfo>,
    program_id: Address,
    ledger: BinLedgerReply,
    amount_in: u64,
    min_amount_out: u64,
    signed_by: SignedBy,
    now: i64,
) -> Result<Option<MintRoute>, ProgramError> {
    match bins_at(remaining, 0, accounts.pool_state.address, program_id) {
        Err(e) => Err(e),
        Ok(_) => match (ledger.unreadable, ledger.best_ask_price_q) {
            (Some(e), _) => Err(e),
            (None, None) => Err(ProgramError::Dex(DexError::PriceOverflow)),
            (None, Some(best_ask_price_q)) => if remaining.len() < 6 {
                Err(ProgramError::Dex(DexError::MissingMintRouteAccounts))
            } else {
                match vault_nav(remaining[1], params) {
                    Err(e) => Err(e),
                    Ok(nav) => if ledger.has_organic_ask && best_ask_price_q <= route_threshold(
                        nav,
                    ) {
                        Ok(None)
                    } else {
                        match accounts.user_token_out.token_mint() {
                            Err(e) => Err(e),
                            Ok(mint) => if mint != params.rwt_mint {
                                Err(ProgramError::Dex(DexError::InvalidRwtMint))
                            } else if remaining[5].address != rwt_engine_program_id()
                                || signed_by !is Transaction {
                                Err(ProgramError::Dex(DexError::InvalidRwtVault))
                            } else {
                                Ok(
                                    Some(
                                        MintRoute {
                                            mint: MintRwt {
                                                user: accounts.authority.address,
                                                rwt_vault: remaining[1].address,
                                                rwt_mint: remaining[2].address,
                                                user_deposit: accounts.user_token_in.address,
                                                user_rwt: accounts.user_token_out.address,
                                                capital_acc: remaining[3].address,
                                                dao_fee_account: remaining[4].address,
                                                token_program: accounts.token_program.address,
                                                rwt_engine_program: remaining[5].address,
                                                amount_in,
                                                min_rwt_out: min_amount_out,
                                            },
                                            event: SwapRoutedToMint {
                                                pool: accounts.pool_state.address,
                                                user: accounts.authority.address,
                                                amount_in,
                                                nav_at_route: nav,
                                                best_ask_price_q,
                                                timestamp: now,
                                            },
                                        },
                                    ),
                                )
                            },
                        }
                    },
                }
            },
        },
    }
}

/// Decides whether a purchase from a ladder pool is handed to the reward-token engine.
fn decide_route(
    params: &DexParams,
    accounts: &SwapAccountsView<'_>,
    remaining: &Vec<AccountInfo>,
    program_id: &Address,
    ledger: &BinLedgerReply,
    bin_step_bps: u16,
    amount_in: u64,
    min_amount_out: u64,
    signed_by: &SignedBy,
    now: i64,
) -> (r: Result<Option<MintRoute>, ProgramError>)
    ensures
        r == route(
            *params,
            *accounts,
            remaining@,
            *program_id,
            *ledger,
            amount_in,
            min_amount_out,
            *signed_by,
            now,
        ),
{
    if let Err(e) = check_bins(remaining, 0, &accounts.pool_state.address, program_id) {
        return Err(e);
    }
    if let Some(e) = ledger.unreadable {
        return Err(e);
    }
    let best_ask_price_q: u128 = match ledger.best_ask_price_q {
        None => {
            return Err(ProgramError::Dex(DexError::PriceOverflow));
        },
        Some(price) => price,
    };
    if remaining.len() < 6 {
        return Err(ProgramError::Dex(DexError::MissingMintRouteAccounts));
    }
    let nav: u64 = match read_rwt_vault_nav(&remaining[1], params) {
        Err(e) => {
            return Err(e);
        },
        Ok(nav) => nav,
    };
    if !should_route_to_mint(ledger.has_organic_ask, nav, best_ask_price_q, bin_step_bps) {
        return Ok(None);
    }
    match read_token_account_mint(accounts.user_token_out) {
        Err(e) => {
            return Err(e);
        },
        Ok(mint) => {
            if !is_rwt_mint(&mint, params) {
                return Err(ProgramError::Dex(DexError::InvalidRwtMint));
            }
        },
    }
    let engine = rwt_engine_program_id();
    if !remaining[5].is_at(&engine) || !signed_by.is_transaction() {
        return Err(ProgramError::Dex(DexError::InvalidRwtVault));
    }
    Ok(
        Some(
            MintRoute {
                mint: MintRwt {
                    user: accounts.authority.address,
                    rwt_vault: remaining[1].address,
                    rwt_mint: remaining[2].address,
                    user_deposit: accounts.user_token_in.address,
                    user_rwt: accounts.user_token_out.address,
                    capital_acc: remaining[3].address,
                    dao_fee_account: remaining[4].address,
                    token_program: accounts.token_program.address,
                    rwt_engine_program: remaining[5].address,
                    amount_in,
                    min_rwt_out: min_amount_out,
                },
                event: SwapRoutedToMint {
                    pool: accounts.pool_state.address,
                    user: accounts.authority.address,
                    amount_in,
                    nav_at_route: nav,
                    best_ask_price_q,
                    timestamp: now,
                },
            },
        ),
    )
}

/// What the pool gives before fees, and its active bin afterwards.
pub open spec fn gross_output(
    pool: PoolState,
    remaining: Seq<AccountInfo>,
    pool_key: Address,
    program_id: Address,
    ledger: BinLedgerReply,
    amount_in: u64,
    a_to_b: bool,
) -> Result<BinWalk, ProgramError> {
    if pool.pool_type == POOL_TYPE_CONCENTRATED {
        match bins_at(
            remaining,
            if pool.has_ot_treasury { 1 } else { 0 },
            pool_key,
            program_id,
        ) {
            Err(e) => Err(e),
            Ok(_) => match ledger.unreadable {
                Some(e) => Err(e),
                None => ledger.walk,
            },
        }
    } else {
        let reserve_in = if a_to_b { pool.reserve_a } else { pool.reserve_b };
        let reserve_out = if a_to_b { pool.reserve_b } else { pool.reserve_a };
        match curve_trade(reserve_in, reserve_out, amount_in) {
            Err(e) => Err(e),
            Ok(amount_out) => Ok(BinWalk { amount_out, active_bin_id: pool.active_bin_id }),
        }
    }
}

/// What the pool gives before fees.
fn find_gross_output(
    pool: &PoolState,
    remaining: &Vec<AccountInfo>,
    pool_key: &Address,
    program_id: &Address,
    ledger: &BinLedgerReply,
    amount_in: u64,
    a_to_b: bool,
) -> (r: Result<BinWalk, ProgramError>)
    ensures
        r == gross_output(*pool, remaining@, *pool_key, *program_id, *ledger, amount_in, a_to_b),
{
    if pool.pool_type == POOL_TYPE_CONCENTRATED {
        let index: usize = if pool.has_ot_treasury {
            1
        } else {
            0
        };
        if let Err(e) = check_bins(remaining, index, pool_key, program_id) {
            return Err(e);
        }
        if let Some(e) = ledger.unreadable {
            return Err(e);
        }
        return ledger.walk;
    }
    let (reserve_in, reserve_out): (u64, u64) = if a_to_b {
        (pool.reserve_a, pool.reserve_b)
    } else {
        (pool.reserve_b, pool.reserve_a)
    };
    match constant_product_output(reserve_in, reserve_out, amount_in) {
        Err(e) => Err(e),
        Ok(amount_out) => Ok(BinWalk { amount_out, active_bin_id: pool.active_bin_id }),
    }
}

/// The quote of a trade that the pool answers with `gross`.
pub open spec fn quote_of(
    gross: BinWalk,
    fees: FeeBreakdown,
    input_is_rwt: bool,
) -> Result<SwapQuote, ProgramError> {
    let deducted: int = if input_is_rwt { 0 } else { fees.fee_total + fees.ot_treasury_fee };
    if deducted > gross.amount_out {
        Err(ProgramError::Dex(DexError::MathOverflow))
    } else {
        Ok(
            SwapQuote {
                amount_out: (gross.amount_out - deducted) as u64,
                fee_lp: fees.fee_lp,
                fee_protocol: fees.fee_protocol,
                fee_ot_treasury: fees.ot_treasury_fee,
                active_bin_id: gross.active_bin_id,
            },
        )
    }
}

/// What a trade gives and costs.
pub open spec fn quote(
    params: DexParams,
    config: DexConfig,
    pool: PoolState,
    remaining: Seq<AccountInfo>,
    pool_key: Address,
    program_id: Address,
    ledger: BinLedgerReply,
    amount_in: u64,
    a_to_b: bool,
) -> Result<SwapQuote, ProgramError> {
    let gross = gross_output(pool, remaining, pool_key, program_id, ledger, amount_in, a_to_b);
    if input_is_rwt(params, pool, a_to_b) {
        match fees_of(
            amount_in,
            pool.fee_bps,
            config.lp_fee_share_bps,
            pool.has_ot_treasury,
            params.ot_treasury_fee_bps,
        ) {
            Err(e) => Err(e),
            Ok(fees) => match gross {
                Err(e) => Err(e),
                Ok(g) => quote_of(g, fees, true),
            },
        }
    } else {
        match gross {
            Err(e) => Err(e),
            Ok(g) => match fees_of(
                g.amount_out,
                pool.fee_bps,
                config.lp_fee_share_bps,
                pool.has_ot_treasury,
                params.ot_treasury_fee_bps,
            ) {
                Err(e) => Err(e),
                Ok(fees) => quote_of(g, fees, false),
            },
        }
    }
}

/// Quotes a trade.
fn find_quote(
    params: &DexParams,
    config: &DexConfig,
    pool: &PoolState,
    remaining: &Vec<AccountInfo>,
    pool_key: &Address,
    program_id: &Address,
    ledger: &BinLedgerReply,
    amount_in: u64,
    a_to_b: bool,
) -> (r: Result<SwapQuote, ProgramError>)
    ensures
        r == quote(
            *params,
            *config,
            *pool,
            remaining@,
            *pool_key,
            *program_id,
            *ledger,
            amount_in,
            a_to_b,
        ),
{
    let mint = if a_to_b {
        &pool.token_a_mint
    } else {
        &pool.token_b_mint
    };
    let input_is_rwt = is_rwt_mint(mint, params);
    if input_is_rwt {
        let fees = match calculate_fees(
            amount_in,
            pool.fee_bps,
            config.lp_fee_share_bps,
            pool.has_ot_treasury,
            params.ot_treasury_fee_bps,
        ) {
            Err(e) => {
                return Err(e);
            },
            Ok(fees) => fees,
        };
        match find_gross_output(pool, remaining, pool_key, program_id, ledger, amount_in, a_to_b) {
            Err(e) => Err(e),
            Ok(gross) => Ok(
                SwapQuote {
                    amount_out: gross.amount_out,
                    fee_lp: fees.fee_lp,
                    fee_protocol: fees.fee_protocol,
                    fee_ot_treasury: fees.ot_treasury_fee,
                    active_bin_id: gross.active_bin_id,
                },
            ),
        }
    } else {
        let gross = match find_gross_output(
            pool,
            remaining,
            pool_key,
            program_id,
            ledger,
            amount_in,
            a_to_b,
        ) {
            Err(e) => {
                return Err(e);
            },
            Ok(gross) => gross,
        };
        let fees = match calculate_fees(
            gross.amount_out,
            pool.fee_bps,
            config.lp_fee_share_bps,
            pool.has_ot_treasury,
            params.ot_treasury_fee_bps,
        ) {
            Err(e) => {
                return Err(e);
            },
            Ok(fees) => fees,
        };
        let deducted: u64 = match fees.fee_total.checked_add(fees.ot_treasury_fee) {
            None => {
                return Err(ProgramError::Dex(DexError::MathOverflow));
            },
            Some(deducted) => deducted,
        };
        match gross.amount_out.checked_sub(deducted) {
            None => Err(ProgramError::Dex(DexError::MathOverflow)),
            Some(amount_out) => Ok(
                SwapQuote {
                    amount_out,
                    fee_lp: fees.fee_lp,
                    fee_protocol: fees.fee_protocol,
                    fee_ot_treasury: fees.ot_treasury_fee,
                    active_bin_id: gross.active_bin_id,
                },
            ),
        }
    }
}

/// What one fee adds to the fees per share, scaled by `Q64`.
pub open spec fn fee_per_share(fee_lp: u64, total_lp_shares: u128) -> int {
    if fee_lp == 0 || total_lp_shares == 0 {
        0
    } else {
        fee_lp * Q64 / total_lp_shares as int
    }
}

/// The pool with a fee credited to the shares of one side.
pub open spec fn accrued(pool: PoolState, fee_lp: u64, rwt_is_side_a: bool) -> Result<
    PoolState,
    ProgramError,
> {
    let delta = fee_per_share(fee_lp, pool.total_lp_shares);
    let side = if rwt_is_side_a {
        pool.cumulative_fees_per_share_a
    } else {
        pool.cumulative_fees_per_share_b
    };
    if side + delta > u128::MAX {
        Err(ProgramError::Dex(DexError::MathOverflow))
    } else if rwt_is_side_a {
        Ok(PoolState { cumulative_fees_per_share_a: (side + delta) as u128, ..pool })
    } else {
        Ok(PoolState { cumulative_fees_per_share_b: (side + delta) as u128, ..pool })
    }
}

/// Credits a fee to the shares of the reward-token side. Does nothing while nobody holds shares.
pub fn accrue_lp_fee_per_share(pool: &mut PoolState, fee_lp: u64, rwt_is_side_a: bool) -> (r: Result<
    (),
    ProgramError,
>)
    ensures
        r is Ok <==> accrued(*old(pool), fee_lp, rwt_is_side_a) is Ok,
        r is Ok ==> accrued(*old(pool), fee_lp, rwt_is_side_a) == Ok::<PoolState, ProgramError>(
            *final(pool),
        ),
        r matches Err(e) ==> e == ProgramError::Dex(DexError::MathOverflow) && *final(pool) == *old(
            pool,
        ),
{
    if pool.total_lp_shares == 0 || fee_lp == 0 {
        return Ok(());
    }
    let delta: u128 = (fee_lp as u128) * Q64 / pool.total_lp_shares;
    if rwt_is_side_a {
        match pool.cumulative_fees_per_share_a.checked_add(delta) {
            None => {
                return Err(ProgramError::Dex(DexError::MathOverflow));
            },
            Some(sum) => {
                pool.cumulative_fees_per_share_a = sum;
            },
        }
    } else {
        match pool.cumulative_fees_per_share_b.checked_add(delta) {
            None => {
                return Err(ProgramError::Dex(DexError::MathOverflow));
            },
            Some(sum) => {
                pool.cumulative_fees_per_share_b = sum;
            },
        }
    }
    Ok(())
}

/// What leaves the reserve that pays out: the trader's part, and in a purchase the fees too.
pub open spec fn leaves_reserve(quote: SwapQuote, input_is_rwt: bool) -> int {
    if input_is_rwt {
        quote.amount_out as int
    } else {
        quote.amount_out + quote.fee_protocol + quote.fee_ot_treasury + quote.fee_lp
    }
}

/// The pool after a trade, before the providers' fee is credited.
pub open spec fn traded_pool(
    pool: PoolState,
    quote: SwapQuote,
    amount_in: u64,
    a_to_b: bool,
    input_is_rwt: bool,
) -> Result<PoolState, ProgramError> {
    let leaves = leaves_reserve(quote, input_is_rwt);
    let reserve_in = if a_to_b { pool.reserve_a } else { pool.reserve_b } + amount_in;
    let reserve_out = if a_to_b { pool.reserve_b } else { pool.reserve_a } - leaves;
    if reserve_in > u64::MAX || reserve_out < 0 {
        Err(ProgramError::Dex(DexError::MathOverflow))
    } else {
        Ok(
            PoolState {
                reserve_a: if a_to_b { reserve_in as u64 } else { reserve_out as u64 },
                reserve_b: if a_to_b { reserve_out as u64 } else { reserve_in as u64 },
                active_bin_id: quote.active_bin_id,
                ..pool
            },
        )
    }
}

/// The pool after a settled trade.
pub open spec fn settled_pool(
    pool: PoolState,
    quote: SwapQuote,
    amount_in: u64,
    a_to_b: bool,
    input_is_rwt: bool,
) -> Result<PoolState, ProgramError> {
    let fees = pool.total_fees_accumulated + quote.fee_lp + quote.fee_protocol
        + quote.fee_ot_treasury;
    match traded_pool(pool, quote, amount_in, a_to_b, input_is_rwt) {
        Err(e) => Err(e),
        Ok(traded) => match accrued(traded, quote.fee_lp, a_to_b == input_is_rwt) {
            Err(e) => Err(e),
            Ok(credited) => if fees > u64::MAX {
                Err(ProgramError::Dex(DexError::MathOverflow))
            } else {
                Ok(PoolState { total_fees_accumulated: fees as u64, ..credited })
            },
        },
    }
}

/// `a + b + c + d`, where it fits.
pub fn checked_sum(a: u64, b: u64, c: u64, d: u64) -> (sum: Option<u64>)
    ensures
        sum == (if a + b + c + d > u64::MAX {
            None::<u64>
        } else {
            Some((a + b + c + d) as u64)
        }),
{
    let wide: u128 = a as u128 + b as u128 + c as u128 + d as u128;
    if wide > u64::MAX as u128 {
        None
    } else {
        Some(wide as u64)
    }
}

/// Moves the traded amounts between the reserves, credits the providers' fee to the reward-token
/// side and counts the fees.
pub fn settle(
    pool: &PoolState,
    quote: &SwapQuote,
    amount_in: u64,
    a_to_b: bool,
    input_is_rwt: bool,
) -> (r: Result<PoolState, ProgramError>)
    ensures
        r == settled_pool(*pool, *quote, amount_in, a_to_b, input_is_rwt),
{
    let leaves: u64 = if input_is_rwt {
        quote.amount_out
    } else {
        match checked_sum(
            quote.amount_out,
            quote.fee_protocol,
            quote.fee_ot_treasury,
            quote.fee_lp,
        ) {
            None => {
                return Err(ProgramError::Dex(DexError::MathOverflow));
            },
            Some(leaves) => leaves,
        }
    };
    let (before_in, before_out): (u64, u64) = if a_to_b {
        (pool.reserve_a, pool.reserve_b)
    } else {
        (pool.reserve_b, pool.reserve_a)
    };
    let (reserve_in, reserve_out): (u64, u64) = match (
        before_in.checked_add(amount_in),
        before_out.checked_sub(leaves),
    ) {
        (Some(reserve_in), Some(reserve_out)) => (reserve_in, reserve_out),
        _ => {
            return Err(ProgramError::Dex(DexError::MathOverflow));
        },
    };
    let mut settled = *pool;
    settled.active_bin_id = quote.active_bin_id;
    if a_to_b {
        settled.reserve_a = reserve_in;
        settled.reserve_b = reserve_out;
    } else {
        settled.reserve_b = reserve_in;
        settled.reserve_a = reserve_out;
    }
    if let Err(e) = accrue_lp_fee_per_share(&mut settled, quote.fee_lp, a_to_b == input_is_rwt) {
        return Err(e);
    }
    match checked_sum(
        pool.total_fees_accumulated,
        quote.fee_lp,
        quote.fee_protocol,
        quote.fee_ot_treasury,
    ) {
        None => Err(ProgramError::Dex(DexError::MathOverflow)),
        Some(fees) => {
            settled.total_fees_accumulated = fees;
            Ok(settled)
        },
    }
}

/// The pool's own signature.
pub open spec fn pool_signature(pool: PoolState) -> SignedBy {
    SignedBy::Pool {
        token_a_mint: pool.token_a_mint,
        token_b_mint: pool.token_b_mint,
        bump: pool.bump,
    }
}

/// The pool's own signature.
pub fn signature_of(pool: &PoolState) -> (signed_by: SignedBy)
    ensures
        signed_by == pool_signature(*pool),
{
    SignedBy::Pool {
        token_a_mint: pool.token_a_mint,
        token_b_mint: pool.token_b_mint,
        bump: pool.bump,
    }
}

/// What the trader is debited: a seller of reward tokens pays the fees on top.
pub open spec fn total_debit(amount_in: u64, quote: SwapQuote, input_is_rwt: bool) -> int {
    if input_is_rwt {
        amount_in + quote.fee_lp + quote.fee_protocol + quote.fee_ot_treasury
    } else {
        amount_in as int
    }
}

/// A trade at `quote`.
pub open spec fn trade_at(
    params: DexParams,
    accounts: SwapAccountsView<'_>,
    remaining: Seq<AccountInfo>,
    pool: PoolState,
    quote: SwapQuote,
    amount_in: u64,
    min_amount_out: u64,
    a_to_b: bool,
    signed_by: SignedBy,
    now: i64,
) -> Result<SwapTrade, ProgramError> {
    let rwt_in = input_is_rwt(params, pool, a_to_b);
    let debit = total_debit(amount_in, quote, rwt_in);
    let rwt_vault = if rwt_in { accounts.vault_in.address } else { accounts.vault_out.address };
    if quote.amount_out == 0 {
        Err(ProgramError::Dex(DexError::ZeroOutput))
    } else if quote.amount_out < min_amount_out {
        Err(ProgramError::Dex(DexError::SlippageExceeded))
    } else {
        match settled_pool(pool, quote, amount_in, a_to_b, rwt_in) {
            Err(e) => Err(e),
            Ok(settled) => if debit > u64::MAX {
                Err(ProgramError::Dex(DexError::MathOverflow))
            } else {
                Ok(
                    SwapTrade {
                        pool: settled,
                        transfer_in: TokenTransfer {
                            from: accounts.user_token_in.address,
                            to: accounts.vault_in.address,
                            authority: accounts.authority.address,
                            amount: debit as u64,
                            signed_by,
                        },
                        transfer_out: TokenTransfer {
                            from: accounts.vault_out.address,
                            to: accounts.user_token_out.address,
                            authority: accounts.pool_state.address,
                            amount: quote.amount_out,
                            signed_by: pool_signature(pool),
                        },
                        protocol_fee: transfer_if_any(
                            rwt_vault,
                            accounts.areal_fee_account.address,
                            accounts.pool_state.address,
                            quote.fee_protocol,
                            pool_signature(pool),
                        ),
                        ot_treasury_fee: transfer_if_any(
                            rwt_vault,
                            remaining[0].address,
                            accounts.pool_state.address,
                            quote.fee_ot_treasury,
                            pool_signature(pool),
                        ),
                        event: SwapExecuted {
                            pool: accounts.pool_state.address,
                            user: accounts.authority.address,
                            a_to_b,
                            amount_in,
                            amount_out: quote.amount_out,
                            fee_lp: quote.fee_lp,
                            fee_protocol: quote.fee_protocol,
                            fee_ot_treasury: quote.fee_ot_treasury,
                            timestamp: now,
                        },
                    },
                )
            },
        }
    }
}

/// Trades at `quote`. A treasury fee needs the treasury's account.
pub fn trade(
    params: &DexParams,
    accounts: &SwapAccountsView<'_>,
    remaining: &Vec<AccountInfo>,
    pool: &PoolState,
    quote: &SwapQuote,
    amount_in: u64,
    min_amount_out: u64,
    a_to_b: bool,
    signed_by: &SignedBy,
    now: i64,
) -> (r: Result<SwapTrade, ProgramError>)
    requires
        quote.fee_ot_treasury > 0 ==> remaining@.len() > 0,
    ensures
        r == trade_at(
            *params,
            *accounts,
            remaining@,
            *pool,
            *quote,
            amount_in,
            min_amount_out,
            a_to_b,
            *signed_by,
            now,
        ),
{
    if quote.amount_out == 0 {
        return Err(ProgramError::Dex(DexError::ZeroOutput));
    }
    if quote.amount_out < min_amount_out {
        return Err(ProgramError::Dex(DexError::SlippageExceeded));
    }
    let mint = if a_to_b {
        &pool.token_a_mint
    } else {
        &pool.token_b_mint
    };
    let rwt_in = is_rwt_mint(mint, params);
    let settled = match settle(pool, quote, amount_in, a_to_b, rwt_in) {
        Err(e) => {
            return Err(e);
        },
        Ok(settled) => settled,
    };
    let debit: u64 = if rwt_in {
        match checked_sum(amount_in, quote.fee_lp, quote.fee_protocol, quote.fee_ot_treasury) {
            None => {
                return Err(ProgramError::Dex(DexError::MathOverflow));
            },
            Some(debit) => debit,
        }
    } else {
        amount_in
    };
    let pool_key = accounts.pool_state.address;
    let signature = signature_of(pool);
    let rwt_vault = if rwt_in {
        accounts.vault_in.address
    } else {
        accounts.vault_out.address
    };
    let ot_treasury_fee = if quote.fee_ot_treasury > 0 {
        transfer_unless_zero(
            &rwt_vault,
            &remaining[0].address,
            &pool_key,
            quote.fee_ot_treasury,
            &signature,
        )
    } else {
        None
    };
    Ok(
        SwapTrade {
            pool: settled,
            transfer_in: TokenTransfer {
                from: accounts.user_token_in.address,
                to: accounts.vault_in.address,
                authority: accounts.authority.address,
                amount: debit,
                signed_by: *signed_by,
            },
            transfer_out: TokenTransfer {
                from: accounts.vault_out.address,
                to: accounts.user_token_out.address,
                authority: pool_key,
                amount: quote.amount_out,
                signed_by: signature,
            },
            protocol_fee: transfer_unless_zero(
                &rwt_vault,
                &accounts.areal_fee_account.address,
                &pool_key,
                quote.fee_protocol,
                &signature,
            ),
            ot_treasury_fee,
            event: SwapExecuted {
                pool: pool_key,
                user: accounts.authority.address,
                a_to_b,
                amount_in,
                amount_out: quote.amount_out,
                fee_lp: quote.fee_lp,
                fee_protocol: quote.fee_protocol,
                fee_ot_treasury: quote.fee_ot_treasury,
                timestamp: now,
            },
        },
    )
}

/// What a swap does, or why it is refused.
pub open spec fn swap_result(
    params: DexParams,
    accounts: SwapAccountsView<'_>,
    remaining: Seq<AccountInfo>,
    program_id: Address,
    config: DexConfig,
    pool: PoolState,
    ledger: BinLedgerReply,
    amount_in: u64,
    min_amount_out: u64,
    a_to_b: bool,
    signed_by: SignedBy,
    now: i64,
) -> Result<SwapOutcome, ProgramError> {
    let routed = if is_master_purchase(params, pool, a_to_b) {
        route(
            params,
            accounts,
            remaining,
            program_id,
            ledger,
            amount_in,
            min_amount_out,
            signed_by,
            now,
        )
    } else {
        Ok(None)
    };
    match swap_checks(params, accounts, remaining, config, pool, amount_in, a_to_b) {
        Err(e) => Err(e),
        Ok(_) => match routed {
            Err(e) => Err(e),
            Ok(Some(minted)) => Ok(SwapOutcome::RoutedToMint(minted)),
            Ok(None) => match quote(
                params,
                config,
                pool,
                remaining,
                accounts.pool_state.address,
                program_id,
                ledger,
                amount_in,
                a_to_b,
            ) {
                Err(e) => Err(e),
                Ok(q) => match trade_at(
                    params,
                    accounts,
                    remaining,
                    pool,
                    q,
                    amount_in,
                    min_amount_out,
                    a_to_b,
                    signed_by,
                    now,
                ) {
                    Err(e) => Err(e),
                    Ok(traded) => Ok(SwapOutcome::Traded(traded)),
                },
            },
        },
    }
}

/// The trade of any caller; `signed_by` says whose signature moves the tokens in.
pub fn swap_internal(
    params: &DexParams,
    accounts: &SwapAccountsView<'_>,
    remaining: &Vec<AccountInfo>,
    program_id: &Address,
    config: &DexConfig,
    pool: &PoolState,
    ledger: &BinLedgerReply,
    amount_in: u64,
    min_amount_out: u64,
    a_to_b: bool,
    signed_by: &SignedBy,
    now: i64,
) -> (r: Result<SwapOutcome, ProgramError>)
    ensures
        r == swap_result(
            *params,
            *accounts,
            remaining@,
            *program_id,
            *config,
            *pool,
            *ledger,
            amount_in,
            min_amount_out,
            a_to_b,
            *signed_by,
            now,
        ),
{
    if let Err(e) = check_swap(params, accounts, remaining, config, pool, amount_in, a_to_b) {
        return Err(e);
    }
    if is_master_pool_usdc_to_rwt(params, pool, a_to_b) {
        match decide_route(
            params,
            accounts,
            remaining,
            program_id,
            ledger,
            pool.bin_step_bps,
            amount_in,
            min_amount_out,
            signed_by,
            now,
        ) {
            Err(e) => {
                return Err(e);
            },
            Ok(Some(minted)) => {
                return Ok(SwapOutcome::RoutedToMint(minted));
            },
            Ok(None) => {},
        }
    }
    let quote = match find_quote(
        params,
        config,
        pool,
        remaining,
        &accounts.pool_state.address,
        program_id,
        ledger,
        amount_in,
        a_to_b,
    ) {
        Err(e) => {
            return Err(e);
        },
        Ok(quote) => quote,
    };
    match trade(
        params,
        accounts,
        remaining,
        pool,
        &quote,
        amount_in,
        min_amount_out,
        a_to_b,
        signed_by,
        now,
    ) {
        Err(e) => Err(e),
        Ok(traded) => Ok(SwapOutcome::Traded(traded)),
    }
}

/// A trade that the user signs.
pub fn handler(
    ctx: &Context<'_, Swap>,
    params: &DexParams,
    config: &DexConfig,
    pool: &PoolState,
    ledger: &BinLedgerReply,
    amount_in: u64,
    min_amount_out: u64,
    a_to_b: bool,
) -> (r: Result<SwapOutcome, ProgramError>)
    ensures
        r == swap_result(
            *params,
            ctx.accounts.as_view(),
            ctx.remaining_accounts@,
            *ctx.program_id,
            *config,
            *pool,
            *ledger,
            amount_in,
            min_amount_out,
            a_to_b,
            SignedBy::Transaction,
            ctx.now,
        ),
{
    swap_internal(
        params,
        &ctx.accounts.view(),
        ctx.remaining_accounts,
        ctx.program_id,
        config,
        pool,
        ledger,
        amount_in,
        min_amount_out,
        a_to_b,
        &SignedBy::Transaction,
        ctx.now,
    )
}

} // verus!
