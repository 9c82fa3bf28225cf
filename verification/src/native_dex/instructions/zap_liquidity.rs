//! Deposits of any two amounts: half of what is out of balance is traded inside the pool first.
use vstd::prelude::*;

use crate::account::{AccountInfo, Context};
use crate::actions::{transfer_if_any, transfer_unless_zero, CreateAccount, TokenTransfer};
use crate::address::Address;
use crate::error::{DexError, ProgramError};
use crate::math::{mul_div_floor, mul_div_u64};
use crate::native_dex::amm::{
    calculate_fees, calculate_lp_shares, constant_product_output, curve_trade, fees_of, lp_shares,
};
use crate::native_dex::constants::DexParams;
use crate::native_dex::events::ZapLiquidityExecuted;
use crate::native_dex::instructions::add_liquidity::{
    auto_claim, auto_claim_lp_fees, balance_deposit, balanced, credit_position, credited,
    deposit_into_pool, deposited_pool, enforce_user_lp_allowed, user_lp_allowed, AutoClaim,
};
use crate::native_dex::instructions::swap::{
    accrue_lp_fee_per_share, accrued, checked_sum, pool_signature, signature_of,
};
use crate::native_dex::state::{DexConfig, LpPosition, PoolState};
use crate::native_dex::validation::{is_rwt_mint, read_token_account_mint, validate_vault};
use crate::seeds::SignedBy;

verus! {

/// The accounts of a zap.
pub struct ZapLiquidity {
    pub provider: AccountInfo,
    pub payer: AccountInfo,
    pub dex_config: AccountInfo,
    pub pool_state: AccountInfo,
    pub lp_position: AccountInfo,
    pub provider_token_a: AccountInfo,
    pub provider_token_b: AccountInfo,
    pub vault_a: AccountInfo,
    pub vault_b: AccountInfo,
    pub areal_fee_account: AccountInfo,
    pub token_program: AccountInfo,
    pub system_program: AccountInfo,
}

/// The accounts of a zap, whoever makes it.
pub struct ZapLiquidityAccountsView<'a> {
    pub authority: &'a AccountInfo,
    pub payer: &'a AccountInfo,
    pub dex_config: &'a AccountInfo,
    pub pool_state: &'a AccountInfo,
    pub lp_position: &'a AccountInfo,
    pub provider_token_a: &'a AccountInfo,
    pub provider_token_b: &'a AccountInfo,
    pub vault_a: &'a AccountInfo,
    pub vault_b: &'a AccountInfo,
    pub areal_fee_account: &'a AccountInfo,
}

impl ZapLiquidity {
    /// The provider makes the zap.
    pub open spec fn as_view(&self) -> ZapLiquidityAccountsView<'_> {
        ZapLiquidityAccountsView {
            authority: &self.provider,
            payer: &self.payer,
            dex_config: &self.dex_config,
            pool_state: &self.pool_state,
            lp_position: &self.lp_position,
            provider_token_a: &self.provider_token_a,
            provider_token_b: &self.provider_token_b,
            vault_a: &self.vault_a,
            vault_b: &self.vault_b,
            areal_fee_account: &self.areal_fee_account,
        }
    }

    /// The provider makes the zap.
    pub fn view(&self) -> (v: ZapLiquidityAccountsView<'_>)
        ensures
            v == self.as_view(),
    {
        ZapLiquidityAccountsView {
            authority: &self.provider,
            payer: &self.payer,
            dex_config: &self.dex_config,
            pool_state: &self.pool_state,
            lp_position: &self.lp_position,
            provider_token_a: &self.provider_token_a,
            provider_token_b: &self.provider_token_b,
            vault_a: &self.vault_a,
            vault_b: &self.vault_b,
            areal_fee_account: &self.areal_fee_account,
        }
    }
}

/// What the trade inside a zap gives, and its three fees: the providers', the protocol's and the
/// treasury's.
pub open spec fn internal_trade(
    amount_in: u64,
    reserve_in: u64,
    reserve_out: u64,
    input_is_rwt: bool,
    fee_bps: u16,
    lp_fee_share_bps: u16,
    has_ot_treasury: bool,
    ot_treasury_fee_bps: u16,
) -> Result<(u64, u64, u64, u64), ProgramError> {
    match curve_trade(reserve_in, reserve_out, amount_in) {
        Err(e) => Err(e),
        Ok(gross) => match fees_of(
            if input_is_rwt { amount_in } else { gross },
            fee_bps,
            lp_fee_share_bps,
            has_ot_treasury,
            ot_treasury_fee_bps,
        ) {
            Err(e) => Err(e),
            Ok(fees) => {
                let deducted: int = if input_is_rwt { 0 } else { fees.fee_total
                    + fees.ot_treasury_fee };
                if deducted > gross {
                    Err(ProgramError::Dex(DexError::MathOverflow))
                } else {
                    Ok(
                        (
                            (gross - deducted) as u64,
                            fees.fee_lp,
                            fees.fee_protocol,
                            fees.ot_treasury_fee,
                        ),
                    )
                }
            },
        },
    }
}

/// The trade inside a zap. All of `amount_in` enters the curve. Where it is reward tokens the fees
/// come on top of it; otherwise they are deducted from what the curve gives.
pub fn internal_swap(
    amount_in: u64,
    reserve_in: u64,
    reserve_out: u64,
    input_is_rwt: bool,
    fee_bps: u16,
    lp_fee_share_bps: u16,
    has_ot_treasury: bool,
    ot_treasury_fee_bps: u16,
) -> (r: Result<(u64, u64, u64, u64), ProgramError>)
    ensures
        r == internal_trade(
            amount_in,
            reserve_in,
            reserve_out,
            input_is_rwt,
            fee_bps,
            lp_fee_share_bps,
            has_ot_treasury,
            ot_treasury_fee_bps,
        ),
{
    let gross: u64 = match constant_product_output(reserve_in, reserve_out, amount_in) {
        Err(e) => {
            return Err(e);
        },
        Ok(gross) => gross,
    };
    let base: u64 = if input_is_rwt {
        amount_in
    } else {
        gross
    };
    let fees = match calculate_fees(
        base,
        fee_bps,
        lp_fee_share_bps,
        has_ot_treasury,
        ot_treasury_fee_bps,
    ) {
        Err(e) => {
            return Err(e);
        },
        Ok(fees) => fees,
    };
    if input_is_rwt {
        return Ok((gross, fees.fee_lp, fees.fee_protocol, fees.ot_treasury_fee));
    }
    let deducted: u64 = match fees.fee_total.checked_add(fees.ot_treasury_fee) {
        None => {
            return Err(ProgramError::Dex(DexError::MathOverflow));
        },
        Some(deducted) => deducted,
    };
    match gross.checked_sub(deducted) {
        None => Err(ProgramError::Dex(DexError::MathOverflow)),
        Some(amount_out) => Ok(
            (amount_out, fees.fee_lp, fees.fee_protocol, fees.ot_treasury_fee),
        ),
    }
}

/// A zap's two amounts once its excess was traded.
#[derive(Clone, Copy, Debug, PartialEq, Eq)]
pub struct ZapPlan {
    /// What is left to deposit.
    pub final_a: u64,
    pub final_b: u64,
    /// What was traded, of the side in excess.
    pub swapped_amount: u64,
    pub fee_lp: u64,
    pub fee_protocol: u64,
    pub fee_ot_treasury: u64,
    /// Fees that the provider pays on top, on the side of the reward token.
    pub extra_a: u64,
    pub extra_b: u64,
    /// The pool after the trade.
    pub pool: PoolState,
}

/// A zap that needs no trade.
pub open spec fn untraded(pool: PoolState, amount_a: u64, amount_b: u64) -> ZapPlan {
    ZapPlan {
        final_a: amount_a,
        final_b: amount_b,
        swapped_amount: 0,
        fee_lp: 0,
        fee_protocol: 0,
        fee_ot_treasury: 0,
        extra_a: 0,
        extra_b: 0,
        pool,
    }
}

/// The pool after a trade of `amount_in` for `amount_out` and fees, with the providers' fee
/// credited.
pub open spec fn zapped_pool(
    pool: PoolState,
    amount_in: u64,
    amount_out: u64,
    fees: int,
    fee_lp: u64,
    a_to_b: bool,
    input_is_rwt: bool,
) -> Result<PoolState, ProgramError> {
    let leaves: int = if input_is_rwt { amount_out as int } else { amount_out + fees };
    let reserve_in = if a_to_b { pool.reserve_a } else { pool.reserve_b } + amount_in;
    let reserve_out = if a_to_b { pool.reserve_b } else { pool.reserve_a } - leaves;
    if reserve_in > u64::MAX || reserve_out < 0 {
        Err(ProgramError::Dex(DexError::MathOverflow))
    } else {
        accrued(
            PoolState {
                reserve_a: if a_to_b { reserve_in as u64 } else { reserve_out as u64 },
                reserve_b: if a_to_b { reserve_out as u64 } else { reserve_in as u64 },
                ..pool
            },
            fee_lp,
            a_to_b == input_is_rwt,
        )
    }
}

/// A zap that trades `swap_amount` of the side in excess: A for B, or B for A.
pub open spec fn traded(
    params: DexParams,
    config: DexConfig,
    pool: PoolState,
    amount_a: u64,
    amount_b: u64,
    swap_amount: u64,
    a_to_b: bool,
) -> Result<ZapPlan, ProgramError> {
    let rwt_in = if a_to_b { pool.token_a_mint } else { pool.token_b_mint } == params.rwt_mint;
    match internal_trade(
        swap_amount,
        if a_to_b { pool.reserve_a } else { pool.reserve_b },
        if a_to_b { pool.reserve_b } else { pool.reserve_a },
        rwt_in,
        pool.fee_bps,
        config.lp_fee_share_bps,
        pool.has_ot_treasury,
        params.ot_treasury_fee_bps,
    ) {
        Err(e) => Err(e),
        Ok((out, fee_lp, fee_protocol, fee_ot_treasury)) => {
            let fees = fee_lp + fee_protocol + fee_ot_treasury;
            let extra = if rwt_in { fees } else { 0 };
            let kept = if a_to_b { amount_a } else { amount_b } - swap_amount;
            let gained = if a_to_b { amount_b } else { amount_a } + out;
            match zapped_pool(pool, swap_amount, out, fees, fee_lp, a_to_b, rwt_in) {
                Err(e) => Err(e),
                Ok(pool_after) => if extra > u64::MAX || kept < 0 || gained > u64::MAX {
                    Err(ProgramError::Dex(DexError::MathOverflow))
                } else {
                    Ok(
                        ZapPlan {
                            final_a: if a_to_b { kept as u64 } else { gained as u64 },
                            final_b: if a_to_b { gained as u64 } else { kept as u64 },
                            swapped_amount: swap_amount,
                            fee_lp,
                            fee_protocol,
                            fee_ot_treasury,
                            extra_a: if a_to_b { extra as u64 } else { 0 },
                            extra_b: if a_to_b { 0 } else { extra as u64 },
                            pool: pool_after,
                        },
                    )
                },
            }
        },
    }
}

/// A zap that trades `swap_amount` of the side in excess.
fn plan_trade(
    params: &DexParams,
    config: &DexConfig,
    pool: &PoolState,
    amount_a: u64,
    amount_b: u64,
    swap_amount: u64,
    a_to_b: bool,
) -> (r: Result<ZapPlan, ProgramError>)
    requires
        swap_amount > 0,
    ensures
        r == traded(*params, *config, *pool, amount_a, amount_b, swap_amount, a_to_b),
{
    let mint = if a_to_b {
        &pool.token_a_mint
    } else {
        &pool.token_b_mint
    };
    let rwt_in = is_rwt_mint(mint, params);
    let (before_in, before_out): (u64, u64) = if a_to_b {
        (pool.reserve_a, pool.reserve_b)
    } else {
        (pool.reserve_b, pool.reserve_a)
    };
    let (out, fee_lp, fee_protocol, fee_ot_treasury): (u64, u64, u64, u64) = match internal_swap(
        swap_amount,
        before_in,
        before_out,
        rwt_in,
        pool.fee_bps,
        config.lp_fee_share_bps,
        pool.has_ot_treasury,
        params.ot_treasury_fee_bps,
    ) {
        Err(e) => {
            return Err(e);
        },
        Ok(quote) => quote,
    };
    let fees = checked_sum(0, fee_lp, fee_protocol, fee_ot_treasury);
    let leaves = if rwt_in {
        Some(out)
    } else {
        checked_sum(out, fee_lp, fee_protocol, fee_ot_treasury)
    };
    let (reserve_in, reserve_out): (u64, u64) = match (before_in.checked_add(swap_amount), leaves) {
        (Some(reserve_in), Some(leaves)) => match before_out.checked_sub(leaves) {
            Some(reserve_out) => (reserve_in, reserve_out),
            None => {
                return Err(ProgramError::Dex(DexError::MathOverflow));
            },
        },
        _ => {
            return Err(ProgramError::Dex(DexError::MathOverflow));
        },
    };
    let mut pool_after = *pool;
    if a_to_b {
        pool_after.reserve_a = reserve_in;
        pool_after.reserve_b = reserve_out;
    } else {
        pool_after.reserve_b = reserve_in;
        pool_after.reserve_a = reserve_out;
    }
    if let Err(e) = accrue_lp_fee_per_share(&mut pool_after, fee_lp, a_to_b == rwt_in) {
        return Err(e);
    }
    let extra: u64 = if rwt_in {
        match fees {
            None => {
                return Err(ProgramError::Dex(DexError::MathOverflow));
            },
            Some(fees) => fees,
        }
    } else {
        0
    };
    let (have_in, have_out): (u64, u64) = if a_to_b {
        (amount_a, amount_b)
    } else {
        (amount_b, amount_a)
    };
    match (have_in.checked_sub(swap_amount), have_out.checked_add(out)) {
        (Some(kept), Some(gained)) => Ok(
            ZapPlan {
                final_a: if a_to_b {
                    kept
                } else {
                    gained
                },
                final_b: if a_to_b {
                    gained
                } else {
                    kept
                },
                swapped_amount: swap_amount,
                fee_lp,
                fee_protocol,
                fee_ot_treasury,
                extra_a: if a_to_b {
                    extra
                } else {
                    0
                },
                extra_b: if a_to_b {
                    0
                } else {
                    extra
                },
                pool: pool_after,
            },
        ),
        _ => Err(ProgramError::Dex(DexError::MathOverflow)),
    }
}

/// How much of which side a zap into a pool with reserves trades: half of what exceeds the
/// reserves' ratio, and whether that is side A.
pub open spec fn zap_excess(pool: PoolState, amount_a: u64, amount_b: u64) -> Result<
    (u64, bool),
    ProgramError,
> {
    match mul_div_floor(amount_a as int, pool.reserve_b as int, pool.reserve_a as int) {
        None => Err(ProgramError::Dex(DexError::MathOverflow)),
        Some(a_in_b) => if a_in_b <= amount_b {
            Ok((((amount_b - a_in_b) / 2) as u64, false))
        } else {
            match mul_div_floor(amount_b as int, pool.reserve_a as int, pool.reserve_b as int) {
                None => Err(ProgramError::Dex(DexError::MathOverflow)),
                Some(b_in_a) => if b_in_a >= amount_a {
                    Ok((0u64, true))
                } else {
                    Ok((((amount_a - b_in_a) / 2) as u64, true))
                },
            }
        },
    }
}

/// How much of which side a zap trades.
fn find_excess(pool: &PoolState, amount_a: u64, amount_b: u64) -> (r: Result<
    (u64, bool),
    ProgramError,
>)
    ensures
        r == zap_excess(*pool, amount_a, amount_b),
{
    match mul_div_u64(amount_a, pool.reserve_b, pool.reserve_a) {
        None => Err(ProgramError::Dex(DexError::MathOverflow)),
        Some(a_in_b) => {
            if a_in_b <= amount_b {
                return Ok(((amount_b - a_in_b) / 2, false));
            }
            match mul_div_u64(amount_b, pool.reserve_a, pool.reserve_b) {
                None => Err(ProgramError::Dex(DexError::MathOverflow)),
                Some(b_in_a) => {
                    if b_in_a >= amount_a {
                        Ok((0, true))
                    } else {
                        Ok(((amount_a - b_in_a) / 2, true))
                    }
                },
            }
        },
    }
}

/// A zap's two amounts once its excess was traded. An empty pool takes both as they are.
pub open spec fn zap_plan(
    params: DexParams,
    config: DexConfig,
    pool: PoolState,
    amount_a: u64,
    amount_b: u64,
) -> Result<ZapPlan, ProgramError> {
    if pool.reserve_a == 0 && pool.reserve_b == 0 {
        if amount_a == 0 || amount_b == 0 {
            Err(ProgramError::Dex(DexError::ZeroAmount))
        } else {
            Ok(untraded(pool, amount_a, amount_b))
        }
    } else {
        match zap_excess(pool, amount_a, amount_b) {
            Err(e) => Err(e),
            Ok((swap_amount, a_to_b)) => if swap_amount == 0 {
                Ok(untraded(pool, amount_a, amount_b))
            } else {
                traded(params, config, pool, amount_a, amount_b, swap_amount, a_to_b)
            },
        }
    }
}

/// Plans a zap.
pub fn plan_zap(
    params: &DexParams,
    config: &DexConfig,
    pool: &PoolState,
    amount_a: u64,
    amount_b: u64,
) -> (r: Result<ZapPlan, ProgramError>)
    ensures
        r == zap_plan(*params, *config, *pool, amount_a, amount_b),
{
    let unchanged = ZapPlan {
        final_a: amount_a,
        final_b: amount_b,
        swapped_amount: 0,
        fee_lp: 0,
        fee_protocol: 0,
        fee_ot_treasury: 0,
        extra_a: 0,
        extra_b: 0,
        pool: *pool,
    };
    if pool.reserve_a == 0 && pool.reserve_b == 0 {
        if amount_a == 0 || amount_b == 0 {
            return Err(ProgramError::Dex(DexError::ZeroAmount));
        }
        return Ok(unchanged);
    }
    match find_excess(pool, amount_a, amount_b) {
        Err(e) => Err(e),
        Ok((swap_amount, a_to_b)) => {
            if swap_amount == 0 {
                Ok(unchanged)
            } else {
                plan_trade(params, config, pool, amount_a, amount_b, swap_amount, a_to_b)
            }
        },
    }
}

/// An accepted zap.
#[derive(Clone, Copy, Debug, PartialEq, Eq)]
pub struct ZapOutcome {
    /// The pool after the zap.
    pub pool: PoolState,
    pub position: LpPosition,
    /// The creation of the position's account, where it is new.
    pub create_position: Option<CreateAccount>,
    pub transfer_a: Option<TokenTransfer>,
    pub transfer_b: Option<TokenTransfer>,
    /// The payouts of what the position had accrued.
    pub claims: AutoClaim,
    pub protocol_fee: Option<TokenTransfer>,
    pub ot_treasury_fee: Option<TokenTransfer>,
    pub event: ZapLiquidityExecuted,
}

/// The conditions of a zap, in the order in which they are reported.
pub open spec fn zap_checks(
    params: DexParams,
    accounts: ZapLiquidityAccountsView<'_>,
    remaining: Seq<AccountInfo>,
    config: DexConfig,
    pool: PoolState,
    amount_a: u64,
    amount_b: u64,
) -> Result<(), ProgramError> {
    if !config.is_active {
        Err(ProgramError::Dex(DexError::DexPaused))
    } else if !pool.is_active {
        Err(ProgramError::Dex(DexError::PoolNotActive))
    } else if amount_a == 0 && amount_b == 0 {
        Err(ProgramError::Dex(DexError::ZeroAmount))
    } else if accounts.vault_a.address != pool.vault_a || accounts.vault_b.address
        != pool.vault_b {
        Err(ProgramError::Dex(DexError::InvalidVault))
    } else if accounts.areal_fee_account.address != config.areal_fee_destination {
        Err(ProgramError::Dex(DexError::InvalidTokenAccount))
    } else {
        match accounts.areal_fee_account.token_mint() {
            Err(e) => Err(e),
            Ok(mint) => if mint != params.rwt_mint {
                Err(ProgramError::Dex(DexError::InvalidProtocolFeeDestination))
            } else if pool.has_ot_treasury && remaining.len() == 0 {
                Err(ProgramError::Dex(DexError::MissingOtTreasuryAccount))
            } else if pool.has_ot_treasury && remaining[0].address
                != pool.ot_treasury_fee_destination {
                Err(ProgramError::Dex(DexError::OtTreasuryAccountMismatch))
            } else {
                Ok(())
            },
        }
    }
}

/// Checks the conditions of a zap.
fn check_zap(
    params: &DexParams,
    accounts: &ZapLiquidityAccountsView<'_>,
    remaining: &Vec<AccountInfo>,
    config: &DexConfig,
    pool: &PoolState,
    amount_a: u64,
    amount_b: u64,
) -> (r: Result<(), ProgramError>)
    ensures
        r == zap_checks(*params, *accounts, remaining@, *config, *pool, amount_a, amount_b),
{
    if !config.is_active {
        return Err(ProgramError::Dex(DexError::DexPaused));
    }
    if !pool.is_active {
        return Err(ProgramError::Dex(DexError::PoolNotActive));
    }
    if amount_a == 0 && amount_b == 0 {
        return Err(ProgramError::Dex(DexError::ZeroAmount));
    }
    if let Err(e) = validate_vault(accounts.vault_a, &pool.vault_a) {
        return Err(e);
    }
    if let Err(e) = validate_vault(accounts.vault_b, &pool.vault_b) {
        return Err(e);
    }
    if !accounts.areal_fee_account.is_at(&config.areal_fee_destination) {
        return Err(ProgramError::Dex(DexError::InvalidTokenAccount));
    }
    match read_token_account_mint(accounts.areal_fee_account) {
        Err(e) => {
            return Err(e);
        },
        Ok(mint) => {
            if !is_rwt_mint(&mint, params) {
                return Err(ProgramError::Dex(DexError::InvalidProtocolFeeDestination));
            }
        },
    }
    if pool.has_ot_treasury {
        if remaining.len() == 0 {
            return Err(ProgramError::Dex(DexError::MissingOtTreasuryAccount));
        }
        if !remaining[0].is_at(&pool.ot_treasury_fee_destination) {
            return Err(ProgramError::Dex(DexError::OtTreasuryAccountMismatch));
        }
    }
    Ok(())
}

/// What a planned zap deposits: a first deposit all of both amounts, a later one what balances.
pub open spec fn zap_deposit(plan: ZapPlan) -> Result<(u64, u64), ProgramError> {
    if plan.pool.total_lp_shares == 0 {
        Ok((plan.final_a, plan.final_b))
    } else {
        balanced(plan.final_a, plan.final_b, plan.pool.reserve_a, plan.pool.reserve_b)
    }
}

/// The shares of a planned zap that deposits the given amounts.
pub open spec fn zap_shares(
    plan: ZapPlan,
    deposit_a: u64,
    deposit_b: u64,
    min_liquidity: u64,
    min_shares: u128,
) -> Result<u128, ProgramError> {
    if deposit_a == 0 || deposit_b == 0 {
        Err(ProgramError::Dex(DexError::ZeroOutput))
    } else {
        match lp_shares(
            deposit_a,
            deposit_b,
            plan.pool.reserve_a,
            plan.pool.reserve_b,
            plan.pool.total_lp_shares,
            plan.pool.total_lp_shares == 0,
            min_liquidity,
        ) {
            Err(e) => Err(e),
            Ok(shares) => if shares == 0 {
                Err(ProgramError::Dex(DexError::ZeroOutput))
            } else if shares < min_shares {
                Err(ProgramError::Dex(DexError::SlippageExceeded))
            } else {
                Ok(shares)
            },
        }
    }
}

/// What a planned zap adds to the two reserves: on the reward-token side all that is left after
/// the trade, so that this side's vault is its reserve and the providers' fees to the unit; on the
/// other side the balanced deposit, so that what exceeds it stays in the vault uncounted.
pub open spec fn zap_booking(
    params: DexParams,
    plan: ZapPlan,
    deposit_a: u64,
    deposit_b: u64,
) -> (u64, u64) {
    (
        if plan.pool.token_a_mint == params.rwt_mint { plan.final_a } else { deposit_a },
        if plan.pool.token_b_mint == params.rwt_mint { plan.final_b } else { deposit_b },
    )
}

/// The pool after a planned zap that adds the booked amounts to the reserves.
pub open spec fn zap_pool(
    plan: ZapPlan,
    booked_a: u64,
    booked_b: u64,
    shares: u128,
    min_liquidity: u64,
) -> Result<PoolState, ProgramError> {
    let fees = plan.pool.total_fees_accumulated + plan.fee_lp + plan.fee_protocol
        + plan.fee_ot_treasury;
    match deposited_pool(plan.pool, booked_a, booked_b, shares, min_liquidity) {
        Err(e) => Err(e),
        Ok(deposited) => if fees > u64::MAX {
            Err(ProgramError::Dex(DexError::MathOverflow))
        } else {
            Ok(PoolState { total_fees_accumulated: fees as u64, ..deposited })
        },
    }
}

/// A zap as planned.
pub open spec fn zap_at(
    params: DexParams,
    accounts: ZapLiquidityAccountsView<'_>,
    remaining: Seq<AccountInfo>,
    program_id: Address,
    existing: Option<LpPosition>,
    plan: ZapPlan,
    amount_a: u64,
    amount_b: u64,
    min_shares: u128,
    signed_by: SignedBy,
    now: i64,
) -> Result<ZapOutcome, ProgramError> {
    let pool_key = accounts.pool_state.address;
    let provider_key = accounts.authority.address;
    let rwt_vault = if plan.pool.token_a_mint == params.rwt_mint {
        accounts.vault_a.address
    } else {
        accounts.vault_b.address
    };
    match zap_deposit(plan) {
        Err(e) => Err(e),
        Ok((deposit_a, deposit_b)) => match zap_shares(
            plan,
            deposit_a,
            deposit_b,
            params.min_liquidity,
            min_shares,
        ) {
            Err(e) => Err(e),
            Ok(shares) => match zap_pool(
                plan,
                zap_booking(params, plan, deposit_a, deposit_b).0,
                zap_booking(params, plan, deposit_a, deposit_b).1,
                shares,
                params.min_liquidity,
            ) {
                Err(e) => Err(e),
                Ok(pool_after) => match credited(
                    existing,
                    plan.pool,
                    shares,
                    accounts.payer.address,
                    accounts.lp_position.address,
                    program_id,
                    pool_key,
                    provider_key,
                    now,
                ) {
                    Err(e) => Err(e),
                    Ok(update) => if amount_a + plan.extra_a > u64::MAX || amount_b + plan.extra_b
                        > u64::MAX {
                        Err(ProgramError::Dex(DexError::MathOverflow))
                    } else {
                        Ok(
                            ZapOutcome {
                                pool: pool_after,
                                position: update.position,
                                create_position: update.create,
                                transfer_a: transfer_if_any(
                                    accounts.provider_token_a.address,
                                    accounts.vault_a.address,
                                    provider_key,
                                    (amount_a + plan.extra_a) as u64,
                                    signed_by,
                                ),
                                transfer_b: transfer_if_any(
                                    accounts.provider_token_b.address,
                                    accounts.vault_b.address,
                                    provider_key,
                                    (amount_b + plan.extra_b) as u64,
                                    signed_by,
                                ),
                                claims: auto_claim(
                                    accounts.vault_a.address,
                                    accounts.vault_b.address,
                                    accounts.provider_token_a.address,
                                    accounts.provider_token_b.address,
                                    pool_key,
                                    provider_key,
                                    plan.pool,
                                    update.claim_a,
                                    update.claim_b,
                                    now,
                                ),
                                protocol_fee: transfer_if_any(
                                    rwt_vault,
                                    accounts.areal_fee_account.address,
                                    pool_key,
                                    plan.fee_protocol,
                                    pool_signature(plan.pool),
                                ),
                                ot_treasury_fee: transfer_if_any(
                                    rwt_vault,
                                    remaining[0].address,
                                    pool_key,
                                    plan.fee_ot_treasury,
                                    pool_signature(plan.pool),
                                ),
                                event: ZapLiquidityExecuted {
                                    pool: pool_key,
                                    provider: provider_key,
                                    input_a: amount_a,
                                    input_b: amount_b,
                                    swapped_amount: plan.swapped_amount,
                                    shares_minted: shares,
                                    timestamp: now,
                                },
                            },
                        )
                    },
                },
            },
        },
    }
}

/// Carries out a planned zap. A treasury fee needs the treasury's account.
pub fn zap(
    params: &DexParams,
    accounts: &ZapLiquidityAccountsView<'_>,
    remaining: &Vec<AccountInfo>,
    program_id: &Address,
    existing: &Option<LpPosition>,
    plan: &ZapPlan,
    amount_a: u64,
    amount_b: u64,
    min_shares: u128,
    signed_by: &SignedBy,
    now: i64,
) -> (r: Result<ZapOutcome, ProgramError>)
    requires
        plan.fee_ot_treasury > 0 ==> remaining@.len() > 0,
    ensures
        r == zap_at(
            *params,
            *accounts,
            remaining@,
            *program_id,
            *existing,
            *plan,
            amount_a,
            amount_b,
            min_shares,
            *signed_by,
            now,
        ),
{
    let is_first = plan.pool.total_lp_shares == 0;
    let (deposit_a, deposit_b): (u64, u64) = if is_first {
        (plan.final_a, plan.final_b)
    } else {
        match balance_deposit(
            plan.final_a,
            plan.final_b,
            plan.pool.reserve_a,
            plan.pool.reserve_b,
        ) {
            Err(e) => {
                return Err(e);
            },
            Ok(deposit) => deposit,
        }
    };
    if deposit_a == 0 || deposit_b == 0 {
        return Err(ProgramError::Dex(DexError::ZeroOutput));
    }
    let shares: u128 = match calculate_lp_shares(
        deposit_a,
        deposit_b,
        plan.pool.reserve_a,
        plan.pool.reserve_b,
        plan.pool.total_lp_shares,
        is_first,
        params.min_liquidity,
    ) {
        Err(e) => {
            return Err(e);
        },
        Ok(shares) => shares,
    };
    if shares == 0 {
        return Err(ProgramError::Dex(DexError::ZeroOutput));
    }
    if shares < min_shares {
        return Err(ProgramError::Dex(DexError::SlippageExceeded));
    }
    let booked_a: u64 = if is_rwt_mint(&plan.pool.token_a_mint, params) {
        plan.final_a
    } else {
        deposit_a
    };
    let booked_b: u64 = if is_rwt_mint(&plan.pool.token_b_mint, params) {
        plan.final_b
    } else {
        deposit_b
    };
    let mut pool_after = match deposit_into_pool(
        &plan.pool,
        booked_a,
        booked_b,
        shares,
        params.min_liquidity,
    ) {
        Err(e) => {
            return Err(e);
        },
        Ok(pool_after) => pool_after,
    };
    match checked_sum(
        plan.pool.total_fees_accumulated,
        plan.fee_lp,
        plan.fee_protocol,
        plan.fee_ot_treasury,
    ) {
        None => {
            return Err(ProgramError::Dex(DexError::MathOverflow));
        },
        Some(fees) => {
            pool_after.total_fees_accumulated = fees;
        },
    }
    let pool_key = accounts.pool_state.address;
    let provider_key = accounts.authority.address;
    let update = match credit_position(
        existing,
        &plan.pool,
        shares,
        &accounts.payer.address,
        &accounts.lp_position.address,
        program_id,
        &pool_key,
        &provider_key,
        now,
    ) {
        Err(e) => {
            return Err(e);
        },
        Ok(update) => update,
    };
    let (inbound_a, inbound_b): (u64, u64) = match (
        amount_a.checked_add(plan.extra_a),
        amount_b.checked_add(plan.extra_b),
    ) {
        (Some(inbound_a), Some(inbound_b)) => (inbound_a, inbound_b),
        _ => {
            return Err(ProgramError::Dex(DexError::MathOverflow));
        },
    };
    let signature = signature_of(&plan.pool);
    let rwt_vault = if is_rwt_mint(&plan.pool.token_a_mint, params) {
        accounts.vault_a.address
    } else {
        accounts.vault_b.address
    };
    let ot_treasury_fee = if plan.fee_ot_treasury > 0 {
        transfer_unless_zero(
            &rwt_vault,
            &remaining[0].address,
            &pool_key,
            plan.fee_ot_treasury,
            &signature,
        )
    } else {
        None
    };
    Ok(
        ZapOutcome {
            pool: pool_after,
            position: update.position,
            create_position: update.create,
            transfer_a: transfer_unless_zero(
                &accounts.provider_token_a.address,
                &accounts.vault_a.address,
                &provider_key,
                inbound_a,
                signed_by,
            ),
            transfer_b: transfer_unless_zero(
                &accounts.provider_token_b.address,
                &accounts.vault_b.address,
                &provider_key,
                inbound_b,
                signed_by,
            ),
            claims: auto_claim_lp_fees(
                &accounts.vault_a.address,
                &accounts.vault_b.address,
                &accounts.provider_token_a.address,
                &accounts.provider_token_b.address,
                &pool_key,
                &provider_key,
                &plan.pool,
                update.claim_a,
                update.claim_b,
                now,
            ),
            protocol_fee: transfer_unless_zero(
                &rwt_vault,
                &accounts.areal_fee_account.address,
                &pool_key,
                plan.fee_protocol,
                &signature,
            ),
            ot_treasury_fee,
            event: ZapLiquidityExecuted {
                pool: pool_key,
                provider: provider_key,
                input_a: amount_a,
                input_b: amount_b,
                swapped_amount: plan.swapped_amount,
                shares_minted: shares,
                timestamp: now,
            },
        },
    )
}

/// What a zap does, or why it is refused. `existing` is the position where its account holds one.
pub open spec fn zap_result(
    params: DexParams,
    accounts: ZapLiquidityAccountsView<'_>,
    remaining: Seq<AccountInfo>,
    program_id: Address,
    config: DexConfig,
    pool: PoolState,
    existing: Option<LpPosition>,
    amount_a: u64,
    amount_b: u64,
    min_shares: u128,
    signed_by: SignedBy,
    now: i64,
) -> Result<ZapOutcome, ProgramError> {
    match zap_checks(params, accounts, remaining, config, pool, amount_a, amount_b) {
        Err(e) => Err(e),
        Ok(_) => match zap_plan(params, config, pool, amount_a, amount_b) {
            Err(e) => Err(e),
            Ok(plan) => zap_at(
                params,
                accounts,
                remaining,
                program_id,
                existing,
                plan,
                amount_a,
                amount_b,
                min_shares,
                signed_by,
                now,
            ),
        },
    }
}

/// The zap of any caller; `signed_by` says whose signature moves the tokens in.
pub fn zap_liquidity_internal(
    params: &DexParams,
    accounts: &ZapLiquidityAccountsView<'_>,
    remaining: &Vec<AccountInfo>,
    program_id: &Address,
    config: &DexConfig,
    pool: &PoolState,
    existing: &Option<LpPosition>,
    amount_a: u64,
    amount_b: u64,
    min_shares: u128,
    signed_by: &SignedBy,
    now: i64,
) -> (r: Result<ZapOutcome, ProgramError>)
    ensures
        r == zap_result(
            *params,
            *accounts,
            remaining@,
            *program_id,
            *config,
            *pool,
            *existing,
            amount_a,
            amount_b,
            min_shares,
            *signed_by,
            now,
        ),
{
    if let Err(e) = check_zap(params, accounts, remaining, config, pool, amount_a, amount_b) {
        return Err(e);
    }
    let plan = match plan_zap(params, config, pool, amount_a, amount_b) {
        Err(e) => {
            return Err(e);
        },
        Ok(plan) => plan,
    };
    zap(
        params,
        accounts,
        remaining,
        program_id,
        existing,
        &plan,
        amount_a,
        amount_b,
        min_shares,
        signed_by,
        now,
    )
}

/// What a wallet's zap does, or why it is refused.
pub open spec fn user_zap_result(
    params: DexParams,
    accounts: ZapLiquidityAccountsView<'_>,
    remaining: Seq<AccountInfo>,
    program_id: Address,
    config: DexConfig,
    pool: PoolState,
    existing: Option<LpPosition>,
    amount_a: u64,
    amount_b: u64,
    min_shares: u128,
    now: i64,
) -> Result<ZapOutcome, ProgramError> {
    match user_lp_allowed(pool.pool_type) {
        Err(e) => Err(e),
        Ok(_) => zap_result(
            params,
            accounts,
            remaining,
            program_id,
            config,
            pool,
            existing,
            amount_a,
            amount_b,
            min_shares,
            SignedBy::Transaction,
            now,
        ),
    }
}

/// A zap that the provider signs.
pub fn handler(
    ctx: &Context<'_, ZapLiquidity>,
    params: &DexParams,
    config: &DexConfig,
    pool: &PoolState,
    existing: &Option<LpPosition>,
    amount_a: u64,
    amount_b: u64,
    min_shares: u128,
) -> (r: Result<ZapOutcome, ProgramError>)
    ensures
        r == user_zap_result(
            *params,
            ctx.accounts.as_view(),
            ctx.remaining_accounts@,
            *ctx.program_id,
            *config,
            *pool,
            *existing,
            amount_a,
            amount_b,
            min_shares,
            ctx.now,
        ),
{
    if let Err(e) = enforce_user_lp_allowed(pool.pool_type) {
        return Err(e);
    }
    zap_liquidity_internal(
        params,
        &ctx.accounts.view(),
        ctx.remaining_accounts,
        ctx.program_id,
        config,
        pool,
        existing,
        amount_a,
        amount_b,
        min_shares,
        &SignedBy::Transaction,
        ctx.now,
    )
}

} // verus!
