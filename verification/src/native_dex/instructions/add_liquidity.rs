//! Balanced deposits, and the position bookkeeping that every deposit shares.
use vstd::prelude::*;

use crate::account::{AccountInfo, Context};
use crate::actions::{transfer_if_any, transfer_unless_zero, CreateAccount, TokenTransfer};
use crate::address::{address_eq, derived_address, find_address_3, Address};
use crate::error::{DexError, ProgramError};
use crate::math::{mul_div_floor, mul_div_u64};
use crate::native_dex::amm::{calculate_lp_shares, lp_shares};
use crate::native_dex::constants::{DexParams, POOL_TYPE_CONCENTRATED};
use crate::native_dex::events::{LiquidityAdded, LpFeesClaimed};
use crate::native_dex::instructions::claim_lp_fees::{
    find_pending_fees, pending_fees, settled_position,
};
use crate::native_dex::instructions::swap::{pool_signature, signature_of};
use crate::native_dex::state::{DexConfig, LpPosition, PoolState};
use crate::native_dex::validation::validate_vault;
use crate::seeds::{lp_seed, SignedBy};

verus! {

/// The accounts of a deposit.
pub struct AddLiquidity {
    pub provider: AccountInfo,
    pub payer: AccountInfo,
    pub dex_config: AccountInfo,
    pub pool_state: AccountInfo,
    pub lp_position: AccountInfo,
    pub provider_token_a: AccountInfo,
    pub provider_token_b: AccountInfo,
    pub vault_a: AccountInfo,
    pub vault_b: AccountInfo,
    pub token_program: AccountInfo,
    pub system_program: AccountInfo,
}

/// The accounts of a deposit, whoever makes it.
pub struct AddLiquidityAccountsView<'a> {
    pub authority: &'a AccountInfo,
    pub payer: &'a AccountInfo,
    pub dex_config: &'a AccountInfo,
    pub pool_state: &'a AccountInfo,
    pub lp_position: &'a AccountInfo,
    pub provider_token_a: &'a AccountInfo,
    pub provider_token_b: &'a AccountInfo,
    pub vault_a: &'a AccountInfo,
    pub vault_b: &'a AccountInfo,
}

impl AddLiquidity {
    /// The provider makes the deposit.
    pub open spec fn as_view(&self) -> AddLiquidityAccountsView<'_> {
        AddLiquidityAccountsView {
            authority: &self.provider,
            payer: &self.payer,
            dex_config: &self.dex_config,
            pool_state: &self.pool_state,
            lp_position: &self.lp_position,
            provider_token_a: &self.provider_token_a,
            provider_token_b: &self.provider_token_b,
            vault_a: &self.vault_a,
            vault_b: &self.vault_b,
        }
    }

    /// The provider makes the deposit.
    pub fn view(&self) -> (v: AddLiquidityAccountsView<'_>)
        ensures
            v == self.as_view(),
    {
        AddLiquidityAccountsView {
            authority: &self.provider,
            payer: &self.payer,
            dex_config: &self.dex_config,
            pool_state: &self.pool_state,
            lp_position: &self.lp_position,
            provider_token_a: &self.provider_token_a,
            provider_token_b: &self.provider_token_b,
            vault_a: &self.vault_a,
            vault_b: &self.vault_b,
        }
    }
}

/// Whether wallets may provide liquidity to pools of a type. Ladder pools take it from the nexus
/// alone.
pub open spec fn user_lp_allowed(pool_type: u8) -> Result<(), ProgramError> {
    if pool_type == POOL_TYPE_CONCENTRATED {
        Err(ProgramError::Dex(DexError::MasterPoolUserLpDisabled))
    } else {
        Ok(())
    }
}

/// Refuses a wallet's deposit into a ladder pool.
pub fn enforce_user_lp_allowed(pool_type: u8) -> (r: Result<(), ProgramError>)
    ensures
        r == user_lp_allowed(pool_type),
{
    if pool_type == POOL_TYPE_CONCENTRATED {
        return Err(ProgramError::Dex(DexError::MasterPoolUserLpDisabled));
    }
    Ok(())
}

/// The largest part of two amounts that stands in the ratio of the reserves.
pub open spec fn balanced(amount_a: u64, amount_b: u64, reserve_a: u64, reserve_b: u64) -> Result<
    (u64, u64),
    ProgramError,
> {
    match mul_div_floor(amount_a as int, reserve_b as int, reserve_a as int) {
        None => Err(ProgramError::Dex(DexError::MathOverflow)),
        Some(b_needed) => if b_needed <= amount_b {
            Ok((amount_a, b_needed))
        } else {
            match mul_div_floor(amount_b as int, reserve_a as int, reserve_b as int) {
                None => Err(ProgramError::Dex(DexError::MathOverflow)),
                Some(a_needed) => Ok((a_needed, amount_b)),
            }
        },
    }
}

/// The largest part of two amounts that stands in the ratio of the reserves.
pub fn balance_deposit(amount_a: u64, amount_b: u64, reserve_a: u64, reserve_b: u64) -> (r: Result<
    (u64, u64),
    ProgramError,
>)
    ensures
        r == balanced(amount_a, amount_b, reserve_a, reserve_b),
{
    match mul_div_u64(amount_a, reserve_b, reserve_a) {
        None => Err(ProgramError::Dex(DexError::MathOverflow)),
        Some(b_needed) => {
            if b_needed <= amount_b {
                Ok((amount_a, b_needed))
            } else {
                match mul_div_u64(amount_b, reserve_a, reserve_b) {
                    None => Err(ProgramError::Dex(DexError::MathOverflow)),
                    Some(a_needed) => Ok((a_needed, amount_b)),
                }
            }
        },
    }
}

/// A balanced deposit never takes more than was offered.
pub proof fn balanced_is_part_of_the_offer(
    amount_a: u64,
    amount_b: u64,
    reserve_a: u64,
    reserve_b: u64,
)
    ensures
        balanced(amount_a, amount_b, reserve_a, reserve_b) matches Ok((a, b)) ==> a <= amount_a && b
            <= amount_b,
{
    let a = amount_a as int;
    let b = amount_b as int;
    let ra = reserve_a as int;
    let rb = reserve_b as int;
    if ra > 0 && rb > 0 && a * rb / ra > b {
        assert(b * ra / rb <= a) by (nonlinear_arith)
            requires
                ra > 0,
                rb > 0,
                a >= 0,
                b >= 0,
                a * rb / ra > b,
        ;
    }
    if ra > 0 && rb == 0 {
        assert(a * rb / ra == 0) by (nonlinear_arith)
            requires
                ra > 0,
                rb == 0,
        ;
    }
}

/// What becomes of a position.
#[derive(Clone, Copy, Debug, PartialEq, Eq)]
pub struct PositionUpdate {
    pub position: LpPosition,
    /// The account's creation, where the position is new.
    pub create: Option<CreateAccount>,
    /// Fees paid out on side A.
    pub claim_a: u64,
    /// Fees paid out on side B.
    pub claim_b: u64,
}

/// The creation of a position's account, with the bump of its address.
pub open spec fn position_account(
    payer: Address,
    lp_position: Address,
    program_id: Address,
    pool_key: Address,
    provider_key: Address,
) -> Result<(CreateAccount, u8), ProgramError> {
    match derived_address(seq![lp_seed()@, pool_key@, provider_key@], program_id@) {
        None => Err(ProgramError::InvalidSeeds),
        Some((address, bump)) => if lp_position != address {
            Err(ProgramError::InvalidSeeds)
        } else {
            Ok(
                (
                    CreateAccount {
                        payer,
                        account: lp_position,
                        space: LpPosition::SPACE as u64,
                        owner: program_id,
                        signed_by: SignedBy::Position {
                            pool: pool_key,
                            provider: provider_key,
                            bump,
                        },
                    },
                    bump,
                ),
            )
        },
    }
}

/// The creation of a position's account, with the bump of its address. The account must sit at
/// the address derived from the pool and the provider.
pub fn create_lp_position_account(
    payer: &Address,
    lp_position: &Address,
    program_id: &Address,
    pool_key: &Address,
    provider_key: &Address,
) -> (r: Result<(CreateAccount, u8), ProgramError>)
    ensures
        r == position_account(*payer, *lp_position, *program_id, *pool_key, *provider_key),
{
    let seed = lp_seed();
    match find_address_3(
        seed.as_slice(),
        pool_key.as_slice(),
        provider_key.as_slice(),
        program_id,
    ) {
        None => Err(ProgramError::InvalidSeeds),
        Some((address, bump)) => {
            if !address_eq(lp_position, &address) {
                return Err(ProgramError::InvalidSeeds);
            }
            Ok(
                (
                    CreateAccount {
                        payer: *payer,
                        account: *lp_position,
                        space: LpPosition::SPACE as u64,
                        owner: *program_id,
                        signed_by: SignedBy::Position {
                            pool: *pool_key,
                            provider: *provider_key,
                            bump,
                        },
                    },
                    bump,
                ),
            )
        },
    }
}

/// The position after `shares` were added to it. A new position, and one without shares, starts
/// at the pool's present accumulators; one with shares is first paid what it has accrued.
pub open spec fn credited(
    existing: Option<LpPosition>,
    pool: PoolState,
    shares: u128,
    payer: Address,
    lp_position: Address,
    program_id: Address,
    pool_key: Address,
    provider_key: Address,
    now: i64,
) -> Result<PositionUpdate, ProgramError> {
    match existing {
        None => match position_account(payer, lp_position, program_id, pool_key, provider_key) {
            Err(e) => Err(e),
            Ok((create, bump)) => Ok(
                PositionUpdate {
                    position: LpPosition {
                        pool: pool_key,
                        owner: provider_key,
                        shares,
                        last_update_ts: now,
                        bump,
                        fees_claimed_per_share_a: pool.cumulative_fees_per_share_a,
                        fees_claimed_per_share_b: pool.cumulative_fees_per_share_b,
                    },
                    create: Some(create),
                    claim_a: 0,
                    claim_b: 0,
                },
            ),
        },
        Some(position) => if position.owner != provider_key {
            Err(ProgramError::Dex(DexError::Unauthorized))
        } else if position.pool != pool_key {
            Err(ProgramError::Dex(DexError::InvalidVault))
        } else {
            let fees = if position.shares > 0 {
                pending_fees(pool, position)
            } else {
                Ok((0u64, 0u64))
            };
            match fees {
                Err(e) => Err(e),
                Ok((claim_a, claim_b)) => if position.shares + shares > u128::MAX {
                    Err(ProgramError::Dex(DexError::MathOverflow))
                } else {
                    Ok(
                        PositionUpdate {
                            position: LpPosition {
                                shares: (position.shares + shares) as u128,
                                last_update_ts: now,
                                ..settled_position(pool, position)
                            },
                            create: None,
                            claim_a,
                            claim_b,
                        },
                    )
                },
            }
        },
    }
}

/// Adds `shares` to a position, creating it where it does not exist and paying it what it has
/// accrued where it does. `pool` holds the accumulators to settle against.
pub fn credit_position(
    existing: &Option<LpPosition>,
    pool: &PoolState,
    shares: u128,
    payer: &Address,
    lp_position: &Address,
    program_id: &Address,
    pool_key: &Address,
    provider_key: &Address,
    now: i64,
) -> (r: Result<PositionUpdate, ProgramError>)
    ensures
        r == credited(
            *existing,
            *pool,
            shares,
            *payer,
            *lp_position,
            *program_id,
            *pool_key,
            *provider_key,
            now,
        ),
{
    match existing {
        None => match create_lp_position_account(
            payer,
            lp_position,
            program_id,
            pool_key,
            provider_key,
        ) {
            Err(e) => Err(e),
            Ok((create, bump)) => Ok(
                PositionUpdate {
                    position: LpPosition {
                        pool: *pool_key,
                        owner: *provider_key,
                        shares,
                        last_update_ts: now,
                        bump,
                        fees_claimed_per_share_a: pool.cumulative_fees_per_share_a,
                        fees_claimed_per_share_b: pool.cumulative_fees_per_share_b,
                    },
                    create: Some(create),
                    claim_a: 0,
                    claim_b: 0,
                },
            ),
        },
        Some(position) => {
            if !address_eq(&position.owner, provider_key) {
                return Err(ProgramError::Dex(DexError::Unauthorized));
            }
            if !address_eq(&position.pool, pool_key) {
                return Err(ProgramError::Dex(DexError::InvalidVault));
            }
            let (claim_a, claim_b): (u64, u64) = if position.shares > 0 {
                match find_pending_fees(pool, position) {
                    Err(e) => {
                        return Err(e);
                    },
                    Ok(fees) => fees,
                }
            } else {
                (0, 0)
            };
            match position.shares.checked_add(shares) {
                None => Err(ProgramError::Dex(DexError::MathOverflow)),
                Some(sum) => {
                    let mut updated = *position;
                    updated.fees_claimed_per_share_a = pool.cumulative_fees_per_share_a;
                    updated.fees_claimed_per_share_b = pool.cumulative_fees_per_share_b;
                    updated.shares = sum;
                    updated.last_update_ts = now;
                    Ok(PositionUpdate { position: updated, create: None, claim_a, claim_b })
                },
            }
        },
    }
}

/// The payouts of a position's accrued fees, and their report where there are any.
#[derive(Clone, Copy, Debug, PartialEq, Eq)]
pub struct AutoClaim {
    pub transfer_a: Option<TokenTransfer>,
    pub transfer_b: Option<TokenTransfer>,
    pub event: Option<LpFeesClaimed>,
}

/// The payouts of accrued fees.
pub open spec fn auto_claim(
    vault_a: Address,
    vault_b: Address,
    provider_token_a: Address,
    provider_token_b: Address,
    pool_key: Address,
    provider_key: Address,
    pool: PoolState,
    claim_a: u64,
    claim_b: u64,
    now: i64,
) -> AutoClaim {
    AutoClaim {
        transfer_a: transfer_if_any(
            vault_a,
            provider_token_a,
            pool_key,
            claim_a,
            pool_signature(pool),
        ),
        transfer_b: transfer_if_any(
            vault_b,
            provider_token_b,
            pool_key,
            claim_b,
            pool_signature(pool),
        ),
        event: if claim_a > 0 || claim_b > 0 {
            Some(
                LpFeesClaimed {
                    recipient: provider_key,
                    pool: pool_key,
                    claimable_a: claim_a,
                    claimable_b: claim_b,
                    timestamp: now,
                },
            )
        } else {
            None
        },
    }
}

/// The payouts of accrued fees, signed by the pool. A side that owes nothing pays nothing.
pub fn auto_claim_lp_fees(
    vault_a: &Address,
    vault_b: &Address,
    provider_token_a: &Address,
    provider_token_b: &Address,
    pool_key: &Address,
    provider_key: &Address,
    pool: &PoolState,
    claim_a: u64,
    claim_b: u64,
    now: i64,
) -> (payouts: AutoClaim)
    ensures
        payouts == auto_claim(
            *vault_a,
            *vault_b,
            *provider_token_a,
            *provider_token_b,
            *pool_key,
            *provider_key,
            *pool,
            claim_a,
            claim_b,
            now,
        ),
{
    let signature = signature_of(pool);
    AutoClaim {
        transfer_a: transfer_unless_zero(vault_a, provider_token_a, pool_key, claim_a, &signature),
        transfer_b: transfer_unless_zero(vault_b, provider_token_b, pool_key, claim_b, &signature),
        event: if claim_a > 0 || claim_b > 0 {
            Some(
                LpFeesClaimed {
                    recipient: *provider_key,
                    pool: *pool_key,
                    claimable_a: claim_a,
                    claimable_b: claim_b,
                    timestamp: now,
                },
            )
        } else {
            None
        },
    }
}

/// The pool after a deposit that mints `shares`. The first deposit also burns `min_liquidity`
/// shares into the total.
pub open spec fn deposited_pool(
    pool: PoolState,
    deposit_a: u64,
    deposit_b: u64,
    shares: u128,
    min_liquidity: u64,
) -> Result<PoolState, ProgramError> {
    let total = if pool.total_lp_shares == 0 {
        shares + min_liquidity
    } else {
        pool.total_lp_shares + shares
    };
    if pool.reserve_a + deposit_a > u64::MAX || pool.reserve_b + deposit_b > u64::MAX || total
        > u128::MAX {
        Err(ProgramError::Dex(DexError::MathOverflow))
    } else {
        Ok(
            PoolState {
                reserve_a: (pool.reserve_a + deposit_a) as u64,
                reserve_b: (pool.reserve_b + deposit_b) as u64,
                total_lp_shares: total as u128,
                ..pool
            },
        )
    }
}

/// The pool after a deposit that mints `shares`.
pub fn deposit_into_pool(
    pool: &PoolState,
    deposit_a: u64,
    deposit_b: u64,
    shares: u128,
    min_liquidity: u64,
) -> (r: Result<PoolState, ProgramError>)
    ensures
        r == deposited_pool(*pool, deposit_a, deposit_b, shares, min_liquidity),
{
    let total = if pool.total_lp_shares == 0 {
        shares.checked_add(min_liquidity as u128)
    } else {
        pool.total_lp_shares.checked_add(shares)
    };
    match (
        pool.reserve_a.checked_add(deposit_a),
        pool.reserve_b.checked_add(deposit_b),
        total,
    ) {
        (Some(reserve_a), Some(reserve_b), Some(total)) => {
            let mut updated = *pool;
            updated.reserve_a = reserve_a;
            updated.reserve_b = reserve_b;
            updated.total_lp_shares = total;
            Ok(updated)
        },
        _ => Err(ProgramError::Dex(DexError::MathOverflow)),
    }
}

/// What a deposit puts in and is given.
#[derive(Clone, Copy, Debug, PartialEq, Eq)]
pub struct DepositQuote {
    pub deposit_a: u64,
    pub deposit_b: u64,
    pub shares: u128,
}

/// What a deposit of up to `amount_a` and `amount_b` puts in and is given: the first one all of
/// both, a later one what balances with the reserves.
pub open spec fn deposit_quote(
    pool: PoolState,
    amount_a: u64,
    amount_b: u64,
    min_liquidity: u64,
) -> Result<DepositQuote, ProgramError> {
    if pool.total_lp_shares == 0 {
        match lp_shares(amount_a, amount_b, 0, 0, 0, true, min_liquidity) {
            Err(e) => Err(e),
            Ok(shares) => Ok(DepositQuote { deposit_a: amount_a, deposit_b: amount_b, shares }),
        }
    } else {
        match balanced(amount_a, amount_b, pool.reserve_a, pool.reserve_b) {
            Err(e) => Err(e),
            Ok((deposit_a, deposit_b)) => match lp_shares(
                deposit_a,
                deposit_b,
                pool.reserve_a,
                pool.reserve_b,
                pool.total_lp_shares,
                false,
                min_liquidity,
            ) {
                Err(e) => Err(e),
                Ok(shares) => Ok(DepositQuote { deposit_a, deposit_b, shares }),
            },
        }
    }
}

/// Quotes a deposit.
pub fn quote_deposit(pool: &PoolState, amount_a: u64, amount_b: u64, min_liquidity: u64) -> (r: Result<
    DepositQuote,
    ProgramError,
>)
    ensures
        r == deposit_quote(*pool, amount_a, amount_b, min_liquidity),
{
    if pool.total_lp_shares == 0 {
        return match calculate_lp_shares(amount_a, amount_b, 0, 0, 0, true, min_liquidity) {
            Err(e) => Err(e),
            Ok(shares) => Ok(DepositQuote { deposit_a: amount_a, deposit_b: amount_b, shares }),
        };
    }
    match balance_deposit(amount_a, amount_b, pool.reserve_a, pool.reserve_b) {
        Err(e) => Err(e),
        Ok((deposit_a, deposit_b)) => match calculate_lp_shares(
            deposit_a,
            deposit_b,
            pool.reserve_a,
            pool.reserve_b,
            pool.total_lp_shares,
            false,
            min_liquidity,
        ) {
            Err(e) => Err(e),
            Ok(shares) => Ok(DepositQuote { deposit_a, deposit_b, shares }),
        },
    }
}

/// An accepted deposit.
#[derive(Clone, Copy, Debug, PartialEq, Eq)]
pub struct AddOutcome {
    /// The pool after the deposit.
    pub pool: PoolState,
    pub position: LpPosition,
    /// The creation of the position's account, where it is new.
    pub create_position: Option<CreateAccount>,
    pub transfer_a: Option<TokenTransfer>,
    pub transfer_b: Option<TokenTransfer>,
    /// The payouts of what the position had accrued.
    pub claims: AutoClaim,
    pub event: LiquidityAdded,
}

/// The conditions of a deposit, in the order in which they are reported.
pub open spec fn add_checks(
    accounts: AddLiquidityAccountsView<'_>,
    config: DexConfig,
    pool: PoolState,
    amount_a: u64,
    amount_b: u64,
) -> Result<(), ProgramError> {
    if !config.is_active {
        Err(ProgramError::Dex(DexError::DexPaused))
    } else if !pool.is_active {
        Err(ProgramError::Dex(DexError::PoolNotActive))
    } else if amount_a == 0 || amount_b == 0 {
        Err(ProgramError::Dex(DexError::ZeroAmount))
    } else if accounts.vault_a.address != pool.vault_a || accounts.vault_b.address
        != pool.vault_b {
        Err(ProgramError::Dex(DexError::InvalidVault))
    } else {
        Ok(())
    }
}

/// A deposit at `quote`.
pub open spec fn add_at(
    params: DexParams,
    accounts: AddLiquidityAccountsView<'_>,
    program_id: Address,
    pool: PoolState,
    existing: Option<LpPosition>,
    quote: DepositQuote,
    min_shares: u128,
    signed_by: SignedBy,
    now: i64,
) -> Result<AddOutcome, ProgramError> {
    let pool_key = accounts.pool_state.address;
    let provider_key = accounts.authority.address;
    if quote.shares == 0 {
        Err(ProgramError::Dex(DexError::ZeroOutput))
    } else if quote.shares < min_shares {
        Err(ProgramError::Dex(DexError::SlippageExceeded))
    } else {
        match deposited_pool(
            pool,
            quote.deposit_a,
            quote.deposit_b,
            quote.shares,
            params.min_liquidity,
        ) {
            Err(e) => Err(e),
            Ok(pool_after) => match credited(
                existing,
                pool,
                quote.shares,
                accounts.payer.address,
                accounts.lp_position.address,
                program_id,
                pool_key,
                provider_key,
                now,
            ) {
                Err(e) => Err(e),
                Ok(update) => Ok(
                    AddOutcome {
                        pool: pool_after,
                        position: update.position,
                        create_position: update.create,
                        transfer_a: transfer_if_any(
                            accounts.provider_token_a.address,
                            accounts.vault_a.address,
                            provider_key,
                            quote.deposit_a,
                            signed_by,
                        ),
                        transfer_b: transfer_if_any(
                            accounts.provider_token_b.address,
                            accounts.vault_b.address,
                            provider_key,
                            quote.deposit_b,
                            signed_by,
                        ),
                        claims: auto_claim(
                            accounts.vault_a.address,
                            accounts.vault_b.address,
                            accounts.provider_token_a.address,
                            accounts.provider_token_b.address,
                            pool_key,
                            provider_key,
                            pool,
                            update.claim_a,
                            update.claim_b,
                            now,
                        ),
                        event: LiquidityAdded {
                            pool: pool_key,
                            provider: provider_key,
                            amount_a: quote.deposit_a,
                            amount_b: quote.deposit_b,
                            shares_minted: quote.shares,
                            timestamp: now,
                        },
                    },
                ),
            },
        }
    }
}

/// What a deposit does, or why it is refused. `existing` is the position where its account holds
/// one.
pub open spec fn add_result(
    params: DexParams,
    accounts: AddLiquidityAccountsView<'_>,
    program_id: Address,
    config: DexConfig,
    pool: PoolState,
    existing: Option<LpPosition>,
    amount_a: u64,
    amount_b: u64,
    min_shares: u128,
    signed_by: SignedBy,
    now: i64,
) -> Result<AddOutcome, ProgramError> {
    match add_checks(accounts, config, pool, amount_a, amount_b) {
        Err(e) => Err(e),
        Ok(_) => match deposit_quote(pool, amount_a, amount_b, params.min_liquidity) {
            Err(e) => Err(e),
            Ok(quote) => add_at(
                params,
                accounts,
                program_id,
                pool,
                existing,
                quote,
                min_shares,
                signed_by,
                now,
            ),
        },
    }
}

/// The deposit of any caller; `signed_by` says whose signature moves the tokens in.
pub fn add_liquidity_internal(
    params: &DexParams,
    accounts: &AddLiquidityAccountsView<'_>,
    program_id: &Address,
    config: &DexConfig,
    pool: &PoolState,
    existing: &Option<LpPosition>,
    amount_a: u64,
    amount_b: u64,
    min_shares: u128,
    signed_by: &SignedBy,
    now: i64,
) -> (r: Result<AddOutcome, ProgramError>)
    ensures
        r == add_result(
            *params,
            *accounts,
            *program_id,
            *config,
            *pool,
            *existing,
            amount_a,
            amount_b,
            min_shares,
            *signed_by,
            now,
        ),
{
    if !config.is_active {
        return Err(ProgramError::Dex(DexError::DexPaused));
    }
    if !pool.is_active {
        return Err(ProgramError::Dex(DexError::PoolNotActive));
    }
    if amount_a == 0 || amount_b == 0 {
        return Err(ProgramError::Dex(DexError::ZeroAmount));
    }
    if let Err(e) = validate_vault(accounts.vault_a, &pool.vault_a) {
        return Err(e);
    }
    if let Err(e) = validate_vault(accounts.vault_b, &pool.vault_b) {
        return Err(e);
    }
    let quote = match quote_deposit(pool, amount_a, amount_b, params.min_liquidity) {
        Err(e) => {
            return Err(e);
        },
        Ok(quote) => quote,
    };
    if quote.shares == 0 {
        return Err(ProgramError::Dex(DexError::ZeroOutput));
    }
    if quote.shares < min_shares {
        return Err(ProgramError::Dex(DexError::SlippageExceeded));
    }
    let pool_after = match deposit_into_pool(
        pool,
        quote.deposit_a,
        quote.deposit_b,
        quote.shares,
        params.min_liquidity,
    ) {
        Err(e) => {
            return Err(e);
        },
        Ok(pool_after) => pool_after,
    };
    let pool_key = accounts.pool_state.address;
    let provider_key = accounts.authority.address;
    let update = match credit_position(
        existing,
        pool,
        quote.shares,
        &accounts.payer.address,
        &accounts.lp_position.address,
        program_id,
        &pool_key,
        &provider_key,
        now,
    ) {
        Err(e) => {
            return Err(e);
        },
        Ok(update) => update,
    };
    Ok(
        AddOutcome {
            pool: pool_after,
            position: update.position,
            create_position: update.create,
            transfer_a: transfer_unless_zero(
                &accounts.provider_token_a.address,
                &accounts.vault_a.address,
                &provider_key,
                quote.deposit_a,
                signed_by,
            ),
            transfer_b: transfer_unless_zero(
                &accounts.provider_token_b.address,
                &accounts.vault_b.address,
                &provider_key,
                quote.deposit_b,
                signed_by,
            ),
            claims: auto_claim_lp_fees(
                &accounts.vault_a.address,
                &accounts.vault_b.address,
                &accounts.provider_token_a.address,
                &accounts.provider_token_b.address,
                &pool_key,
                &provider_key,
                pool,
                update.claim_a,
                update.claim_b,
                now,
            ),
            event: LiquidityAdded {
                pool: pool_key,
                provider: provider_key,
                amount_a: quote.deposit_a,
                amount_b: quote.deposit_b,
                shares_minted: quote.shares,
                timestamp: now,
            },
        },
    )
}

/// What a wallet's deposit does, or why it is refused.
pub open spec fn user_add_result(
    params: DexParams,
    accounts: AddLiquidityAccountsView<'_>,
    program_id: Address,
    config: DexConfig,
    pool: PoolState,
    existing: Option<LpPosition>,
    amount_a: u64,
    amount_b: u64,
    min_shares: u128,
    now: i64,
) -> Result<AddOutcome, ProgramError> {
    match user_lp_allowed(pool.pool_type) {
        Err(e) => Err(e),
        Ok(_) => add_result(
            params,
            accounts,
            program_id,
            config,
            pool,
            existing,
            amount_a,
            amount_b,
            min_shares,
            SignedBy::Transaction,
            now,
        ),
    }
}

/// A deposit that the provider signs.
pub fn handler(
    ctx: &Context<'_, AddLiquidity>,
    params: &DexParams,
    config: &DexConfig,
    pool: &PoolState,
    existing: &Option<LpPosition>,
    amount_a: u64,
    amount_b: u64,
    min_shares: u128,
) -> (r: Result<AddOutcome, ProgramError>)
    ensures
        r == user_add_result(
            *params,
            ctx.accounts.as_view(),
            *ctx.program_id,
            *config,
            *pool,
            *existing,
            amount_a,
            amount_b,
            min_shares,
            ctx.now,
        ),
{
    if let Err(e) = enforce_user_lp_allowed(pool.pool_type) {
        return Err(e);
    }
    add_liquidity_internal(
        params,
        &ctx.accounts.view(),
        ctx.program_id,
        config,
        pool,
        existing,
        amount_a,
        amount_b,
        min_shares,
        &SignedBy::Transaction,
        ctx.now,
    )
}

} // verus!
