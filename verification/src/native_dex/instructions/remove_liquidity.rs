//! Withdrawals. They work while a pool, or the whole exchange, is paused.
use vstd::prelude::*;

use crate::account::{AccountInfo, Context};
use crate::actions::{transfer_if_any, transfer_unless_zero, TokenTransfer};
use crate::address::{address_eq, Address};
use crate::error::{DexError, ProgramError};
use crate::native_dex::amm::{calculate_remove_amounts, remove_amounts};
use crate::native_dex::constants::POOL_TYPE_CONCENTRATED;
use crate::native_dex::events::LiquidityRemoved;
use crate::native_dex::instructions::add_liquidity::{auto_claim, auto_claim_lp_fees, AutoClaim};
use crate::native_dex::instructions::claim_lp_fees::{
    find_pending_fees, pending_fees, settled_position,
};
use crate::native_dex::instructions::swap::{bins_at, check_bins, pool_signature, signature_of};
use crate::native_dex::state::{LpPosition, PoolState};
use crate::native_dex::validation::validate_vault;

verus! {

/// The accounts of a withdrawal.
pub struct RemoveLiquidity {
    pub provider: AccountInfo,
    pub pool_state: AccountInfo,
    pub lp_position: AccountInfo,
    pub provider_token_a: AccountInfo,
    pub provider_token_b: AccountInfo,
    pub vault_a: AccountInfo,
    pub vault_b: AccountInfo,
    pub token_program: AccountInfo,
}

/// The accounts of a withdrawal, whoever makes it.
pub struct RemoveLiquidityAccountsView<'a> {
    pub authority: &'a AccountInfo,
    pub pool_state: &'a AccountInfo,
    pub lp_position: &'a AccountInfo,
    pub provider_token_a: &'a AccountInfo,
    pub provider_token_b: &'a AccountInfo,
    pub vault_a: &'a AccountInfo,
    pub vault_b: &'a AccountInfo,
}

impl RemoveLiquidity {
    /// The provider makes the withdrawal.
    pub open spec fn as_view(&self) -> RemoveLiquidityAccountsView<'_> {
        RemoveLiquidityAccountsView {
            authority: &self.provider,
            pool_state: &self.pool_state,
            lp_position: &self.lp_position,
            provider_token_a: &self.provider_token_a,
            provider_token_b: &self.provider_token_b,
            vault_a: &self.vault_a,
            vault_b: &self.vault_b,
        }
    }

    /// The provider makes the withdrawal.
    pub fn view(&self) -> (v: RemoveLiquidityAccountsView<'_>)
        ensures
            v == self.as_view(),
    {
        RemoveLiquidityAccountsView {
            authority: &self.provider,
            pool_state: &self.pool_state,
            lp_position: &self.lp_position,
            provider_token_a: &self.provider_token_a,
            provider_token_b: &self.provider_token_b,
            vault_a: &self.vault_a,
            vault_b: &self.vault_b,
        }
    }
}

/// The order to take the burned shares' part out of every bin of a ladder pool.
#[derive(Clone, Copy, Debug, PartialEq, Eq)]
pub struct BinRemoval {
    pub shares_to_burn: u128,
    /// All shares before the burn.
    pub total_lp_shares: u128,
}

/// The closing of an emptied position's account.
#[derive(Clone, Copy, Debug, PartialEq, Eq)]
pub struct ClosePosition {
    pub account: Address,
    pub recipient: Address,
    /// The recipient's lamports once it has the account's.
    pub recipient_lamports: u64,
}

/// An accepted withdrawal.
#[derive(Clone, Copy, Debug, PartialEq, Eq)]
pub struct RemoveOutcome {
    /// The pool after the withdrawal.
    pub pool: PoolState,
    pub position: LpPosition,
    pub bins: Option<BinRemoval>,
    pub transfer_a: Option<TokenTransfer>,
    pub transfer_b: Option<TokenTransfer>,
    /// The payouts of what the position had accrued.
    pub claims: AutoClaim,
    pub close: Option<ClosePosition>,
    pub event: LiquidityRemoved,
}

/// The conditions of a withdrawal, in the order in which they are reported.
pub open spec fn remove_checks(
    accounts: RemoveLiquidityAccountsView<'_>,
    pool: PoolState,
    position: LpPosition,
    shares_to_burn: u128,
) -> Result<(), ProgramError> {
    if shares_to_burn == 0 {
        Err(ProgramError::Dex(DexError::ZeroAmount))
    } else if accounts.vault_a.address != pool.vault_a || accounts.vault_b.address
        != pool.vault_b {
        Err(ProgramError::Dex(DexError::InvalidVault))
    } else if position.owner != accounts.authority.address {
        Err(ProgramError::Dex(DexError::Unauthorized))
    } else if position.pool != accounts.pool_state.address {
        Err(ProgramError::Dex(DexError::InvalidVault))
    } else if position.shares < shares_to_burn {
        Err(ProgramError::Dex(DexError::InsufficientShares))
    } else {
        Ok(())
    }
}

/// A withdrawal that pays the given amounts and fees.
pub open spec fn remove_at(
    accounts: RemoveLiquidityAccountsView<'_>,
    pool: PoolState,
    position: LpPosition,
    shares_to_burn: u128,
    amount_a: u64,
    amount_b: u64,
    claim_a: u64,
    claim_b: u64,
    now: i64,
) -> Result<RemoveOutcome, ProgramError> {
    let pool_key = accounts.pool_state.address;
    let provider_key = accounts.authority.address;
    let closes = position.shares == shares_to_burn;
    let lamports = accounts.authority.lamports + accounts.lp_position.lamports;
    if pool.reserve_a < amount_a || pool.reserve_b < amount_b || pool.total_lp_shares
        < shares_to_burn || (closes && lamports > u64::MAX) {
        Err(ProgramError::Dex(DexError::MathOverflow))
    } else {
        Ok(
            RemoveOutcome {
                pool: PoolState {
                    reserve_a: (pool.reserve_a - amount_a) as u64,
                    reserve_b: (pool.reserve_b - amount_b) as u64,
                    total_lp_shares: (pool.total_lp_shares - shares_to_burn) as u128,
                    ..pool
                },
                position: LpPosition {
                    shares: (position.shares - shares_to_burn) as u128,
                    last_update_ts: now,
                    ..settled_position(pool, position)
                },
                bins: if pool.pool_type == POOL_TYPE_CONCENTRATED {
                    Some(BinRemoval { shares_to_burn, total_lp_shares: pool.total_lp_shares })
                } else {
                    None
                },
                transfer_a: transfer_if_any(
                    accounts.vault_a.address,
                    accounts.provider_token_a.address,
                    pool_key,
                    amount_a,
                    pool_signature(pool),
                ),
                transfer_b: transfer_if_any(
                    accounts.vault_b.address,
                    accounts.provider_token_b.address,
                    pool_key,
                    amount_b,
                    pool_signature(pool),
                ),
                claims: auto_claim(
                    accounts.vault_a.address,
                    accounts.vault_b.address,
                    accounts.provider_token_a.address,
                    accounts.provider_token_b.address,
                    pool_key,
                    provider_key,
                    pool,
                    claim_a,
                    claim_b,
                    now,
                ),
                close: if closes {
                    Some(
                        ClosePosition {
                            account: accounts.lp_position.address,
                            recipient: provider_key,
                            recipient_lamports: lamports as u64,
                        },
                    )
                } else {
                    None
                },
                event: LiquidityRemoved {
                    pool: pool_key,
                    provider: provider_key,
                    amount_a,
                    amount_b,
                    shares_burned: shares_to_burn,
                    timestamp: now,
                },
            },
        )
    }
}

/// What a withdrawal does, or why it is refused.
pub open spec fn remove_result(
    accounts: RemoveLiquidityAccountsView<'_>,
    remaining: Seq<AccountInfo>,
    program_id: Address,
    pool: PoolState,
    position: LpPosition,
    shares_to_burn: u128,
    now: i64,
) -> Result<RemoveOutcome, ProgramError> {
    let bins = if pool.pool_type == POOL_TYPE_CONCENTRATED {
        bins_at(remaining, 0, accounts.pool_state.address, program_id)
    } else {
        Ok(())
    };
    match remove_checks(accounts, pool, position, shares_to_burn) {
        Err(e) => Err(e),
        Ok(_) => match pending_fees(pool, position) {
            Err(e) => Err(e),
            Ok((claim_a, claim_b)) => match remove_amounts(
                shares_to_burn,
                pool.reserve_a,
                pool.reserve_b,
                pool.total_lp_shares,
            ) {
                Err(e) => Err(e),
                Ok((amount_a, amount_b)) => match bins {
                    Err(e) => Err(e),
                    Ok(_) => remove_at(
                        accounts,
                        pool,
                        position,
                        shares_to_burn,
                        amount_a,
                        amount_b,
                        claim_a,
                        claim_b,
                        now,
                    ),
                },
            },
        },
    }
}

/// The withdrawal of any caller. The position's accrued fees are paid on all of its shares before
/// they are burned.
pub fn remove_liquidity_internal(
    accounts: &RemoveLiquidityAccountsView<'_>,
    remaining: &Vec<AccountInfo>,
    program_id: &Address,
    pool: &PoolState,
    position: &LpPosition,
    shares_to_burn: u128,
    now: i64,
) -> (r: Result<RemoveOutcome, ProgramError>)
    ensures
        r == remove_result(
            *accounts,
            remaining@,
            *program_id,
            *pool,
            *position,
            shares_to_burn,
            now,
        ),
{
    if shares_to_burn == 0 {
        return Err(ProgramError::Dex(DexError::ZeroAmount));
    }
    if let Err(e) = validate_vault(accounts.vault_a, &pool.vault_a) {
        return Err(e);
    }
    if let Err(e) = validate_vault(accounts.vault_b, &pool.vault_b) {
        return Err(e);
    }
    let pool_key = accounts.pool_state.address;
    let provider_key = accounts.authority.address;
    if !address_eq(&position.owner, &provider_key) {
        return Err(ProgramError::Dex(DexError::Unauthorized));
    }
    if !address_eq(&position.pool, &pool_key) {
        return Err(ProgramError::Dex(DexError::InvalidVault));
    }
    if position.shares < shares_to_burn {
        return Err(ProgramError::Dex(DexError::InsufficientShares));
    }
    let (claim_a, claim_b): (u64, u64) = match find_pending_fees(pool, position) {
        Err(e) => {
            return Err(e);
        },
        Ok(fees) => fees,
    };
    let (amount_a, amount_b): (u64, u64) = match calculate_remove_amounts(
        shares_to_burn,
        pool.reserve_a,
        pool.reserve_b,
        pool.total_lp_shares,
    ) {
        Err(e) => {
            return Err(e);
        },
        Ok(amounts) => amounts,
    };
    let bins = if pool.pool_type == POOL_TYPE_CONCENTRATED {
        if let Err(e) = check_bins(remaining, 0, &pool_key, program_id) {
            return Err(e);
        }
        Some(BinRemoval { shares_to_burn, total_lp_shares: pool.total_lp_shares })
    } else {
        None
    };
    let mut pool_after = *pool;
    let mut position_after = *position;
    match (
        pool.reserve_a.checked_sub(amount_a),
        pool.reserve_b.checked_sub(amount_b),
        pool.total_lp_shares.checked_sub(shares_to_burn),
    ) {
        (Some(reserve_a), Some(reserve_b), Some(total)) => {
            pool_after.reserve_a = reserve_a;
            pool_after.reserve_b = reserve_b;
            pool_after.total_lp_shares = total;
        },
        _ => {
            return Err(ProgramError::Dex(DexError::MathOverflow));
        },
    }
    position_after.fees_claimed_per_share_a = pool.cumulative_fees_per_share_a;
    position_after.fees_claimed_per_share_b = pool.cumulative_fees_per_share_b;
    position_after.shares = position.shares - shares_to_burn;
    position_after.last_update_ts = now;
    let close = if position_after.shares == 0 {
        match accounts.authority.lamports.checked_add(accounts.lp_position.lamports) {
            None => {
                return Err(ProgramError::Dex(DexError::MathOverflow));
            },
            Some(recipient_lamports) => Some(
                ClosePosition {
                    account: accounts.lp_position.address,
                    recipient: provider_key,
                    recipient_lamports,
                },
            ),
        }
    } else {
        None
    };
    let signature = signature_of(pool);
    Ok(
        RemoveOutcome {
            pool: pool_after,
            position: position_after,
            bins,
            transfer_a: transfer_unless_zero(
                &accounts.vault_a.address,
                &accounts.provider_token_a.address,
                &pool_key,
                amount_a,
                &signature,
            ),
            transfer_b: transfer_unless_zero(
                &accounts.vault_b.address,
                &accounts.provider_token_b.address,
                &pool_key,
                amount_b,
                &signature,
            ),
            claims: auto_claim_lp_fees(
                &accounts.vault_a.address,
                &accounts.vault_b.address,
                &accounts.provider_token_a.address,
                &accounts.provider_token_b.address,
                &pool_key,
                &provider_key,
                pool,
                claim_a,
                claim_b,
                now,
            ),
            close,
            event: LiquidityRemoved {
                pool: pool_key,
                provider: provider_key,
                amount_a,
                amount_b,
                shares_burned: shares_to_burn,
                timestamp: now,
            },
        },
    )
}

/// A withdrawal that the provider signs.
pub fn handler(
    ctx: &Context<'_, RemoveLiquidity>,
    pool: &PoolState,
    position: &LpPosition,
    shares_to_burn: u128,
) -> (r: Result<RemoveOutcome, ProgramError>)
    ensures
        r == remove_result(
            ctx.accounts.as_view(),
            ctx.remaining_accounts@,
            *ctx.program_id,
            *pool,
            *position,
            shares_to_burn,
            ctx.now,
        ),
{
    remove_liquidity_internal(
        &ctx.accounts.view(),
        ctx.remaining_accounts,
        ctx.program_id,
        pool,
        position,
        shares_to_burn,
        ctx.now,
    )
}

} // verus!
