//! Payout of the fees that a position has accrued.
use vstd::prelude::*;

use crate::account::{AccountInfo, Context};
use crate::actions::{transfer_if_any, transfer_unless_zero, TokenTransfer};
use crate::address::address_eq;
use crate::error::{DexError, ProgramError};
use crate::native_dex::constants::Q64;
use crate::native_dex::events::LpFeesClaimed;
use crate::native_dex::instructions::swap::{pool_signature, signature_of};
use crate::native_dex::state::{LpPosition, PoolState};
use crate::native_dex::validation::validate_vault;

verus! {

/// The accounts of a payout.
pub struct ClaimLpFees {
    pub recipient: AccountInfo,
    pub pool_state: AccountInfo,
    pub lp_position: AccountInfo,
    pub pool_vault_a: AccountInfo,
    pub pool_vault_b: AccountInfo,
    pub recipient_token_a_ata: AccountInfo,
    pub recipient_token_b_ata: AccountInfo,
    pub token_program: AccountInfo,
}

/// The accounts of a payout, whoever asks for it.
pub struct ClaimLpFeesAccountsView<'a> {
    pub authority: &'a AccountInfo,
    pub pool_state: &'a AccountInfo,
    pub lp_position: &'a AccountInfo,
    pub pool_vault_a: &'a AccountInfo,
    pub pool_vault_b: &'a AccountInfo,
    pub authority_token_a: &'a AccountInfo,
    pub authority_token_b: &'a AccountInfo,
}

impl ClaimLpFees {
    /// The recipient asks for the payout.
    pub open spec fn as_view(&self) -> ClaimLpFeesAccountsView<'_> {
        ClaimLpFeesAccountsView {
            authority: &self.recipient,
            pool_state: &self.pool_state,
            lp_position: &self.lp_position,
            pool_vault_a: &self.pool_vault_a,
            pool_vault_b: &self.pool_vault_b,
            authority_token_a: &self.recipient_token_a_ata,
            authority_token_b: &self.recipient_token_b_ata,
        }
    }

    /// The recipient asks for the payout.
    pub fn view(&self) -> (v: ClaimLpFeesAccountsView<'_>)
        ensures
            v == self.as_view(),
    {
        ClaimLpFeesAccountsView {
            authority: &self.recipient,
            pool_state: &self.pool_state,
            lp_position: &self.lp_position,
            pool_vault_a: &self.pool_vault_a,
            pool_vault_b: &self.pool_vault_b,
            authority_token_a: &self.recipient_token_a_ata,
            authority_token_b: &self.recipient_token_b_ata,
        }
    }
}

/// What `shares` earned while the fees per share grew by `delta_q64`, rounded down.
pub open spec fn claimable(delta_q64: int, shares: int) -> Result<u64, ProgramError> {
    if delta_q64 * shares > u128::MAX {
        Err(ProgramError::Dex(DexError::MathOverflow))
    } else {
        Ok((delta_q64 * shares / Q64 as int) as u64)
    }
}

/// What `shares` earned while the fees per share grew by `delta_q64`.
pub fn compute_claimable(delta_q64: u128, shares: u128) -> (amount: Result<u64, ProgramError>)
    ensures
        amount == claimable(delta_q64 as int, shares as int),
{
    match delta_q64.checked_mul(shares) {
        None => Err(ProgramError::Dex(DexError::MathOverflow)),
        Some(raw) => Ok((raw / Q64) as u64),
    }
}

/// What a position has accrued on both sides since it was last settled.
pub open spec fn pending_fees(pool: PoolState, position: LpPosition) -> Result<
    (u64, u64),
    ProgramError,
> {
    let delta_a = pool.cumulative_fees_per_share_a - position.fees_claimed_per_share_a;
    let delta_b = pool.cumulative_fees_per_share_b - position.fees_claimed_per_share_b;
    if delta_a < 0 || delta_b < 0 {
        Err(ProgramError::Dex(DexError::MathOverflow))
    } else {
        match (
            claimable(delta_a, position.shares as int),
            claimable(delta_b, position.shares as int),
        ) {
            (Ok(a), Ok(b)) => Ok((a, b)),
            _ => Err(ProgramError::Dex(DexError::MathOverflow)),
        }
    }
}

/// What a position has accrued on both sides since it was last settled.
pub fn find_pending_fees(pool: &PoolState, position: &LpPosition) -> (fees: Result<
    (u64, u64),
    ProgramError,
>)
    ensures
        fees == pending_fees(*pool, *position),
{
    let (delta_a, delta_b): (u128, u128) = match (
        pool.cumulative_fees_per_share_a.checked_sub(position.fees_claimed_per_share_a),
        pool.cumulative_fees_per_share_b.checked_sub(position.fees_claimed_per_share_b),
    ) {
        (Some(delta_a), Some(delta_b)) => (delta_a, delta_b),
        _ => {
            return Err(ProgramError::Dex(DexError::MathOverflow));
        },
    };
    match (compute_claimable(delta_a, position.shares), compute_claimable(delta_b, position.shares)) {
        (Ok(a), Ok(b)) => Ok((a, b)),
        _ => Err(ProgramError::Dex(DexError::MathOverflow)),
    }
}

/// The position after its fees were settled against the pool.
pub open spec fn settled_position(pool: PoolState, position: LpPosition) -> LpPosition {
    LpPosition {
        fees_claimed_per_share_a: pool.cumulative_fees_per_share_a,
        fees_claimed_per_share_b: pool.cumulative_fees_per_share_b,
        ..position
    }
}

/// An accepted payout.
#[derive(Clone, Copy, Debug, PartialEq, Eq)]
pub struct ClaimOutcome {
    /// The position after the payout.
    pub position: LpPosition,
    pub transfer_a: Option<TokenTransfer>,
    pub transfer_b: Option<TokenTransfer>,
    pub event: LpFeesClaimed,
}

/// What a payout does, or why it is refused.
pub open spec fn claim_result(
    accounts: ClaimLpFeesAccountsView<'_>,
    pool: PoolState,
    position: LpPosition,
    now: i64,
) -> Result<ClaimOutcome, ProgramError> {
    if accounts.pool_vault_a.address != pool.vault_a || accounts.pool_vault_b.address
        != pool.vault_b {
        Err(ProgramError::Dex(DexError::InvalidVault))
    } else if position.pool != accounts.pool_state.address {
        Err(ProgramError::Dex(DexError::InvalidLpPosition))
    } else if position.owner != accounts.authority.address {
        Err(ProgramError::Dex(DexError::Unauthorized))
    } else {
        match pending_fees(pool, position) {
            Err(e) => Err(e),
            Ok((claimable_a, claimable_b)) => Ok(
                ClaimOutcome {
                    position: LpPosition {
                        last_update_ts: now,
                        ..settled_position(pool, position)
                    },
                    transfer_a: transfer_if_any(
                        accounts.pool_vault_a.address,
                        accounts.authority_token_a.address,
                        accounts.pool_state.address,
                        claimable_a,
                        pool_signature(pool),
                    ),
                    transfer_b: transfer_if_any(
                        accounts.pool_vault_b.address,
                        accounts.authority_token_b.address,
                        accounts.pool_state.address,
                        claimable_b,
                        pool_signature(pool),
                    ),
                    event: LpFeesClaimed {
                        recipient: accounts.authority.address,
                        pool: accounts.pool_state.address,
                        claimable_a,
                        claimable_b,
                        timestamp: now,
                    },
                },
            ),
        }
    }
}

/// Pays a position its accrued fees and settles it against the pool's accumulators.
pub fn claim_lp_fees_internal(
    accounts: &ClaimLpFeesAccountsView<'_>,
    pool: &PoolState,
    position: &LpPosition,
    now: i64,
) -> (r: Result<ClaimOutcome, ProgramError>)
    ensures
        r == claim_result(*accounts, *pool, *position, now),
{
    if let Err(e) = validate_vault(accounts.pool_vault_a, &pool.vault_a) {
        return Err(e);
    }
    if let Err(e) = validate_vault(accounts.pool_vault_b, &pool.vault_b) {
        return Err(e);
    }
    let pool_key = accounts.pool_state.address;
    let recipient = accounts.authority.address;
    if !address_eq(&position.pool, &pool_key) {
        return Err(ProgramError::Dex(DexError::InvalidLpPosition));
    }
    if !address_eq(&position.owner, &recipient) {
        return Err(ProgramError::Dex(DexError::Unauthorized));
    }
    let (claimable_a, claimable_b): (u64, u64) = match find_pending_fees(pool, position) {
        Err(e) => {
            return Err(e);
        },
        Ok(fees) => fees,
    };
    let mut settled = *position;
    settled.fees_claimed_per_share_a = pool.cumulative_fees_per_share_a;
    settled.fees_claimed_per_share_b = pool.cumulative_fees_per_share_b;
    settled.last_update_ts = now;
    let signature = signature_of(pool);
    Ok(
        ClaimOutcome {
            position: settled,
            transfer_a: transfer_unless_zero(
                &accounts.pool_vault_a.address,
                &accounts.authority_token_a.address,
                &pool_key,
                claimable_a,
                &signature,
            ),
            transfer_b: transfer_unless_zero(
                &accounts.pool_vault_b.address,
                &accounts.authority_token_b.address,
                &pool_key,
                claimable_b,
                &signature,
            ),
            event: LpFeesClaimed { recipient, pool: pool_key, claimable_a, claimable_b, timestamp: now },
        },
    )
}

/// A payout that the position's owner signs.
pub fn handler(ctx: &Context<'_, ClaimLpFees>, pool: &PoolState, position: &LpPosition) -> (r: Result<
    ClaimOutcome,
    ProgramError,
>)
    ensures
        r == claim_result(ctx.accounts.as_view(), *pool, *position, ctx.now),
{
    claim_lp_fees_internal(&ctx.accounts.view(), pool, position, ctx.now)
}

} // verus!
