//! Payouts of the nexus's accrued fees.
use vstd::prelude::*;

use crate::account::{AccountInfo, Context};
use crate::error::{DexError, ProgramError};
use crate::native_dex::instructions::claim_lp_fees::{
    claim_lp_fees_internal, claim_result, ClaimLpFeesAccountsView, ClaimOutcome,
};
use crate::native_dex::state::{LiquidityNexus, LpPosition, PoolState};

verus! {

/// The accounts of a payout to the nexus.
pub struct NexusClaimRewards {
    pub authority: AccountInfo,
    pub dex_config: AccountInfo,
    pub liquidity_nexus: AccountInfo,
    pub pool_state: AccountInfo,
    pub lp_position: AccountInfo,
    pub pool_vault_a: AccountInfo,
    pub pool_vault_b: AccountInfo,
    pub nexus_token_a_ata: AccountInfo,
    pub nexus_token_b_ata: AccountInfo,
}

impl NexusClaimRewards {
    /// The nexus owns the position and receives the payout.
    pub open spec fn as_view(&self) -> ClaimLpFeesAccountsView<'_> {
        ClaimLpFeesAccountsView {
            authority: &self.liquidity_nexus,
            pool_state: &self.pool_state,
            lp_position: &self.lp_position,
            pool_vault_a: &self.pool_vault_a,
            pool_vault_b: &self.pool_vault_b,
            authority_token_a: &self.nexus_token_a_ata,
            authority_token_b: &self.nexus_token_b_ata,
        }
    }

    /// The nexus owns the position and receives the payout.
    pub fn view(&self) -> (v: ClaimLpFeesAccountsView<'_>)
        ensures
            v == self.as_view(),
    {
        ClaimLpFeesAccountsView {
            authority: &self.liquidity_nexus,
            pool_state: &self.pool_state,
            lp_position: &self.lp_position,
            pool_vault_a: &self.pool_vault_a,
            pool_vault_b: &self.pool_vault_b,
            authority_token_a: &self.nexus_token_a_ata,
            authority_token_b: &self.nexus_token_b_ata,
        }
    }
}

/// What a payout to the nexus does, or why it is refused. The manager's switch does not matter.
pub open spec fn nexus_claim_result(
    accounts: NexusClaimRewards,
    nexus: LiquidityNexus,
    pool: PoolState,
    position: LpPosition,
    now: i64,
) -> Result<ClaimOutcome, ProgramError> {
    if !nexus.is_active {
        Err(ProgramError::Dex(DexError::NexusNotActive))
    } else {
        claim_result(accounts.as_view(), pool, position, now)
    }
}

/// A payout of the nexus's accrued fees, ordered by the exchange's authority.
pub fn handler(
    ctx: &Context<'_, NexusClaimRewards>,
    nexus: &LiquidityNexus,
    pool: &PoolState,
    position: &LpPosition,
) -> (r: Result<ClaimOutcome, ProgramError>)
    ensures
        r == nexus_claim_result(*ctx.accounts, *nexus, *pool, *position, ctx.now),
{
    if !nexus.is_active {
        return Err(ProgramError::Dex(DexError::NexusNotActive));
    }
    claim_lp_fees_internal(&ctx.accounts.view(), pool, position, ctx.now)
}

} // verus!
