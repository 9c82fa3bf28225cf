//! Withdrawals of the nexus from pools.
use vstd::prelude::*;

use crate::account::{AccountInfo, Context};
use crate::address::Address;
use crate::error::ProgramError;
use crate::native_dex::instructions::remove_liquidity::{
    remove_liquidity_internal, remove_result, RemoveLiquidityAccountsView, RemoveOutcome,
};
use crate::native_dex::nexus::{manager_gate, pass_manager_gate};
use crate::native_dex::state::{LiquidityNexus, LpPosition, PoolState};

verus! {

/// The accounts of a withdrawal of the nexus.
pub struct NexusRemoveLiquidity {
    pub manager: AccountInfo,
    pub liquidity_nexus: AccountInfo,
    pub pool_state: AccountInfo,
    pub lp_position: AccountInfo,
    pub nexus_token_a: AccountInfo,
    pub nexus_token_b: AccountInfo,
    pub vault_a: AccountInfo,
    pub vault_b: AccountInfo,
    pub token_program: AccountInfo,
}

impl NexusRemoveLiquidity {
    /// The nexus makes the withdrawal.
    pub open spec fn as_view(&self) -> RemoveLiquidityAccountsView<'_> {
        RemoveLiquidityAccountsView {
            authority: &self.liquidity_nexus,
            pool_state: &self.pool_state,
            lp_position: &self.lp_position,
            provider_token_a: &self.nexus_token_a,
            provider_token_b: &self.nexus_token_b,
            vault_a: &self.vault_a,
            vault_b: &self.vault_b,
        }
    }

    /// The nexus makes the withdrawal.
    pub fn view(&self) -> (v: RemoveLiquidityAccountsView<'_>)
        ensures
            v == self.as_view(),
    {
        RemoveLiquidityAccountsView {
            authority: &self.liquidity_nexus,
            pool_state: &self.pool_state,
            lp_position: &self.lp_position,
            provider_token_a: &self.nexus_token_a,
            provider_token_b: &self.nexus_token_b,
            vault_a: &self.vault_a,
            vault_b: &self.vault_b,
        }
    }
}

/// What a withdrawal of the nexus does, or why it is refused. Every outgoing transfer is the
/// pool's, so the nexus's own signature is not used.
pub open spec fn nexus_remove_result(
    accounts: NexusRemoveLiquidity,
    remaining: Seq<AccountInfo>,
    program_id: Address,
    nexus: LiquidityNexus,
    pool: PoolState,
    position: LpPosition,
    shares_to_burn: u128,
    now: i64,
) -> Result<RemoveOutcome, ProgramError> {
    match manager_gate(nexus, accounts.manager.address) {
        Err(e) => Err(e),
        Ok(_) => remove_result(
            accounts.as_view(),
            remaining,
            program_id,
            pool,
            position,
            shares_to_burn,
            now,
        ),
    }
}

/// A withdrawal that the manager orders.
pub fn handler(
    ctx: &Context<'_, NexusRemoveLiquidity>,
    nexus: &LiquidityNexus,
    pool: &PoolState,
    position: &LpPosition,
    shares_to_burn: u128,
) -> (r: Result<RemoveOutcome, ProgramError>)
    ensures
        r == nexus_remove_result(
            *ctx.accounts,
            ctx.remaining_accounts@,
            *ctx.program_id,
            *nexus,
            *pool,
            *position,
            shares_to_burn,
            ctx.now,
        ),
{
    match pass_manager_gate(nexus, &ctx.accounts.manager) {
        Err(e) => Err(e),
        Ok(_) => remove_liquidity_internal(
            &ctx.accounts.view(),
            ctx.remaining_accounts,
            ctx.program_id,
            pool,
            position,
            shares_to_burn,
            ctx.now,
        ),
    }
}

} // verus!
