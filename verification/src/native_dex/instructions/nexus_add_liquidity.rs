//! Deposits of the nexus into pools.
use vstd::prelude::*;

use crate::account::{AccountInfo, Context};
use crate::address::Address;
use crate::error::ProgramError;
use crate::native_dex::constants::DexParams;
use crate::native_dex::instructions::add_liquidity::{
    add_liquidity_internal, add_result, AddLiquidityAccountsView, AddOutcome,
};
use crate::native_dex::nexus::{manager_gate, pass_manager_gate};
use crate::native_dex::state::{DexConfig, LiquidityNexus, LpPosition, PoolState};

verus! {

/// The accounts of a deposit of the nexus.
pub struct NexusAddLiquidity {
    pub manager: AccountInfo,
    pub dex_config: AccountInfo,
    pub liquidity_nexus: AccountInfo,
    pub pool_state: AccountInfo,
    pub lp_position: AccountInfo,
    pub nexus_token_a: AccountInfo,
    pub nexus_token_b: AccountInfo,
    pub vault_a: AccountInfo,
    pub vault_b: AccountInfo,
    pub token_program: AccountInfo,
    pub system_program: AccountInfo,
}

impl NexusAddLiquidity {
    /// The nexus makes the deposit and owns the position; the manager pays for its account.
    pub open spec fn as_view(&self) -> AddLiquidityAccountsView<'_> {
        AddLiquidityAccountsView {
            authority: &self.liquidity_nexus,
            payer: &self.manager,
            dex_config: &self.dex_config,
            pool_state: &self.pool_state,
            lp_position: &self.lp_position,
            provider_token_a: &self.nexus_token_a,
            provider_token_b: &self.nexus_token_b,
            vault_a: &self.vault_a,
            vault_b: &self.vault_b,
        }
    }

    /// The nexus makes the deposit and owns the position; the manager pays for its account.
    pub fn view(&self) -> (v: AddLiquidityAccountsView<'_>)
        ensures
            v == self.as_view(),
    {
        AddLiquidityAccountsView {
            authority: &self.liquidity_nexus,
            payer: &self.manager,
            dex_config: &self.dex_config,
            pool_state: &self.pool_state,
            lp_position: &self.lp_position,
            provider_token_a: &self.nexus_token_a,
            provider_token_b: &self.nexus_token_b,
            vault_a: &self.vault_a,
            vault_b: &self.vault_b,
        }
    }
}

/// What a deposit of the nexus does, or why it is refused. Ladder pools are open to it.
pub open spec fn nexus_add_result(
    params: DexParams,
    accounts: NexusAddLiquidity,
    program_id: Address,
    nexus: LiquidityNexus,
    config: DexConfig,
    pool: PoolState,
    existing: Option<LpPosition>,
    amount_a: u64,
    amount_b: u64,
    min_shares: u128,
    now: i64,
) -> Result<AddOutcome, ProgramError> {
    match manager_gate(nexus, accounts.manager.address) {
        Err(e) => Err(e),
        Ok(signed_by) => add_result(
            params,
            accounts.as_view(),
            program_id,
            config,
            pool,
            existing,
            amount_a,
            amount_b,
            min_shares,
            signed_by,
            now,
        ),
    }
}

/// A deposit that the manager orders and the nexus signs.
pub fn handler(
    ctx: &Context<'_, NexusAddLiquidity>,
    params: &DexParams,
    nexus: &LiquidityNexus,
    config: &DexConfig,
    pool: &PoolState,
    existing: &Option<LpPosition>,
    amount_a: u64,
    amount_b: u64,
    min_shares: u128,
) -> (r: Result<AddOutcome, ProgramError>)
    ensures
        r == nexus_add_result(
            *params,
            *ctx.accounts,
            *ctx.program_id,
            *nexus,
            *config,
            *pool,
            *existing,
            amount_a,
            amount_b,
            min_shares,
            ctx.now,
        ),
{
    match pass_manager_gate(nexus, &ctx.accounts.manager) {
        Err(e) => Err(e),
        Ok(signed_by) => add_liquidity_internal(
            params,
            &ctx.accounts.view(),
            ctx.program_id,
            config,
            pool,
            existing,
            amount_a,
            amount_b,
            min_shares,
            &signed_by,
            ctx.now,
        ),
    }
}

} // verus!
