//! Trades of the nexus.
use vstd::prelude::*;

use crate::account::{AccountInfo, Context};
use crate::address::Address;
use crate::error::{DexError, ProgramError};
use crate::native_dex::constants::DexParams;
use crate::native_dex::instructions::swap::{
    swap_internal, swap_result, BinLedgerReply, SwapAccountsView, SwapOutcome,
};
use crate::native_dex::nexus::{manager_gate, pass_manager_gate};
use crate::native_dex::state::{DexConfig, LiquidityNexus, PoolState};

verus! {

/// The accounts of a trade of the nexus.
pub struct NexusSwap {
    pub manager: AccountInfo,
    pub dex_config: AccountInfo,
    pub liquidity_nexus: AccountInfo,
    pub pool_state: AccountInfo,
    pub nexus_token_in: AccountInfo,
    pub nexus_token_out: AccountInfo,
    pub vault_in: AccountInfo,
    pub vault_out: AccountInfo,
    pub areal_fee_account: AccountInfo,
    pub token_program: AccountInfo,
}

impl NexusSwap {
    /// The nexus makes the trade.
    pub open spec fn as_view(&self) -> SwapAccountsView<'_> {
        SwapAccountsView {
            authority: &self.liquidity_nexus,
            dex_config: &self.dex_config,
            pool_state: &self.pool_state,
            user_token_in: &self.nexus_token_in,
            user_token_out: &self.nexus_token_out,
            vault_in: &self.vault_in,
            vault_out: &self.vault_out,
            areal_fee_account: &self.areal_fee_account,
            token_program: &self.token_program,
        }
    }

    /// The nexus makes the trade.
    pub fn view(&self) -> (v: SwapAccountsView<'_>)
        ensures
            v == self.as_view(),
    {
        SwapAccountsView {
            authority: &self.liquidity_nexus,
            dex_config: &self.dex_config,
            pool_state: &self.pool_state,
            user_token_in: &self.nexus_token_in,
            user_token_out: &self.nexus_token_out,
            vault_in: &self.vault_in,
            vault_out: &self.vault_out,
            areal_fee_account: &self.areal_fee_account,
            token_program: &self.token_program,
        }
    }
}

/// What a trade of the nexus does, or why it is refused. The manager must ask for some output.
pub open spec fn nexus_swap_result(
    params: DexParams,
    accounts: NexusSwap,
    remaining: Seq<AccountInfo>,
    program_id: Address,
    nexus: LiquidityNexus,
    config: DexConfig,
    pool: PoolState,
    ledger: BinLedgerReply,
    amount_in: u64,
    min_amount_out: u64,
    a_to_b: bool,
    now: i64,
) -> Result<SwapOutcome, ProgramError> {
    match manager_gate(nexus, accounts.manager.address) {
        Err(e) => Err(e),
        Ok(signed_by) => if amount_in == 0 {
            Err(ProgramError::Dex(DexError::ZeroAmount))
        } else if min_amount_out == 0 {
            Err(ProgramError::Dex(DexError::SlippageExceeded))
        } else {
            swap_result(
                params,
                accounts.as_view(),
                remaining,
                program_id,
                config,
                pool,
                ledger,
                amount_in,
                min_amount_out,
                a_to_b,
                signed_by,
                now,
            )
        },
    }
}

/// A trade that the manager orders and the nexus signs.
pub fn handler(
    ctx: &Context<'_, NexusSwap>,
    params: &DexParams,
    nexus: &LiquidityNexus,
    config: &DexConfig,
    pool: &PoolState,
    ledger: &BinLedgerReply,
    amount_in: u64,
    min_amount_out: u64,
    a_to_b: bool,
) -> (r: Result<SwapOutcome, ProgramError>)
    ensures
        r == nexus_swap_result(
            *params,
            *ctx.accounts,
            ctx.remaining_accounts@,
            *ctx.program_id,
            *nexus,
            *config,
            *pool,
            *ledger,
            amount_in,
            min_amount_out,
            a_to_b,
            ctx.now,
        ),
{
    let signed_by = match pass_manager_gate(nexus, &ctx.accounts.manager) {
        Err(e) => {
            return Err(e);
        },
        Ok(signed_by) => signed_by,
    };
    if amount_in == 0 {
        return Err(ProgramError::Dex(DexError::ZeroAmount));
    }
    if min_amount_out == 0 {
        return Err(ProgramError::Dex(DexError::SlippageExceeded));
    }
    swap_internal(
        params,
        &ctx.accounts.view(),
        ctx.remaining_accounts,
        ctx.program_id,
        config,
        pool,
        ledger,
        amount_in,
        min_amount_out,
        a_to_b,
        &signed_by,
        ctx.now,
    )
}

} // verus!
