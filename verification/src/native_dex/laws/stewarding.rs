//! What the nexus's instructions do, in the terms of their inputs.
use vstd::prelude::*;

use crate::account::AccountInfo;
use crate::actions::TokenTransfer;
use crate::address::{derived_address, zero_address, Address};
use crate::error::{DexError, ProgramError};
use crate::native_dex::constants::DexParams;
use crate::native_dex::instructions::add_liquidity::{
    add_result, AddLiquidityAccountsView, AddOutcome,
};
use crate::native_dex::instructions::claim_lp_fees::{
    claim_result, ClaimLpFeesAccountsView, ClaimOutcome,
};
use crate::native_dex::instructions::nexus_add_liquidity::{nexus_add_result, NexusAddLiquidity};
use crate::native_dex::instructions::nexus_claim_rewards::{nexus_claim_result, NexusClaimRewards};
use crate::native_dex::instructions::nexus_deposit::{
    nexus_deposit_result, NexusDeposit, NexusDepositOutcome,
};
use crate::native_dex::instructions::nexus_record_deposit::{
    record_deposit_result, NexusRecordDeposit,
};
use crate::native_dex::instructions::nexus_remove_liquidity::{
    nexus_remove_result, NexusRemoveLiquidity,
};
use crate::native_dex::instructions::nexus_swap::{nexus_swap_result, NexusSwap};
use crate::native_dex::instructions::nexus_withdraw_profits::{
    withdraw_profits_result, NexusWithdrawProfits,
};
use crate::native_dex::instructions::remove_liquidity::{
    remove_result, RemoveLiquidityAccountsView, RemoveOutcome,
};
use crate::native_dex::instructions::swap::{
    swap_result, BinLedgerReply, SwapAccountsView, SwapOutcome,
};
use crate::native_dex::instructions::update_nexus_manager::manager_updated;
use crate::native_dex::state::{DexConfig, LiquidityNexus, LpPosition, PoolState};
use crate::programs::yd_program_id;
use crate::seeds::{liq_holding_seed, SignedBy};

verus! {

/// What a deposit into the nexus does: the tagged token's counter grows by the amount, the other
/// stays, and the depositor's tokens move into the nexus's account for that token.
pub proof fn nexus_deposit_counts_its_token(
    params: DexParams,
    accounts: NexusDeposit,
    nexus: LiquidityNexus,
    amount: u64,
    token_kind: u8,
    now: i64,
)
    ensures
        nexus_deposit_result(params, accounts, nexus, amount, token_kind, now) matches Ok(o) ==> {
            &&& o.nexus.total_deposited_usdc == nexus.total_deposited_usdc + if token_kind == 0 {
                amount as int
            } else {
                0
            }
            &&& o.nexus.total_deposited_rwt == nexus.total_deposited_rwt + if token_kind == 0 {
                0
            } else {
                amount as int
            }
            &&& o.nexus == (LiquidityNexus {
                total_deposited_usdc: o.nexus.total_deposited_usdc,
                total_deposited_rwt: o.nexus.total_deposited_rwt,
                ..nexus
            })
            &&& o.transfer == (TokenTransfer {
                from: accounts.depositor_token_ata.address,
                to: accounts.nexus_token_ata.address,
                authority: accounts.depositor.address,
                amount,
                signed_by: SignedBy::Transaction,
            })
            &&& o.event.token_mint == if token_kind
                == 0 { params.usdc_mint } else { params.rwt_mint }
            &&& o.event.amount == amount
            &&& o.event.new_total_deposited == if token_kind == 0 {
                o.nexus.total_deposited_usdc
            } else {
                o.nexus.total_deposited_rwt
            }
            &&& o.event.source_kind == 0
            &&& o.event.timestamp == now
        },
{
}

/// When a deposit into the nexus is owed, and how it is refused: of some dollars or reward tokens,
/// into an account of the nexus that holds just that token, of a running nexus whose counter can
/// hold the sum. Anyone may deposit.
pub proof fn nexus_deposit_is_owed(
    params: DexParams,
    accounts: NexusDeposit,
    nexus: LiquidityNexus,
    amount: u64,
    token_kind: u8,
    now: i64,
)
    ensures
        ({
            let r = nexus_deposit_result(
                params,
                accounts,
                nexus,
                amount,
                token_kind,
                now,
            );
            let told = |e: DexError| r == Err::<NexusDepositOutcome, ProgramError>(
                ProgramError::Dex(e),
            );
            let known = token_kind == 0 || token_kind == 1;
            let mint = if token_kind == 0 { params.usdc_mint } else { params.rwt_mint };
            let so_far: int = if token_kind == 0 {
                nexus.total_deposited_usdc as int
            } else {
                nexus.total_deposited_rwt as int
            };
            let holds = accounts.nexus_token_ata.token_mint() == Ok::<Address, ProgramError>(mint);
            let owned = accounts.nexus_token_ata.token_owner() == Ok::<Address, ProgramError>(
                accounts.liquidity_nexus.address,
            );
            let set = amount > 0 && known && holds && owned;
            &&& r is Ok <==> set && nexus.is_active && so_far + amount <= u64::MAX
            &&& told(DexError::ZeroAmount) <==> amount == 0
            &&& amount > 0 && !known ==> told(DexError::InvalidNexusToken)
            &&& amount > 0 && known && (accounts.nexus_token_ata.token_mint() matches Ok(m) && m
                != mint) ==> told(DexError::InvalidNexusToken)
            &&& amount > 0 && known && holds
                && (accounts.nexus_token_ata.token_owner() matches Ok(o)
                && o != accounts.liquidity_nexus.address) ==> told(DexError::InvalidTokenAccount)
            &&& told(DexError::NexusNotActive) <==> set && !nexus.is_active
            &&& told(DexError::MathOverflow) <==> set && nexus.is_active && so_far + amount
                > u64::MAX
        }),
{
}

/// What a recorded deposit does: it counts like a wallet's deposit, and moves no tokens.
pub proof fn recorded_deposit_counts_its_token(
    params: DexParams,
    accounts: NexusRecordDeposit,
    nexus: LiquidityNexus,
    amount: u64,
    token_kind: u8,
    now: i64,
)
    ensures
        record_deposit_result(params, accounts, nexus, amount, token_kind, now) matches Ok((after, event)) ==> {
            &&& after.total_deposited_usdc == nexus.total_deposited_usdc + if token_kind == 0 {
                amount as int
            } else {
                0
            }
            &&& after.total_deposited_rwt == nexus.total_deposited_rwt + if token_kind == 0 {
                0
            } else {
                amount as int
            }
            &&& after == (LiquidityNexus {
                total_deposited_usdc: after.total_deposited_usdc,
                total_deposited_rwt: after.total_deposited_rwt,
                ..nexus
            })
            &&& event.token_mint == if token_kind == 0 { params.usdc_mint } else { params.rwt_mint }
            &&& event.amount == amount
            &&& event.new_total_deposited == if token_kind == 0 {
                after.total_deposited_usdc
            } else {
                after.total_deposited_rwt
            }
            &&& event.source_kind == 1
            &&& event.timestamp == now
        },
{
}

/// When a recorded deposit is owed, and how it is refused: only to the yield program, whose holding
/// account it owns, sits at its derived address and signs.
pub proof fn recorded_deposit_is_owed(
    params: DexParams,
    accounts: NexusRecordDeposit,
    nexus: LiquidityNexus,
    amount: u64,
    token_kind: u8,
    now: i64,
)
    ensures
        ({
            let r = record_deposit_result(
                params,
                accounts,
                nexus,
                amount,
                token_kind,
                now,
            );
            let told = |e: DexError| r == Err::<
                (LiquidityNexus, crate::native_dex::events::NexusDeposited),
                ProgramError,
            >(ProgramError::Dex(e));
            let h = accounts.liquidity_holding;
            let known = token_kind == 0 || token_kind == 1;
            let at = derived_address(seq![liq_holding_seed()@], yd_program_id()@);
            let ours = h.owner == yd_program_id();
            let placed = at matches Some(found) && found.0 == h.address;
            let so_far: int = if token_kind == 0 {
                nexus.total_deposited_usdc as int
            } else {
                nexus.total_deposited_rwt as int
            };
            let asked = amount > 0 && known;
            let called = asked && ours && placed && h.is_signer;
            &&& r is Ok <==> called && nexus.is_active && so_far + amount <= u64::MAX
            &&& told(DexError::ZeroAmount) <==> amount == 0
            &&& told(DexError::InvalidNexusToken) <==> amount > 0 && !known
            &&& told(DexError::NexusRecordDepositOnlyFromYd) <==> asked && (!ours || (ours && placed
                && !h.is_signer))
            &&& told(DexError::InvalidLiquidityHoldingPda)
                <==> asked && ours && at is Some && !placed
            &&& told(DexError::NexusNotActive) <==> called && !nexus.is_active
            &&& told(DexError::MathOverflow) <==> called && nexus.is_active && so_far + amount
                > u64::MAX
        }),
{
}

/// What a payout of profit does: it moves the amount under the nexus's signature, and reports what
/// of the balance beyond the deposits is left.
pub proof fn profit_is_what_exceeds_the_deposits(
    params: DexParams,
    accounts: NexusWithdrawProfits,
    nexus: LiquidityNexus,
    amount: u64,
    token_kind: u8,
    now: i64,
)
    ensures
        withdraw_profits_result(
            params,
            accounts,
            nexus,
            amount,
            token_kind,
            now,
        ) matches Ok((transfer, event)) ==> {
            let deposits: int = if token_kind == 0 {
                nexus.total_deposited_usdc as int
            } else {
                nexus.total_deposited_rwt as int
            };
            &&& transfer == (TokenTransfer {
                from: accounts.nexus_token_ata.address,
                to: accounts.recipient_token_ata.address,
                authority: accounts.liquidity_nexus.address,
                amount,
                signed_by: SignedBy::Nexus { bump: nexus.bump },
            })
            &&& event.token_mint == if token_kind == 0 { params.usdc_mint } else { params.rwt_mint }
            &&& event.amount == amount
            &&& accounts.nexus_token_ata.token_amount() matches Ok(balance)
            &&& event.remaining_profit == balance - deposits - amount
            &&& event.treasury_destination == accounts.recipient_token_ata.address
            &&& event.timestamp == now
        },
{
}

/// When a payout of profit is owed, and how it is refused: of some dollars or reward tokens,
/// between two accounts that hold just that token, the first one the nexus's, of a running nexus,
/// and of no more than the balance exceeds the deposits by.
pub proof fn profit_payout_is_owed(
    params: DexParams,
    accounts: NexusWithdrawProfits,
    nexus: LiquidityNexus,
    amount: u64,
    token_kind: u8,
    now: i64,
)
    ensures
        ({
            let r = withdraw_profits_result(
                params,
                accounts,
                nexus,
                amount,
                token_kind,
                now,
            );
            let told = |e: DexError| r == Err::<
                (TokenTransfer, crate::native_dex::events::NexusProfitsWithdrawn),
                ProgramError,
            >(ProgramError::Dex(e));
            let known = token_kind == 0 || token_kind == 1;
            let mint = if token_kind == 0 { params.usdc_mint } else { params.rwt_mint };
            let deposits: int = if token_kind == 0 {
                nexus.total_deposited_usdc as int
            } else {
                nexus.total_deposited_rwt as int
            };
            let from = accounts.nexus_token_ata.token_mint() == Ok::<Address, ProgramError>(mint);
            let to = accounts.recipient_token_ata.token_mint() == Ok::<Address, ProgramError>(mint);
            let owned = accounts.nexus_token_ata.token_owner() == Ok::<Address, ProgramError>(
                accounts.liquidity_nexus.address,
            );
            let set = amount > 0 && known && from && to && owned;
            let balance = accounts.nexus_token_ata.token_amount();
            &&& r is Ok <==> set && nexus.is_active && balance is Ok && balance->Ok_0 - deposits
                >= amount
            &&& told(DexError::ZeroAmount) <==> amount == 0
            &&& amount > 0 && !known ==> told(DexError::InvalidNexusToken)
            &&& amount > 0 && known && (accounts.nexus_token_ata.token_mint() matches Ok(m) && m
                != mint) ==> told(DexError::InvalidNexusToken)
            &&& told(DexError::NexusNotActive) <==> set && !nexus.is_active
            &&& told(DexError::InsufficientNexusProfit) <==> set && nexus.is_active && balance is Ok
                && balance->Ok_0 - deposits < amount
        }),
{
}

/// A trade of the nexus is a trade that the nexus itself makes and signs, of its own token
/// accounts, ordered by its manager while it runs, and never without a bound on what it gives.
pub proof fn nexus_trades_for_itself(
    params: DexParams,
    accounts: NexusSwap,
    remaining: Seq<AccountInfo>,
    program_id: Address,
    nexus: LiquidityNexus,
    config: DexConfig,
    pool: PoolState,
    ledger: BinLedgerReply,
    amount_in: u64,
    min_amount_out: u64,
    a_to_b: bool,
    now: i64,
)
    ensures
        ({
            let r = nexus_swap_result(
                params,
                accounts,
                remaining,
                program_id,
                nexus,
                config,
                pool,
                ledger,
                amount_in,
                min_amount_out,
                a_to_b,
                now,
            );
            let told = |e: DexError| r == Err::<SwapOutcome, ProgramError>(ProgramError::Dex(e));
            let view = SwapAccountsView {
                authority: &accounts.liquidity_nexus,
                dex_config: &accounts.dex_config,
                pool_state: &accounts.pool_state,
                user_token_in: &accounts.nexus_token_in,
                user_token_out: &accounts.nexus_token_out,
                vault_in: &accounts.vault_in,
                vault_out: &accounts.vault_out,
                areal_fee_account: &accounts.areal_fee_account,
                token_program: &accounts.token_program,
            };
            let switched_off = nexus.manager == zero_address();
            let managed = nexus.is_active && !switched_off && accounts.manager.address
                == nexus.manager;
            &&& !nexus.is_active ==> told(DexError::NexusNotActive)
            &&& nexus.is_active && switched_off ==> told(DexError::NexusManagerDisabled)
            &&& nexus.is_active && !switched_off && !managed ==> told(DexError::InvalidNexusManager)
            &&& managed && amount_in == 0 ==> told(DexError::ZeroAmount)
            &&& managed && amount_in > 0 && min_amount_out == 0 ==> told(DexError::SlippageExceeded)
            &&& managed && amount_in > 0 && min_amount_out > 0 ==> r == swap_result(
                params,
                view,
                remaining,
                program_id,
                config,
                pool,
                ledger,
                amount_in,
                min_amount_out,
                a_to_b,
                SignedBy::Nexus { bump: nexus.bump },
                now,
            )
        }),
{
}

/// A deposit of the nexus into a pool, ladder or not, is a deposit that the nexus itself makes,
/// owns and signs, ordered and paid for by its manager while it runs.
pub proof fn nexus_deposits_for_itself(
    params: DexParams,
    accounts: NexusAddLiquidity,
    program_id: Address,
    nexus: LiquidityNexus,
    config: DexConfig,
    pool: PoolState,
    existing: Option<LpPosition>,
    amount_a: u64,
    amount_b: u64,
    min_shares: u128,
    now: i64,
)
    ensures
        ({
            let r = nexus_add_result(
                params,
                accounts,
                program_id,
                nexus,
                config,
                pool,
                existing,
                amount_a,
                amount_b,
                min_shares,
                now,
            );
            let told = |e: DexError| r == Err::<AddOutcome, ProgramError>(ProgramError::Dex(e));
            let view = AddLiquidityAccountsView {
                authority: &accounts.liquidity_nexus,
                payer: &accounts.manager,
                dex_config: &accounts.dex_config,
                pool_state: &accounts.pool_state,
                lp_position: &accounts.lp_position,
                provider_token_a: &accounts.nexus_token_a,
                provider_token_b: &accounts.nexus_token_b,
                vault_a: &accounts.vault_a,
                vault_b: &accounts.vault_b,
            };
            let switched_off = nexus.manager == zero_address();
            let managed = nexus.is_active && !switched_off && accounts.manager.address
                == nexus.manager;
            &&& !nexus.is_active ==> told(DexError::NexusNotActive)
            &&& nexus.is_active && switched_off ==> told(DexError::NexusManagerDisabled)
            &&& nexus.is_active && !switched_off && !managed ==> told(DexError::InvalidNexusManager)
            &&& managed ==> r == add_result(
                params,
                view,
                program_id,
                config,
                pool,
                existing,
                amount_a,
                amount_b,
                min_shares,
                SignedBy::Nexus { bump: nexus.bump },
                now,
            )
        }),
{
}

/// A withdrawal of the nexus is a withdrawal that the nexus itself makes, into its own token
/// accounts, ordered by its manager while it runs.
pub proof fn nexus_withdraws_for_itself(
    accounts: NexusRemoveLiquidity,
    remaining: Seq<AccountInfo>,
    program_id: Address,
    nexus: LiquidityNexus,
    pool: PoolState,
    position: LpPosition,
    shares_to_burn: u128,
    now: i64,
)
    ensures
        ({
            let r = nexus_remove_result(
                accounts,
                remaining,
                program_id,
                nexus,
                pool,
                position,
                shares_to_burn,
                now,
            );
            let told = |e: DexError| r == Err::<RemoveOutcome, ProgramError>(ProgramError::Dex(e));
            let view = RemoveLiquidityAccountsView {
                authority: &accounts.liquidity_nexus,
                pool_state: &accounts.pool_state,
                lp_position: &accounts.lp_position,
                provider_token_a: &accounts.nexus_token_a,
                provider_token_b: &accounts.nexus_token_b,
                vault_a: &accounts.vault_a,
                vault_b: &accounts.vault_b,
            };
            let switched_off = nexus.manager == zero_address();
            let managed = nexus.is_active && !switched_off && accounts.manager.address
                == nexus.manager;
            &&& !nexus.is_active ==> told(DexError::NexusNotActive)
            &&& nexus.is_active && switched_off ==> told(DexError::NexusManagerDisabled)
            &&& nexus.is_active && !switched_off && !managed ==> told(DexError::InvalidNexusManager)
            &&& managed ==> r == remove_result(
                view,
                remaining,
                program_id,
                pool,
                position,
                shares_to_burn,
                now,
            )
        }),
{
}

/// A payout of fees to the nexus goes to the nexus's own token accounts, while it runs, whoever its
/// manager is.
pub proof fn nexus_collects_for_itself(
    accounts: NexusClaimRewards,
    nexus: LiquidityNexus,
    pool: PoolState,
    position: LpPosition,
    now: i64,
)
    ensures
        ({
            let view = ClaimLpFeesAccountsView {
                authority: &accounts.liquidity_nexus,
                pool_state: &accounts.pool_state,
                lp_position: &accounts.lp_position,
                pool_vault_a: &accounts.pool_vault_a,
                pool_vault_b: &accounts.pool_vault_b,
                authority_token_a: &accounts.nexus_token_a_ata,
                authority_token_b: &accounts.nexus_token_b_ata,
            };
            &&& nexus.is_active ==> nexus_claim_result(accounts, nexus, pool, position, now)
                == claim_result(view, pool, position, now)
            &&& !nexus.is_active ==> nexus_claim_result(accounts, nexus, pool, position, now)
                == Err::<ClaimOutcome, ProgramError>(
                ProgramError::Dex(DexError::NexusNotActive),
            )
        }),
{
}

/// A change of manager changes the manager alone, and reports both.
pub proof fn manager_changes_alone(nexus: LiquidityNexus, new_manager: Address, now: i64)
    ensures
        ({
            let (after, event) = manager_updated(nexus, new_manager, now);
            &&& after == (LiquidityNexus { manager: new_manager, ..nexus })
            &&& event.old_manager == nexus.manager
            &&& event.new_manager == new_manager
            &&& event.timestamp == now
        }),
{
}

} // verus!
