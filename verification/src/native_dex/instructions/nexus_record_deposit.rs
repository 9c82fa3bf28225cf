//! Deposits that the yield program makes into the nexus.
use vstd::prelude::*;

use crate::account::{AccountInfo, Context};
use crate::address::{derived_address, find_address_1};
use crate::error::{DexError, ProgramError};
use crate::native_dex::constants::{DexParams, NEXUS_DEPOSIT_SOURCE_LIQUIDITY_HOLDING};
use crate::native_dex::events::NexusDeposited;
use crate::native_dex::nexus::{
    count_deposit, counted, expected_mint, mint_of_kind, principal, principal_floor,
};
use crate::native_dex::state::LiquidityNexus;
use crate::programs::yd_program_id;
use crate::seeds::liq_holding_seed;

verus! {

/// The accounts of a recorded deposit.
pub struct NexusRecordDeposit {
    pub liquidity_holding: AccountInfo,
    pub liquidity_nexus: AccountInfo,
}

/// Whether a recorded deposit comes from the yield program: its holding account is owned by that
/// program, sits at its derived address, and signs.
pub open spec fn comes_from_yd(holding: AccountInfo) -> Result<(), ProgramError> {
    if holding.owner != yd_program_id() {
        Err(ProgramError::Dex(DexError::NexusRecordDepositOnlyFromYd))
    } else {
        match derived_address(seq![liq_holding_seed()@], yd_program_id()@) {
            None => Err(ProgramError::InvalidSeeds),
            Some((address, _)) => if holding.address != address {
                Err(ProgramError::Dex(DexError::InvalidLiquidityHoldingPda))
            } else if !holding.is_signer {
                Err(ProgramError::Dex(DexError::NexusRecordDepositOnlyFromYd))
            } else {
                Ok(())
            },
        }
    }
}

/// Refuses a recorded deposit that does not come from the yield program.
pub fn require_yd_caller(holding: &AccountInfo) -> (r: Result<(), ProgramError>)
    ensures
        r == comes_from_yd(*holding),
{
    let yd = yd_program_id();
    if !holding.is_owned_by(&yd) {
        return Err(ProgramError::Dex(DexError::NexusRecordDepositOnlyFromYd));
    }
    let seed = liq_holding_seed();
    match find_address_1(seed.as_slice(), &yd) {
        None => {
            return Err(ProgramError::InvalidSeeds);
        },
        Some((address, _)) => {
            if !holding.is_at(&address) {
                return Err(ProgramError::Dex(DexError::InvalidLiquidityHoldingPda));
            }
        },
    }
    if !holding.is_signer {
        return Err(ProgramError::Dex(DexError::NexusRecordDepositOnlyFromYd));
    }
    Ok(())
}

/// What a recorded deposit does, or why it is refused. No tokens move here.
pub open spec fn record_deposit_result(
    params: DexParams,
    accounts: NexusRecordDeposit,
    nexus: LiquidityNexus,
    amount: u64,
    token_kind: u8,
    now: i64,
) -> Result<(LiquidityNexus, NexusDeposited), ProgramError> {
    if amount == 0 {
        Err(ProgramError::Dex(DexError::ZeroAmount))
    } else {
        match mint_of_kind(token_kind, params) {
            Err(e) => Err(e),
            Ok(expected) => match comes_from_yd(accounts.liquidity_holding) {
                Err(e) => Err(e),
                Ok(_) => match counted(nexus, token_kind, amount) {
                    Err(e) => Err(e),
                    Ok(after) => Ok(
                        (
                            after,
                            NexusDeposited {
                                token_mint: expected,
                                amount,
                                new_total_deposited: principal(after, token_kind),
                                source_kind: NEXUS_DEPOSIT_SOURCE_LIQUIDITY_HOLDING,
                                timestamp: now,
                            },
                        ),
                    ),
                },
            },
        }
    }
}

/// Counts tokens that the yield program has already moved into the nexus.
pub fn handler(
    ctx: &Context<'_, NexusRecordDeposit>,
    params: &DexParams,
    nexus: &LiquidityNexus,
    amount: u64,
    token_kind: u8,
) -> (r: Result<(LiquidityNexus, NexusDeposited), ProgramError>)
    ensures
        r == record_deposit_result(*params, *ctx.accounts, *nexus, amount, token_kind, ctx.now),
{
    if amount == 0 {
        return Err(ProgramError::Dex(DexError::ZeroAmount));
    }
    let expected = match expected_mint(token_kind, params) {
        Err(e) => {
            return Err(e);
        },
        Ok(expected) => expected,
    };
    if let Err(e) = require_yd_caller(&ctx.accounts.liquidity_holding) {
        return Err(e);
    }
    match count_deposit(nexus, token_kind, amount) {
        Err(e) => Err(e),
        Ok(after) => Ok(
            (
                after,
                NexusDeposited {
                    token_mint: expected,
                    amount,
                    new_total_deposited: principal_floor(&after, token_kind),
                    source_kind: NEXUS_DEPOSIT_SOURCE_LIQUIDITY_HOLDING,
                    timestamp: ctx.now,
                },
            ),
        ),
    }
}

} // verus!
