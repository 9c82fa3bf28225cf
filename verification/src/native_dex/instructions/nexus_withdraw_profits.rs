//! Payouts of what the nexus holds beyond its deposits.
use vstd::prelude::*;

use crate::account::{AccountInfo, Context};
use crate::actions::TokenTransfer;
use crate::address::{address_eq, Address};
use crate::error::{DexError, ProgramError};
use crate::native_dex::constants::DexParams;
use crate::native_dex::events::NexusProfitsWithdrawn;
use crate::native_dex::nexus::{expected_mint, mint_of_kind, principal, principal_floor};
use crate::native_dex::state::LiquidityNexus;
use crate::native_dex::validation::{
    read_token_account_amount, read_token_account_mint, read_token_account_owner,
};
use crate::seeds::SignedBy;

verus! {

/// The accounts of a payout of profit.
pub struct NexusWithdrawProfits {
    pub authority: AccountInfo,
    pub dex_config: AccountInfo,
    pub liquidity_nexus: AccountInfo,
    pub nexus_token_ata: AccountInfo,
    pub recipient_token_ata: AccountInfo,
}

/// The profit left after a payout of `amount`: what the balance exceeds the deposits by, less the
/// amount. Refused where the balance would fall below the deposits.
pub open spec fn profit_left(balance: u64, floor: u64, amount: u64) -> Result<u64, ProgramError> {
    if balance < floor || amount > balance - floor {
        Err(ProgramError::Dex(DexError::InsufficientNexusProfit))
    } else {
        Ok((balance - floor - amount) as u64)
    }
}

/// The profit left after a payout of `amount`.
pub fn remaining_profit(balance: u64, floor: u64, amount: u64) -> (r: Result<u64, ProgramError>)
    ensures
        r == profit_left(balance, floor, amount),
{
    match balance.checked_sub(floor) {
        None => Err(ProgramError::Dex(DexError::InsufficientNexusProfit)),
        Some(profit) => {
            if amount > profit {
                return Err(ProgramError::Dex(DexError::InsufficientNexusProfit));
            }
            Ok(profit - amount)
        },
    }
}

/// The conditions on the two token accounts of a payout, in the order in which they are reported.
pub open spec fn withdraw_accounts(
    accounts: NexusWithdrawProfits,
    expected: Address,
) -> Result<(), ProgramError> {
    match accounts.nexus_token_ata.token_mint() {
        Err(e) => Err(e),
        Ok(source) => if source != expected {
            Err(ProgramError::Dex(DexError::InvalidNexusToken))
        } else {
            match accounts.recipient_token_ata.token_mint() {
                Err(e) => Err(e),
                Ok(destination) => if destination != expected {
                    Err(ProgramError::Dex(DexError::InvalidNexusToken))
                } else {
                    match accounts.nexus_token_ata.token_owner() {
                        Err(e) => Err(e),
                        Ok(owner) => if owner != accounts.liquidity_nexus.address {
                            Err(ProgramError::Dex(DexError::InvalidTokenAccount))
                        } else {
                            Ok(())
                        },
                    }
                },
            }
        },
    }
}

/// What a payout of profit does, or why it is refused. The deposit counters stay as they are.
pub open spec fn withdraw_profits_result(
    params: DexParams,
    accounts: NexusWithdrawProfits,
    nexus: LiquidityNexus,
    amount: u64,
    token_kind: u8,
    now: i64,
) -> Result<(TokenTransfer, NexusProfitsWithdrawn), ProgramError> {
    if amount == 0 {
        Err(ProgramError::Dex(DexError::ZeroAmount))
    } else {
        match mint_of_kind(token_kind, params) {
            Err(e) => Err(e),
            Ok(expected) => match withdraw_accounts(accounts, expected) {
                Err(e) => Err(e),
                Ok(_) => if !nexus.is_active {
                    Err(ProgramError::Dex(DexError::NexusNotActive))
                } else {
                    match accounts.nexus_token_ata.token_amount() {
                        Err(e) => Err(e),
                        Ok(balance) => match profit_left(
                            balance,
                            principal(nexus, token_kind),
                            amount,
                        ) {
                            Err(e) => Err(e),
                            Ok(remaining_profit) => Ok(
                                (
                                    TokenTransfer {
                                        from: accounts.nexus_token_ata.address,
                                        to: accounts.recipient_token_ata.address,
                                        authority: accounts.liquidity_nexus.address,
                                        amount,
                                        signed_by: SignedBy::Nexus { bump: nexus.bump },
                                    },
                                    NexusProfitsWithdrawn {
                                        token_mint: expected,
                                        amount,
                                        remaining_profit,
                                        treasury_destination: accounts.recipient_token_ata.address,
                                        timestamp: now,
                                    },
                                ),
                            ),
                        },
                    }
                },
            },
        }
    }
}

/// Pays out profit of the nexus. The nexus itself does not change.
pub fn handler(
    ctx: &Context<'_, NexusWithdrawProfits>,
    params: &DexParams,
    nexus: &LiquidityNexus,
    amount: u64,
    token_kind: u8,
) -> (r: Result<(TokenTransfer, NexusProfitsWithdrawn), ProgramError>)
    ensures
        r == withdraw_profits_result(*params, *ctx.accounts, *nexus, amount, token_kind, ctx.now),
{
    let a = ctx.accounts;
    if amount == 0 {
        return Err(ProgramError::Dex(DexError::ZeroAmount));
    }
    let expected = match expected_mint(token_kind, params) {
        Err(e) => {
            return Err(e);
        },
        Ok(expected) => expected,
    };
    match read_token_account_mint(&a.nexus_token_ata) {
        Err(e) => {
            return Err(e);
        },
        Ok(mint) => {
            if !address_eq(&mint, &expected) {
                return Err(ProgramError::Dex(DexError::InvalidNexusToken));
            }
        },
    }
    match read_token_account_mint(&a.recipient_token_ata) {
        Err(e) => {
            return Err(e);
        },
        Ok(mint) => {
            if !address_eq(&mint, &expected) {
                return Err(ProgramError::Dex(DexError::InvalidNexusToken));
            }
        },
    }
    match read_token_account_owner(&a.nexus_token_ata) {
        Err(e) => {
            return Err(e);
        },
        Ok(owner) => {
            if !address_eq(&owner, &a.liquidity_nexus.address) {
                return Err(ProgramError::Dex(DexError::InvalidTokenAccount));
            }
        },
    }
    if !nexus.is_active {
        return Err(ProgramError::Dex(DexError::NexusNotActive));
    }
    let balance: u64 = match read_token_account_amount(&a.nexus_token_ata) {
        Err(e) => {
            return Err(e);
        },
        Ok(balance) => balance,
    };
    match remaining_profit(balance, principal_floor(nexus, token_kind), amount) {
        Err(e) => Err(e),
        Ok(remaining_profit) => Ok(
            (
                TokenTransfer {
                    from: a.nexus_token_ata.address,
                    to: a.recipient_token_ata.address,
                    authority: a.liquidity_nexus.address,
                    amount,
                    signed_by: SignedBy::Nexus { bump: nexus.bump },
                },
                NexusProfitsWithdrawn {
                    token_mint: expected,
                    amount,
                    remaining_profit,
                    treasury_destination: a.recipient_token_ata.address,
                    timestamp: ctx.now,
                },
            ),
        ),
    }
}

/// A payout never takes the balance below what was deposited.
pub proof fn principal_stays(
    params: DexParams,
    accounts: NexusWithdrawProfits,
    nexus: LiquidityNexus,
    amount: u64,
    token_kind: u8,
    now: i64,
)
    ensures
        withdraw_profits_result(params, accounts, nexus, amount, token_kind, now) matches Ok(
            (transfer, event),
        ) ==> {
            &&& accounts.nexus_token_ata.token_amount() matches Ok(balance)
            &&& transfer.amount == amount
            &&& balance - transfer.amount >= principal(nexus, token_kind)
            &&& event.remaining_profit == balance - transfer.amount - principal(nexus, token_kind)
        },
{
}

/// A second payout sees the same deposits: two payouts in a row together stay above them.
pub proof fn payouts_share_one_floor(balance: u64, floor: u64, first: u64, second: u64)
    requires
        profit_left(balance, floor, first) is Ok,
    ensures
        profit_left((balance - first) as u64, floor, second) matches Ok(left) ==> first + second
            + left == balance - floor,
{
}

} // verus!
