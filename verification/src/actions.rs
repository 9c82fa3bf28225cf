//! Calls into other programs that an accepted instruction makes.
use vstd::prelude::*;

use crate::address::Address;
use crate::seeds::SignedBy;

verus! {

/// A token transfer.
#[derive(Clone, Copy, Debug, PartialEq, Eq)]
pub struct TokenTransfer {
    pub from: Address,
    pub to: Address,
    pub authority: Address,
    pub amount: u64,
    pub signed_by: SignedBy,
}

/// Creation of an account of `space` bytes, funded by `payer` with the rent-exempt minimum.
#[derive(Clone, Copy, Debug, PartialEq, Eq)]
pub struct CreateAccount {
    pub payer: Address,
    pub account: Address,
    pub space: u64,
    pub owner: Address,
    pub signed_by: SignedBy,
}

/// Initialisation of a token account that `owner` controls.
#[derive(Clone, Copy, Debug, PartialEq, Eq)]
pub struct InitializeTokenAccount {
    pub account: Address,
    pub mint: Address,
    pub owner: Address,
}

/// Creation of the token account of `wallet` and `mint` at its associated address.
#[derive(Clone, Copy, Debug, PartialEq, Eq)]
pub struct CreateAssociatedAccount {
    pub payer: Address,
    pub account: Address,
    pub wallet: Address,
    pub mint: Address,
    /// Whether an account that exists already is left as it is; an error otherwise.
    pub keep_existing: bool,
}

/// Handover of a mint's authority.
#[derive(Clone, Copy, Debug, PartialEq, Eq)]
pub struct SetMintAuthority {
    pub mint: Address,
    pub authority: Address,
    pub new_authority: Address,
}

/// Minting of tokens.
#[derive(Clone, Copy, Debug, PartialEq, Eq)]
pub struct MintTokens {
    pub mint: Address,
    pub account: Address,
    pub mint_authority: Address,
    pub amount: u64,
    pub signed_by: SignedBy,
}

/// A transfer of `amount`, or nothing where the amount is zero.
pub open spec fn transfer_if_any(
    from: Address,
    to: Address,
    authority: Address,
    amount: u64,
    signed_by: SignedBy,
) -> Option<TokenTransfer> {
    if amount > 0 {
        Some(TokenTransfer { from, to, authority, amount, signed_by })
    } else {
        None
    }
}

/// A transfer of `amount`, or nothing where the amount is zero.
pub fn transfer_unless_zero(
    from: &Address,
    to: &Address,
    authority: &Address,
    amount: u64,
    signed_by: &SignedBy,
) -> (transfer: Option<TokenTransfer>)
    ensures
        transfer == transfer_if_any(*from, *to, *authority, amount, *signed_by),
{
    if amount > 0 {
        Some(
            TokenTransfer {
                from: *from,
                to: *to,
                authority: *authority,
                amount,
                signed_by: *signed_by,
            },
        )
    } else {
        None
    }
}

/// What an optional transfer moves.
pub open spec fn moved(transfer: Option<TokenTransfer>) -> int {
    match transfer {
        Some(t) => t.amount as int,
        None => 0,
    }
}

} // verus!
