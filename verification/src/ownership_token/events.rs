//! What the ownership token reports of each accepted instruction.
use vstd::prelude::*;

use crate::address::Address;

verus! {

/// A mint became an ownership token.
#[derive(Clone, Copy, Debug, PartialEq, Eq)]
pub struct OtInitialized {
    pub ot_mint: Address,
    pub authority: Address,
    pub decimals: u8,
    pub timestamp: i64,
}

/// Tokens were minted.
#[derive(Clone, Copy, Debug, PartialEq, Eq)]
pub struct OtMinted {
    pub ot_mint: Address,
    pub recipient: Address,
    pub amount: u64,
    pub new_total_minted: u64,
    pub timestamp: i64,
}

/// Revenue was distributed.
#[derive(Clone, Copy, Debug, PartialEq, Eq)]
pub struct RevenueDistributed {
    pub ot_mint: Address,
    pub total_amount: u64,
    pub protocol_fee: u64,
    pub distribution_count: u64,
    pub num_destinations: u8,
    pub timestamp: i64,
}

/// The destinations were replaced.
#[derive(Clone, Copy, Debug, PartialEq, Eq)]
pub struct DestinationConfigUpdated {
    pub ot_mint: Address,
    pub config_version: u64,
    pub active_count: u8,
    pub timestamp: i64,
}

/// A new authority was proposed.
#[derive(Clone, Copy, Debug, PartialEq, Eq)]
pub struct AuthorityTransferProposed {
    pub ot_mint: Address,
    pub current_authority: Address,
    pub pending_authority: Address,
    pub timestamp: i64,
}

/// A proposed authority took over.
#[derive(Clone, Copy, Debug, PartialEq, Eq)]
pub struct AuthorityTransferAccepted {
    pub ot_mint: Address,
    pub old_authority: Address,
    pub new_authority: Address,
    pub timestamp: i64,
}

/// The treasury paid out tokens.
#[derive(Clone, Copy, Debug, PartialEq, Eq)]
pub struct TreasurySpent {
    pub ot_mint: Address,
    pub token_mint: Address,
    pub amount: u64,
    pub destination: Address,
    pub timestamp: i64,
}

/// The treasury claimed yield, possibly of another ownership token.
#[derive(Clone, Copy, Debug, PartialEq, Eq)]
pub struct TreasuryYieldClaimed {
    /// The token of the treasury.
    pub ot_mint: Address,
    /// The token whose yield was claimed.
    pub yd_ot_mint: Address,
    pub amount: u64,
    pub timestamp: i64,
}

} // verus!
